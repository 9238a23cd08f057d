use vstd::prelude::*;

verus! {

/// String-keyed metadata carried beside a record, held in a
/// hashbrown map that Verus does not look into; the contracts below
/// speak of its contents through `spec_extra_entries`.
#[verifier::external_body]
pub struct ExtraInfo {
    map: hashbrown::HashMap<String, String>,
}

/// The entries an `ExtraInfo` holds, as a map of character
/// sequences.
pub uninterp spec fn spec_extra_entries(m: ExtraInfo) -> Map<Seq<char>, Seq<char>>;

impl ExtraInfo {
    /// Relies on hashbrown::HashMap::new: the new map is empty.
    #[verifier::external_body]
    pub fn new() -> (res: ExtraInfo)
        ensures
            spec_extra_entries(res) =~= Map::empty(),
    {
        ExtraInfo { map: hashbrown::HashMap::new() }
    }

    /// Relies on hashbrown::HashMap::insert: afterwards the map holds
    /// the old entries plus this key bound to this value.
    #[verifier::external_body]
    pub fn insert(&mut self, key: &str, value: &str)
        ensures
            spec_extra_entries(*final(self)) == spec_extra_entries(*old(self)).insert(
                key@,
                value@,
            ),
    {
        self.map.insert(key.to_string(), value.to_string());
    }

    /// Relies on hashbrown::HashMap::get: the value bound to the key,
    /// if the map holds one.
    #[verifier::external_body]
    pub fn get(&self, key: &str) -> (r: Option<&String>)
        ensures
            (match r {
                Some(v) => spec_extra_entries(*self).contains_key(key@) && v@ == spec_extra_entries(
                    *self,
                )[key@],
                None => !spec_extra_entries(*self).contains_key(key@),
            }),
    {
        self.map.get(key)
    }
}

impl Clone for ExtraInfo {
    /// Relies on hashbrown::HashMap::clone: the copy holds the same
    /// entries.
    #[verifier::external_body]
    fn clone(&self) -> (r: Self)
        ensures
            spec_extra_entries(r) == spec_extra_entries(*self),
    {
        ExtraInfo { map: self.map.clone() }
    }
}

} // verus!
