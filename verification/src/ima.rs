use vstd::prelude::*;

use vstd::string::StrSliceExecFns;
use vstd::utf8::encode_utf8;

use crate::eventlog::EventLogError;
use crate::hashes::{hex_decode, spec_hex_decode, spec_valid_hex};
use crate::tcg::{
    spec_algo_from_size, TPM_ALG_SHA1, TPM_ALG_SHA256, TPM_ALG_SHA384, TPM_ALG_SHA512,
};

verus! {

/// First index at or after `i` whose character is not a space.
pub open spec fn spec_skip_spaces(s: Seq<char>, i: int) -> int
    decreases s.len() - i,
{
    if i < 0 || i >= s.len() {
        i
    } else if s[i] == ' ' {
        spec_skip_spaces(s, i + 1)
    } else {
        i
    }
}

/// One past the last index below `j` whose character is not a space;
/// zero if there is none.
pub open spec fn spec_last_nonspace(s: Seq<char>, j: int) -> int
    decreases j,
{
    if j <= 0 {
        0
    } else if s[j - 1] == ' ' {
        spec_last_nonspace(s, j - 1)
    } else {
        j
    }
}

/// The line with leading and trailing spaces removed.
pub open spec fn spec_trimmed(s: Seq<char>) -> Seq<char> {
    let lo = spec_skip_spaces(s, 0);
    let hi = spec_last_nonspace(s, s.len() as int);
    if lo >= hi {
        Seq::empty()
    } else {
        s.subrange(lo, hi)
    }
}

/// Index of the first space at or after `from`, or the length if
/// there is none: the end of the field that starts at `from`.
pub open spec fn spec_field_end(s: Seq<char>, from: int) -> int
    decreases s.len() - from,
{
    if from < 0 || from >= s.len() {
        s.len() as int
    } else if s[from] == ' ' {
        from
    } else {
        spec_field_end(s, from + 1)
    }
}

pub open spec fn spec_is_digit(c: char) -> bool {
    '0' as int <= c as int && c as int <= '9' as int
}

/// A non-empty run of decimal digits.
pub open spec fn spec_all_digits(s: Seq<char>) -> bool {
    s.len() > 0 && (forall|i: int| 0 <= i < s.len() ==> spec_is_digit(#[trigger] s[i]))
}

/// The decimal value of a digit run.
pub open spec fn spec_dec_value(s: Seq<char>) -> int
    decreases s.len(),
{
    if s.len() == 0 {
        0
    } else {
        10 * spec_dec_value(s.drop_last()) + (s.last() as int - '0' as int)
    }
}

proof fn lemma_dec_value_nonneg(s: Seq<char>)
    requires
        forall|i: int| 0 <= i < s.len() ==> spec_is_digit(#[trigger] s[i]),
    ensures
        spec_dec_value(s) >= 0,
    decreases s.len(),
{
    if s.len() > 0 {
        lemma_dec_value_nonneg(s.drop_last());
    }
}

/// A digit run's value is at least the value of any of its prefixes.
proof fn lemma_dec_value_prefix(s: Seq<char>, i: int)
    requires
        forall|k: int| 0 <= k < s.len() ==> spec_is_digit(#[trigger] s[k]),
        0 <= i <= s.len(),
    ensures
        spec_dec_value(s.take(i)) <= spec_dec_value(s),
    decreases s.len() - i,
{
    if i == s.len() {
        assert(s.take(i) =~= s);
    } else {
        lemma_dec_value_prefix(s, i + 1);
        assert(s.take(i + 1).drop_last() =~= s.take(i));
        lemma_dec_value_nonneg(s.take(i));
        assert(spec_dec_value(s.take(i + 1)) == 10 * spec_dec_value(s.take(i)) + (s[i] as int
            - '0' as int));
    }
}

/// What a runtime integrity-measurement line parses to: the register
/// index, the digest with the algorithm its length implies, the
/// template name, and the remaining fields as the measured payload.
#[verifier::ext_equal]
pub ghost struct ImaRecV {
    pub imr_index: u32,
    pub algo_id: u16,
    pub hash: Seq<u8>,
    pub template_name: Seq<char>,
    pub event: Seq<u8>,
}

/// Parse one runtime line `"<register> <hex-digest> <template-name>
/// <payload...>"`: fields split on single spaces after trimming, the
/// digest's algorithm inferred from its decoded length, the payload
/// re-joined exactly as it stood.
pub open spec fn spec_parse_ima_line(line: Seq<char>) -> Result<ImaRecV, EventLogError> {
    let t = spec_trimmed(line);
    let e0_end = spec_field_end(t, 0);
    if e0_end >= t.len() {
        Err(EventLogError::ImaTooFewFields)
    } else {
        let e1_end = spec_field_end(t, e0_end + 1);
        if e1_end >= t.len() {
            Err(EventLogError::ImaTooFewFields)
        } else {
            let e2_end = spec_field_end(t, e1_end + 1);
            let e0 = t.subrange(0, e0_end);
            let e1 = t.subrange(e0_end + 1, e1_end);
            let e2 = t.subrange(e1_end + 1, e2_end);
            let tail = if e2_end >= t.len() {
                Seq::empty()
            } else {
                t.subrange(e2_end + 1, t.len() as int)
            };
            if !(spec_all_digits(e0) && spec_dec_value(e0) <= u32::MAX) {
                Err(EventLogError::ImaBadRegisterIndex)
            } else {
                match spec_algo_from_size(e1.len() as int / 2) {
                    None => Err(EventLogError::ImaUnknownDigestLength),
                    Some(algo_id) => {
                        if !spec_valid_hex(e1) {
                            Err(EventLogError::ImaBadDigest)
                        } else if encode_utf8(tail).len() > u32::MAX {
                            Err(EventLogError::OversizedEvent)
                        } else {
                            Ok(
                                ImaRecV {
                                    imr_index: spec_dec_value(e0) as u32,
                                    algo_id,
                                    hash: spec_hex_decode(e1),
                                    template_name: e2,
                                    event: encode_utf8(tail),
                                },
                            )
                        }
                    },
                }
            }
        }
    }
}

/// Index of the first character of a trimmed line.
#[verifier::loop_isolation(false)]
fn trim_lo(s: &str) -> (r: usize)
    ensures
        r == spec_skip_spaces(s@, 0),
        r <= s@.len(),
{
    let n = s.unicode_len();
    let mut lo: usize = 0;
    while lo < n
        invariant
            lo <= n,
            spec_skip_spaces(s@, 0) == spec_skip_spaces(s@, lo as int),
        decreases n - lo,
    {
        if s.get_char(lo) != ' ' {
            return lo;
        }
        lo = lo + 1;
    }
    lo
}

/// One past the last character of a trimmed line.
#[verifier::loop_isolation(false)]
fn trim_hi(s: &str) -> (r: usize)
    ensures
        r == spec_last_nonspace(s@, s@.len() as int),
        r <= s@.len(),
{
    let n = s.unicode_len();
    let mut hi: usize = n;
    while hi > 0
        invariant
            hi <= n,
            spec_last_nonspace(s@, n as int) == spec_last_nonspace(s@, hi as int),
        decreases hi,
    {
        if s.get_char(hi - 1) != ' ' {
            return hi;
        }
        hi = hi - 1;
    }
    hi
}

/// Index of the first space at or after `from`, or the length.
#[verifier::loop_isolation(false)]
fn find_space(s: &str, from: usize) -> (r: usize)
    requires
        from <= s@.len(),
    ensures
        r == spec_field_end(s@, from as int),
        from <= r <= s@.len(),
{
    let n = s.unicode_len();
    let mut i: usize = from;
    while i < n
        invariant
            from <= i <= n,
            spec_field_end(s@, from as int) == spec_field_end(s@, i as int),
        decreases n - i,
    {
        if s.get_char(i) == ' ' {
            return i;
        }
        i = i + 1;
    }
    i
}

/// Parse a field as an unsigned decimal number: digits only, and the
/// value must fit the register index type.
#[verifier::loop_isolation(false)]
fn parse_u32_dec(s: &str) -> (r: Option<u32>)
    ensures
        (match r {
            Some(v) => spec_all_digits(s@) && spec_dec_value(s@) == v,
            None => !(spec_all_digits(s@) && spec_dec_value(s@) <= u32::MAX),
        }),
{
    let n = s.unicode_len();
    if n == 0 {
        return None;
    }
    let mut acc: u32 = 0;
    let mut i: usize = 0;
    proof {
        assert(s@.take(0) =~= Seq::<char>::empty());
    }
    while i < n
        invariant
            0 <= i <= n,
            forall|k: int| 0 <= k < i ==> spec_is_digit(#[trigger] s@[k]),
            acc == spec_dec_value(s@.take(i as int)),
        decreases n - i,
    {
        let c = s.get_char(i);
        let d = c as u32;
        if d < 48 || d > 57 {
            return None;
        }
        proof {
            assert(s@.take(i + 1).drop_last() =~= s@.take(i as int));
            assert(s@.take(i + 1).last() == s@[i as int]);
        }
        if acc > (u32::MAX - (d - 48)) / 10 {
            proof {
                if spec_all_digits(s@) {
                    lemma_dec_value_prefix(s@, i + 1);
                }
            }
            return None;
        }
        acc = acc * 10 + (d - 48);
        i = i + 1;
    }
    proof {
        assert(s@.take(n as int) =~= s@);
    }
    Some(acc)
}

/// The plain values a runtime line parses to, before a record number
/// is drawn.
pub struct ImaFields {
    pub imr_index: u32,
    pub algo_id: u16,
    pub hash: Vec<u8>,
    pub template_name: String,
    pub event: Vec<u8>,
}

/// Split a runtime line into its typed fields; pure with respect to
/// the collection, so the caller can draw the record number after
/// the line is known to be well formed.
pub fn parse_ima_fields(line: &str) -> (r: Result<ImaFields, EventLogError>)
    ensures
        (match spec_parse_ima_line(line@) {
            Ok(rec) => r matches Ok(f) && f.imr_index == rec.imr_index && f.algo_id == rec.algo_id
                && f.hash@ == rec.hash && f.template_name@ == rec.template_name && f.event@
                == rec.event,
            Err(e) => r matches Err(x) && x == e,
        }),
{
    let lo = trim_lo(line);
    let hi = trim_hi(line);
    let t: &str = if lo >= hi {
        ""
    } else {
        line.substring_char(lo, hi)
    };
    proof {
        reveal_strlit("");
        assert(t@ =~= spec_trimmed(line@));
    }
    let tn = t.unicode_len();
    let e0_end = find_space(t, 0);
    if e0_end >= tn {
        return Err(EventLogError::ImaTooFewFields);
    }
    let e1_end = find_space(t, e0_end + 1);
    if e1_end >= tn {
        return Err(EventLogError::ImaTooFewFields);
    }
    let e2_end = find_space(t, e1_end + 1);
    let e0 = t.substring_char(0, e0_end);
    let e1 = t.substring_char(e0_end + 1, e1_end);
    let e2 = t.substring_char(e1_end + 1, e2_end);
    let imr_index = match parse_u32_dec(e0) {
        None => {
            return Err(EventLogError::ImaBadRegisterIndex);
        },
        Some(v) => v,
    };
    let half = (e1_end - (e0_end + 1)) / 2;
    let algo_id = if half == 20 {
        TPM_ALG_SHA1
    } else if half == 32 {
        TPM_ALG_SHA256
    } else if half == 48 {
        TPM_ALG_SHA384
    } else if half == 64 {
        TPM_ALG_SHA512
    } else {
        return Err(EventLogError::ImaUnknownDigestLength);
    };
    let hash = match hex_decode(e1) {
        None => {
            return Err(EventLogError::ImaBadDigest);
        },
        Some(v) => v,
    };
    let event: Vec<u8> = if e2_end >= tn {
        proof {
            assert(encode_utf8(Seq::<char>::empty()) =~= Seq::<u8>::empty());
        }
        Vec::new()
    } else {
        t.substring_char(e2_end + 1, tn).as_bytes_vec()
    };
    if event.len() > u32::MAX as usize {
        return Err(EventLogError::OversizedEvent);
    }
    let template_name = e2.to_owned();
    Ok(ImaFields { imr_index, algo_id, hash, template_name, event })
}

} // verus!
