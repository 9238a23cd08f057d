use vstd::prelude::*;

use vstd::pervasive::VecAdditionalExecFns;
use vstd::string::StringExecFns;

use crate::eventlog::{EventLogError, EventLogs};
use crate::hashes::{
    sha1_digest, sha1_of, sha256_digest, sha256_of, sha384_digest, sha384_of, sha512_digest,
    sha512_of,
};
use crate::tcg::{
    spec_digest_size, DigestV, EventLogEntry, EventLogEntryV, TcgDigest, EV_NO_ACTION,
    TPM_ALG_SHA1, TPM_ALG_SHA256, TPM_ALG_SHA384, TPM_ALG_SHA512,
};

verus! {

/// Mathematical model of one register's replay outcome.
#[verifier::ext_equal]
pub ghost struct ReplayResultV {
    pub imr_index: u32,
    pub digests: Seq<DigestV>,
}

/// The recomputed final digests of one register, one entry per
/// algorithm observed for it.
pub struct ReplayResult {
    pub imr_index: u32,
    pub digests: Vec<TcgDigest>,
}

impl View for ReplayResult {
    type V = ReplayResultV;

    open spec fn view(&self) -> ReplayResultV {
        ReplayResultV { imr_index: self.imr_index, digests: self.digests.deep_view() }
    }
}

impl DeepView for ReplayResult {
    type V = ReplayResultV;

    open spec fn deep_view(&self) -> ReplayResultV {
        self.view()
    }
}

impl Clone for ReplayResult {
    fn clone(&self) -> (res: Self)
        ensures
            res@ == self@,
    {
        let digests = self.digests.clone();
        proof {
            assert(digests.deep_view() =~= self.digests.deep_view());
        }
        ReplayResult { imr_index: self.imr_index, digests }
    }
}

/// One digest line of a replay result's rendering.
pub open spec fn spec_show_digest(d: DigestV) -> Seq<char> {
    "Algorithm: "@ + crate::tcg::spec_algo_name(d.algo_id) + "\nDigest: "@
        + crate::hashes::spec_hex_encode(d.hash) + "\n"@
}

/// The digest lines of a replay result's rendering, in order.
pub open spec fn spec_show_digests(ds: Seq<DigestV>) -> Seq<char>
    decreases ds.len(),
{
    if ds.len() == 0 {
        Seq::empty()
    } else {
        spec_show_digests(ds.drop_last()) + spec_show_digest(ds.last())
    }
}

/// The rendering of one register's replay result.
pub open spec fn spec_show_replay_result(v: ReplayResultV) -> Seq<char> {
    "Replay Result of IMR["@ + crate::render::spec_u32_dec(v.imr_index as int) + "]\n"@
        + spec_show_digests(v.digests)
}

impl ReplayResult {
    /// Render this result as text: the register index, then one line
    /// per algorithm with its recomputed digest in hex.
    #[verifier::loop_isolation(false)]
    pub fn show(&self) -> (r: String)
        ensures
            r@ == spec_show_replay_result(self@),
    {
        let mut out = String::new();
        out.append("Replay Result of IMR[");
        let dec = crate::render::u32_dec_string(self.imr_index);
        out.append(dec.as_str());
        out.append("]\n");
        let n = self.digests.len();
        let ghost ds = self.digests.deep_view();
        let ghost header = "Replay Result of IMR["@ + crate::render::spec_u32_dec(
            self.imr_index as int,
        ) + "]\n"@;
        let mut i: usize = 0;
        proof {
            assert(ds.take(0) =~= Seq::<DigestV>::empty());
            assert(out@ =~= header + spec_show_digests(ds.take(0)));
        }
        while i < n
            invariant
                i <= n,
                out@ =~= header + spec_show_digests(ds.take(i as int)),
            decreases n - i,
        {
            out.append("Algorithm: ");
            out.append(self.digests[i].get_algorithm_id_str());
            out.append("\nDigest: ");
            let hex = crate::hashes::hex_encode(self.digests[i].hash.as_slice());
            out.append(hex.as_str());
            out.append("\n");
            proof {
                assert(ds.take(i + 1).drop_last() =~= ds.take(i as int));
                assert(ds.take(i + 1).last() == ds[i as int]);
                assert(out@ =~= header + spec_show_digests(ds.take(i + 1)));
            }
            i = i + 1;
        }
        proof {
            assert(ds.take(n as int) =~= ds);
        }
        out
    }
}

/// The algorithms replay can drive through a hash function.
pub open spec fn spec_supported_alg(algo_id: u16) -> bool {
    algo_id == TPM_ALG_SHA1 || algo_id == TPM_ALG_SHA256 || algo_id == TPM_ALG_SHA384 || algo_id
        == TPM_ALG_SHA512
}

/// The digest the algorithm's bound hash function gives; the input
/// unchanged for an algorithm without one.
pub open spec fn spec_hash_alg(algo_id: u16, data: Seq<u8>) -> Seq<u8> {
    if algo_id == TPM_ALG_SHA1 {
        sha1_of(data)
    } else if algo_id == TPM_ALG_SHA256 {
        sha256_of(data)
    } else if algo_id == TPM_ALG_SHA384 {
        sha384_of(data)
    } else if algo_id == TPM_ALG_SHA512 {
        sha512_of(data)
    } else {
        data
    }
}

/// Position of the result entry for a register, if one exists.
pub open spec fn spec_find_imr(rs: Seq<ReplayResultV>, imr: u32) -> Option<int>
    decreases rs.len(),
{
    if rs.len() == 0 {
        None
    } else if rs.last().imr_index == imr {
        Some(rs.len() - 1)
    } else {
        spec_find_imr(rs.drop_last(), imr)
    }
}

/// Position of the running entry for an algorithm, if one exists.
pub open spec fn spec_find_algo(ds: Seq<DigestV>, algo_id: u16) -> Option<int>
    decreases ds.len(),
{
    if ds.len() == 0 {
        None
    } else if ds.last().algo_id == algo_id {
        Some(ds.len() - 1)
    } else {
        spec_find_algo(ds.drop_last(), algo_id)
    }
}

/// The register's reset value: a zero-filled buffer as long as the
/// algorithm's digests.
pub open spec fn spec_zero_digest(algo_id: u16) -> Seq<u8> {
    Seq::new(spec_digest_size(algo_id) as nat, |i: int| 0u8)
}

/// One extend operation folded into the accumulated results: locate
/// or create the register's entry, locate or create the running
/// entry for the digest's algorithm (initialized to the reset
/// value), then replace the running value with
/// `hash(running || recorded)`; an algorithm with no bound hash
/// function leaves its running value untouched.
pub open spec fn spec_extend_digest(rs: Seq<ReplayResultV>, imr: u32, d: DigestV) -> Seq<
    ReplayResultV,
> {
    let rs1 = if spec_find_imr(rs, imr) is Some {
        rs
    } else {
        rs.push(ReplayResultV { imr_index: imr, digests: Seq::empty() })
    };
    let ipos = if spec_find_imr(rs, imr) is Some {
        spec_find_imr(rs, imr)->Some_0
    } else {
        rs.len() as int
    };
    let ds = rs1[ipos].digests;
    let ds1 = if spec_find_algo(ds, d.algo_id) is Some {
        ds
    } else {
        ds.push(DigestV { algo_id: d.algo_id, hash: spec_zero_digest(d.algo_id) })
    };
    let apos = if spec_find_algo(ds, d.algo_id) is Some {
        spec_find_algo(ds, d.algo_id)->Some_0
    } else {
        ds.len() as int
    };
    let input = ds1[apos].hash + d.hash;
    let newhash = if spec_supported_alg(d.algo_id) {
        spec_hash_alg(d.algo_id, input)
    } else {
        ds1[apos].hash
    };
    rs1.update(
        ipos,
        ReplayResultV {
            imr_index: imr,
            digests: ds1.update(apos, DigestV { algo_id: d.algo_id, hash: newhash }),
        },
    )
}

/// A record's digests folded into the results in order.
pub open spec fn spec_replay_digests(rs: Seq<ReplayResultV>, imr: u32, ds: Seq<DigestV>) -> Seq<
    ReplayResultV,
>
    decreases ds.len(),
{
    if ds.len() == 0 {
        rs
    } else {
        spec_replay_digests(spec_extend_digest(rs, imr, ds[0]), imr, ds.drop_first())
    }
}

/// Replay from entry `i` on: standard records extend their register,
/// no-action records and the rendered header record are skipped, and
/// a canonical record stops replay with an explicit
/// unsupported-feature failure.
pub open spec fn spec_replay_from(
    rs: Seq<ReplayResultV>,
    entries: Seq<EventLogEntryV>,
    i: int,
) -> Result<Seq<ReplayResultV>, EventLogError>
    decreases entries.len() - i,
{
    if i < 0 || i >= entries.len() {
        Ok(rs)
    } else {
        match entries[i] {
            EventLogEntryV::TcgImrEvent(e) => {
                if e.event_type == EV_NO_ACTION {
                    spec_replay_from(rs, entries, i + 1)
                } else {
                    spec_replay_from(spec_replay_digests(rs, e.imr_index, e.digests), entries, i + 1)
                }
            },
            EventLogEntryV::TcgPcClientImrEvent(_) => spec_replay_from(rs, entries, i + 1),
            EventLogEntryV::TcgCanonicalEvent => Err(EventLogError::CanonicalNotSupported),
        }
    }
}

/// What replaying a record sequence produces: per register, the
/// final recomputed digest per algorithm observed for it.
pub open spec fn spec_replay(entries: Seq<EventLogEntryV>) -> Result<
    Seq<ReplayResultV>,
    EventLogError,
> {
    spec_replay_from(Seq::empty(), entries, 0)
}

/// A zero-filled buffer of the given length.
#[verifier::loop_isolation(false)]
fn zero_vec(n: u16) -> (r: Vec<u8>)
    ensures
        r@ =~= Seq::new(n as nat, |i: int| 0u8),
{
    let mut v: Vec<u8> = Vec::new();
    let mut i: u16 = 0;
    while i < n
        invariant
            i <= n,
            v@ =~= Seq::new(i as nat, |k: int| 0u8),
        decreases n - i,
    {
        v.push(0u8);
        proof {
            assert(v@ =~= Seq::new((i + 1) as nat, |k: int| 0u8));
        }
        i = i + 1;
    }
    v
}

/// Fold one recorded digest into the accumulated results, as one
/// hardware extend operation would.
#[verifier::loop_isolation(false)]
fn extend_one(replay_results: &mut Vec<ReplayResult>, imr: u32, d: &TcgDigest)
    ensures
        final(replay_results).deep_view() == spec_extend_digest(
            old(replay_results).deep_view(),
            imr,
            d@,
        ),
{
    let ghost rs0 = replay_results.deep_view();
    let rn = replay_results.len();
    let mut imr_pos: Option<usize> = None;
    let mut t: usize = 0;
    proof {
        assert(rs0.take(0) =~= Seq::<ReplayResultV>::empty());
    }
    while t < rn
        invariant
            t <= rn,
            (match imr_pos {
                Some(p) => p < t && spec_find_imr(rs0.take(t as int), imr) == Some(p as int),
                None => spec_find_imr(rs0.take(t as int), imr) is None,
            }),
        decreases rn - t,
    {
        proof {
            assert(rs0.take(t + 1).drop_last() =~= rs0.take(t as int));
            assert(rs0.take(t + 1).last() == rs0[t as int]);
        }
        if replay_results[t].imr_index == imr {
            imr_pos = Some(t);
        }
        t = t + 1;
    }
    proof {
        assert(rs0.take(rn as int) =~= rs0);
    }
    let ipos: usize = match imr_pos {
        Some(p) => p,
        None => {
            replay_results.push(ReplayResult { imr_index: imr, digests: Vec::new() });
            proof {
                assert(replay_results.deep_view() =~~= rs0.push(
                    ReplayResultV { imr_index: imr, digests: Seq::empty() },
                ));
            }
            rn
        },
    };
    let ghost rs1 = replay_results.deep_view();
    let ghost ds = rs1[ipos as int].digests;
    let dn = replay_results[ipos].digests.len();
    let mut algo_pos: Option<usize> = None;
    let mut u: usize = 0;
    proof {
        assert(ds.take(0) =~= Seq::<DigestV>::empty());
    }
    while u < dn
        invariant
            u <= dn,
            ipos < replay_results.len(),
            replay_results.deep_view() == rs1,
            dn == rs1[ipos as int].digests.len(),
            ds == rs1[ipos as int].digests,
            (match algo_pos {
                Some(p) => p < u && spec_find_algo(ds.take(u as int), d.algo_id) == Some(p as int),
                None => spec_find_algo(ds.take(u as int), d.algo_id) is None,
            }),
        decreases dn - u,
    {
        proof {
            assert(ds.take(u + 1).drop_last() =~= ds.take(u as int));
            assert(ds.take(u + 1).last() == ds[u as int]);
        }
        if replay_results[ipos].digests[u].algo_id == d.algo_id {
            algo_pos = Some(u);
        }
        u = u + 1;
    }
    proof {
        assert(ds.take(dn as int) =~= ds);
    }
    let mut digs: Vec<TcgDigest> = replay_results[ipos].digests.clone();
    proof {
        assert(digs.deep_view() =~= ds);
    }
    let apos: usize = match algo_pos {
        Some(p) => p,
        None => {
            let size = TcgDigest::get_digest_size_from_algorithm_id(d.algo_id);
            digs.push(TcgDigest { algo_id: d.algo_id, hash: zero_vec(size) });
            proof {
                assert(digs.deep_view() =~= ds.push(
                    DigestV { algo_id: d.algo_id, hash: spec_zero_digest(d.algo_id) },
                ));
            }
            dn
        },
    };
    let mut input: Vec<u8> = digs[apos].hash.clone();
    let ghost running = digs.deep_view()[apos as int].hash;
    input.extend_from_slice(d.hash.as_slice());
    proof {
        assert(input@ =~= running + d@.hash);
    }
    let newhash: Vec<u8> = if d.algo_id == TPM_ALG_SHA1 {
        sha1_digest(input.as_slice())
    } else if d.algo_id == TPM_ALG_SHA256 {
        sha256_digest(input.as_slice())
    } else if d.algo_id == TPM_ALG_SHA384 {
        sha384_digest(input.as_slice())
    } else if d.algo_id == TPM_ALG_SHA512 {
        sha512_digest(input.as_slice())
    } else {
        digs[apos].hash.clone()
    };
    let ghost digs_before = digs.deep_view();
    digs.set(apos, TcgDigest { algo_id: d.algo_id, hash: newhash });
    proof {
        assert(digs.deep_view() =~= digs_before.update(
            apos as int,
            DigestV { algo_id: d.algo_id, hash: digs.deep_view()[apos as int].hash },
        ));
    }
    let ghost results_before = replay_results.deep_view();
    let new_entry = ReplayResult { imr_index: imr, digests: digs };
    let ghost new_entry_v = new_entry@;
    replay_results.set(ipos, new_entry);
    proof {
        assert(replay_results.deep_view() =~= results_before.update(ipos as int, new_entry_v));
        assert(replay_results.deep_view() =~= spec_extend_digest(rs0, imr, d@));
    }
}

impl EventLogs {
    /// Replay a record sequence in order, reconstructing per
    /// register the digest chain a hardware register would have
    /// accumulated; the recomputed values are what a verifier holds
    /// against the attester-reported register values.
    #[verifier::loop_isolation(false)]
    pub fn replay(eventlogs: Vec<EventLogEntry>) -> (r: Result<Vec<ReplayResult>, EventLogError>)
        ensures
            (match spec_replay(eventlogs.deep_view()) {
                Ok(rs) => r matches Ok(v) && v.deep_view() == rs,
                Err(e) => r matches Err(x) && x == e,
            }),
    {
        let ghost entries = eventlogs.deep_view();
        let mut replay_results: Vec<ReplayResult> = Vec::new();
        let n = eventlogs.len();
        let mut idx: usize = 0;
        proof {
            assert(replay_results.deep_view() =~= Seq::<ReplayResultV>::empty());
        }
        while idx < n
            invariant
                idx <= n,
                spec_replay(entries) == spec_replay_from(
                    replay_results.deep_view(),
                    entries,
                    idx as int,
                ),
            decreases n - idx,
        {
            match &eventlogs[idx] {
                EventLogEntry::TcgImrEvent(ev) => {
                    if ev.event_type != EV_NO_ACTION {
                        let ghost start_rs = replay_results.deep_view();
                        let ghost dseq = ev.digests.deep_view();
                        let m = ev.digests.len();
                        let mut dj: usize = 0;
                        proof {
                            assert(dseq.skip(0) =~= dseq);
                        }
                        while dj < m
                            invariant
                                dj <= m,
                                m == ev.digests.len(),
                                dseq == ev.digests.deep_view(),
                                spec_replay_digests(start_rs, ev.imr_index, dseq)
                                    == spec_replay_digests(
                                    replay_results.deep_view(),
                                    ev.imr_index,
                                    dseq.skip(dj as int),
                                ),
                            decreases m - dj,
                        {
                            let ghost rs_before = replay_results.deep_view();
                            extend_one(&mut replay_results, ev.imr_index, &ev.digests[dj]);
                            proof {
                                assert(dseq.skip(dj as int).drop_first() =~= dseq.skip(dj + 1));
                                assert(dseq.skip(dj as int)[0] == dseq[dj as int]);
                            }
                            dj = dj + 1;
                        }
                        proof {
                            assert(dseq.skip(m as int) =~= Seq::<DigestV>::empty());
                            assert(entries[idx as int] == EventLogEntryV::TcgImrEvent(ev@));
                        }
                    }
                },
                EventLogEntry::TcgPcClientImrEvent(_) => {},
                EventLogEntry::TcgCanonicalEvent(_) => {
                    return Err(EventLogError::CanonicalNotSupported);
                },
            }
            idx = idx + 1;
        }
        Ok(replay_results)
    }
}

} // verus!
