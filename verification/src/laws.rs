use vstd::prelude::*;

use crate::binary_blob::{spec_u16_le, spec_u32_le};
use crate::eventlog::{
    spec_bump, spec_cnt, spec_find_alg, spec_parse_digests, spec_parse_event_log,
    spec_select_range, EventLogError,
};
use crate::eventlog::{spec_parse_alg_sizes, spec_parse_spec_id_event_log};
use crate::eventlog::{
    lemma_parse_event_log_consumed, lemma_parse_spec_id_consumed, spec_event_log_of_header,
    spec_event_log_of_ima, spec_event_log_of_std, spec_format_event_log, spec_parse_boot,
    spec_parse_full, spec_parse_runtime,
};
use crate::tcg::SpecIdEventV;
use crate::hashes::sha256_of;
use crate::replay::{
    spec_extend_digest, spec_find_algo, spec_find_imr, spec_replay, spec_replay_digests,
    spec_replay_from, spec_zero_digest, ReplayResultV,
};
use crate::tcg::{
    DigestV, EventLogEntryV, ImrEventV, TcgEfiSpecIdEventAlgorithmSize, EV_NO_ACTION,
    TPM_ALG_SHA256,
};

verus! {

/// A register index in little-endian record encoding.
pub open spec fn spec_encode_u16(v: u16) -> Seq<u8> {
    seq![(v & 0xff) as u8, ((v >> 8) & 0xff) as u8]
}

pub open spec fn spec_encode_u32(v: u32) -> Seq<u8> {
    seq![
        (v & 0xff) as u8,
        ((v >> 8) & 0xff) as u8,
        ((v >> 16) & 0xff) as u8,
        ((v >> 24) & 0xff) as u8,
    ]
}

/// A digest list in record encoding: per digest, its 2-byte
/// algorithm identifier and its hash bytes.
pub open spec fn spec_encode_digests(ds: Seq<DigestV>) -> Seq<u8>
    decreases ds.len(),
{
    if ds.len() == 0 {
        Seq::empty()
    } else {
        spec_encode_u16(ds[0].algo_id) + ds[0].hash + spec_encode_digests(ds.drop_first())
    }
}

/// A whole standard record in binary encoding: the one-based
/// register index, the event type, the digest count, the digests,
/// then the event length and bytes.
pub open spec fn spec_encode_event_log(
    imr_index: u32,
    event_type: u32,
    digests: Seq<DigestV>,
    event: Seq<u8>,
) -> Seq<u8> {
    spec_encode_u32((imr_index + 1) as u32) + spec_encode_u32(event_type) + spec_encode_u32(
        digests.len() as u32,
    ) + spec_encode_digests(digests) + spec_encode_u32(event.len() as u32) + event
}

/// Reading two little-endian bytes gives back the encoded value.
proof fn lemma_u16_le_of_encoding(data: Seq<u8>, i: int, v: u16)
    requires
        0 <= i,
        i + 2 <= data.len(),
        data.subrange(i, i + 2) =~= spec_encode_u16(v),
    ensures
        spec_u16_le(data, i) == v,
{
    assert(data[i] == data.subrange(i, i + 2)[0]);
    assert(data[i + 1] == data.subrange(i, i + 2)[1]);
    assert(((v & 0xff) as u8) as u32 + 0x100 * ((((v >> 8) & 0xff) as u8) as u32) == v as u32)
        by (bit_vector);
}

/// Reading four little-endian bytes gives back the encoded value.
proof fn lemma_u32_le_of_encoding(data: Seq<u8>, i: int, v: u32)
    requires
        0 <= i,
        i + 4 <= data.len(),
        data.subrange(i, i + 4) =~= spec_encode_u32(v),
    ensures
        spec_u32_le(data, i) == v,
{
    assert(data[i] == data.subrange(i, i + 4)[0]);
    assert(data[i + 1] == data.subrange(i, i + 4)[1]);
    assert(data[i + 2] == data.subrange(i, i + 4)[2]);
    assert(data[i + 3] == data.subrange(i, i + 4)[3]);
    assert(((v & 0xff) as u8) as u64 + 0x100 * ((((v >> 8) & 0xff) as u8) as u64) + 0x10000 * ((((v
        >> 16) & 0xff) as u8) as u64) + 0x1000000 * ((((v >> 24) & 0xff) as u8) as u64) == v as u64)
        by (bit_vector);
}

/// Parsing an encoded digest list gives back exactly the digests
/// that were encoded, provided each one's algorithm is declared with
/// its hash's length.
proof fn lemma_parse_digests_of_encoding(
    data: Seq<u8>,
    pos: int,
    ds: Seq<DigestV>,
    algs: Seq<TcgEfiSpecIdEventAlgorithmSize>,
)
    requires
        0 <= pos,
        pos + spec_encode_digests(ds).len() <= data.len(),
        data.subrange(pos, pos + spec_encode_digests(ds).len()) =~= spec_encode_digests(ds),
        forall|k: int|
            0 <= k < ds.len() ==> #[trigger] ds[k].hash.len() < 0x1_0000_0000 && spec_find_alg(
                algs,
                ds[k].algo_id,
            ) == Some(ds[k].hash.len() as u32),
    ensures
        (spec_parse_digests(data, pos, ds.len() as int, algs) matches Ok(pr) && pr.0 =~= ds && pr.1
            == pos + spec_encode_digests(ds).len()),
    decreases ds.len(),
{
    if ds.len() == 0 {
    } else {
        let d = ds[0];
        let h = d.hash.len() as int;
        let enc = spec_encode_digests(ds);
        let enc_rest = spec_encode_digests(ds.drop_first());
        assert(enc =~= spec_encode_u16(d.algo_id) + d.hash + enc_rest);
        assert(enc.len() == 2 + h + enc_rest.len());
        assert(data.subrange(pos, pos + 2) =~= spec_encode_u16(d.algo_id));
        lemma_u16_le_of_encoding(data, pos, d.algo_id);
        assert(spec_find_alg(algs, d.algo_id) == Some(d.hash.len() as u32));
        assert forall|j: int| 0 <= j < h implies data[pos + 2 + j] == d.hash[j] by {
            assert(data.subrange(pos, pos + enc.len() as int)[2 + j] == data[pos + 2 + j]);
            assert(enc[2 + j] == d.hash[j]);
        };
        assert(data.subrange(pos + 2, pos + 2 + h) =~= d.hash);
        assert forall|j: int| 0 <= j < enc_rest.len() implies data[pos + 2 + h + j]
            == enc_rest[j] by {
            assert(data.subrange(pos, pos + enc.len() as int)[2 + h + j] == data[pos + 2 + h + j]);
            assert(enc[2 + h + j] == enc_rest[j]);
        };
        assert(data.subrange(pos + 2 + h, pos + 2 + h + enc_rest.len() as int) =~= enc_rest);
        assert(forall|k: int|
            0 <= k < ds.drop_first().len() ==> #[trigger] ds.drop_first()[k].hash.len()
                < 0x1_0000_0000 && spec_find_alg(algs, ds.drop_first()[k].algo_id) == Some(
                ds.drop_first()[k].hash.len() as u32,
            ));
        lemma_parse_digests_of_encoding(data, pos + 2 + h, ds.drop_first(), algs);
        let pr = spec_parse_digests(data, pos, ds.len() as int, algs)->Ok_0;
        assert(seq![
            DigestV { algo_id: d.algo_id, hash: data.subrange(pos + 2, pos + 2 + h) },
        ] + ds.drop_first() =~= ds);
    }
}

/// Round trip: an encoded standard record whose digests carry
/// exactly the declared algorithms, each with its declared length,
/// parses back to the same register index, event type, digest list
/// and event bytes, consuming exactly the encoding.
pub proof fn lemma_standard_record_round_trip(
    imr_index: u32,
    event_type: u32,
    digests: Seq<DigestV>,
    event: Seq<u8>,
    algs: Seq<TcgEfiSpecIdEventAlgorithmSize>,
    rest: Seq<u8>,
)
    requires
        imr_index < 0xFFFFFFFF,
        digests.len() < 0x1_0000_0000,
        event.len() < 0x1_0000_0000,
        forall|k: int|
            0 <= k < digests.len() ==> #[trigger] digests[k].hash.len() < 0x1_0000_0000
                && spec_find_alg(algs, digests[k].algo_id) == Some(digests[k].hash.len() as u32),
    ensures
        ({
            let enc = spec_encode_event_log(imr_index, event_type, digests, event);
            spec_parse_event_log(enc + rest, algs) matches Ok(rec) && rec.imr_index == imr_index
                && rec.event_type == event_type && rec.digests =~= digests && rec.event =~= event
                && rec.consumed == enc.len()
        }),
{
    let enc = spec_encode_event_log(imr_index, event_type, digests, event);
    let encd = spec_encode_digests(digests);
    let data = enc + rest;
    assert(enc.len() == 16 + encd.len() + event.len());
    assert(data.subrange(0, 4) =~= spec_encode_u32((imr_index + 1) as u32));
    assert(data.subrange(4, 8) =~= spec_encode_u32(event_type));
    assert(data.subrange(8, 12) =~= spec_encode_u32(digests.len() as u32));
    lemma_u32_le_of_encoding(data, 0, (imr_index + 1) as u32);
    lemma_u32_le_of_encoding(data, 4, event_type);
    lemma_u32_le_of_encoding(data, 8, digests.len() as u32);
    assert(data.subrange(12, 12 + encd.len() as int) =~= encd);
    lemma_parse_digests_of_encoding(data, 12, digests, algs);
    let p: int = 12 + encd.len() as int;
    assert(data.subrange(p, p + 4) =~= spec_encode_u32(event.len() as u32));
    lemma_u32_le_of_encoding(data, p, event.len() as u32);
    assert(data.subrange(p + 4, p + 4 + event.len()) =~= event);
}

/// A declared algorithm table in record encoding: per pair, the
/// 2-byte algorithm identifier and its 2-byte digest size.
pub open spec fn spec_encode_alg_sizes(algs: Seq<TcgEfiSpecIdEventAlgorithmSize>) -> Seq<u8>
    decreases algs.len(),
{
    if algs.len() == 0 {
        Seq::empty()
    } else {
        spec_encode_u16(algs[0].algo_id) + spec_encode_u16(algs[0].digest_size as u16)
            + spec_encode_alg_sizes(algs.drop_first())
    }
}

proof fn lemma_encode_alg_sizes_len(algs: Seq<TcgEfiSpecIdEventAlgorithmSize>)
    ensures
        spec_encode_alg_sizes(algs).len() == 4 * algs.len(),
    decreases algs.len(),
{
    if algs.len() > 0 {
        lemma_encode_alg_sizes_len(algs.drop_first());
    }
}

/// Parsing an encoded algorithm table gives back exactly the pairs
/// that were encoded.
proof fn lemma_parse_alg_sizes_of_encoding(
    data: Seq<u8>,
    pos: int,
    algs: Seq<TcgEfiSpecIdEventAlgorithmSize>,
)
    requires
        0 <= pos,
        pos + 4 * algs.len() <= data.len(),
        data.subrange(pos, pos + 4 * algs.len()) =~= spec_encode_alg_sizes(algs),
        forall|k: int| 0 <= k < algs.len() ==> #[trigger] algs[k].digest_size < 0x10000,
    ensures
        (spec_parse_alg_sizes(data, pos, algs.len() as int) matches Ok(pr) && pr.0 =~= algs && pr.1
            == pos + 4 * algs.len()),
    decreases algs.len(),
{
    lemma_encode_alg_sizes_len(algs);
    if algs.len() > 0 {
        let a = algs[0];
        let enc = spec_encode_alg_sizes(algs);
        let enc_rest = spec_encode_alg_sizes(algs.drop_first());
        lemma_encode_alg_sizes_len(algs.drop_first());
        assert(enc =~= spec_encode_u16(a.algo_id) + spec_encode_u16(a.digest_size as u16)
            + enc_rest);
        assert forall|j: int| 0 <= j < 4 implies data[pos + j] == enc[j] by {
            assert(data.subrange(pos, pos + 4 * algs.len())[j] == data[pos + j]);
        };
        assert(enc[0] == spec_encode_u16(a.algo_id)[0]);
        assert(enc[1] == spec_encode_u16(a.algo_id)[1]);
        assert(enc[2] == spec_encode_u16(a.digest_size as u16)[0]);
        assert(enc[3] == spec_encode_u16(a.digest_size as u16)[1]);
        assert(data.subrange(pos, pos + 2) =~= spec_encode_u16(a.algo_id));
        assert(data.subrange(pos + 2, pos + 4) =~= spec_encode_u16(a.digest_size as u16));
        lemma_u16_le_of_encoding(data, pos, a.algo_id);
        lemma_u16_le_of_encoding(data, pos + 2, a.digest_size as u16);
        assert forall|j: int| 0 <= j < enc_rest.len() implies data[pos + 4 + j] == enc_rest[j] by {
            assert(data.subrange(pos, pos + 4 * algs.len())[4 + j] == data[pos + 4 + j]);
            assert(enc[4 + j] == enc_rest[j]);
        };
        assert(data.subrange(pos + 4, pos + 4 + 4 * algs.drop_first().len()) =~= enc_rest);
        lemma_parse_alg_sizes_of_encoding(data, pos + 4, algs.drop_first());
        assert(seq![
            TcgEfiSpecIdEventAlgorithmSize {
                algo_id: a.algo_id,
                digest_size: ((a.digest_size as u16) as u32),
            },
        ] + algs.drop_first() =~= algs);
    }
}

/// A spec-ID header record in binary encoding: the fixed
/// PCClientPCREvent header, then the nested specification-ID
/// structure, with the event-size field covering the nested bytes
/// exactly.
pub open spec fn spec_encode_spec_id_event(
    header_imr: u32,
    event_type: u32,
    digest: Seq<u8>,
    signature: Seq<u8>,
    platform_class: u32,
    version_minor: u8,
    version_major: u8,
    errata: u8,
    uintn_size: u8,
    algs: Seq<TcgEfiSpecIdEventAlgorithmSize>,
    vendor: Seq<u8>,
) -> Seq<u8> {
    let esize = 29 + 4 * algs.len() + vendor.len();
    spec_encode_u32((header_imr + 1) as u32) + spec_encode_u32(event_type) + digest
        + spec_encode_u32(esize as u32) + signature + spec_encode_u32(platform_class) + seq![
        version_minor,
        version_major,
        errata,
        uintn_size,
    ] + spec_encode_u32(algs.len() as u32) + spec_encode_alg_sizes(algs) + seq![vendor.len() as u8]
        + vendor
}

/// Round trip: an encoded spec-ID header parses back to the same
/// header register, digest, signature, version fields, declared
/// algorithm table and vendor info, consuming exactly the encoding.
pub proof fn lemma_spec_id_round_trip(
    header_imr: u32,
    event_type: u32,
    digest: Seq<u8>,
    signature: Seq<u8>,
    platform_class: u32,
    version_minor: u8,
    version_major: u8,
    errata: u8,
    uintn_size: u8,
    algs: Seq<TcgEfiSpecIdEventAlgorithmSize>,
    vendor: Seq<u8>,
    rest: Seq<u8>,
)
    requires
        header_imr < 0xFFFFFFFF,
        digest.len() == 20,
        signature.len() == 16,
        vendor.len() < 256,
        algs.len() < 0x1000_0000,
        forall|k: int| 0 <= k < algs.len() ==> #[trigger] algs[k].digest_size < 0x10000,
    ensures
        ({
            let enc = spec_encode_spec_id_event(
                header_imr,
                event_type,
                digest,
                signature,
                platform_class,
                version_minor,
                version_major,
                errata,
                uintn_size,
                algs,
                vendor,
            );
            spec_parse_spec_id_event_log(enc + rest) matches Ok(rec) && rec.header_imr
                == header_imr && rec.event_type == event_type && rec.digest =~= digest
                && rec.header.signature =~= signature && rec.header.platform_class
                == platform_class && rec.header.spec_version_minor == version_minor
                && rec.header.spec_version_major == version_major && rec.header.spec_errata
                == errata && rec.header.uintn_size == uintn_size
                && rec.header.number_of_algorithms == algs.len() && rec.header.digest_sizes
                =~= algs && rec.header.vendor_info =~= vendor && rec.consumed == enc.len()
        }),
{
    let n = algs.len() as int;
    let v = vendor.len() as int;
    let esize = 29 + 4 * n + v;
    let enc = spec_encode_spec_id_event(
        header_imr,
        event_type,
        digest,
        signature,
        platform_class,
        version_minor,
        version_major,
        errata,
        uintn_size,
        algs,
        vendor,
    );
    let data = enc + rest;
    lemma_encode_alg_sizes_len(algs);
    assert(enc.len() == 61 + 4 * n + v);
    assert(data.subrange(0, 4) =~= spec_encode_u32((header_imr + 1) as u32));
    assert(data.subrange(4, 8) =~= spec_encode_u32(event_type));
    lemma_u32_le_of_encoding(data, 0, (header_imr + 1) as u32);
    lemma_u32_le_of_encoding(data, 4, event_type);
    assert(data.subrange(8, 28) =~= digest);
    assert(data.subrange(28, 32) =~= spec_encode_u32(esize as u32));
    lemma_u32_le_of_encoding(data, 28, esize as u32);
    assert(data.subrange(32, 48) =~= signature);
    assert(data.subrange(48, 52) =~= spec_encode_u32(platform_class));
    lemma_u32_le_of_encoding(data, 48, platform_class);
    assert(data[52] == version_minor);
    assert(data[53] == version_major);
    assert(data[54] == errata);
    assert(data[55] == uintn_size);
    assert(data.subrange(56, 60) =~= spec_encode_u32(algs.len() as u32));
    lemma_u32_le_of_encoding(data, 56, algs.len() as u32);
    assert(data.subrange(60, 60 + 4 * n) =~= spec_encode_alg_sizes(algs));
    lemma_parse_alg_sizes_of_encoding(data, 60, algs);
    let p = 60 + 4 * n;
    assert(data[p] == vendor.len() as u8);
    assert(data.subrange(p + 1, p + 1 + v) =~= vendor);
}

/// A standard record whose first digest names an algorithm the
/// declared table does not hold fails parsing with exactly that
/// algorithm reported, whatever else the record carries.
pub proof fn lemma_undeclared_algorithm_is_rejected(
    imr_index: u32,
    event_type: u32,
    digests: Seq<DigestV>,
    event: Seq<u8>,
    algs: Seq<TcgEfiSpecIdEventAlgorithmSize>,
    rest: Seq<u8>,
)
    requires
        imr_index < 0xFFFFFFFF,
        digests.len() >= 1,
        digests.len() < 0x1_0000_0000,
        spec_find_alg(algs, digests[0].algo_id) is None,
    ensures
        ({
            let enc = spec_encode_event_log(imr_index, event_type, digests, event);
            spec_parse_event_log(enc + rest, algs) matches Err(e) && e
                == (EventLogError::UnknownAlgorithm { algo_id: digests[0].algo_id })
        }),
{
    let enc = spec_encode_event_log(imr_index, event_type, digests, event);
    let encd = spec_encode_digests(digests);
    let data = enc + rest;
    assert(encd =~= spec_encode_u16(digests[0].algo_id) + digests[0].hash + spec_encode_digests(
        digests.drop_first(),
    ));
    assert(enc.len() >= 16 + encd.len());
    assert(data.subrange(0, 4) =~= spec_encode_u32((imr_index + 1) as u32));
    assert(data.subrange(8, 12) =~= spec_encode_u32(digests.len() as u32));
    lemma_u32_le_of_encoding(data, 0, (imr_index + 1) as u32);
    lemma_u32_le_of_encoding(data, 8, digests.len() as u32);
    assert(data.subrange(12, 14) =~= spec_encode_u16(digests[0].algo_id));
    lemma_u16_le_of_encoding(data, 12, digests[0].algo_id);
}

/// Replaying two standard records that carry digests `d1` and `d2`
/// for the same supported algorithm on the same register chains the
/// extend operations: the final value is the digest of the previous
/// running value concatenated with the newly recorded digest,
/// starting from the register's zero-filled reset value.
pub proof fn lemma_replay_chains_two_extends(e1: ImrEventV, e2: ImrEventV, d1: Seq<u8>, d2: Seq<
    u8,
>)
    requires
        e1.event_type != EV_NO_ACTION,
        e2.event_type != EV_NO_ACTION,
        e1.imr_index == e2.imr_index,
        e1.digests =~= seq![DigestV { algo_id: TPM_ALG_SHA256, hash: d1 }],
        e2.digests =~= seq![DigestV { algo_id: TPM_ALG_SHA256, hash: d2 }],
    ensures
        ({
            let zero = Seq::new(32, |i: int| 0u8);
            let chained = sha256_of(sha256_of(zero + d1) + d2);
            spec_replay(
                seq![EventLogEntryV::TcgImrEvent(e1), EventLogEntryV::TcgImrEvent(e2)],
            ) matches Ok(rs) && rs =~~= seq![
                ReplayResultV {
                    imr_index: e1.imr_index,
                    digests: seq![DigestV { algo_id: TPM_ALG_SHA256, hash: chained }],
                },
            ]
        }),
{
    let imr = e1.imr_index;
    let zero = Seq::new(32, |i: int| 0u8);
    let dig1 = DigestV { algo_id: TPM_ALG_SHA256, hash: d1 };
    let dig2 = DigestV { algo_id: TPM_ALG_SHA256, hash: d2 };
    let entries = seq![EventLogEntryV::TcgImrEvent(e1), EventLogEntryV::TcgImrEvent(e2)];
    let empty_rs = Seq::<ReplayResultV>::empty();
    assert(spec_zero_digest(TPM_ALG_SHA256) =~= zero);
    let rs1 = spec_extend_digest(empty_rs, imr, dig1);
    let h1 = sha256_of(zero + d1);
    assert(rs1 =~~= seq![
        ReplayResultV { imr_index: imr, digests: seq![DigestV { algo_id: TPM_ALG_SHA256, hash: h1 }] },
    ]);
    assert(spec_replay_digests(empty_rs, imr, e1.digests) == spec_replay_digests(
        spec_extend_digest(empty_rs, imr, e1.digests[0]),
        imr,
        e1.digests.drop_first(),
    ));
    assert(e1.digests[0] == dig1);
    assert(e1.digests.drop_first() =~= Seq::<DigestV>::empty());
    let rs2 = spec_extend_digest(rs1, imr, dig2);
    let h2 = sha256_of(h1 + d2);
    assert(spec_find_imr(rs1, imr) == Some(0int));
    assert(rs1[0].digests =~= seq![DigestV { algo_id: TPM_ALG_SHA256, hash: h1 }]);
    assert(spec_find_algo(rs1[0].digests, TPM_ALG_SHA256) == Some(0int));
    assert(rs2 =~~= seq![
        ReplayResultV { imr_index: imr, digests: seq![DigestV { algo_id: TPM_ALG_SHA256, hash: h2 }] },
    ]);
    assert(e2.digests[0] == dig2);
    assert(e2.digests.drop_first() =~= Seq::<DigestV>::empty());
    assert(spec_replay_digests(empty_rs, imr, e1.digests) == rs1);
    assert(spec_replay_digests(rs1, imr, e2.digests) == spec_replay_digests(
        spec_extend_digest(rs1, imr, e2.digests[0]),
        imr,
        e2.digests.drop_first(),
    ));
    assert(spec_replay_digests(rs1, imr, e2.digests) == rs2);
    assert(spec_replay_from(empty_rs, entries, 0) == spec_replay_from(
        spec_replay_digests(empty_rs, e1.imr_index, e1.digests),
        entries,
        1,
    ));
    assert(spec_replay_from(rs1, entries, 1) == spec_replay_from(
        spec_replay_digests(rs1, e2.imr_index, e2.digests),
        entries,
        2,
    ));
    assert(spec_replay_from(rs2, entries, 2) == Ok::<Seq<ReplayResultV>, EventLogError>(rs2));
    assert(spec_replay(entries) == spec_replay_from(empty_rs, entries, 0));
}

/// A located register entry lies inside the result list and carries
/// that register.
proof fn lemma_find_imr_bounds(rs: Seq<ReplayResultV>, imr: u32)
    ensures
        (match spec_find_imr(rs, imr) {
            Some(i) => 0 <= i < rs.len() && rs[i].imr_index == imr,
            None => true,
        }),
    decreases rs.len(),
{
    if rs.len() > 0 && rs.last().imr_index != imr {
        lemma_find_imr_bounds(rs.drop_last(), imr);
        assert(forall|i: int|
            0 <= i < rs.drop_last().len() ==> rs.drop_last()[i] == #[trigger] rs[i]);
    }
}

/// An extend for one register leaves every other register's entries
/// alone and creates none for them.
proof fn lemma_extend_digest_other_registers(
    rs: Seq<ReplayResultV>,
    imr: u32,
    d: DigestV,
    r: u32,
)
    requires
        imr != r,
        forall|j: int| 0 <= j < rs.len() ==> rs[j].imr_index != r,
    ensures
        forall|j: int|
            0 <= j < spec_extend_digest(rs, imr, d).len() ==> spec_extend_digest(
                rs,
                imr,
                d,
            )[j].imr_index != r,
{
    lemma_find_imr_bounds(rs, imr);
    let out = spec_extend_digest(rs, imr, d);
    let rs1 = if spec_find_imr(rs, imr) is Some {
        rs
    } else {
        rs.push(ReplayResultV { imr_index: imr, digests: Seq::empty() })
    };
    let ipos = if spec_find_imr(rs, imr) is Some {
        spec_find_imr(rs, imr)->Some_0
    } else {
        rs.len() as int
    };
    assert(0 <= ipos < rs1.len());
    assert forall|j: int| 0 <= j < out.len() implies out[j].imr_index != r by {
        if j != ipos {
            assert(out[j] == rs1[j]);
            if j < rs.len() {
                assert(rs1[j] == rs[j]);
            }
        }
    };
}

/// A record's digests folded for one register create no entry for
/// any other register.
proof fn lemma_replay_digests_other_registers(
    rs: Seq<ReplayResultV>,
    imr: u32,
    ds: Seq<DigestV>,
    r: u32,
)
    requires
        imr != r,
        forall|j: int| 0 <= j < rs.len() ==> rs[j].imr_index != r,
    ensures
        forall|j: int|
            0 <= j < spec_replay_digests(rs, imr, ds).len() ==> spec_replay_digests(
                rs,
                imr,
                ds,
            )[j].imr_index != r,
    decreases ds.len(),
{
    if ds.len() == 0 {
        assert(spec_replay_digests(rs, imr, ds) == rs);
    } else {
        lemma_extend_digest_other_registers(rs, imr, ds[0], r);
        lemma_replay_digests_other_registers(
            spec_extend_digest(rs, imr, ds[0]),
            imr,
            ds.drop_first(),
            r,
        );
        assert(spec_replay_digests(rs, imr, ds) == spec_replay_digests(
            spec_extend_digest(rs, imr, ds[0]),
            imr,
            ds.drop_first(),
        ));
    }
}

proof fn lemma_replay_from_registers(
    rs: Seq<ReplayResultV>,
    entries: Seq<EventLogEntryV>,
    i: int,
    r: u32,
)
    requires
        forall|j: int| 0 <= j < rs.len() ==> rs[j].imr_index != r,
        forall|k: int|
            0 <= k < entries.len() ==> !(#[trigger] entries[k] matches
            EventLogEntryV::TcgImrEvent(e) && e.imr_index == r),
    ensures
        (match spec_replay_from(rs, entries, i) {
            Ok(out) => forall|j: int| 0 <= j < out.len() ==> out[j].imr_index != r,
            Err(_) => true,
        }),
    decreases entries.len() - i,
{
    if 0 <= i < entries.len() {
        match entries[i] {
            EventLogEntryV::TcgImrEvent(e) => {
                if e.event_type == EV_NO_ACTION {
                    lemma_replay_from_registers(rs, entries, i + 1, r);
                } else {
                    lemma_replay_digests_other_registers(rs, e.imr_index, e.digests, r);
                    lemma_replay_from_registers(
                        spec_replay_digests(rs, e.imr_index, e.digests),
                        entries,
                        i + 1,
                        r,
                    );
                }
            },
            EventLogEntryV::TcgPcClientImrEvent(_) => {
                lemma_replay_from_registers(rs, entries, i + 1, r);
            },
            EventLogEntryV::TcgCanonicalEvent => {},
        }
    }
}

/// A register with no standard record in the sequence gets no entry
/// at all in the replay result.
pub proof fn lemma_replay_unobserved_register_has_no_entry(entries: Seq<EventLogEntryV>, r: u32)
    requires
        forall|k: int|
            0 <= k < entries.len() ==> !(#[trigger] entries[k] matches
            EventLogEntryV::TcgImrEvent(e) && e.imr_index == r),
    ensures
        (match spec_replay(entries) {
            Ok(out) => forall|j: int| 0 <= j < out.len() ==> out[j].imr_index != r,
            Err(_) => true,
        }),
{
    lemma_replay_from_registers(Seq::empty(), entries, 0, r);
}

/// Selection bounds: no bounds selects the full parsed sequence, a
/// start equal to the total selects nothing, a start beyond it is
/// refused, and a count past the end is clamped to the end.
pub proof fn lemma_select_range(total: u32, s: u32, c: u32)
    ensures
        (spec_select_range(total, None, None) matches Ok(pr) && pr.0 == 0 && pr.1 == total),
        s == total ==> (spec_select_range(total, Some(s), None) matches Ok(pr) && pr.0 == pr.1),
        s > total ==> (spec_select_range(total, Some(s), None) matches Err(e) && e
            == EventLogError::InvalidSelectStart),
        s < total && c > 0 && s + c > total ==> (spec_select_range(total, Some(s), Some(c))
            matches Ok(pr) && pr.1 == total),
{
}

/// The register a typed output record belongs to.
pub open spec fn spec_entry_register(e: EventLogEntryV) -> Option<u32> {
    match e {
        EventLogEntryV::TcgPcClientImrEvent(h) => Some(h.imr_index),
        EventLogEntryV::TcgImrEvent(ev) => Some(ev.imr_index),
        EventLogEntryV::TcgCanonicalEvent => None,
    }
}

/// How many records of a sequence belong to a register.
pub open spec fn spec_reg_count(entries: Seq<EventLogEntryV>, r: u32) -> int
    decreases entries.len(),
{
    if entries.len() == 0 {
        0
    } else {
        (if spec_entry_register(entries[0]) == Some(r) {
            1int
        } else {
            0int
        }) + spec_reg_count(entries.drop_first(), r)
    }
}

proof fn lemma_reg_count_concat(a: Seq<EventLogEntryV>, b: Seq<EventLogEntryV>, r: u32)
    ensures
        spec_reg_count(a + b, r) == spec_reg_count(a, r) + spec_reg_count(b, r),
    decreases a.len(),
{
    if a.len() == 0 {
        assert(a + b =~= b);
    } else {
        assert((a + b).drop_first() =~= a.drop_first() + b);
        assert((a + b)[0] == a[0]);
        lemma_reg_count_concat(a.drop_first(), b, r);
    }
}

proof fn lemma_parse_boot_counter_advance(
    data: Seq<u8>,
    pos: int,
    parse_format: u8,
    count: u32,
    header: SpecIdEventV,
    counters: Map<u32, u32>,
    r: u32,
)
    ensures
        ({
            let out = spec_parse_boot(data, pos, parse_format, count, header, counters);
            out.err is None ==> spec_cnt(out.counters, r) == spec_cnt(counters, r)
                + spec_reg_count(out.entries, r)
        }),
    decreases data.len() - pos,
{
    let out = spec_parse_boot(data, pos, parse_format, count, header, counters);
    if pos < 0 || pos >= data.len() || pos + 4 > data.len() || spec_u32_le(data, pos) == 0xFFFFFFFF
        || pos + 8 > data.len() {
    } else {
        lemma_parse_spec_id_consumed(data.skip(pos));
        lemma_parse_event_log_consumed(data.skip(pos), header.digest_sizes);
        if spec_u32_le(data, pos + 4) == EV_NO_ACTION && count == 0 {
            match spec_parse_spec_id_event_log(data.skip(pos)) {
                Err(_) => {},
                Ok(rec) => {
                    if spec_cnt(counters, rec.header_imr) != u32::MAX {
                        let rec_num = spec_cnt(counters, rec.header_imr);
                        let counters1 = spec_bump(counters, rec.header_imr);
                        match spec_format_event_log(
                            spec_event_log_of_header(rec, rec_num),
                            parse_format,
                        ) {
                            Err(_) => {},
                            Ok(entry) => {
                                if count != u32::MAX {
                                    let rest = spec_parse_boot(
                                        data,
                                        pos + rec.consumed,
                                        parse_format,
                                        (count + 1) as u32,
                                        rec.header,
                                        counters1,
                                    );
                                    lemma_parse_boot_counter_advance(
                                        data,
                                        pos + rec.consumed,
                                        parse_format,
                                        (count + 1) as u32,
                                        rec.header,
                                        counters1,
                                        r,
                                    );
                                    assert(spec_entry_register(entry) == Some(rec.header_imr));
                                    assert((seq![entry] + rest.entries).drop_first()
                                        =~= rest.entries);
                                    assert(spec_reg_count(out.entries, r) == (if rec.header_imr
                                        == r {
                                        1int
                                    } else {
                                        0int
                                    }) + spec_reg_count(rest.entries, r));
                                }
                            },
                        }
                    }
                },
            }
        } else {
            match spec_parse_event_log(data.skip(pos), header.digest_sizes) {
                Err(_) => {},
                Ok(rec) => {
                    if spec_cnt(counters, rec.imr_index) != u32::MAX {
                        let rec_num = spec_cnt(counters, rec.imr_index);
                        let counters1 = spec_bump(counters, rec.imr_index);
                        match spec_format_event_log(
                            spec_event_log_of_std(rec, rec_num),
                            parse_format,
                        ) {
                            Err(_) => {},
                            Ok(entry) => {
                                if count != u32::MAX {
                                    let rest = spec_parse_boot(
                                        data,
                                        pos + rec.consumed,
                                        parse_format,
                                        (count + 1) as u32,
                                        header,
                                        counters1,
                                    );
                                    lemma_parse_boot_counter_advance(
                                        data,
                                        pos + rec.consumed,
                                        parse_format,
                                        (count + 1) as u32,
                                        header,
                                        counters1,
                                        r,
                                    );
                                    assert(spec_entry_register(entry) == Some(rec.imr_index));
                                    assert((seq![entry] + rest.entries).drop_first()
                                        =~= rest.entries);
                                    assert(spec_reg_count(out.entries, r) == (if rec.imr_index
                                        == r {
                                        1int
                                    } else {
                                        0int
                                    }) + spec_reg_count(rest.entries, r));
                                }
                            },
                        }
                    }
                },
            }
        }
    }
}

proof fn lemma_parse_runtime_counter_advance(
    lines: Seq<Seq<char>>,
    i: int,
    parse_format: u8,
    count: u32,
    header: SpecIdEventV,
    counters: Map<u32, u32>,
    r: u32,
)
    ensures
        ({
            let out = spec_parse_runtime(lines, i, parse_format, count, header, counters);
            out.err is None ==> spec_cnt(out.counters, r) == spec_cnt(counters, r)
                + spec_reg_count(out.entries, r)
        }),
    decreases lines.len() - i,
{
    let out = spec_parse_runtime(lines, i, parse_format, count, header, counters);
    if i < 0 || i >= lines.len() {
    } else if lines[i].len() == 0 {
        lemma_parse_runtime_counter_advance(lines, i + 1, parse_format, count, header, counters, r);
    } else {
        match crate::ima::spec_parse_ima_line(lines[i]) {
            Err(_) => {},
            Ok(rec) => {
                if spec_cnt(counters, rec.imr_index) != u32::MAX {
                    let rec_num = spec_cnt(counters, rec.imr_index);
                    let counters1 = spec_bump(counters, rec.imr_index);
                    match spec_format_event_log(spec_event_log_of_ima(rec, rec_num), parse_format) {
                        Err(_) => {},
                        Ok(entry) => {
                            if count != u32::MAX {
                                let rest = spec_parse_runtime(
                                    lines,
                                    i + 1,
                                    parse_format,
                                    (count + 1) as u32,
                                    header,
                                    counters1,
                                );
                                lemma_parse_runtime_counter_advance(
                                    lines,
                                    i + 1,
                                    parse_format,
                                    (count + 1) as u32,
                                    header,
                                    counters1,
                                    r,
                                );
                                assert(spec_entry_register(entry) == Some(rec.imr_index));
                                assert((seq![entry] + rest.entries).drop_first() =~= rest.entries);
                                assert(spec_reg_count(out.entries, r) == (if rec.imr_index == r {
                                    1int
                                } else {
                                    0int
                                }) + spec_reg_count(rest.entries, r));
                            }
                        },
                    }
                }
            },
        }
    }
}

/// Binary and runtime records of one register draw from one counter
/// space: a successful parse advances each register's counter by
/// exactly the number of records it produced for that register,
/// independent of interleaving with other registers.  Since every
/// record's number is the register's counter at the moment it is
/// parsed, the numbers drawn for a register are the consecutive
/// values from its previous counter on — 0, 1, 2, ... on a fresh
/// collection.
pub proof fn lemma_parse_counter_advance(
    boot: Seq<u8>,
    lines: Seq<Seq<char>>,
    parse_format: u8,
    count: u32,
    header: SpecIdEventV,
    counters: Map<u32, u32>,
    r: u32,
)
    ensures
        ({
            let out = spec_parse_full(boot, lines, parse_format, count, header, counters);
            out.err is None ==> spec_cnt(out.counters, r) == spec_cnt(counters, r)
                + spec_reg_count(out.entries, r)
        }),
{
    if boot.len() > 0 {
        let b = spec_parse_boot(boot, 0, parse_format, count, header, counters);
        lemma_parse_boot_counter_advance(boot, 0, parse_format, count, header, counters, r);
        if b.err is None {
            let r2 = spec_parse_runtime(lines, 0, parse_format, b.count, b.header, b.counters);
            lemma_parse_runtime_counter_advance(
                lines,
                0,
                parse_format,
                b.count,
                b.header,
                b.counters,
                r,
            );
            lemma_reg_count_concat(b.entries, r2.entries, r);
        }
    }
}

/// Per-register record numbers form the sequence 0, 1, 2, ...: a
/// fresh counter map hands out zero first; handing out a number for
/// a register advances exactly that register's next number by one;
/// and other registers' numbers are untouched, so each register's
/// sequence is strictly increasing independent of interleaving.
pub proof fn lemma_record_number_sequence(m: Map<u32, u32>, r1: u32, r2: u32)
    requires
        spec_cnt(m, r1) < u32::MAX,
    ensures
        spec_cnt(Map::empty(), r2) == 0,
        spec_cnt(spec_bump(m, r1), r1) == spec_cnt(m, r1) + 1,
        r1 != r2 ==> spec_cnt(spec_bump(m, r1), r2) == spec_cnt(m, r2),
{
}

} // verus!
