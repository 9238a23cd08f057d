use evidence_api::eventlog::{EventLogError, EventLogs};
use evidence_api::replay::ReplayResult;
use evidence_api::tcg::{
    EventLogEntry, TcgDigest, TcgImrEvent, EV_NO_ACTION, IMA_MEASUREMENT_EVENT,
    TCG_CANONICAL_FORMAT, TCG_PCCLIENT_FORMAT, TPM_ALG_ERROR, TPM_ALG_SHA1, TPM_ALG_SHA256,
};

use sha2::Digest;

fn push_u32(v: &mut Vec<u8>, x: u32) {
    v.extend_from_slice(&x.to_le_bytes());
}

fn push_u16(v: &mut Vec<u8>, x: u16) {
    v.extend_from_slice(&x.to_le_bytes());
}

/// A spec-ID header record declaring the given `(algorithm, size)`
/// pairs, laid out as the first record of a boot-time blob.
fn spec_id_blob(algs: &[(u16, u16)]) -> Vec<u8> {
    let mut v = Vec::new();
    push_u32(&mut v, 1); // on-disk one-based register index
    push_u32(&mut v, EV_NO_ACTION);
    v.extend_from_slice(&[0u8; 20]); // fixed legacy digest
    let event_size = 16 + 4 + 4 + 4 * algs.len() as u32 + 1;
    push_u32(&mut v, event_size);
    v.extend_from_slice(b"Spec ID Event03\0");
    push_u32(&mut v, 0); // platform class
    v.push(0); // version minor
    v.push(2); // version major
    v.push(0); // errata
    v.push(2); // uintn size
    push_u32(&mut v, algs.len() as u32);
    for &(algo, size) in algs {
        push_u16(&mut v, algo);
        push_u16(&mut v, size);
    }
    v.push(0); // vendor info size
    v
}

/// One standard record for the given one-based register field.
fn standard_record(imr_raw: u32, event_type: u32, digests: &[(u16, Vec<u8>)], event: &[u8]) -> Vec<u8> {
    let mut v = Vec::new();
    push_u32(&mut v, imr_raw);
    push_u32(&mut v, event_type);
    push_u32(&mut v, digests.len() as u32);
    for (algo, hash) in digests {
        push_u16(&mut v, *algo);
        v.extend_from_slice(hash);
    }
    push_u32(&mut v, event.len() as u32);
    v.extend_from_slice(event);
    v
}

fn two_alg_blob() -> Vec<u8> {
    let mut blob = spec_id_blob(&[(TPM_ALG_SHA256, 32), (TPM_ALG_SHA1, 20)]);
    blob.extend_from_slice(&standard_record(
        2,
        0x8,
        &[(TPM_ALG_SHA256, vec![0xab; 32]), (TPM_ALG_SHA1, vec![0xcd; 20])],
        b"test",
    ));
    blob
}

#[test]
fn round_trip_header_and_standard_record() {
    let mut logs = EventLogs::new(two_alg_blob(), Vec::new(), TCG_PCCLIENT_FORMAT);
    assert!(logs.parse().is_ok());
    assert_eq!(logs.count, 2);
    match &logs.event_logs[0] {
        EventLogEntry::TcgPcClientImrEvent(h) => {
            assert_eq!(h.imr_index, 0);
            assert_eq!(h.event_type, EV_NO_ACTION);
            assert_eq!(h.digest, vec![0u8; 20]);
        }
        _ => panic!("first record should render as the header event"),
    }
    match &logs.event_logs[1] {
        EventLogEntry::TcgImrEvent(e) => {
            assert_eq!(e.imr_index, 1);
            assert_eq!(e.event_type, 0x8);
            assert_eq!(e.digests.len(), 2);
            assert_eq!(e.digests[0].algo_id, TPM_ALG_SHA256);
            assert_eq!(e.digests[0].hash, vec![0xab; 32]);
            assert_eq!(e.digests[1].algo_id, TPM_ALG_SHA1);
            assert_eq!(e.digests[1].hash, vec![0xcd; 20]);
            assert_eq!(e.event, b"test".to_vec());
            assert_eq!(e.event_size, 4);
        }
        _ => panic!("second record should be a standard event"),
    }
    // the parsed header is kept for later records
    assert_eq!(logs.spec_id_header_event.number_of_algorithms, 2);
    assert_eq!(logs.spec_id_header_event.digest_sizes.len(), 2);
    assert_eq!(logs.spec_id_header_event.digest_sizes[0].algo_id, TPM_ALG_SHA256);
    assert_eq!(logs.spec_id_header_event.digest_sizes[0].digest_size, 32);
    assert_eq!(logs.spec_id_header_event.signature, b"Spec ID Event03\0".to_vec());
}

#[test]
fn parse_is_idempotent() {
    let mut logs = EventLogs::new(two_alg_blob(), Vec::new(), TCG_PCCLIENT_FORMAT);
    assert!(logs.parse().is_ok());
    let count = logs.count;
    let first = match &logs.event_logs[1] {
        EventLogEntry::TcgImrEvent(e) => e.digests[0].hash.clone(),
        _ => panic!("expected a standard event"),
    };
    assert!(logs.parse().is_ok());
    assert_eq!(logs.count, count);
    assert_eq!(logs.event_logs.len(), count as usize);
    match &logs.event_logs[1] {
        EventLogEntry::TcgImrEvent(e) => assert_eq!(e.digests[0].hash, first),
        _ => panic!("expected a standard event"),
    }
}

#[test]
fn record_numbers_increase_per_register() {
    let mut logs = EventLogs::new(Vec::new(), Vec::new(), TCG_PCCLIENT_FORMAT);
    assert_eq!(logs.get_record_number(3), 0);
    assert_eq!(logs.get_record_number(5), 0);
    assert_eq!(logs.get_record_number(3), 1);
    assert_eq!(logs.get_record_number(3), 2);
    assert_eq!(logs.get_record_number(5), 1);
    assert_eq!(logs.get_record_number(0), 0);
}

#[test]
fn unknown_algorithm_fails_and_appends_nothing() {
    let mut blob = spec_id_blob(&[(TPM_ALG_SHA256, 32)]);
    blob.extend_from_slice(&standard_record(2, 0x8, &[(0x10, vec![0u8; 32])], b""));
    let mut logs = EventLogs::new(blob, Vec::new(), TCG_PCCLIENT_FORMAT);
    match logs.parse() {
        Err(EventLogError::UnknownAlgorithm { algo_id }) => assert_eq!(algo_id, 0x10),
        other => panic!("expected an unknown-algorithm failure, got {:?}", other),
    }
    // the record that failed contributed nothing; only the header
    // parsed before it remains
    assert_eq!(logs.count, 1);
    assert_eq!(logs.event_logs.len(), 1);
}

#[test]
fn sentinel_first_means_empty_log() {
    let mut blob = Vec::new();
    push_u32(&mut blob, 0xFFFFFFFF);
    push_u32(&mut blob, 0x1234);
    let mut logs = EventLogs::new(blob, Vec::new(), TCG_PCCLIENT_FORMAT);
    assert!(logs.parse().is_ok());
    assert_eq!(logs.count, 0);
    assert!(logs.event_logs.is_empty());
}

#[test]
fn empty_boot_data_is_an_error() {
    let mut logs = EventLogs::new(Vec::new(), Vec::new(), TCG_PCCLIENT_FORMAT);
    assert_eq!(logs.parse(), Err(EventLogError::NoBootData));
}

#[test]
fn truncated_blob_is_an_error() {
    let mut logs = EventLogs::new(vec![1, 2, 3], Vec::new(), TCG_PCCLIENT_FORMAT);
    assert_eq!(logs.parse(), Err(EventLogError::TruncatedLog));
    let mut blob = spec_id_blob(&[(TPM_ALG_SHA256, 32)]);
    blob.truncate(40);
    let mut logs2 = EventLogs::new(blob, Vec::new(), TCG_PCCLIENT_FORMAT);
    assert_eq!(logs2.parse(), Err(EventLogError::TruncatedLog));
}

#[test]
fn zero_register_index_is_an_error() {
    let blob = standard_record(0, 0x8, &[], b"");
    let mut logs = EventLogs::new(blob, Vec::new(), TCG_PCCLIENT_FORMAT);
    assert_eq!(logs.parse(), Err(EventLogError::ZeroRegisterIndex));
}

#[test]
fn canonical_format_is_unsupported() {
    let mut logs = EventLogs::new(two_alg_blob(), Vec::new(), TCG_CANONICAL_FORMAT);
    assert_eq!(logs.parse(), Err(EventLogError::UnsupportedFormat));
}

#[test]
fn select_full_and_clamped_ranges() {
    let mut logs = EventLogs::new(two_alg_blob(), Vec::new(), TCG_PCCLIENT_FORMAT);
    let all = logs.select(None, None).unwrap();
    assert_eq!(all.len(), 2);
    let total = logs.count;
    let empty = logs.select(Some(total), None).unwrap();
    assert!(empty.is_empty());
    assert!(matches!(
        logs.select(Some(total + 1), None),
        Err(EventLogError::InvalidSelectStart)
    ));
    assert!(matches!(logs.select(Some(0), Some(0)), Err(EventLogError::InvalidSelectCount)));
    let clamped = logs.select(Some(1), Some(1000)).unwrap();
    assert_eq!(clamped.len(), 1);
    let second = logs.select(Some(1), Some(1)).unwrap();
    assert_eq!(second.len(), 1);
    match (&second[0], &logs.event_logs[1]) {
        (EventLogEntry::TcgImrEvent(a), EventLogEntry::TcgImrEvent(b)) => {
            assert_eq!(a.digests[0].hash, b.digests[0].hash);
        }
        _ => panic!("selection should copy the standard event"),
    }
}

#[test]
fn select_with_zero_count_at_total_start_is_empty() {
    // start == total returns an empty selection before the count is
    // even looked at
    let mut logs = EventLogs::new(two_alg_blob(), Vec::new(), TCG_PCCLIENT_FORMAT);
    let r = logs.select(Some(2), Some(0)).unwrap();
    assert!(r.is_empty());
}

fn imr_event(imr: u32, algo: u16, hash: Vec<u8>) -> EventLogEntry {
    EventLogEntry::TcgImrEvent(TcgImrEvent {
        imr_index: imr,
        event_type: 0x8,
        digests: vec![TcgDigest { algo_id: algo, hash }],
        event_size: 0,
        event: Vec::new(),
    })
}

#[test]
fn replay_chains_sha256_extends() {
    let d1 = vec![0x11u8; 32];
    let d2 = vec![0x22u8; 32];
    let entries = vec![
        imr_event(3, TPM_ALG_SHA256, d1.clone()),
        imr_event(3, TPM_ALG_SHA256, d2.clone()),
    ];
    let results = EventLogs::replay(entries).unwrap();
    assert_eq!(results.len(), 1);
    assert_eq!(results[0].imr_index, 3);
    assert_eq!(results[0].digests.len(), 1);
    assert_eq!(results[0].digests[0].algo_id, TPM_ALG_SHA256);
    let mut step1 = vec![0u8; 32];
    step1.extend_from_slice(&d1);
    let h1 = sha2::Sha256::digest(&step1).to_vec();
    let mut step2 = h1.clone();
    step2.extend_from_slice(&d2);
    let h2 = sha2::Sha256::digest(&step2).to_vec();
    assert_eq!(results[0].digests[0].hash, h2);
}

#[test]
fn replay_of_zero_records_for_a_register_yields_no_entry() {
    let results = EventLogs::replay(Vec::new()).unwrap();
    assert!(results.is_empty());
    let entries = vec![imr_event(2, TPM_ALG_SHA256, vec![0x33; 32])];
    let results = EventLogs::replay(entries).unwrap();
    assert_eq!(results.len(), 1);
    assert_eq!(results[0].imr_index, 2);
    assert!(results.iter().all(|r| r.imr_index != 3));
}

#[test]
fn replay_skips_no_action_and_header_records() {
    let mut logs = EventLogs::new(two_alg_blob(), Vec::new(), TCG_PCCLIENT_FORMAT);
    logs.parse().unwrap();
    let no_action = EventLogEntry::TcgImrEvent(TcgImrEvent {
        imr_index: 1,
        event_type: EV_NO_ACTION,
        digests: vec![TcgDigest { algo_id: TPM_ALG_SHA256, hash: vec![0x44; 32] }],
        event_size: 0,
        event: Vec::new(),
    });
    let mut entries = logs.select(None, None).unwrap();
    entries.push(no_action);
    let results = EventLogs::replay(entries).unwrap();
    // only the standard record on register 1 contributes
    assert_eq!(results.len(), 1);
    assert_eq!(results[0].imr_index, 1);
    assert_eq!(results[0].digests.len(), 2);
}

#[test]
fn replay_tolerates_unrecognized_algorithms() {
    // an undeclared algorithm is skipped per digest, not failed
    let entries = vec![imr_event(4, 0x42, vec![0x55; 16])];
    let results = EventLogs::replay(entries).unwrap();
    assert_eq!(results.len(), 1);
    assert_eq!(results[0].imr_index, 4);
    assert_eq!(results[0].digests.len(), 1);
    assert_eq!(results[0].digests[0].algo_id, 0x42);
    // the running value stays the reset value: the registry knows no
    // digest size for it, so the buffer is empty
    assert!(results[0].digests[0].hash.is_empty());
}

#[test]
fn replay_refuses_canonical_records() {
    let entries = vec![EventLogEntry::TcgCanonicalEvent(
        evidence_api::tcg::TcgCanonicalEvent {},
    )];
    assert!(matches!(
        EventLogs::replay(entries),
        Err(EventLogError::CanonicalNotSupported)
    ));
}

#[test]
fn ima_line_parses_fields_and_payload() {
    let line = format!(
        "10 {} ima-ng sha384:74ccc46104f42db070375e6876a23aeaa3c2ae458888475baaa171c3fb7001b0 /etc/lsb-release",
        "aa".repeat(20)
    );
    let mut logs = EventLogs::new(Vec::new(), Vec::new(), TCG_PCCLIENT_FORMAT);
    let ev = logs.parse_ima_event_log(&line).unwrap();
    assert_eq!(ev.imr_index, 10);
    assert_eq!(ev.rec_num, 0);
    assert_eq!(ev.event_type, IMA_MEASUREMENT_EVENT);
    assert_eq!(ev.digests.len(), 1);
    // a 20-byte digest means the legacy algorithm
    assert_eq!(ev.digests[0].algo_id, TPM_ALG_SHA1);
    assert_eq!(ev.digests[0].hash, vec![0xaa; 20]);
    assert_eq!(
        ev.event,
        b"sha384:74ccc46104f42db070375e6876a23aeaa3c2ae458888475baaa171c3fb7001b0 /etc/lsb-release"
            .to_vec()
    );
    assert_eq!(ev.extra_info.get("template_name").unwrap().as_str(), "ima-ng");
}

#[test]
fn ima_line_shares_the_register_counter_space() {
    let blob = {
        let mut b = spec_id_blob(&[(TPM_ALG_SHA256, 32)]);
        // a binary record on register 10 (one-based field 11)
        b.extend_from_slice(&standard_record(11, 0x8, &[(TPM_ALG_SHA256, vec![0; 32])], b""));
        b
    };
    let line = format!("10 {} ima-ng payload", "ab".repeat(20));
    let mut logs = EventLogs::new(blob, vec![line], TCG_PCCLIENT_FORMAT);
    logs.parse().unwrap();
    assert_eq!(logs.count, 3);
    // register 10 got the binary record as 0, so the runtime record
    // advanced the same counter to 2
    assert_eq!(logs.get_record_number(10), 2);
}

#[test]
fn ima_line_errors() {
    let mut logs = EventLogs::new(Vec::new(), Vec::new(), TCG_PCCLIENT_FORMAT);
    assert!(matches!(
        logs.parse_ima_event_log("10 aabb"),
        Err(EventLogError::ImaTooFewFields)
    ));
    assert!(matches!(
        logs.parse_ima_event_log(
            "ten aabbccddeeff00112233445566778899aabbccddeeff00112233445566778899aabbccdd ima-ng x"
        ),
        Err(EventLogError::ImaBadRegisterIndex)
    ));
    assert!(matches!(
        logs.parse_ima_event_log("10 abc ima-ng x"),
        Err(EventLogError::ImaUnknownDigestLength)
    ));
    let bad_hex = "zz".repeat(20);
    assert!(matches!(
        logs.parse_ima_event_log(&format!("10 {} ima-ng x", bad_hex)),
        Err(EventLogError::ImaBadDigest)
    ));
}

#[test]
fn failing_runtime_line_aborts_the_parse() {
    let blob = spec_id_blob(&[(TPM_ALG_SHA256, 32)]);
    let mut logs = EventLogs::new(blob, vec!["garbage".to_string()], TCG_PCCLIENT_FORMAT);
    assert_eq!(logs.parse(), Err(EventLogError::ImaTooFewFields));
}

#[test]
fn empty_runtime_lines_are_skipped() {
    let blob = spec_id_blob(&[(TPM_ALG_SHA256, 32)]);
    let line = format!("3 {} ima-ng data", "0f".repeat(20));
    let mut logs = EventLogs::new(blob, vec![String::new(), line], TCG_PCCLIENT_FORMAT);
    logs.parse().unwrap();
    assert_eq!(logs.count, 2);
}

#[test]
fn replay_result_show_renders_index_and_digests() {
    let r = ReplayResult {
        imr_index: 7,
        digests: vec![TcgDigest { algo_id: TPM_ALG_SHA256, hash: vec![0xab, 0xcd] }],
    };
    assert_eq!(
        r.show(),
        "Replay Result of IMR[7]\nAlgorithm: TPM_ALG_SHA256\nDigest: abcd\n"
    );
}

#[test]
fn algorithm_registry_values() {
    assert_eq!(TcgDigest::get_digest_size_from_algorithm_id(TPM_ALG_SHA1), 20);
    assert_eq!(TcgDigest::get_digest_size_from_algorithm_id(TPM_ALG_SHA256), 32);
    assert_eq!(TcgDigest::get_digest_size_from_algorithm_id(0xC), 48);
    assert_eq!(TcgDigest::get_digest_size_from_algorithm_id(0xD), 64);
    assert_eq!(TcgDigest::get_digest_size_from_algorithm_id(TPM_ALG_ERROR), 0);
    assert_eq!(TcgDigest::get_algorithm_id_from_digest_size(20), Some(TPM_ALG_SHA1));
    assert_eq!(TcgDigest::get_algorithm_id_from_digest_size(64), Some(0xD));
    assert_eq!(TcgDigest::get_algorithm_id_from_digest_size(21), None);
    let d = TcgDigest { algo_id: TPM_ALG_SHA1, hash: Vec::new() };
    assert_eq!(d.get_algorithm_id_str(), "TPM_ALG_SHA1");
    let u = TcgDigest { algo_id: 0x77, hash: Vec::new() };
    assert_eq!(u.get_algorithm_id_str(), "UNKNOWN");
}

#[test]
fn decimal_rendering() {
    assert_eq!(evidence_api::render::u32_dec_string(0), "0");
    assert_eq!(evidence_api::render::u32_dec_string(10), "10");
    assert_eq!(evidence_api::render::u32_dec_string(4294967295), "4294967295");
}

#[test]
fn event_log_show_renders_all_fields() {
    let mut logs = EventLogs::new(Vec::new(), Vec::new(), TCG_PCCLIENT_FORMAT);
    let line = format!("4 {} ima-ng data", "0b".repeat(20));
    let ev = logs.parse_ima_event_log(&line).unwrap();
    let text = ev.show();
    assert!(text.starts_with("TcgEventLog\nrec_num = 0\nimr_index = 4\nevent_type = 20\n"));
    assert!(text.contains(&format!("digest[4] = {}", "0b".repeat(20))));
    assert!(text.contains("event_size = 4\nevent = 64617461\n"));
}

#[test]
fn runtime_lines_append_after_binary_records_in_file_order() {
    let blob = {
        let mut b = spec_id_blob(&[(TPM_ALG_SHA256, 32)]);
        b.extend_from_slice(&standard_record(1, 0x8, &[(TPM_ALG_SHA256, vec![1; 32])], b"a"));
        b
    };
    let line1 = format!("5 {} ima-ng first", "01".repeat(20));
    let line2 = format!("6 {} ima-ng second", "02".repeat(20));
    let mut logs = EventLogs::new(blob, vec![line1, line2], TCG_PCCLIENT_FORMAT);
    logs.parse().unwrap();
    assert_eq!(logs.count, 4);
    match (&logs.event_logs[2], &logs.event_logs[3]) {
        (EventLogEntry::TcgImrEvent(a), EventLogEntry::TcgImrEvent(b)) => {
            assert_eq!(a.imr_index, 5);
            assert_eq!(a.event, b"first".to_vec());
            assert_eq!(b.imr_index, 6);
            assert_eq!(b.event, b"second".to_vec());
        }
        _ => panic!("runtime records should follow the binary records"),
    }
}
