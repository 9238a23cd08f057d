use evidence_api::tcg::{TcgDigest, IMA_MEASUREMENT_EVENT, TPM_ALG_SHA256};
use evidence_api::tcgcel::{
    CelEventContent, TcgCelContent, TcgCelDigests, TcgCelImrNvindex, TcgCelRecnum, TcgCelTypes,
    TcgImaTlv, TcgTlv, TcgTlvBase, TcgTpmiCelContentType, TcgTpmsCelEvent, TcgTpmsEventCelMgt,
    TcgTpmsEventImaTemplate, TcgTpmsEventPcClientStd, TcgTpmuCelMgt, TcgTpmuEventContent,
};

#[test]
fn content_type_table_and_validity() {
    let table = TcgTpmiCelContentType::cel_content_table();
    assert_eq!(table.get(&0x4), Some(&"CEL"));
    assert_eq!(table.get(&0x5), Some(&"PCCLIENT_STD"));
    assert_eq!(table.get(&0x7), Some(&"IMA_TEMPLATE"));
    assert_eq!(table.get(&0x8), Some(&"IMA_TLV"));
    assert!(TcgTpmiCelContentType::is_valid_content(0x4));
    assert!(TcgTpmiCelContentType::is_valid_content(0x8));
    assert!(!TcgTpmiCelContentType::is_valid_content(0x6));
    assert!(TcgTpmiCelContentType::new(0x5).is_ok());
    assert_eq!(
        TcgTpmiCelContentType::new(0x6).err(),
        Some("Invalid CEL content type declared.")
    );
    assert_eq!(TcgTpmiCelContentType::get_content_type_string(0x7), "IMA_TEMPLATE");
    assert_eq!(TcgTpmiCelContentType::get_content_type_string(0x99), "UNKNOWN");
}

#[test]
fn cel_mgt_validation() {
    assert!(TcgTpmuCelMgt::new(TcgCelTypes::CEL_MGT_CEL_VERSION_MAJOR, None, 0, None).is_ok());
    assert_eq!(
        TcgTpmuCelMgt::new(9, None, 0, None).err(),
        Some("Invalid value specified for cel_version.")
    );
    assert_eq!(
        TcgTpmuCelMgt::new(1, None, 7, None).err(),
        Some("Invalid value specified for state_trans.")
    );
    let mgt = TcgTpmuCelMgt::new(1, Some(42), 2, Some(5)).unwrap();
    assert_eq!(mgt.cel_version(), 1);
    assert_eq!(mgt.cel_timestamp(), Some(42));
    assert_eq!(mgt.state_trans(), 2);
    assert_eq!(mgt.firmware_end(), Some(5));
    assert_eq!(mgt.to_tlv().err(), Some("Not implemented for TLV encoding."));
}

#[test]
fn cel_mgt_event_validation() {
    let mgt = TcgTpmuCelMgt::new(1, None, 0, None).unwrap();
    let ev = TcgTpmsEventCelMgt::new(TcgCelTypes::CEL_MGT_CEL_TIMESTAMP, mgt).unwrap();
    assert_eq!(ev.get_type(), 0x4);
    assert_eq!(ev.to_tlv().err(), Some("Not implemented for TLV encoding."));
    let mgt2 = TcgTpmuCelMgt::new(1, None, 0, None).unwrap();
    assert_eq!(
        TcgTpmsEventCelMgt::new(3, mgt2).err(),
        Some("Invalid value for TPMI_CELMGTTYPE.")
    );
}

#[test]
fn pcclient_std_content_and_tlv() {
    let ev = TcgTpmsEventPcClientStd::new(0x8, vec![1, 2, 3]);
    assert_eq!(ev.event_type(), 0x8);
    assert_eq!(ev.event_data(), &vec![1, 2, 3]);
    assert_eq!(ev.get_type(), 0x5);
    let tlvs = ev.to_tlv();
    assert_eq!(tlvs.len(), 2);
    assert_eq!(tlvs[0].get_type(), TcgCelTypes::PCCLIENT_STD_TYPE);
    assert_eq!(tlvs[0].get_value(), 0x8);
    assert_eq!(tlvs[1].get_type(), TcgCelTypes::PCCLIENT_STD_CONTENT);
    assert_eq!(tlvs[1].get_value(), 6);
    assert_eq!(
        tlvs[0].get_attr_table().get(&0).map(|s| s.as_str()),
        Some("PCCLIENT_STD_TYPE")
    );
}

#[test]
fn ima_template_content_and_tlv() {
    let ev = TcgTpmsEventImaTemplate::new("abc".to_string(), "ima-ng".to_string());
    assert_eq!(ev.template_data(), "abc");
    assert_eq!(ev.template_name(), "ima-ng");
    assert_eq!(ev.get_type(), 0x7);
    let tlvs = ev.to_tlv();
    assert_eq!(tlvs.len(), 2);
    // byte sums of the UTF-8 text
    let name_sum: i32 = "ima-ng".bytes().map(|b| b as i32).sum();
    let data_sum: i32 = "abc".bytes().map(|b| b as i32).sum();
    assert_eq!(tlvs[0].get_value(), name_sum);
    assert_eq!(tlvs[1].get_value(), data_sum);
}

#[test]
fn ima_tlv_content() {
    let ev = TcgImaTlv::new();
    assert_eq!(ev.get_type(), 0x8);
    assert_eq!(ev.to_tlv().err(), Some("Not implemented for TLV encoding."));
}

#[test]
fn event_content_union() {
    let inner = TcgTpmsEventImaTemplate::new("d".to_string(), "n".to_string());
    let content = TcgTpmuEventContent::new(CelEventContent::ImaTemplate(inner)).unwrap();
    assert_eq!(content.content_type(), "TcgTpmsEventImaTemplate");
    match content.event() {
        CelEventContent::ImaTemplate(t) => assert_eq!(t.template_name(), "n"),
        _ => panic!("content should carry the template"),
    }
    let std_ev = TcgTpmsEventPcClientStd::new(1, Vec::new());
    let content2 = TcgTpmuEventContent::new(CelEventContent::PcClientStd(std_ev)).unwrap();
    assert_eq!(content2.content_type(), "TcgTpmsEventPcClientStd");
}

fn digest() -> TcgDigest {
    TcgDigest { algo_id: TPM_ALG_SHA256, hash: vec![0x11; 32] }
}

#[test]
fn cel_event_construction_downgrades() {
    // both indices set: unusable record
    let e = TcgTpmsCelEvent::new(1, vec![digest()], Some(0x7), Some(2), Some(3), None);
    assert_eq!(e.index(), None);
    assert!(e.content().is_none());
    // unknown content type: downgraded too
    let e2 = TcgTpmsCelEvent::new(1, vec![digest()], Some(0x6), Some(2), None, None);
    assert_eq!(e2.content_type(), None);
    assert_eq!(e2.index(), None);
    // a valid record keeps its fields
    let inner = TcgTpmsEventImaTemplate::new("data".to_string(), "name".to_string());
    let content = TcgTpmuEventContent::new(CelEventContent::ImaTemplate(inner)).unwrap();
    let e3 = TcgTpmsCelEvent::new(9, vec![digest()], Some(0x7), Some(2), None, Some(content));
    assert_eq!(e3.rec_num(), 9);
    assert_eq!(e3.content_type(), Some(0x7));
    assert_eq!(e3.index(), Some(2));
    assert_eq!(e3.digests().len(), 1);
    assert!(e3.encoding().is_none());
}

#[test]
fn cel_event_setters() {
    let mut e = TcgTpmsCelEvent::new(0, Vec::new(), Some(0x7), None, None, None);
    e.set_rec_num(5);
    assert_eq!(e.rec_num(), 5);
    e.set_nv_index(7);
    assert_eq!(e.index(), Some(7));
    e.set_imr(3);
    assert_eq!(e.index(), Some(3));
    e.set_digests(vec![digest()]);
    assert_eq!(e.digests().len(), 1);
    let inner = TcgTpmsEventImaTemplate::new("x".to_string(), "y".to_string());
    e.set_content(TcgTpmuEventContent::new(CelEventContent::ImaTemplate(inner)).unwrap());
    assert!(e.content().is_some());
}

#[test]
fn cel_event_to_pcclient_format() {
    let inner = TcgTpmsEventImaTemplate::new("payload".to_string(), "ima-ng".to_string());
    let content = TcgTpmuEventContent::new(CelEventContent::ImaTemplate(inner)).unwrap();
    let e = TcgTpmsCelEvent::new(0, vec![digest()], Some(0x7), Some(4), None, Some(content));
    let imr_event = e.to_pcclient_format().unwrap();
    assert_eq!(imr_event.imr_index, 4);
    assert_eq!(imr_event.event_type, IMA_MEASUREMENT_EVENT);
    assert_eq!(imr_event.event, b"payload".to_vec());
    assert_eq!(imr_event.event_size, 7);
    assert_eq!(imr_event.digests.len(), 1);

    let std_inner = TcgTpmsEventPcClientStd::new(0x8, vec![9, 9]);
    let content2 = TcgTpmuEventContent::new(CelEventContent::PcClientStd(std_inner)).unwrap();
    let e2 = TcgTpmsCelEvent::new(0, vec![digest()], Some(0x5), Some(1), None, Some(content2));
    let imr_event2 = e2.to_pcclient_format().unwrap();
    assert_eq!(imr_event2.event_type, 0x8);
    assert_eq!(imr_event2.event, vec![9, 9]);

    // management content does not convert
    let mgt = TcgTpmuCelMgt::new(1, None, 0, None).unwrap();
    let mgt_ev = TcgTpmsEventCelMgt::new(80, mgt).unwrap();
    let content3 = TcgTpmuEventContent::new(CelEventContent::CelMgt(mgt_ev)).unwrap();
    let e3 = TcgTpmsCelEvent::new(0, Vec::new(), Some(0x4), Some(1), None, Some(content3));
    assert!(e3.to_pcclient_format().is_none());

    // a missing register index does not convert either
    let inner4 = TcgTpmsEventImaTemplate::new("p".to_string(), "n".to_string());
    let content4 = TcgTpmuEventContent::new(CelEventContent::ImaTemplate(inner4)).unwrap();
    let e4 = TcgTpmsCelEvent::new(0, Vec::new(), Some(0x7), None, None, Some(content4));
    assert!(e4.to_pcclient_format().is_none());
}

#[test]
fn cel_event_encoding_selectors() {
    let make = || TcgTpmsCelEvent::new(2, vec![digest()], Some(0x7), Some(1), None, None);
    let probe = make();
    let (tlv, projection) = probe.encode(make(), 2).unwrap();
    assert_eq!(tlv.encoding(), Some("TLV"));
    assert_eq!(tlv.rec_num(), 2);
    assert_eq!(tlv.digests().len(), 1);
    assert_eq!(tlv.digests()[0].hash, vec![0x11; 32]);
    // the transcribed entries carry the record's fields
    assert_eq!(projection.rec_num.get_type(), TcgCelTypes::CEL_SEQNUM);
    assert_eq!(projection.rec_num.get_value(), 2);
    assert_eq!(projection.index.get_type(), TcgCelTypes::CEL_PCR);
    assert_eq!(projection.index.get_value(), 1);
    assert_eq!(projection.digests.tlv_type, Some(TcgCelTypes::CEL_DIGESTS));
    assert_eq!(projection.digests.value, None);
    // JSON and CBOR are explicit unsupported failures
    assert_eq!(probe.encode(make(), 3).err(), Some("JSON encoding is not supported yet."));
    assert_eq!(probe.encode(make(), 4).err(), Some("CBOR encoding is not supported yet."));
    // an unknown selector falls back to TLV
    let (fallback, _) = probe.encode(make(), 42).unwrap();
    assert_eq!(fallback.encoding(), Some("TLV"));
}

#[test]
fn cbor_and_json_placeholders_are_refused() {
    let probe = TcgTpmsCelEvent::new(0, Vec::new(), Some(0x7), None, None, None);
    let record = TcgTpmsCelEvent::new(1, vec![digest()], Some(0x7), Some(1), None, None);
    assert_eq!(
        probe.encoded_in_cbor(record).err(),
        Some("CBOR encoding is not supported yet.")
    );
    let record2 = TcgTpmsCelEvent::new(1, vec![digest()], Some(0x7), Some(1), None, None);
    assert_eq!(
        probe.encoded_in_json(record2).err(),
        Some("JSON encoding is not supported yet.")
    );
}

#[test]
fn tlv_transcription_uses_nv_index_when_no_register() {
    let probe = TcgTpmsCelEvent::new(0, Vec::new(), Some(0x7), None, None, None);
    let record = TcgTpmsCelEvent::new(4, Vec::new(), Some(0x7), None, Some(9), None);
    let (_, projection) = probe.encode(record, 2).unwrap();
    assert_eq!(projection.index.get_type(), TcgCelTypes::CEL_NV_INDEX);
    assert_eq!(projection.index.get_value(), 9);
}

#[test]
fn tlv_base_and_constrained_entries() {
    let mut base = TcgTlvBase::new(1, 2);
    assert_eq!(base.get_type(), 1);
    assert_eq!(base.get_value(), 2);
    base.set_type(9);
    base.set_value(10);
    assert_eq!(base.get_type(), 9);
    assert_eq!(base.get_value(), 10);
    let mut table = std::collections::HashMap::new();
    table.insert(0, "zero".to_string());
    assert!(base.set_attr_table(table).is_ok());
    assert_eq!(base.get_attr_table().get(&0).map(|s| s.as_str()), Some("zero"));

    let mut rec = TcgCelRecnum::new();
    rec.set_type(5);
    assert_eq!(rec.get_type(), 0);
    rec.set_value(77);
    assert_eq!(rec.get_value(), 77);
    assert!(rec.set_attr_table(std::collections::HashMap::new()).is_err());

    let mut idx = TcgCelImrNvindex::new();
    idx.set_type(TcgCelTypes::CEL_PCR);
    assert_eq!(idx.get_type(), TcgCelTypes::CEL_PCR);
    idx.set_type(9);
    assert_eq!(idx.get_type(), TcgCelTypes::CEL_PCR);
    idx.set_type(TcgCelTypes::CEL_NV_INDEX);
    assert_eq!(idx.get_type(), TcgCelTypes::CEL_NV_INDEX);
}

#[test]
fn cel_content_entry_accepts_only_known_types() {
    let mut c = TcgCelContent::new();
    c.set_type(0x7);
    assert_eq!(c.get_type(), 0x7);
    c.set_type(0x6);
    assert_eq!(c.get_type(), 0x7);
}

#[test]
fn cel_digests_entry() {
    let mut d = TcgCelDigests::new();
    d.set_type(Some(TcgCelTypes::CEL_DIGESTS));
    assert_eq!(d.tlv_type, Some(TcgCelTypes::CEL_DIGESTS));
    d.set_type(Some(0x9));
    assert_eq!(d.tlv_type, Some(TcgCelTypes::CEL_DIGESTS));
    d.set_type(None);
    assert_eq!(d.tlv_type, Some(TcgCelTypes::CEL_DIGESTS));
    d.set_value(Some("abc".to_string()));
    assert_eq!(d.value, Some("abc".to_string()));
    assert!(d.set_attr_table(None).is_err());
}

#[test]
fn dump_renders_only_tlv_encoded_records() {
    let probe = TcgTpmsCelEvent::new(0, Vec::new(), Some(0x7), None, None, None);
    let plain = TcgTpmsCelEvent::new(3, vec![digest()], Some(0x7), Some(1), None, None);
    assert_eq!(plain.dump().err(), Some("Unsupported data format for dumping."));
    let (encoded, _) = probe
        .encode(TcgTpmsCelEvent::new(3, vec![digest()], Some(0x7), Some(1), None, None), 2)
        .unwrap();
    let text = encoded.dump().unwrap();
    assert!(text.starts_with(
        "Canonical Event Log Entry\nEncoding: TLV\nRec Num: 3\nIMR: 1\nType: 7 (IMA_TEMPLATE)\nDigests:\n"
    ));
    assert!(text.contains("Algorithm_id: 11 (TPM_ALG_SHA256)"));
    let mut oddly_tagged = TcgTpmsCelEvent::new(3, Vec::new(), Some(0x7), Some(1), None, None);
    oddly_tagged.encoding = Some("JSON".to_string());
    assert_eq!(oddly_tagged.dump().err(), Some("Unsupported data format for dumping."));
}
