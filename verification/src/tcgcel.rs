use vstd::prelude::*;

use std::collections::HashMap;

use vstd::string::{StrSliceExecFns, StringExecFns};
use vstd::utf8::encode_utf8;

use crate::tcg::{DigestV, ImrEventV, TcgDigest, TcgImrEvent, IMA_MEASUREMENT_EVENT};

verus! {

/// Type selectors of the canonical event log's TLV encoding.
pub struct TcgCelTypes;

impl TcgCelTypes {
    pub const CEL_SEQNUM: i32 = 0x00000000;

    pub const CEL_PCR: i32 = 0x00000001;

    pub const CEL_NV_INDEX: i32 = 0x00000002;

    pub const CEL_DIGESTS: i32 = 0x00000003;

    pub const CEL_MGT: i32 = 0x00000004;

    pub const CEL_PCCLIENT_STD: i32 = 0x00000005;

    pub const CEL_IMA_TEMPLATE: i32 = 0x00000007;

    pub const CEL_IMA_TLV: i32 = 0x00000008;

    pub const CEL_MGT_TYPE: i32 = 0;

    pub const CEL_MGT_DATA: i32 = 1;

    pub const CEL_MGT_CEL_VERSION: i32 = 1;

    pub const CEL_MGT_CEL_VERSION_MAJOR: i32 = 0;

    pub const CEL_MGT_CEL_VERSION_MINOR: i32 = 1;

    pub const CEL_MGT_FIRMWARE_END: i32 = 2;

    pub const CEL_MGT_CEL_TIMESTAMP: i32 = 80;

    pub const CEL_MGT_STATE_TRANS: i32 = 81;

    pub const CEL_MGT_STATE_TRANS_SUSPEND: i32 = 0;

    pub const CEL_MGT_STATE_TRANS_HIBERNATE: i32 = 1;

    pub const CEL_MGT_STATE_TRANS_KEXEC: i32 = 2;

    pub const IMA_TLV_PATH: i32 = 0;

    pub const IMA_TLV_DATAHASH: i32 = 1;

    pub const IMA_TLV_DATASIG: i32 = 2;

    pub const IMA_TLV_OWNER: i32 = 3;

    pub const IMA_TLV_GROUP: i32 = 4;

    pub const IMA_TLV_MODE: i32 = 5;

    pub const IMA_TLV_TIMESTAMP: i32 = 6;

    pub const IMA_TLV_LABEL: i32 = 7;

    pub const IMA_TEMPLATE_NAME: i32 = 0;

    pub const IMA_TEMPLATE_DATA: i32 = 1;

    pub const PCCLIENT_STD_TYPE: i32 = 0;

    pub const PCCLIENT_STD_CONTENT: i32 = 1;
}

/// The content types the canonical event log knows.
pub open spec fn spec_is_valid_content(content_type: i32) -> bool {
    content_type == 0x4 || content_type == 0x5 || content_type == 0x7 || content_type == 0x8
}

/// Display name of a content type.
pub open spec fn spec_content_type_string(content_type: i32) -> Seq<char> {
    if content_type == 0x4 {
        "CEL"@
    } else if content_type == 0x5 {
        "PCCLIENT_STD"@
    } else if content_type == 0x7 {
        "IMA_TEMPLATE"@
    } else if content_type == 0x8 {
        "IMA_TLV"@
    } else {
        "UNKNOWN"@
    }
}

/// A validated canonical-event content type.
pub struct TcgTpmiCelContentType {
    pub content_type: i32,
}

impl TcgTpmiCelContentType {
    const CEL: i32 = 0x4;

    const PCCLIENT_STD: i32 = 0x5;

    const IMA_TEMPLATE: i32 = 0x7;

    const IMA_TLV: i32 = 0x8;

    /// The table of known content types and their display names.
    pub fn cel_content_table() -> (m: HashMap<i32, &'static str>)
        ensures
            forall|t: i32| #[trigger] m@.contains_key(t) <==> spec_is_valid_content(t),
            m@.contains_key(0x4) && m@[0x4]@ == "CEL"@,
            m@.contains_key(0x5) && m@[0x5]@ == "PCCLIENT_STD"@,
            m@.contains_key(0x7) && m@[0x7]@ == "IMA_TEMPLATE"@,
            m@.contains_key(0x8) && m@[0x8]@ == "IMA_TLV"@,
    {
        let mut m: HashMap<i32, &'static str> = HashMap::new();
        m.insert(Self::CEL, "CEL");
        m.insert(Self::PCCLIENT_STD, "PCCLIENT_STD");
        m.insert(Self::IMA_TEMPLATE, "IMA_TEMPLATE");
        m.insert(Self::IMA_TLV, "IMA_TLV");
        m
    }

    pub fn new(content_type: i32) -> (r: Result<Self, &'static str>)
        ensures
            (match r {
                Ok(c) => spec_is_valid_content(content_type) && c.content_type == content_type,
                Err(m) => !spec_is_valid_content(content_type) && m@
                    == "Invalid CEL content type declared."@,
            }),
    {
        if !Self::is_valid_content(content_type) {
            return Err("Invalid CEL content type declared.");
        }
        Ok(Self { content_type })
    }

    pub fn is_valid_content(content_type: i32) -> (r: bool)
        ensures
            r == spec_is_valid_content(content_type),
    {
        let table = Self::cel_content_table();
        table.contains_key(&content_type)
    }

    pub fn get_content_type_string(content_type: i32) -> (r: &'static str)
        ensures
            r@ == spec_content_type_string(content_type),
    {
        let table = Self::cel_content_table();
        match table.get(&content_type) {
            Some(s) => *s,
            None => "UNKNOWN",
        }
    }
}

/// One timed or versioned management datum of a canonical log.
pub struct TcgTpmuCelMgt {
    pub cel_version: i32,
    pub firmware_end: Option<i32>,
    pub cel_timestamp: Option<i32>,
    pub state_trans: i32,
}

impl TcgTpmuCelMgt {
    pub fn new(
        cel_version: i32,
        cel_timestamp: Option<i32>,
        state_trans: i32,
        firmware_end: Option<i32>,
    ) -> (r: Result<Self, &'static str>)
        ensures
            (match r {
                Ok(c) => (cel_version == 0 || cel_version == 1) && (state_trans == 0 || state_trans
                    == 1 || state_trans == 2) && c.cel_version == cel_version && c.cel_timestamp
                    == cel_timestamp && c.state_trans == state_trans && c.firmware_end
                    == firmware_end,
                Err(m) => (!(cel_version == 0 || cel_version == 1) && m@
                    == "Invalid value specified for cel_version."@) || ((cel_version == 0
                    || cel_version == 1) && !(state_trans == 0 || state_trans == 1 || state_trans
                    == 2) && m@ == "Invalid value specified for state_trans."@),
            }),
    {
        if !(cel_version == TcgCelTypes::CEL_MGT_CEL_VERSION_MAJOR || cel_version
            == TcgCelTypes::CEL_MGT_CEL_VERSION_MINOR) {
            return Err("Invalid value specified for cel_version.");
        }
        if !(state_trans == TcgCelTypes::CEL_MGT_STATE_TRANS_SUSPEND || state_trans
            == TcgCelTypes::CEL_MGT_STATE_TRANS_HIBERNATE || state_trans
            == TcgCelTypes::CEL_MGT_STATE_TRANS_KEXEC) {
            return Err("Invalid value specified for state_trans.");
        }
        Ok(Self { cel_version, firmware_end, cel_timestamp, state_trans })
    }

    pub fn cel_version(&self) -> (r: i32)
        ensures
            r == self.cel_version,
    {
        self.cel_version
    }

    pub fn cel_timestamp(&self) -> (r: Option<i32>)
        ensures
            r == self.cel_timestamp,
    {
        self.cel_timestamp
    }

    pub fn firmware_end(&self) -> (r: Option<i32>)
        ensures
            r == self.firmware_end,
    {
        self.firmware_end
    }

    pub fn state_trans(&self) -> (r: i32)
        ensures
            r == self.state_trans,
    {
        self.state_trans
    }

    /// TLV transcription of management data is not supported yet.
    pub fn to_tlv(&self) -> (r: Result<Vec<TcgTlvBase>, &'static str>)
        ensures
            r matches Err(m) && m@ == "Not implemented for TLV encoding."@,
    {
        Err("Not implemented for TLV encoding.")
    }
}

/// A management event of a canonical log.
pub struct TcgTpmsEventCelMgt {
    pub mgt_type: i32,
    pub mgt_data: TcgTpmuCelMgt,
}

impl TcgTpmsEventCelMgt {
    pub fn new(mgt_type: i32, mgt_data: TcgTpmuCelMgt) -> (r: Result<Self, &'static str>)
        ensures
            (match r {
                Ok(c) => (mgt_type == 1 || mgt_type == 2 || mgt_type == 80 || mgt_type == 81)
                    && c.mgt_type == mgt_type,
                Err(m) => !(mgt_type == 1 || mgt_type == 2 || mgt_type == 80 || mgt_type == 81)
                    && m@ == "Invalid value for TPMI_CELMGTTYPE."@,
            }),
    {
        if !(mgt_type == TcgCelTypes::CEL_MGT_CEL_VERSION || mgt_type
            == TcgCelTypes::CEL_MGT_FIRMWARE_END || mgt_type == TcgCelTypes::CEL_MGT_CEL_TIMESTAMP
            || mgt_type == TcgCelTypes::CEL_MGT_STATE_TRANS) {
            return Err("Invalid value for TPMI_CELMGTTYPE.");
        }
        Ok(Self { mgt_type, mgt_data })
    }

    pub fn get_type(&self) -> (r: i32)
        ensures
            r == 0x4,
    {
        TcgTpmiCelContentType::CEL
    }

    /// TLV transcription of management events is not supported yet.
    pub fn to_tlv(&self) -> (r: Result<Vec<TcgTlvBase>, &'static str>)
        ensures
            r matches Err(m) && m@ == "Not implemented for TLV encoding."@,
    {
        Err("Not implemented for TLV encoding.")
    }
}

/// The sum of a byte sequence, as the TLV transcription condenses a
/// payload into one value.
pub open spec fn spec_byte_sum(s: Seq<u8>) -> int
    decreases s.len(),
{
    if s.len() == 0 {
        0
    } else {
        spec_byte_sum(s.drop_last()) + s.last()
    }
}

proof fn lemma_byte_sum_prefix(s: Seq<u8>, i: int)
    requires
        0 <= i <= s.len(),
    ensures
        0 <= spec_byte_sum(s.take(i)) <= spec_byte_sum(s),
    decreases s.len() - i,
{
    if i == s.len() {
        assert(s.take(i) =~= s);
        lemma_byte_sum_nonneg(s);
    } else {
        lemma_byte_sum_prefix(s, i + 1);
        assert(s.take(i + 1).drop_last() =~= s.take(i));
        lemma_byte_sum_nonneg(s.take(i));
    }
}

proof fn lemma_byte_sum_nonneg(s: Seq<u8>)
    ensures
        spec_byte_sum(s) >= 0,
    decreases s.len(),
{
    if s.len() > 0 {
        lemma_byte_sum_nonneg(s.drop_last());
    }
}

/// Sum a byte slice into a TLV value.
#[verifier::loop_isolation(false)]
fn byte_sum(data: &[u8]) -> (r: i32)
    requires
        spec_byte_sum(data@) <= i32::MAX,
    ensures
        r == spec_byte_sum(data@),
{
    let n = data.len();
    let mut acc: i32 = 0;
    let mut i: usize = 0;
    proof {
        assert(data@.take(0) =~= Seq::<u8>::empty());
    }
    while i < n
        invariant
            i <= n,
            acc == spec_byte_sum(data@.take(i as int)),
        decreases n - i,
    {
        proof {
            lemma_byte_sum_prefix(data@, i + 1);
            assert(data@.take(i + 1).drop_last() =~= data@.take(i as int));
            assert(data@.take(i + 1).last() == data@[i as int]);
        }
        acc = acc + data[i] as i32;
        i = i + 1;
    }
    proof {
        assert(data@.take(n as int) =~= data@);
    }
    acc
}

/// A standard PC-Client event carried inside a canonical record.
pub struct TcgTpmsEventPcClientStd {
    pub event_type: i32,
    pub event_data: Vec<u8>,
    pub pcclient_std_table: HashMap<i32, String>,
}

impl TcgTpmsEventPcClientStd {
    pub fn new(event_type: i32, event_data: Vec<u8>) -> (r: Self)
        ensures
            r.event_type == event_type,
            r.event_data@ == event_data@,
            forall|k: i32| #[trigger] r.pcclient_std_table@.contains_key(k) <==> (k == 0 || k
                == 1),
            r.pcclient_std_table@[0]@ == "PCCLIENT_STD_TYPE"@,
            r.pcclient_std_table@[1]@ == "PCCLIENT_STD_CONTENT"@,
    {
        let mut pcclient_std_table: HashMap<i32, String> = HashMap::new();
        pcclient_std_table.insert(TcgCelTypes::PCCLIENT_STD_TYPE, "PCCLIENT_STD_TYPE".to_owned());
        pcclient_std_table.insert(
            TcgCelTypes::PCCLIENT_STD_CONTENT,
            "PCCLIENT_STD_CONTENT".to_owned(),
        );
        Self { event_type, event_data, pcclient_std_table }
    }

    pub fn event_type(&self) -> (r: i32)
        ensures
            r == self.event_type,
    {
        self.event_type
    }

    pub fn event_data(&self) -> (r: &Vec<u8>)
        ensures
            r@ == self.event_data@,
    {
        &self.event_data
    }

    pub fn get_type(&self) -> (r: i32)
        ensures
            r == 0x5,
    {
        TcgTpmiCelContentType::PCCLIENT_STD
    }

    /// TLV transcription: one entry holding the event type, one
    /// condensing the payload into its byte sum.
    pub fn to_tlv(&self) -> (r: Vec<TcgTlvBase>)
        requires
            spec_byte_sum(self.event_data@) <= i32::MAX,
        ensures
            r.len() == 2,
            r[0].tlv_type_spec() == 0 && r[0].value_spec() == self.event_type,
            r[1].tlv_type_spec() == 1 && r[1].value_spec() == spec_byte_sum(self.event_data@),
            r[0].attr_table_spec() == self.pcclient_std_table@,
            r[1].attr_table_spec() == self.pcclient_std_table@,
    {
        let mut content_list: Vec<TcgTlvBase> = Vec::new();
        let mut event_type = TcgTlvBase::new(TcgCelTypes::PCCLIENT_STD_TYPE, self.event_type);
        let mut event_data = TcgTlvBase::new(TcgCelTypes::PCCLIENT_STD_CONTENT, 0);
        event_data.set_value(byte_sum(self.event_data.as_slice()));
        let _ = event_type.set_attr_table(self.pcclient_std_table.clone());
        let _ = event_data.set_attr_table(self.pcclient_std_table.clone());
        content_list.push(event_type);
        content_list.push(event_data);
        content_list
    }
}

/// An IMA template event carried inside a canonical record.
pub struct TcgTpmsEventImaTemplate {
    pub template_data: String,
    pub template_name: String,
    pub ima_template_table: HashMap<i32, String>,
}

impl TcgTpmsEventImaTemplate {
    pub fn new(template_data: String, template_name: String) -> (r: Self)
        ensures
            r.template_data@ == template_data@,
            r.template_name@ == template_name@,
            forall|k: i32| #[trigger] r.ima_template_table@.contains_key(k) <==> (k == 0 || k
                == 1),
            r.ima_template_table@[0]@ == "IMA_TEMPLATE_NAME"@,
            r.ima_template_table@[1]@ == "IMA_TEMPLATE_DATA"@,
    {
        let mut ima_template_table: HashMap<i32, String> = HashMap::new();
        ima_template_table.insert(TcgCelTypes::IMA_TEMPLATE_NAME, "IMA_TEMPLATE_NAME".to_owned());
        ima_template_table.insert(TcgCelTypes::IMA_TEMPLATE_DATA, "IMA_TEMPLATE_DATA".to_owned());
        Self { template_data, template_name, ima_template_table }
    }

    pub fn template_data(&self) -> (r: &String)
        ensures
            r@ == self.template_data@,
    {
        &self.template_data
    }

    pub fn template_name(&self) -> (r: &String)
        ensures
            r@ == self.template_name@,
    {
        &self.template_name
    }

    pub fn get_type(&self) -> (r: i32)
        ensures
            r == 0x7,
    {
        TcgTpmiCelContentType::IMA_TEMPLATE
    }

    /// TLV transcription: the template name and the template data,
    /// each condensed into its byte sum.
    pub fn to_tlv(&self) -> (r: Vec<TcgTlvBase>)
        requires
            spec_byte_sum(encode_utf8(self.template_name@)) <= i32::MAX,
            spec_byte_sum(encode_utf8(self.template_data@)) <= i32::MAX,
        ensures
            r.len() == 2,
            r[0].tlv_type_spec() == 0 && r[0].value_spec() == spec_byte_sum(
                encode_utf8(self.template_name@),
            ),
            r[1].tlv_type_spec() == 1 && r[1].value_spec() == spec_byte_sum(
                encode_utf8(self.template_data@),
            ),
            r[0].attr_table_spec() == self.ima_template_table@,
            r[1].attr_table_spec() == self.ima_template_table@,
    {
        let mut content_list: Vec<TcgTlvBase> = Vec::new();
        let mut template_name = TcgTlvBase::new(TcgCelTypes::IMA_TEMPLATE_NAME, 0);
        let mut template_data = TcgTlvBase::new(TcgCelTypes::IMA_TEMPLATE_DATA, 0);
        template_name.set_value(byte_sum(self.template_name.as_str().as_bytes()));
        template_data.set_value(byte_sum(self.template_data.as_str().as_bytes()));
        let _ = template_name.set_attr_table(self.ima_template_table.clone());
        let _ = template_data.set_attr_table(self.ima_template_table.clone());
        content_list.push(template_name);
        content_list.push(template_data);
        content_list
    }
}

/// An IMA type-length-value event carried inside a canonical record.
pub struct TcgImaTlv;

impl TcgImaTlv {
    pub fn new() -> (r: Self) {
        Self
    }

    pub fn get_type(&self) -> (r: i32)
        ensures
            r == 0x8,
    {
        TcgTpmiCelContentType::IMA_TLV
    }

    /// TLV transcription of IMA TLV events is not supported yet.
    pub fn to_tlv(&self) -> (r: Result<Vec<TcgTlvBase>, &'static str>)
        ensures
            r matches Err(m) && m@ == "Not implemented for TLV encoding."@,
    {
        Err("Not implemented for TLV encoding.")
    }
}

/// The closed union of content a canonical record can carry:
/// conversions match on it exhaustively, so no unknown payload can
/// fall through silently.
pub enum CelEventContent {
    PcClientStd(TcgTpmsEventPcClientStd),
    CelMgt(TcgTpmsEventCelMgt),
    ImaTemplate(TcgTpmsEventImaTemplate),
    ImaTlv(TcgImaTlv),
}

/// A canonical record's content, tagged by which of the four known
/// kinds it is.
pub struct TcgTpmuEventContent {
    pub event_content: CelEventContent,
}

impl TcgTpmuEventContent {
    /// Every value of the closed union is valid content, so
    /// construction always succeeds; the error side remains for
    /// callers written against a validating constructor.
    pub fn new(event_content: CelEventContent) -> (r: Result<Self, &'static str>)
        ensures
            r matches Ok(c) && c.event_content == event_content,
    {
        Ok(Self { event_content })
    }

    /// The name of the content kind this value carries.
    pub fn content_type(&self) -> (r: &'static str)
        ensures
            (match self.event_content {
                CelEventContent::PcClientStd(_) => r@ == "TcgTpmsEventPcClientStd"@,
                CelEventContent::CelMgt(_) => r@ == "TcgTpmsEventCelMgt"@,
                CelEventContent::ImaTemplate(_) => r@ == "TcgTpmsEventImaTemplate"@,
                CelEventContent::ImaTlv(_) => r@ == "TcgImaTlv"@,
            }),
    {
        match &self.event_content {
            CelEventContent::PcClientStd(_) => "TcgTpmsEventPcClientStd",
            CelEventContent::CelMgt(_) => "TcgTpmsEventCelMgt",
            CelEventContent::ImaTemplate(_) => "TcgTpmsEventImaTemplate",
            CelEventContent::ImaTlv(_) => "TcgImaTlv",
        }
    }

    pub fn event(&self) -> (r: &CelEventContent)
        ensures
            r == &self.event_content,
    {
        &self.event_content
    }
}

/// A canonical event log record: a record number, a digest list, a
/// content-type tag, exactly one of a register index or a
/// non-volatile index, and optional typed content.
pub struct TcgTpmsCelEvent {
    pub rec_num: i32,
    pub digests: Vec<TcgDigest>,
    pub content_type: Option<i32>,
    pub imr: Option<i32>,
    pub nv_index: Option<i32>,
    pub content: Option<TcgTpmuEventContent>,
    pub encoding: Option<String>,
}

/// The standard projection of a canonical record, defined only for
/// IMA-template and PC-Client-standard content carried under the
/// matching tag with a register index present.
pub open spec fn spec_to_pcclient_format(e: TcgTpmsCelEvent) -> Option<ImrEventV> {
    match e.content_type {
        None => None,
        Some(ct) => {
            if ct == 0x7 {
                match e.content {
                    Some(c) => match c.event_content {
                        CelEventContent::ImaTemplate(t) => match e.imr {
                            Some(imr) => Some(
                                ImrEventV {
                                    imr_index: imr as u32,
                                    event_type: IMA_MEASUREMENT_EVENT,
                                    digests: e.digests.deep_view(),
                                    event_size: encode_utf8(t.template_data@).len() as u32,
                                    event: encode_utf8(t.template_data@),
                                },
                            ),
                            None => None,
                        },
                        _ => None,
                    },
                    None => None,
                }
            } else if ct == 0x5 {
                match e.content {
                    Some(c) => match c.event_content {
                        CelEventContent::PcClientStd(p) => match e.imr {
                            Some(imr) => Some(
                                ImrEventV {
                                    imr_index: imr as u32,
                                    event_type: p.event_type as u32,
                                    digests: e.digests.deep_view(),
                                    event_size: p.event_data@.len() as u32,
                                    event: p.event_data@,
                                },
                            ),
                            None => None,
                        },
                        _ => None,
                    },
                    None => None,
                }
            } else {
                None
            }
        },
    }
}

/// Everything of a canonical record except its encoding tag, with
/// the digest list compared by value.
pub open spec fn spec_same_cel_fields(a: TcgTpmsCelEvent, b: TcgTpmsCelEvent) -> bool {
    a.rec_num == b.rec_num && a.digests.deep_view() =~= b.digests.deep_view() && a.content_type
        == b.content_type && a.imr == b.imr && a.nv_index == b.nv_index && a.content == b.content
}

/// The TLV entries transcribed from one canonical record: its record
/// number, the one index it carries, and its digests selector.
pub struct TcgTlvProjection {
    pub rec_num: TcgCelRecnum,
    pub index: TcgCelImrNvindex,
    pub digests: TcgCelDigests,
}

/// The transcription is faithful: the record number stands under the
/// sequence-number selector with the record's number; the index
/// entry carries the register selector and index if the record has
/// one, else the non-volatile selector and index, else it stays at
/// its initial state; and the digests entry carries the digests
/// selector.
pub open spec fn spec_tlv_projection_of(p: TcgTlvProjection, obj: TcgTpmsCelEvent) -> bool {
    &&& p.rec_num.base.tlv_type == 0
    &&& p.rec_num.base.value == obj.rec_num
    &&& (if obj.imr is Some {
        p.index.base.tlv_type == 0x1 && p.index.base.value == obj.imr->Some_0
    } else if obj.nv_index is Some {
        p.index.base.tlv_type == 0x2 && p.index.base.value == obj.nv_index->Some_0
    } else {
        p.index.base.tlv_type == 0 && p.index.base.value == 0
    })
    &&& p.digests.tlv_type == Some(3i32)
    &&& p.digests.value is None
}

/// One digest of a record's display rendering.
pub open spec fn spec_dump_digest(d: DigestV) -> Seq<char> {
    "Algorithm_id: "@ + crate::render::spec_u32_dec(d.algo_id as int) + " ("@
        + crate::tcg::spec_algo_name(d.algo_id) + ")\nDigest: "@ + crate::hashes::spec_hex_encode(
        d.hash,
    ) + "\n"@
}

/// The digest lines of a record's display rendering, in order.
pub open spec fn spec_dump_digests(ds: Seq<DigestV>) -> Seq<char>
    decreases ds.len(),
{
    if ds.len() == 0 {
        Seq::empty()
    } else {
        spec_dump_digests(ds.drop_last()) + spec_dump_digest(ds.last())
    }
}

/// The lines of a record's display rendering before its digests: the
/// record number, the one index it carries (zero if none), and the
/// content type with its name.
pub open spec fn spec_dump_cel_event_head(e: TcgTpmsCelEvent) -> Seq<char> {
    let idx: i32 = if e.imr is Some {
        e.imr->Some_0
    } else if e.nv_index is Some {
        e.nv_index->Some_0
    } else {
        0
    };
    let ct: i32 = if e.content_type is Some {
        e.content_type->Some_0
    } else {
        0
    };
    "Canonical Event Log Entry\nEncoding: TLV\nRec Num: "@ + crate::render::spec_i32_dec(
        e.rec_num as int,
    ) + "\nIMR: "@ + crate::render::spec_i32_dec(idx as int) + "\nType: "@
        + crate::render::spec_i32_dec(ct as int) + " ("@ + spec_content_type_string(ct)
        + ")\nDigests:\n"@
}

/// The full display rendering of a TLV-encoded record.
pub open spec fn spec_dump_cel_event(e: TcgTpmsCelEvent) -> Seq<char> {
    spec_dump_cel_event_head(e) + spec_dump_digests(e.digests.deep_view())
}

impl TcgTpmsCelEvent {
    /// Construct a record.  Giving both a register index and a
    /// non-volatile index, or an unknown content type, downgrades
    /// the record to an unusable state instead of failing loudly.
    pub fn new(
        rec_num: i32,
        digests: Vec<TcgDigest>,
        content_type: Option<i32>,
        imr: Option<i32>,
        nv_index: Option<i32>,
        content: Option<TcgTpmuEventContent>,
    ) -> (r: Self)
        ensures
            ({
                let ct = match content_type {
                    Some(t) => t,
                    None => 0,
                };
                if imr is Some && nv_index is Some {
                    r.rec_num == rec_num && r.digests == digests && r.content_type == content_type
                        && r.imr is None && r.nv_index is None && r.content is None && r.encoding
                        is None
                } else if !spec_is_valid_content(ct) {
                    r.rec_num == rec_num && r.digests == digests && r.content_type is None && r.imr
                        is None && r.nv_index is None && r.content is None && r.encoding is None
                } else {
                    r.rec_num == rec_num && r.digests == digests && r.content_type == Some(ct)
                        && r.imr == imr && r.nv_index == nv_index && r.content == content
                        && r.encoding is None
                }
            }),
    {
        if imr.is_some() && nv_index.is_some() {
            return Self {
                rec_num,
                digests,
                content_type,
                imr: None,
                nv_index: None,
                content: None,
                encoding: None,
            };
        }
        let content_type_v: i32 = match content_type {
            Some(t) => t,
            None => 0,
        };
        if !TcgTpmiCelContentType::is_valid_content(content_type_v) {
            return Self {
                rec_num,
                digests,
                content_type: None,
                imr: None,
                nv_index: None,
                content: None,
                encoding: None,
            };
        }
        Self {
            rec_num,
            digests,
            content_type: Some(content_type_v),
            imr,
            nv_index,
            content,
            encoding: None,
        }
    }

    pub fn rec_num(&self) -> (r: i32)
        ensures
            r == self.rec_num,
    {
        self.rec_num
    }

    pub fn set_rec_num(&mut self, rec_num: i32)
        ensures
            final(self).rec_num == rec_num,
            final(self).digests == old(self).digests,
            final(self).content_type == old(self).content_type,
            final(self).imr == old(self).imr,
            final(self).nv_index == old(self).nv_index,
            final(self).content == old(self).content,
            final(self).encoding == old(self).encoding,
    {
        self.rec_num = rec_num;
    }

    /// The one index this record carries: the register index if it
    /// has one, else the non-volatile index.
    pub fn index(&self) -> (r: Option<i32>)
        ensures
            r == (if self.imr is Some {
                self.imr
            } else {
                self.nv_index
            }),
    {
        match self.imr {
            Some(v) => Some(v),
            None => self.nv_index,
        }
    }

    pub fn set_imr(&mut self, imr: i32)
        ensures
            final(self).imr == Some(imr),
            final(self).rec_num == old(self).rec_num,
            final(self).digests == old(self).digests,
            final(self).content_type == old(self).content_type,
            final(self).nv_index == old(self).nv_index,
            final(self).content == old(self).content,
            final(self).encoding == old(self).encoding,
    {
        self.imr = Some(imr);
    }

    pub fn set_nv_index(&mut self, nv_index: i32)
        ensures
            final(self).nv_index == Some(nv_index),
            final(self).rec_num == old(self).rec_num,
            final(self).digests == old(self).digests,
            final(self).content_type == old(self).content_type,
            final(self).imr == old(self).imr,
            final(self).content == old(self).content,
            final(self).encoding == old(self).encoding,
    {
        self.nv_index = Some(nv_index);
    }

    pub fn digests(&self) -> (r: &Vec<TcgDigest>)
        ensures
            r == &self.digests,
    {
        &self.digests
    }

    pub fn set_digests(&mut self, digests: Vec<TcgDigest>)
        ensures
            final(self).digests == digests,
            final(self).rec_num == old(self).rec_num,
            final(self).content_type == old(self).content_type,
            final(self).imr == old(self).imr,
            final(self).nv_index == old(self).nv_index,
            final(self).content == old(self).content,
            final(self).encoding == old(self).encoding,
    {
        self.digests = digests;
    }

    pub fn content(&self) -> (r: Option<&TcgTpmuEventContent>)
        ensures
            r is Some <==> self.content is Some,
            r matches Some(c) ==> self.content matches Some(x) && *c == x,
    {
        self.content.as_ref()
    }

    pub fn set_content(&mut self, content: TcgTpmuEventContent)
        ensures
            final(self).content == Some(content),
            final(self).rec_num == old(self).rec_num,
            final(self).digests == old(self).digests,
            final(self).content_type == old(self).content_type,
            final(self).imr == old(self).imr,
            final(self).nv_index == old(self).nv_index,
            final(self).encoding == old(self).encoding,
    {
        self.content = Some(content);
    }

    pub fn content_type(&self) -> (r: Option<i32>)
        ensures
            r == self.content_type,
    {
        self.content_type
    }

    pub fn encoding(&self) -> (r: Option<&str>)
        ensures
            r is Some <==> self.encoding is Some,
            r matches Some(s) ==> self.encoding matches Some(e) && s@ == e@,
    {
        match &self.encoding {
            Some(s) => Some(s.as_str()),
            None => None,
        }
    }

    /// Project this record into the standard shape replay consumes;
    /// only IMA-template and PC-Client-standard content under a
    /// register index converts, everything else fails explicitly.
    pub fn to_pcclient_format(&self) -> (r: Option<TcgImrEvent>)
        ensures
            (match spec_to_pcclient_format(*self) {
                Some(ev) => r matches Some(x) && x@ == ev,
                None => r is None,
            }),
    {
        let ct = match self.content_type {
            Some(t) => t,
            None => {
                return None;
            },
        };
        if ct == TcgCelTypes::CEL_IMA_TEMPLATE {
            match &self.content {
                Some(c) => match &c.event_content {
                    CelEventContent::ImaTemplate(t) => match self.imr {
                        Some(imr) => {
                            let event = t.template_data.as_str().as_bytes_vec();
                            let event_size = #[verifier::truncate] (event.len() as u32);
                            let digests = self.digests.clone();
                            proof {
                                assert(digests.deep_view() =~= self.digests.deep_view());
                            }
                            Some(
                                TcgImrEvent {
                                    imr_index: #[verifier::truncate] (imr as u32),
                                    event_type: IMA_MEASUREMENT_EVENT,
                                    digests,
                                    event_size,
                                    event,
                                },
                            )
                        },
                        None => None,
                    },
                    _ => None,
                },
                None => None,
            }
        } else if ct == TcgCelTypes::CEL_PCCLIENT_STD {
            match &self.content {
                Some(c) => match &c.event_content {
                    CelEventContent::PcClientStd(p) => match self.imr {
                        Some(imr) => {
                            let event = p.event_data.clone();
                            proof {
                                assert(event@ =~= p.event_data@);
                            }
                            let event_size = #[verifier::truncate] (event.len() as u32);
                            let digests = self.digests.clone();
                            proof {
                                assert(digests.deep_view() =~= self.digests.deep_view());
                            }
                            Some(
                                TcgImrEvent {
                                    imr_index: #[verifier::truncate] (imr as u32),
                                    event_type: #[verifier::truncate] (p.event_type as u32),
                                    digests,
                                    event_size,
                                    event,
                                },
                            )
                        },
                        None => None,
                    },
                    _ => None,
                },
                None => None,
            }
        } else {
            None
        }
    }

    /// Build the encoded form of a record.  The TLV selector — and
    /// any unknown selector, which falls back to TLV — transcribes
    /// the record's fields into TLV entries; the JSON and CBOR
    /// selectors are not supported yet and fail explicitly,
    /// distinguishably from any malformed-input failure.
    pub fn encode(&self, obj: TcgTpmsCelEvent, encoding: i32) -> (r: Result<
        (TcgTpmsCelEvent, TcgTlvProjection),
        &'static str,
    >)
        ensures
            (match r {
                Ok(p) => encoding != 3 && encoding != 4 && spec_same_cel_fields(p.0, obj) && (
                p.0.encoding matches Some(s) && s@ == "TLV"@) && spec_tlv_projection_of(p.1, obj),
                Err(m) => (encoding == 3 && m@ == "JSON encoding is not supported yet."@) || (
                encoding == 4 && m@ == "CBOR encoding is not supported yet."@),
            }),
    {
        if encoding == 3 {
            return self.encoded_in_json(obj);
        }
        if encoding == 4 {
            return self.encoded_in_cbor(obj);
        }
        let mut obj = obj;
        obj.encoding = Some("TLV".to_owned());
        Ok(self.encoded_in_tlv(obj))
    }

    /// The TLV transcription pass: the record number, index and
    /// digests entries are built from the record's fields and handed
    /// back beside the record, whose fields stay as they were.
    #[verifier::loop_isolation(false)]
    pub fn encoded_in_tlv(&self, obj: TcgTpmsCelEvent) -> (r: (TcgTpmsCelEvent, TcgTlvProjection))
        ensures
            spec_same_cel_fields(r.0, obj),
            r.0.encoding == obj.encoding,
            spec_tlv_projection_of(r.1, obj),
    {
        let mut obj = obj;
        let mut rec_num = TcgCelRecnum::new();
        rec_num.set_type(TcgCelTypes::CEL_SEQNUM);
        rec_num.set_value(obj.rec_num);
        let rn = obj.rec_num;
        obj.set_rec_num(rn);
        let mut digests_tlv = TcgCelDigests::new();
        digests_tlv.set_type(Some(TcgCelTypes::CEL_DIGESTS));
        let mut d_list: Vec<TcgDigest> = Vec::new();
        let n = obj.digests.len();
        let mut i: usize = 0;
        proof {
            assert(d_list.deep_view() =~= obj.digests.deep_view().take(0));
        }
        while i < n
            invariant
                i <= n,
                n == obj.digests.len(),
                d_list.deep_view() =~= obj.digests.deep_view().take(i as int),
            decreases n - i,
        {
            let ghost before = d_list.deep_view();
            let d = TcgDigest {
                algo_id: obj.digests[i].algo_id,
                hash: obj.digests[i].hash.clone(),
            };
            d_list.push(d);
            proof {
                assert(d_list.deep_view() =~= before.push(obj.digests.deep_view()[i as int]));
                assert(d_list.deep_view() =~= obj.digests.deep_view().take(i + 1));
            }
            i = i + 1;
        }
        proof {
            assert(obj.digests.deep_view().take(n as int) =~= obj.digests.deep_view());
        }
        let ghost digests_view = obj.digests.deep_view();
        obj.set_digests(d_list);
        let mut index = TcgCelImrNvindex::new();
        match obj.imr {
            Some(imr) => {
                index.set_type(TcgCelTypes::CEL_PCR);
                index.set_value(imr);
                obj.set_imr(imr);
            },
            None => {
                match obj.nv_index {
                    Some(nv) => {
                        index.set_type(TcgCelTypes::CEL_NV_INDEX);
                        index.set_value(nv);
                        obj.set_nv_index(nv);
                    },
                    None => {},
                }
            },
        }
        (obj, TcgTlvProjection { rec_num, index, digests: digests_tlv })
    }

    /// Render this record for display; only a record carrying the
    /// TLV encoding tag has a rendering, any other is refused.
    #[verifier::loop_isolation(false)]
    #[verifier::rlimit(60)]
    pub fn dump(&self) -> (r: Result<String, &'static str>)
        ensures
            (match r {
                Ok(s) => (self.encoding matches Some(e) && e@ == "TLV"@) && s@
                    == spec_dump_cel_event(*self),
                Err(m) => !(self.encoding matches Some(e) && e@ == "TLV"@) && m@
                    == "Unsupported data format for dumping."@,
            }),
    {
        let tlv_name = String::from_str("TLV");
        let is_tlv = match &self.encoding {
            Some(s) => *s == tlv_name,
            None => false,
        };
        if !is_tlv {
            return Err("Unsupported data format for dumping.");
        }
        let idx: i32 = match self.imr {
            Some(v) => v,
            None => match self.nv_index {
                Some(v) => v,
                None => 0,
            },
        };
        let ct: i32 = match self.content_type {
            Some(v) => v,
            None => 0,
        };
        let mut out = String::new();
        out.append("Canonical Event Log Entry\nEncoding: TLV\nRec Num: ");
        out.append(crate::render::i32_dec_string(self.rec_num).as_str());
        out.append("\nIMR: ");
        out.append(crate::render::i32_dec_string(idx).as_str());
        out.append("\nType: ");
        out.append(crate::render::i32_dec_string(ct).as_str());
        out.append(" (");
        out.append(TcgTpmiCelContentType::get_content_type_string(ct));
        out.append(")\nDigests:\n");
        let ghost ds = self.digests.deep_view();
        let ghost head = spec_dump_cel_event_head(*self);
        proof {
            assert(ds.take(0) =~= Seq::<DigestV>::empty());
            assert(out@ =~= head + spec_dump_digests(ds.take(0)));
        }
        let n = self.digests.len();
        let mut i: usize = 0;
        while i < n
            invariant
                i <= n,
                out@ =~= head + spec_dump_digests(ds.take(i as int)),
            decreases n - i,
        {
            out.append("Algorithm_id: ");
            out.append(crate::render::u32_dec_string(self.digests[i].algo_id as u32).as_str());
            out.append(" (");
            out.append(self.digests[i].get_algorithm_id_str());
            out.append(")\nDigest: ");
            let hex = crate::hashes::hex_encode(self.digests[i].hash.as_slice());
            out.append(hex.as_str());
            out.append("\n");
            proof {
                assert(ds.take(i + 1).drop_last() =~= ds.take(i as int));
                assert(ds.take(i + 1).last() == ds[i as int]);
                assert(out@ =~= head + spec_dump_digests(ds.take(i + 1)));
            }
            i = i + 1;
        }
        proof {
            assert(ds.take(n as int) =~= ds);
        }
        Ok(out)
    }

    /// CBOR encoding is not implemented yet: asking for it is an
    /// explicit unsupported-feature failure, distinguishable from
    /// any malformed-input failure; the record is refused, never
    /// passed through as if encoded.
    pub fn encoded_in_cbor(&self, obj: TcgTpmsCelEvent) -> (r: Result<
        (TcgTpmsCelEvent, TcgTlvProjection),
        &'static str,
    >)
        ensures
            r matches Err(m) && m@ == "CBOR encoding is not supported yet."@,
    {
        let _unencoded = obj;
        Err("CBOR encoding is not supported yet.")
    }

    /// JSON encoding is not implemented yet: asking for it is an
    /// explicit unsupported-feature failure, distinguishable from
    /// any malformed-input failure; the record is refused, never
    /// passed through as if encoded.
    pub fn encoded_in_json(&self, obj: TcgTpmsCelEvent) -> (r: Result<
        (TcgTpmsCelEvent, TcgTlvProjection),
        &'static str,
    >)
        ensures
            r matches Err(m) && m@ == "JSON encoding is not supported yet."@,
    {
        let _unencoded = obj;
        Err("JSON encoding is not supported yet.")
    }
}

/// One entry of a TLV transcription: a type selector, a value, and a
/// table naming the attributes of its kind.
pub trait TcgTlv: Sized {
    spec fn tlv_type_spec(&self) -> i32;

    spec fn value_spec(&self) -> i32;

    spec fn attr_table_spec(&self) -> Map<i32, String>;

    /// What setting the type selector leaves behind: each kind
    /// accepts only the selectors that belong to it.
    spec fn set_type_spec(&self, tlv_type: i32) -> i32;

    /// Whether this kind carries an attribute table that can be
    /// replaced.
    spec fn supports_attr_table() -> bool;

    fn set_type(&mut self, tlv_type: i32)
        ensures
            final(self).tlv_type_spec() == old(self).set_type_spec(tlv_type),
            final(self).value_spec() == old(self).value_spec(),
            final(self).attr_table_spec() == old(self).attr_table_spec(),
    ;

    fn set_value(&mut self, value: i32)
        ensures
            final(self).value_spec() == value,
            final(self).tlv_type_spec() == old(self).tlv_type_spec(),
            final(self).attr_table_spec() == old(self).attr_table_spec(),
    ;

    fn set_attr_table(&mut self, value: HashMap<i32, String>) -> (r: Result<(), &'static str>)
        ensures
            Self::supports_attr_table() ==> r is Ok && final(self).attr_table_spec() == value@
                && final(self).tlv_type_spec() == old(self).tlv_type_spec() && final(self).value_spec() == old(self).value_spec(),
            !Self::supports_attr_table() ==> r is Err && *final(self) == *old(self),
    ;

    fn get_type(&self) -> (r: i32)
        ensures
            r == self.tlv_type_spec(),
    ;

    fn get_value(&self) -> (r: i32)
        ensures
            r == self.value_spec(),
    ;

    fn get_attr_table(&self) -> (r: &HashMap<i32, String>)
        ensures
            r@ == self.attr_table_spec(),
    ;
}

/// The plain TLV entry: any selector, any value, a replaceable
/// attribute table.
pub struct TcgTlvBase {
    pub tlv_type: i32,
    pub value: i32,
    pub attr_table: HashMap<i32, String>,
}

impl TcgTlvBase {
    pub fn new(tlv_type: i32, value: i32) -> (r: Self)
        ensures
            r.tlv_type_spec() == tlv_type,
            r.value_spec() == value,
            r.attr_table_spec() =~= Map::empty(),
    {
        Self { tlv_type, value, attr_table: HashMap::new() }
    }
}

impl TcgTlv for TcgTlvBase {
    open spec fn tlv_type_spec(&self) -> i32 {
        self.tlv_type
    }

    open spec fn value_spec(&self) -> i32 {
        self.value
    }

    open spec fn attr_table_spec(&self) -> Map<i32, String> {
        self.attr_table@
    }

    open spec fn set_type_spec(&self, tlv_type: i32) -> i32 {
        tlv_type
    }

    open spec fn supports_attr_table() -> bool {
        true
    }

    fn set_type(&mut self, tlv_type: i32) {
        self.tlv_type = tlv_type;
    }

    fn set_value(&mut self, value: i32) {
        self.value = value;
    }

    fn set_attr_table(&mut self, value: HashMap<i32, String>) -> (r: Result<(), &'static str>) {
        self.attr_table = value;
        Ok(())
    }

    fn get_type(&self) -> (r: i32) {
        self.tlv_type
    }

    fn get_value(&self) -> (r: i32) {
        self.value
    }

    fn get_attr_table(&self) -> (r: &HashMap<i32, String>) {
        &self.attr_table
    }
}

/// The record-number TLV entry: its selector is pinned to the
/// sequence-number type.
pub struct TcgCelRecnum {
    pub base: TcgTlvBase,
}

impl TcgCelRecnum {
    pub fn new() -> (r: Self)
        ensures
            r.tlv_type_spec() == 0,
            r.value_spec() == 0,
            r.attr_table_spec() =~= Map::empty(),
    {
        let mut base = TcgTlvBase::new(0, 0);
        base.set_type(0);
        base.set_value(0x00000000);
        Self { base }
    }
}

impl TcgTlv for TcgCelRecnum {
    open spec fn tlv_type_spec(&self) -> i32 {
        self.base.tlv_type
    }

    open spec fn value_spec(&self) -> i32 {
        self.base.value
    }

    open spec fn attr_table_spec(&self) -> Map<i32, String> {
        self.base.attr_table@
    }

    open spec fn set_type_spec(&self, tlv_type: i32) -> i32 {
        0
    }

    open spec fn supports_attr_table() -> bool {
        false
    }

    /// A record number's selector is always the sequence-number
    /// type, whatever was asked for.
    fn set_type(&mut self, tlv_type: i32) {
        self.base.set_type(0);
    }

    fn set_value(&mut self, value: i32) {
        self.base.set_value(value);
    }

    fn set_attr_table(&mut self, value: HashMap<i32, String>) -> (r: Result<(), &'static str>) {
        Err("The attribute table of a record number entry is fixed.")
    }

    fn get_type(&self) -> (r: i32) {
        self.base.get_type()
    }

    fn get_value(&self) -> (r: i32) {
        self.base.get_value()
    }

    fn get_attr_table(&self) -> (r: &HashMap<i32, String>) {
        self.base.get_attr_table()
    }
}

/// The register-or-index TLV entry: its selector must name either
/// the register kind or the non-volatile index kind.
pub struct TcgCelImrNvindex {
    pub base: TcgTlvBase,
}

impl TcgCelImrNvindex {
    pub fn new() -> (r: Self)
        ensures
            r.tlv_type_spec() == 0,
            r.value_spec() == 0,
            r.attr_table_spec() =~= Map::empty(),
    {
        Self { base: TcgTlvBase::new(0, 0) }
    }
}

impl TcgTlv for TcgCelImrNvindex {
    open spec fn tlv_type_spec(&self) -> i32 {
        self.base.tlv_type
    }

    open spec fn value_spec(&self) -> i32 {
        self.base.value
    }

    open spec fn attr_table_spec(&self) -> Map<i32, String> {
        self.base.attr_table@
    }

    open spec fn set_type_spec(&self, tlv_type: i32) -> i32 {
        if tlv_type == 0x1 || tlv_type == 0x2 {
            tlv_type
        } else {
            self.base.tlv_type
        }
    }

    open spec fn supports_attr_table() -> bool {
        false
    }

    /// Only the register and non-volatile-index selectors are
    /// accepted; any other leaves the entry unchanged.
    fn set_type(&mut self, tlv_type: i32) {
        if tlv_type != TcgCelTypes::CEL_PCR && tlv_type != TcgCelTypes::CEL_NV_INDEX {
            return ;
        }
        self.base.set_type(tlv_type);
    }

    fn set_value(&mut self, value: i32) {
        self.base.set_value(value);
    }

    fn set_attr_table(&mut self, value: HashMap<i32, String>) -> (r: Result<(), &'static str>) {
        Err("The attribute table of an index entry is fixed.")
    }

    fn get_type(&self) -> (r: i32) {
        self.base.get_type()
    }

    fn get_value(&self) -> (r: i32) {
        self.base.get_value()
    }

    fn get_attr_table(&self) -> (r: &HashMap<i32, String>) {
        self.base.get_attr_table()
    }
}

/// The content TLV entry: its selector must be a known content type.
pub struct TcgCelContent {
    pub base: TcgTlvBase,
}

impl TcgCelContent {
    pub fn new() -> (r: Self)
        ensures
            r.tlv_type_spec() == 0,
            r.value_spec() == 0,
            r.attr_table_spec() =~= Map::empty(),
    {
        Self { base: TcgTlvBase::new(0, 0) }
    }
}

impl TcgTlv for TcgCelContent {
    open spec fn tlv_type_spec(&self) -> i32 {
        self.base.tlv_type
    }

    open spec fn value_spec(&self) -> i32 {
        self.base.value
    }

    open spec fn attr_table_spec(&self) -> Map<i32, String> {
        self.base.attr_table@
    }

    open spec fn set_type_spec(&self, tlv_type: i32) -> i32 {
        if spec_is_valid_content(tlv_type) {
            tlv_type
        } else {
            self.base.tlv_type
        }
    }

    open spec fn supports_attr_table() -> bool {
        false
    }

    /// Only known content-type selectors are accepted; any other
    /// leaves the entry unchanged.
    fn set_type(&mut self, tlv_type: i32) {
        if !TcgTpmiCelContentType::is_valid_content(tlv_type) {
            return ;
        }
        self.base.set_type(tlv_type);
    }

    fn set_value(&mut self, value: i32) {
        self.base.set_value(value);
    }

    fn set_attr_table(&mut self, value: HashMap<i32, String>) -> (r: Result<(), &'static str>) {
        Err("The attribute table of a content entry is fixed.")
    }

    fn get_type(&self) -> (r: i32) {
        self.base.get_type()
    }

    fn get_value(&self) -> (r: i32) {
        self.base.get_value()
    }

    fn get_attr_table(&self) -> (r: &HashMap<i32, String>) {
        self.base.get_attr_table()
    }
}

/// The digests TLV entry of a canonical record.
pub struct TcgCelDigests {
    pub tlv_type: Option<i32>,
    pub value: Option<String>,
}

impl TcgCelDigests {
    pub fn new() -> (r: Self)
        ensures
            r.tlv_type is None,
            r.value is None,
    {
        TcgCelDigests { tlv_type: None, value: None }
    }

    /// Only the digests selector is accepted; any other, or none,
    /// leaves the entry unchanged.
    pub fn set_type(&mut self, tlv_type: Option<i32>)
        ensures
            final(self).value == old(self).value,
            (match tlv_type {
                Some(t) => {
                    if t == 0x3 {
                        final(self).tlv_type == Some(t)
                    } else {
                        final(self).tlv_type == old(self).tlv_type
                    }
                },
                None => final(self).tlv_type == old(self).tlv_type,
            }),
    {
        match tlv_type {
            Some(t) => {
                if t != TcgCelTypes::CEL_DIGESTS {
                    return ;
                }
                self.tlv_type = Some(t);
            },
            None => {},
        }
    }

    pub fn set_value(&mut self, value: Option<String>)
        ensures
            final(self).value == value,
            final(self).tlv_type == old(self).tlv_type,
    {
        self.value = value;
    }

    /// The attribute table of a digests entry is fixed.
    pub fn set_attr_table(&self, _value: Option<String>) -> (r: Result<(), &'static str>)
        ensures
            r matches Err(m) && m@ == "The attribute table of a digests entry is fixed."@,
    {
        Err("The attribute table of a digests entry is fixed.")
    }
}

} // verus!
