use vstd::prelude::*;

verus! {

/// TCG event type marking an informative record that is not extended
/// into any register; the spec-ID header record carries it.
pub const EV_NO_ACTION: u32 = 0x3;

/// Event type given to runtime integrity-measurement records parsed
/// from the ASCII log.
pub const IMA_MEASUREMENT_EVENT: u32 = 0x14;

/// Identifiers from the TPM algorithm registry, for the hash
/// algorithms this library can replay.
pub const TPM_ALG_ERROR: u16 = 0x0;

pub const TPM_ALG_SHA1: u16 = 0x4;

pub const TPM_ALG_SHA256: u16 = 0xB;

pub const TPM_ALG_SHA384: u16 = 0xC;

pub const TPM_ALG_SHA512: u16 = 0xD;

/// Requested output format of a parsed event log.
pub const TCG_PCCLIENT_FORMAT: u8 = 1;

pub const TCG_CANONICAL_FORMAT: u8 = 2;

/// Digest byte length of each supported algorithm; zero for an
/// identifier the registry does not know.
pub open spec fn spec_digest_size(algo_id: u16) -> u16 {
    if algo_id == TPM_ALG_SHA1 {
        20
    } else if algo_id == TPM_ALG_SHA256 {
        32
    } else if algo_id == TPM_ALG_SHA384 {
        48
    } else if algo_id == TPM_ALG_SHA512 {
        64
    } else {
        0
    }
}

/// Reverse lookup of the registry: the algorithm whose digests have
/// the given byte length, if that length is unambiguous and known.
pub open spec fn spec_algo_from_size(size: int) -> Option<u16> {
    if size == 20 {
        Some(TPM_ALG_SHA1)
    } else if size == 32 {
        Some(TPM_ALG_SHA256)
    } else if size == 48 {
        Some(TPM_ALG_SHA384)
    } else if size == 64 {
        Some(TPM_ALG_SHA512)
    } else {
        None
    }
}

/// Display name of an algorithm identifier.
pub open spec fn spec_algo_name(algo_id: u16) -> Seq<char> {
    if algo_id == TPM_ALG_SHA1 {
        "TPM_ALG_SHA1"@
    } else if algo_id == TPM_ALG_SHA256 {
        "TPM_ALG_SHA256"@
    } else if algo_id == TPM_ALG_SHA384 {
        "TPM_ALG_SHA384"@
    } else if algo_id == TPM_ALG_SHA512 {
        "TPM_ALG_SHA512"@
    } else {
        "UNKNOWN"@
    }
}

/// Mathematical model of a tagged digest.
pub ghost struct DigestV {
    pub algo_id: u16,
    pub hash: Seq<u8>,
}

/// A digest recorded in (or recomputed from) an event log, tagged
/// with the algorithm that produced it.
pub struct TcgDigest {
    pub algo_id: u16,
    pub hash: Vec<u8>,
}

impl View for TcgDigest {
    type V = DigestV;

    open spec fn view(&self) -> DigestV {
        DigestV { algo_id: self.algo_id, hash: self.hash@ }
    }
}

impl DeepView for TcgDigest {
    type V = DigestV;

    open spec fn deep_view(&self) -> DigestV {
        self.view()
    }
}

impl Clone for TcgDigest {
    fn clone(&self) -> (res: Self)
        ensures
            res@ == self@,
    {
        TcgDigest { algo_id: self.algo_id, hash: self.hash.clone() }
    }
}

impl TcgDigest {
    pub fn get_digest_size_from_algorithm_id(algo_id: u16) -> (r: u16)
        ensures
            r == spec_digest_size(algo_id),
    {
        if algo_id == TPM_ALG_SHA1 {
            20
        } else if algo_id == TPM_ALG_SHA256 {
            32
        } else if algo_id == TPM_ALG_SHA384 {
            48
        } else if algo_id == TPM_ALG_SHA512 {
            64
        } else {
            0
        }
    }

    pub fn get_algorithm_id_from_digest_size(size: u32) -> (r: Option<u16>)
        ensures
            r == spec_algo_from_size(size as int),
    {
        if size == 20 {
            Some(TPM_ALG_SHA1)
        } else if size == 32 {
            Some(TPM_ALG_SHA256)
        } else if size == 48 {
            Some(TPM_ALG_SHA384)
        } else if size == 64 {
            Some(TPM_ALG_SHA512)
        } else {
            None
        }
    }

    pub fn get_algorithm_id_str(&self) -> (r: &'static str)
        ensures
            r@ == spec_algo_name(self.algo_id),
    {
        if self.algo_id == TPM_ALG_SHA1 {
            "TPM_ALG_SHA1"
        } else if self.algo_id == TPM_ALG_SHA256 {
            "TPM_ALG_SHA256"
        } else if self.algo_id == TPM_ALG_SHA384 {
            "TPM_ALG_SHA384"
        } else if self.algo_id == TPM_ALG_SHA512 {
            "TPM_ALG_SHA512"
        } else {
            "UNKNOWN"
        }
    }
}

/// One `(algorithm id, digest size)` pair declared by the spec-ID
/// header.
#[derive(Clone, Copy)]
pub struct TcgEfiSpecIdEventAlgorithmSize {
    pub algo_id: u16,
    pub digest_size: u32,
}

impl View for TcgEfiSpecIdEventAlgorithmSize {
    type V = TcgEfiSpecIdEventAlgorithmSize;

    open spec fn view(&self) -> TcgEfiSpecIdEventAlgorithmSize {
        *self
    }
}

impl DeepView for TcgEfiSpecIdEventAlgorithmSize {
    type V = TcgEfiSpecIdEventAlgorithmSize;

    open spec fn deep_view(&self) -> TcgEfiSpecIdEventAlgorithmSize {
        *self
    }
}

/// Mathematical model of the spec-ID header.
pub ghost struct SpecIdEventV {
    pub signature: Seq<u8>,
    pub platform_class: u32,
    pub spec_version_minor: u8,
    pub spec_version_major: u8,
    pub spec_errata: u8,
    pub uintn_size: u8,
    pub number_of_algorithms: u32,
    pub digest_sizes: Seq<TcgEfiSpecIdEventAlgorithmSize>,
    pub vendor_info_size: u8,
    pub vendor_info: Seq<u8>,
}

/// The one-time negotiation record of a boot-time log: which hash
/// algorithms the remainder of the log uses, and their digest sizes.
pub struct TcgEfiSpecIdEvent {
    pub signature: Vec<u8>,
    pub platform_class: u32,
    pub spec_version_minor: u8,
    pub spec_version_major: u8,
    pub spec_errata: u8,
    pub uintn_size: u8,
    pub number_of_algorithms: u32,
    pub digest_sizes: Vec<TcgEfiSpecIdEventAlgorithmSize>,
    pub vendor_info_size: u8,
    pub vendor_info: Vec<u8>,
}

impl View for TcgEfiSpecIdEvent {
    type V = SpecIdEventV;

    open spec fn view(&self) -> SpecIdEventV {
        SpecIdEventV {
            signature: self.signature@,
            platform_class: self.platform_class,
            spec_version_minor: self.spec_version_minor,
            spec_version_major: self.spec_version_major,
            spec_errata: self.spec_errata,
            uintn_size: self.uintn_size,
            number_of_algorithms: self.number_of_algorithms,
            digest_sizes: self.digest_sizes.deep_view(),
            vendor_info_size: self.vendor_info_size,
            vendor_info: self.vendor_info@,
        }
    }
}

impl Clone for TcgEfiSpecIdEvent {
    fn clone(&self) -> (res: Self)
        ensures
            res@ == self@,
    {
        let digest_sizes = self.digest_sizes.clone();
        proof {
            assert(digest_sizes.deep_view() =~= self.digest_sizes.deep_view());
        }
        let res = TcgEfiSpecIdEvent {
            signature: self.signature.clone(),
            platform_class: self.platform_class,
            spec_version_minor: self.spec_version_minor,
            spec_version_major: self.spec_version_major,
            spec_errata: self.spec_errata,
            uintn_size: self.uintn_size,
            number_of_algorithms: self.number_of_algorithms,
            digest_sizes,
            vendor_info_size: self.vendor_info_size,
            vendor_info: self.vendor_info.clone(),
        };
        res
    }
}

/// The empty header model: what a collection holds before its
/// boot-time log has declared any algorithm.
pub open spec fn spec_empty_spec_id_event() -> SpecIdEventV {
    SpecIdEventV {
        signature: Seq::empty(),
        platform_class: 0,
        spec_version_minor: 0,
        spec_version_major: 0,
        spec_errata: 0,
        uintn_size: 0,
        number_of_algorithms: 0,
        digest_sizes: Seq::empty(),
        vendor_info_size: 0,
        vendor_info: Seq::empty(),
    }
}

impl TcgEfiSpecIdEvent {
    pub fn new() -> (r: Self)
        ensures
            r@ == spec_empty_spec_id_event(),
    {
        let r = TcgEfiSpecIdEvent {
            signature: Vec::new(),
            platform_class: 0,
            spec_version_minor: 0,
            spec_version_major: 0,
            spec_errata: 0,
            uintn_size: 0,
            number_of_algorithms: 0,
            digest_sizes: Vec::new(),
            vendor_info_size: 0,
            vendor_info: Vec::new(),
        };
        proof {
            assert(r@.signature =~= spec_empty_spec_id_event().signature);
            assert(r@.digest_sizes =~= spec_empty_spec_id_event().digest_sizes);
            assert(r@.vendor_info =~= spec_empty_spec_id_event().vendor_info);
        }
        r
    }
}

/// Mathematical model of a standard (multi-algorithm) record.
pub ghost struct ImrEventV {
    pub imr_index: u32,
    pub event_type: u32,
    pub digests: Seq<DigestV>,
    pub event_size: u32,
    pub event: Seq<u8>,
}

/// A standard boot-time or runtime record: register index, event
/// type, one digest per declared algorithm, and the raw event bytes.
pub struct TcgImrEvent {
    pub imr_index: u32,
    pub event_type: u32,
    pub digests: Vec<TcgDigest>,
    pub event_size: u32,
    pub event: Vec<u8>,
}

impl View for TcgImrEvent {
    type V = ImrEventV;

    open spec fn view(&self) -> ImrEventV {
        ImrEventV {
            imr_index: self.imr_index,
            event_type: self.event_type,
            digests: self.digests.deep_view(),
            event_size: self.event_size,
            event: self.event@,
        }
    }
}

impl Clone for TcgImrEvent {
    fn clone(&self) -> (res: Self)
        ensures
            res@ == self@,
    {
        let res = TcgImrEvent {
            imr_index: self.imr_index,
            event_type: self.event_type,
            digests: self.digests.clone(),
            event_size: self.event_size,
            event: self.event.clone(),
        };
        proof {
            assert(res.digests.deep_view() =~= self.digests.deep_view());
        }
        res
    }
}

/// Mathematical model of the rendered spec-ID header record.
pub ghost struct PcClientImrEventV {
    pub imr_index: u32,
    pub event_type: u32,
    pub digest: Seq<u8>,
    pub event_size: u32,
    pub event: Seq<u8>,
}

/// The spec-ID header record rendered with its single fixed 20-byte
/// legacy-algorithm digest.
pub struct TcgPcClientImrEvent {
    pub imr_index: u32,
    pub event_type: u32,
    pub digest: Vec<u8>,
    pub event_size: u32,
    pub event: Vec<u8>,
}

impl View for TcgPcClientImrEvent {
    type V = PcClientImrEventV;

    open spec fn view(&self) -> PcClientImrEventV {
        PcClientImrEventV {
            imr_index: self.imr_index,
            event_type: self.event_type,
            digest: self.digest@,
            event_size: self.event_size,
            event: self.event@,
        }
    }
}

impl Clone for TcgPcClientImrEvent {
    fn clone(&self) -> (res: Self)
        ensures
            res@ == self@,
    {
        TcgPcClientImrEvent {
            imr_index: self.imr_index,
            event_type: self.event_type,
            digest: self.digest.clone(),
            event_size: self.event_size,
            event: self.event.clone(),
        }
    }
}

/// Reserved projection for canonical-format records; their layout is
/// an extension point and carries no fields yet.
pub struct TcgCanonicalEvent {}

impl Clone for TcgCanonicalEvent {
    fn clone(&self) -> (res: Self)
        ensures
            res == *self,
    {
        TcgCanonicalEvent {  }
    }
}

/// Mathematical model of a typed output record.
pub ghost enum EventLogEntryV {
    TcgPcClientImrEvent(PcClientImrEventV),
    TcgImrEvent(ImrEventV),
    TcgCanonicalEvent,
}

/// One typed output record of a parsed event log.
pub enum EventLogEntry {
    TcgPcClientImrEvent(TcgPcClientImrEvent),
    TcgImrEvent(TcgImrEvent),
    TcgCanonicalEvent(TcgCanonicalEvent),
}

impl View for EventLogEntry {
    type V = EventLogEntryV;

    open spec fn view(&self) -> EventLogEntryV {
        match self {
            EventLogEntry::TcgPcClientImrEvent(e) => EventLogEntryV::TcgPcClientImrEvent(e@),
            EventLogEntry::TcgImrEvent(e) => EventLogEntryV::TcgImrEvent(e@),
            EventLogEntry::TcgCanonicalEvent(_) => EventLogEntryV::TcgCanonicalEvent,
        }
    }
}

impl DeepView for EventLogEntry {
    type V = EventLogEntryV;

    open spec fn deep_view(&self) -> EventLogEntryV {
        self.view()
    }
}

impl Clone for EventLogEntry {
    fn clone(&self) -> (res: Self)
        ensures
            res@ == self@,
    {
        match self {
            EventLogEntry::TcgPcClientImrEvent(e) => EventLogEntry::TcgPcClientImrEvent(e.clone()),
            EventLogEntry::TcgImrEvent(e) => EventLogEntry::TcgImrEvent(e.clone()),
            EventLogEntry::TcgCanonicalEvent(e) => EventLogEntry::TcgCanonicalEvent(e.clone()),
        }
    }
}

} // verus!
