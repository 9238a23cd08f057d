use vstd::prelude::*;

use vstd::string::StringExecFns;

use std::collections::HashMap;

use crate::binary_blob::{get_u16, get_u32, get_u8, spec_u16_le, spec_u32_le};
use crate::extra::{spec_extra_entries, ExtraInfo};
use crate::tcg::{
    DigestV, EventLogEntry, EventLogEntryV, ImrEventV, PcClientImrEventV, SpecIdEventV, TcgDigest,
    TcgEfiSpecIdEvent, TcgEfiSpecIdEventAlgorithmSize, TcgImrEvent, TcgPcClientImrEvent,
    EV_NO_ACTION, IMA_MEASUREMENT_EVENT, TCG_PCCLIENT_FORMAT, TPM_ALG_ERROR,
};

verus! {

/// Why a parse, selection or replay failed.  Malformed input,
/// unsupported features and selection range errors are distinct
/// variants, so a caller can tell a forged log from a feature this
/// library does not cover.
#[derive(Clone, Copy, PartialEq, Eq, Structural, Debug)]
pub enum EventLogError {
    /// No boot-time data was supplied.
    NoBootData,
    /// A length field or a record demanded more bytes than remain.
    TruncatedLog,
    /// A record's register-index field was zero, so it cannot be
    /// normalized to a zero-based index.
    ZeroRegisterIndex,
    /// A standard record referenced an algorithm the spec-ID header
    /// did not declare.
    UnknownAlgorithm { algo_id: u16 },
    /// A header-shaped record did not carry the fixed 20-byte digest
    /// its rendering requires.
    MalformedHeaderDigest,
    /// The requested output format is not supported.
    UnsupportedFormat,
    /// Replay met a canonical-format record, which replay does not
    /// cover yet.
    CanonicalNotSupported,
    /// A record counter reached its numeric limit.
    TooManyRecords,
    /// Selection started past the total record count.
    InvalidSelectStart,
    /// Selection asked for zero records.
    InvalidSelectCount,
    /// A runtime line held fewer than three fields.
    ImaTooFewFields,
    /// A runtime line's register field was not a decimal number that
    /// fits the register index type.
    ImaBadRegisterIndex,
    /// A runtime line's digest field was not valid hex.
    ImaBadDigest,
    /// A runtime line's digest length matched no known algorithm.
    ImaUnknownDigestLength,
    /// A runtime line's payload does not fit the event size field.
    OversizedEvent,
}

/// Mathematical model of the parser's working unit.
pub ghost struct EventLogV {
    pub rec_num: u32,
    pub imr_index: u32,
    pub event_type: u32,
    pub digests: Seq<DigestV>,
    pub event_size: u32,
    pub event: Seq<u8>,
    pub extra: Map<Seq<char>, Seq<char>>,
}

/// The parser's working unit: one record, not yet projected into a
/// format-specific output variant.
pub struct TcgEventLog {
    pub rec_num: u32,
    pub imr_index: u32,
    pub event_type: u32,
    pub digests: Vec<TcgDigest>,
    pub event_size: u32,
    pub event: Vec<u8>,
    pub extra_info: ExtraInfo,
}

impl View for TcgEventLog {
    type V = EventLogV;

    open spec fn view(&self) -> EventLogV {
        EventLogV {
            rec_num: self.rec_num,
            imr_index: self.imr_index,
            event_type: self.event_type,
            digests: self.digests.deep_view(),
            event_size: self.event_size,
            event: self.event@,
            extra: spec_extra_entries(self.extra_info),
        }
    }
}

/// How a working-unit record projects into the PC-Client output
/// shape: the one header-shaped record keeps only the first 20 bytes
/// of its single digest, every other record keeps its full digest
/// list.
pub open spec fn spec_format_pcclient(ev: EventLogV) -> Result<EventLogEntryV, EventLogError> {
    if ev.event_type == EV_NO_ACTION && ev.rec_num == 0 && ev.imr_index == 0 {
        if ev.digests.len() >= 1 && ev.digests[0].hash.len() >= 20 {
            Ok(
                EventLogEntryV::TcgPcClientImrEvent(
                    PcClientImrEventV {
                        imr_index: ev.imr_index,
                        event_type: ev.event_type,
                        digest: ev.digests[0].hash.subrange(0, 20),
                        event_size: ev.event_size,
                        event: ev.event,
                    },
                ),
            )
        } else {
            Err(EventLogError::MalformedHeaderDigest)
        }
    } else {
        Ok(
            EventLogEntryV::TcgImrEvent(
                ImrEventV {
                    imr_index: ev.imr_index,
                    event_type: ev.event_type,
                    digests: ev.digests,
                    event_size: ev.event_size,
                    event: ev.event,
                },
            ),
        )
    }
}

/// Projection by requested format; only the PC-Client rendering is
/// supported, any other selector is an explicit unsupported-feature
/// failure.
pub open spec fn spec_format_event_log(ev: EventLogV, parse_format: u8) -> Result<
    EventLogEntryV,
    EventLogError,
> {
    if parse_format == TCG_PCCLIENT_FORMAT {
        spec_format_pcclient(ev)
    } else {
        Err(EventLogError::UnsupportedFormat)
    }
}

/// One digest line of a record's rendering.
pub open spec fn spec_show_event_digest(d: DigestV) -> Seq<char> {
    "digest["@ + crate::render::spec_u32_dec(d.algo_id as int) + "] = "@
        + crate::hashes::spec_hex_encode(d.hash) + "\n"@
}

/// The digest lines of a record's rendering, in order.
pub open spec fn spec_show_event_digests(ds: Seq<DigestV>) -> Seq<char>
    decreases ds.len(),
{
    if ds.len() == 0 {
        Seq::empty()
    } else {
        spec_show_event_digests(ds.drop_last()) + spec_show_event_digest(ds.last())
    }
}

/// The lines of a record's rendering before its digests.
pub open spec fn spec_show_event_log_head(v: EventLogV) -> Seq<char> {
    "TcgEventLog\nrec_num = "@ + crate::render::spec_u32_dec(v.rec_num as int) + "\nimr_index = "@
        + crate::render::spec_u32_dec(v.imr_index as int) + "\nevent_type = "@
        + crate::render::spec_u32_dec(v.event_type as int) + "\n"@
}

/// The full rendering of a record.
pub open spec fn spec_show_event_log(v: EventLogV) -> Seq<char> {
    spec_show_event_log_head(v) + spec_show_event_digests(v.digests) + "event_size = "@
        + crate::render::spec_u32_dec(v.event_size as int) + "\nevent = "@
        + crate::hashes::spec_hex_encode(v.event) + "\n"@
}

impl TcgEventLog {
    pub fn to_tcg_pcclient_format(&self) -> (r: Result<EventLogEntry, EventLogError>)
        ensures
            (match spec_format_pcclient(self@) {
                Ok(ev) => r matches Ok(e) && e@ == ev,
                Err(er) => r matches Err(e) && e == er,
            }),
    {
        if self.event_type == EV_NO_ACTION && self.rec_num == 0 && self.imr_index == 0 {
            if self.digests.len() >= 1 && self.digests[0].hash.len() >= 20 {
                let digest = vstd::slice::slice_to_vec(
                    vstd::slice::slice_subrange(self.digests[0].hash.as_slice(), 0, 20),
                );
                Ok(
                    EventLogEntry::TcgPcClientImrEvent(
                        TcgPcClientImrEvent {
                            imr_index: self.imr_index,
                            event_type: self.event_type,
                            digest,
                            event_size: self.event_size,
                            event: self.event.clone(),
                        },
                    ),
                )
            } else {
                Err(EventLogError::MalformedHeaderDigest)
            }
        } else {
            let digests = self.digests.clone();
            proof {
                assert(digests.deep_view() =~= self.digests.deep_view());
            }
            Ok(
                EventLogEntry::TcgImrEvent(
                    TcgImrEvent {
                        imr_index: self.imr_index,
                        event_type: self.event_type,
                        digests,
                        event_size: self.event_size,
                        event: self.event.clone(),
                    },
                ),
            )
        }
    }

    /// Render this record as text: the record number, register,
    /// event type, each digest in hex under its algorithm, and the
    /// event bytes in hex.
    #[verifier::loop_isolation(false)]
    pub fn show(&self) -> (r: String)
        ensures
            r@ == spec_show_event_log(self@),
    {
        let mut out = String::new();
        out.append("TcgEventLog\nrec_num = ");
        out.append(crate::render::u32_dec_string(self.rec_num).as_str());
        out.append("\nimr_index = ");
        out.append(crate::render::u32_dec_string(self.imr_index).as_str());
        out.append("\nevent_type = ");
        out.append(crate::render::u32_dec_string(self.event_type).as_str());
        out.append("\n");
        let ghost ds = self.digests.deep_view();
        let ghost head = spec_show_event_log_head(self@);
        proof {
            assert(ds.take(0) =~= Seq::<DigestV>::empty());
            assert(out@ =~= head + spec_show_event_digests(ds.take(0)));
        }
        let n = self.digests.len();
        let mut i: usize = 0;
        while i < n
            invariant
                i <= n,
                out@ =~= head + spec_show_event_digests(ds.take(i as int)),
            decreases n - i,
        {
            out.append("digest[");
            out.append(crate::render::u32_dec_string(self.digests[i].algo_id as u32).as_str());
            out.append("] = ");
            let hex = crate::hashes::hex_encode(self.digests[i].hash.as_slice());
            out.append(hex.as_str());
            out.append("\n");
            proof {
                assert(ds.take(i + 1).drop_last() =~= ds.take(i as int));
                assert(ds.take(i + 1).last() == ds[i as int]);
                assert(out@ =~= head + spec_show_event_digests(ds.take(i + 1)));
            }
            i = i + 1;
        }
        proof {
            assert(ds.take(n as int) =~= ds);
        }
        out.append("event_size = ");
        out.append(crate::render::u32_dec_string(self.event_size).as_str());
        out.append("\nevent = ");
        let ev_hex = crate::hashes::hex_encode(self.event.as_slice());
        out.append(ev_hex.as_str());
        out.append("\n");
        proof {
            assert(out@ =~= spec_show_event_log(self@));
        }
        out
    }

    /// The canonical rendering of a record is an extension point
    /// with no layout defined yet, so asking for it is an explicit
    /// unsupported-feature failure, never a silent default.
    pub fn to_tcg_canonical_format(&self) -> (r: Result<EventLogEntry, EventLogError>)
        ensures
            r matches Err(e) && e == EventLogError::UnsupportedFormat,
    {
        Err(EventLogError::UnsupportedFormat)
    }

    pub fn format_event_log(&self, parse_format: u8) -> (r: Result<EventLogEntry, EventLogError>)
        ensures
            (match spec_format_event_log(self@, parse_format) {
                Ok(ev) => r matches Ok(e) && e@ == ev,
                Err(er) => r matches Err(e) && e == er,
            }),
    {
        if parse_format == TCG_PCCLIENT_FORMAT {
            self.to_tcg_pcclient_format()
        } else if parse_format == crate::tcg::TCG_CANONICAL_FORMAT {
            self.to_tcg_canonical_format()
        } else {
            Err(EventLogError::UnsupportedFormat)
        }
    }
}

/// The record number a register's counter will hand out next: the
/// counter's entry, or zero before the register's first record.
pub open spec fn spec_cnt(m: Map<u32, u32>, r: u32) -> u32 {
    if m.contains_key(r) {
        m[r]
    } else {
        0
    }
}

/// The counter map after one record number is handed out for a
/// register.
pub open spec fn spec_bump(m: Map<u32, u32>, r: u32) -> Map<u32, u32> {
    m.insert(r, (spec_cnt(m, r) + 1) as u32)
}

/// All event logs available on the system: the raw boot-time blob,
/// the raw runtime lines, and everything parsed out of them.
pub struct EventLogs {
    pub spec_id_header_event: TcgEfiSpecIdEvent,
    pub boot_time_data: Vec<u8>,
    pub run_time_data: Vec<String>,
    pub event_logs: Vec<EventLogEntry>,
    pub count: u32,
    pub parse_format: u8,
    pub event_logs_record_number_list: HashMap<u32, u32>,
    pub parsed: bool,
}

impl Clone for EventLogs {
    fn clone(&self) -> (res: Self)
        ensures
            res.spec_id_header_event@ == self.spec_id_header_event@,
            res.boot_time_data@ == self.boot_time_data@,
            res.run_time_data.deep_view() == self.run_time_data.deep_view(),
            res.event_logs.deep_view() == self.event_logs.deep_view(),
            res.count == self.count,
            res.parse_format == self.parse_format,
            res.event_logs_record_number_list@ == self.event_logs_record_number_list@,
            res.parsed == self.parsed,
    {
        let run_time_data = self.run_time_data.clone();
        let event_logs = self.event_logs.clone();
        proof {
            assert(run_time_data.deep_view() =~= self.run_time_data.deep_view());
            assert(event_logs.deep_view() =~= self.event_logs.deep_view());
        }
        EventLogs {
            spec_id_header_event: self.spec_id_header_event.clone(),
            boot_time_data: self.boot_time_data.clone(),
            run_time_data,
            event_logs,
            count: self.count,
            parse_format: self.parse_format,
            event_logs_record_number_list: self.event_logs_record_number_list.clone(),
            parsed: self.parsed,
        }
    }
}

impl EventLogs {
    /// The collection's invariant: the running count tracks the
    /// number of parsed records.
    pub open spec fn wf(&self) -> bool {
        self.count as int == self.event_logs.len()
    }

    pub fn new(boot_time_data: Vec<u8>, run_time_data: Vec<String>, parse_format: u8) -> (r:
        EventLogs)
        ensures
            r.wf(),
            r.boot_time_data@ == boot_time_data@,
            r.run_time_data.deep_view() == run_time_data.deep_view(),
            r.parse_format == parse_format,
            r.spec_id_header_event@ == crate::tcg::spec_empty_spec_id_event(),
            r.event_logs.deep_view() =~= Seq::<EventLogEntryV>::empty(),
            r.count == 0,
            r.event_logs_record_number_list@ =~= Map::empty(),
            !r.parsed,
    {
        EventLogs {
            spec_id_header_event: TcgEfiSpecIdEvent::new(),
            boot_time_data,
            run_time_data,
            event_logs: Vec::new(),
            count: 0,
            parse_format,
            event_logs_record_number_list: HashMap::new(),
            parsed: false,
        }
    }

    /// The raw inputs, the parsed records, the count and the flags
    /// are unchanged between two collection states.
    pub open spec fn same_core(pre: &EventLogs, post: &EventLogs) -> bool {
        post.boot_time_data@ == pre.boot_time_data@ && post.run_time_data.deep_view()
            == pre.run_time_data.deep_view() && post.event_logs.deep_view()
            == pre.event_logs.deep_view() && post.count == pre.count && post.parse_format
            == pre.parse_format && post.parsed == pre.parsed
    }

    /// Everything but the counter map is unchanged between two
    /// collection states.
    pub open spec fn same_but_counters(pre: &EventLogs, post: &EventLogs) -> bool {
        post.spec_id_header_event@ == pre.spec_id_header_event@ && Self::same_core(pre, post)
    }

    /// Fetch the record number a register's counter holds, and
    /// advance the counter for the register's next record.
    pub fn get_record_number(&mut self, imr_index: u32) -> (r: u32)
        requires
            spec_cnt(old(self).event_logs_record_number_list@, imr_index) < u32::MAX,
        ensures
            r == spec_cnt(old(self).event_logs_record_number_list@, imr_index),
            final(self).event_logs_record_number_list@ == spec_bump(
                old(self).event_logs_record_number_list@,
                imr_index,
            ),
            Self::same_but_counters(old(self), final(self)),
    {
        let rec_num = match self.event_logs_record_number_list.get(&imr_index) {
            Some(v) => *v,
            None => 0,
        };
        self.event_logs_record_number_list.insert(imr_index, rec_num + 1);
        rec_num
    }

    /// Linear scan of the declared algorithm table, first match wins.
    fn find_algorithm_size(algs: &Vec<TcgEfiSpecIdEventAlgorithmSize>, algo_id: u16) -> (r: Option<
        u32,
    >)
        ensures
            r == spec_find_alg(algs.deep_view(), algo_id),
    {
        let ghost full = algs.deep_view();
        proof {
            assert(full.skip(0) =~= full);
        }
        let n = algs.len();
        let mut j: usize = 0;
        while j < n
            invariant
                0 <= j <= n,
                n == algs.len(),
                full == algs.deep_view(),
                spec_find_alg(full.skip(j as int), algo_id) == spec_find_alg(full, algo_id),
            decreases n - j,
        {
            if algs[j].algo_id == algo_id {
                proof {
                    assert(full.skip(j as int)[0] == full[j as int]);
                }
                return Some(algs[j].digest_size);
            }
            proof {
                assert(full.skip(j as int).drop_first() =~= full.skip(j as int + 1));
            }
            j = j + 1;
        }
        proof {
            assert(full.skip(n as int) =~= Seq::<TcgEfiSpecIdEventAlgorithmSize>::empty());
        }
        None
    }

    /// As `get_record_number`, but refuses to advance a counter that
    /// has reached its limit instead of demanding it of the caller.
    fn try_get_record_number(&mut self, imr_index: u32) -> (r: Option<u32>)
        ensures
            (match r {
                Some(n) => spec_cnt(old(self).event_logs_record_number_list@, imr_index) < u32::MAX
                    && n == spec_cnt(old(self).event_logs_record_number_list@, imr_index) && final(self).event_logs_record_number_list@ == spec_bump(
                    old(self).event_logs_record_number_list@,
                    imr_index,
                ),
                None => spec_cnt(old(self).event_logs_record_number_list@, imr_index) == u32::MAX
                    && final(self).event_logs_record_number_list@ == old(self).event_logs_record_number_list@,
            }),
            Self::same_but_counters(old(self), final(self)),
    {
        let rec_num = match self.event_logs_record_number_list.get(&imr_index) {
            Some(v) => *v,
            None => 0,
        };
        if rec_num == u32::MAX {
            return None;
        }
        self.event_logs_record_number_list.insert(imr_index, rec_num + 1);
        Some(rec_num)
    }
}

/// Relates a full digest-list parse to what remains of it after a
/// prefix of the digests has been taken off.
pub open spec fn spec_digests_continue(
    full: Result<(Seq<DigestV>, int), EventLogError>,
    done: Seq<DigestV>,
    rest: Result<(Seq<DigestV>, int), EventLogError>,
) -> bool {
    match rest {
        Ok(pr) => full matches Ok(f) && f.0 =~= done + pr.0 && f.1 == pr.1,
        Err(e) => full matches Err(e2) && e2 == e,
    }
}

/// Relates a full algorithm-table parse to what remains of it after
/// a prefix of the pairs has been taken off.
pub open spec fn spec_alg_sizes_continue(
    full: Result<(Seq<TcgEfiSpecIdEventAlgorithmSize>, int), EventLogError>,
    done: Seq<TcgEfiSpecIdEventAlgorithmSize>,
    rest: Result<(Seq<TcgEfiSpecIdEventAlgorithmSize>, int), EventLogError>,
) -> bool {
    match rest {
        Ok(pr) => full matches Ok(f) && f.0 =~= done + pr.0 && f.1 == pr.1,
        Err(e) => full matches Err(e2) && e2 == e,
    }
}

/// The digest size bound to an algorithm identifier by the declared
/// table, first match winning, as the standard record parser looks
/// it up.
pub open spec fn spec_find_alg(algs: Seq<TcgEfiSpecIdEventAlgorithmSize>, algo_id: u16) -> Option<
    u32,
>
    decreases algs.len(),
{
    if algs.len() == 0 {
        None
    } else if algs[0].algo_id == algo_id {
        Some(algs[0].digest_size)
    } else {
        spec_find_alg(algs.drop_first(), algo_id)
    }
}

/// What the standard record parser extracts from a record boundary:
/// the normalized register index, the event type, the digest list,
/// the raw event bytes, and how many bytes the record occupied.
#[verifier::ext_equal]
pub ghost struct StdRecV {
    pub imr_index: u32,
    pub event_type: u32,
    pub digests: Seq<DigestV>,
    pub event: Seq<u8>,
    pub consumed: int,
}

/// Parse `count` digests at `pos`: a 2-byte algorithm identifier,
/// then as many bytes as the declared table gives that algorithm.
/// An identifier absent from the table fails the parse.
pub open spec fn spec_parse_digests(
    data: Seq<u8>,
    pos: int,
    count: int,
    algs: Seq<TcgEfiSpecIdEventAlgorithmSize>,
) -> Result<(Seq<DigestV>, int), EventLogError>
    decreases count,
{
    if count <= 0 {
        Ok((Seq::empty(), pos))
    } else if pos + 2 > data.len() {
        Err(EventLogError::TruncatedLog)
    } else {
        let algo_id = spec_u16_le(data, pos) as u16;
        match spec_find_alg(algs, algo_id) {
            None => Err(EventLogError::UnknownAlgorithm { algo_id }),
            Some(size) => {
                if pos + 2 + size > data.len() {
                    Err(EventLogError::TruncatedLog)
                } else {
                    match spec_parse_digests(data, pos + 2 + size, count - 1, algs) {
                        Ok((rest, end)) => Ok(
                            (
                                seq![
                                    DigestV {
                                        algo_id,
                                        hash: data.subrange(pos + 2, pos + 2 + size),
                                    },
                                ] + rest,
                                end,
                            ),
                        ),
                        Err(e) => Err(e),
                    }
                }
            },
        }
    }
}

/// The end position of a successful digest-list parse stays within
/// the buffer.
pub proof fn lemma_parse_digests_bounds(
    data: Seq<u8>,
    pos: int,
    count: int,
    algs: Seq<TcgEfiSpecIdEventAlgorithmSize>,
)
    requires
        0 <= pos <= data.len(),
    ensures
        (match spec_parse_digests(data, pos, count, algs) {
            Ok(pr) => pos <= pr.1 <= data.len(),
            Err(_) => true,
        }),
    decreases count,
{
    if count > 0 && pos + 2 <= data.len() {
        let algo_id = spec_u16_le(data, pos) as u16;
        match spec_find_alg(algs, algo_id) {
            None => {},
            Some(size) => {
                if pos + 2 + size <= data.len() {
                    lemma_parse_digests_bounds(data, pos + 2 + size, count - 1, algs);
                }
            },
        }
    }
}

/// The tail of a standard record once its digests are parsed: the
/// 4-byte event length and the event bytes.
pub open spec fn spec_std_after_digests(
    data: Seq<u8>,
    dres: Result<(Seq<DigestV>, int), EventLogError>,
    imr_index: u32,
    event_type: u32,
) -> Result<StdRecV, EventLogError> {
    match dres {
        Err(e) => Err(e),
        Ok((digests, p)) => {
            if p + 4 > data.len() {
                Err(EventLogError::TruncatedLog)
            } else {
                let esize = spec_u32_le(data, p);
                if p + 4 + esize > data.len() {
                    Err(EventLogError::TruncatedLog)
                } else {
                    Ok(
                        StdRecV {
                            imr_index,
                            event_type,
                            digests,
                            event: data.subrange(p + 4, p + 4 + esize),
                            consumed: p + 4 + esize,
                        },
                    )
                }
            }
        },
    }
}

/// One standard record at the start of `data`: 4-byte one-based
/// register index, 4-byte event type, 4-byte digest count, the
/// digests, then the event length and bytes.
pub open spec fn spec_parse_event_log(
    data: Seq<u8>,
    algs: Seq<TcgEfiSpecIdEventAlgorithmSize>,
) -> Result<StdRecV, EventLogError> {
    if data.len() < 12 {
        Err(EventLogError::TruncatedLog)
    } else if spec_u32_le(data, 0) == 0 {
        Err(EventLogError::ZeroRegisterIndex)
    } else {
        spec_std_after_digests(
            data,
            spec_parse_digests(data, 12, spec_u32_le(data, 8), algs),
            (spec_u32_le(data, 0) - 1) as u32,
            spec_u32_le(data, 4) as u32,
        )
    }
}

/// A successful standard record occupies at least its fixed fields
/// and no more than the buffer.
pub proof fn lemma_parse_event_log_consumed(
    data: Seq<u8>,
    algs: Seq<TcgEfiSpecIdEventAlgorithmSize>,
)
    ensures
        (match spec_parse_event_log(data, algs) {
            Ok(rec) => 16 <= rec.consumed <= data.len(),
            Err(_) => true,
        }),
{
    if data.len() >= 12 {
        lemma_parse_digests_bounds(data, 12, spec_u32_le(data, 8), algs);
    }
}

/// What the spec-ID header parser extracts: the normalized header
/// register, the event type, the fixed 20-byte digest, the raw event
/// bytes, the nested specification-ID structure, and the consumed
/// byte count.
#[verifier::ext_equal]
pub ghost struct SpecIdRecV {
    pub header_imr: u32,
    pub event_type: u32,
    pub digest: Seq<u8>,
    pub event: Seq<u8>,
    pub header: SpecIdEventV,
    pub consumed: int,
}

/// Parse `count` declared `(algorithm id, digest size)` pairs at
/// `pos`.
pub open spec fn spec_parse_alg_sizes(data: Seq<u8>, pos: int, count: int) -> Result<
    (Seq<TcgEfiSpecIdEventAlgorithmSize>, int),
    EventLogError,
>
    decreases count,
{
    if count <= 0 {
        Ok((Seq::empty(), pos))
    } else if pos + 4 > data.len() {
        Err(EventLogError::TruncatedLog)
    } else {
        match spec_parse_alg_sizes(data, pos + 4, count - 1) {
            Ok((rest, end)) => Ok(
                (
                    seq![
                        TcgEfiSpecIdEventAlgorithmSize {
                            algo_id: spec_u16_le(data, pos) as u16,
                            digest_size: spec_u16_le(data, pos + 2) as u32,
                        },
                    ] + rest,
                    end,
                ),
            ),
            Err(e) => Err(e),
        }
    }
}

/// The end position of a successful algorithm-size parse stays
/// within the buffer.
pub proof fn lemma_parse_alg_sizes_bounds(data: Seq<u8>, pos: int, count: int)
    requires
        0 <= pos <= data.len(),
    ensures
        (match spec_parse_alg_sizes(data, pos, count) {
            Ok(pr) => pos <= pr.1 <= data.len(),
            Err(_) => true,
        }),
    decreases count,
{
    if count > 0 && pos + 4 <= data.len() {
        lemma_parse_alg_sizes_bounds(data, pos + 4, count - 1);
    }
}

/// The tail of the spec-ID record once the algorithm pairs are
/// parsed: the 1-byte vendor-info length and the vendor bytes.
pub open spec fn spec_spec_id_after_algs(
    data: Seq<u8>,
    ares: Result<(Seq<TcgEfiSpecIdEventAlgorithmSize>, int), EventLogError>,
) -> Result<SpecIdRecV, EventLogError> {
    match ares {
        Err(e) => Err(e),
        Ok((algs, p)) => {
            if p + 1 > data.len() {
                Err(EventLogError::TruncatedLog)
            } else {
                let vsize = data[p] as int;
                if p + 1 + vsize > data.len() {
                    Err(EventLogError::TruncatedLog)
                } else {
                    Ok(
                        SpecIdRecV {
                            header_imr: (spec_u32_le(data, 0) - 1) as u32,
                            event_type: spec_u32_le(data, 4) as u32,
                            digest: data.subrange(8, 28),
                            event: data.subrange(32, 32 + spec_u32_le(data, 28)),
                            header: SpecIdEventV {
                                signature: data.subrange(32, 48),
                                platform_class: spec_u32_le(data, 48) as u32,
                                spec_version_minor: data[52],
                                spec_version_major: data[53],
                                spec_errata: data[54],
                                uintn_size: data[55],
                                number_of_algorithms: spec_u32_le(data, 56) as u32,
                                digest_sizes: algs,
                                vendor_info_size: data[p],
                                vendor_info: data.subrange(p + 1, p + 1 + vsize),
                            },
                            consumed: p + 1 + vsize,
                        },
                    )
                }
            }
        },
    }
}

/// The spec-ID header record at the start of `data`: the fixed
/// PCClientPCREvent header with its 20-byte digest, then the nested
/// specification-ID structure with its declared algorithm table and
/// vendor info.
pub open spec fn spec_parse_spec_id_event_log(data: Seq<u8>) -> Result<SpecIdRecV, EventLogError> {
    if data.len() < 32 {
        Err(EventLogError::TruncatedLog)
    } else if spec_u32_le(data, 0) == 0 {
        Err(EventLogError::ZeroRegisterIndex)
    } else if 32 + spec_u32_le(data, 28) > data.len() {
        Err(EventLogError::TruncatedLog)
    } else if data.len() < 60 {
        Err(EventLogError::TruncatedLog)
    } else {
        spec_spec_id_after_algs(data, spec_parse_alg_sizes(data, 60, spec_u32_le(data, 56)))
    }
}

/// A successful spec-ID record occupies at least its fixed fields
/// and no more than the buffer.
pub proof fn lemma_parse_spec_id_consumed(data: Seq<u8>)
    ensures
        (match spec_parse_spec_id_event_log(data) {
            Ok(rec) => 61 <= rec.consumed <= data.len(),
            Err(_) => true,
        }),
{
    if data.len() >= 60 {
        lemma_parse_alg_sizes_bounds(data, 60, spec_u32_le(data, 56));
    }
}

impl EventLogs {
    /// Parse one standard record from the start of `data`, drawing
    /// its record number from the per-register counter; consults the
    /// spec-ID header for each digest's size and fails on an
    /// algorithm the header did not declare.
    #[verifier::loop_isolation(false)]
    pub fn parse_event_log(&mut self, data: Vec<u8>) -> (r: Result<
        (TcgEventLog, usize),
        EventLogError,
    >)
        ensures
            Self::same_but_counters(old(self), final(self)),
            (match spec_parse_event_log(data@, old(self).spec_id_header_event@.digest_sizes) {
                Err(e) => (r matches Err(x) && x == e) && final(self).event_logs_record_number_list@ == old(self).event_logs_record_number_list@,
                Ok(rec) => {
                    if spec_cnt(old(self).event_logs_record_number_list@, rec.imr_index)
                        == u32::MAX {
                        (r matches Err(x) && x == EventLogError::TooManyRecords) && final(self).event_logs_record_number_list@ == old(self).event_logs_record_number_list@
                    } else {
                        r matches Ok(p) && p.0@ == spec_event_log_of_std(
                            rec,
                            spec_cnt(old(self).event_logs_record_number_list@, rec.imr_index),
                        ) && p.1 == rec.consumed && final(self).event_logs_record_number_list@
                            == spec_bump(old(self).event_logs_record_number_list@, rec.imr_index)
                    }
                },
            }),
    {
        let ghost algs = self.spec_id_header_event@.digest_sizes;
        if data.len() < 12 {
            return Err(EventLogError::TruncatedLog);
        }
        let imr_raw = get_u32(data.as_slice(), 0);
        if imr_raw == 0 {
            return Err(EventLogError::ZeroRegisterIndex);
        }
        let event_type = get_u32(data.as_slice(), 4);
        let digest_count = get_u32(data.as_slice(), 8);
        let ghost full = spec_parse_digests(data@, 12, digest_count as int, algs);
        let mut pos: usize = 12;
        let mut digests: Vec<TcgDigest> = Vec::new();
        let mut i: u32 = 0;
        proof {
            assert(digests.deep_view() =~= Seq::<DigestV>::empty());
            assert(digests.deep_view() + spec_parse_digests(
                data@,
                12,
                digest_count as int,
                algs,
            )->Ok_0.0 =~= spec_parse_digests(data@, 12, digest_count as int, algs)->Ok_0.0);
        }
        while i < digest_count
            invariant
                *self == *old(self),
                12 <= pos <= data@.len(),
                i <= digest_count,
                algs == old(self).spec_id_header_event@.digest_sizes,
                full == spec_parse_digests(data@, 12, digest_count as int, algs),
                spec_digests_continue(
                    full,
                    digests.deep_view(),
                    spec_parse_digests(data@, pos as int, digest_count - i, algs),
                ),
            decreases digest_count - i,
        {
            let ghost done0 = digests.deep_view();
            let ghost rest0 = spec_parse_digests(data@, pos as int, digest_count - i, algs);
            if data.len() - pos < 2 {
                return Err(EventLogError::TruncatedLog);
            }
            let algo_id = get_u16(data.as_slice(), pos);
            let found = Self::find_algorithm_size(&self.spec_id_header_event.digest_sizes, algo_id);
            match found {
                None => {
                    return Err(EventLogError::UnknownAlgorithm { algo_id });
                },
                Some(size) => {
                    let size_us = size as usize;
                    if data.len() - (pos + 2) < size_us {
                        return Err(EventLogError::TruncatedLog);
                    }
                    let hash = vstd::slice::slice_to_vec(
                        vstd::slice::slice_subrange(data.as_slice(), pos + 2, pos + 2 + size_us),
                    );
                    let ghost d = DigestV { algo_id, hash: hash@ };
                    digests.push(TcgDigest { algo_id, hash });
                    proof {
                        let rest1 = spec_parse_digests(
                            data@,
                            pos + 2 + size as int,
                            digest_count - i - 1,
                            algs,
                        );
                        assert(digests.deep_view() =~= done0.push(d));
                        match rest1 {
                            Ok(pr) => {
                                assert(rest0 matches Ok(r0) && r0.0 =~= seq![d] + pr.0 && r0.1
                                    == pr.1);
                                assert(done0 + (seq![d] + pr.0) =~= done0.push(d) + pr.0);
                            },
                            Err(_) => {},
                        }
                    }
                    pos = pos + 2 + size_us;
                    i = i + 1;
                },
            }
        }
        proof {
            assert(spec_parse_digests(data@, pos as int, 0, algs) matches Ok(pr) && pr.0
                =~= Seq::<DigestV>::empty() && pr.1 == pos as int);
            assert(digests.deep_view() + Seq::<DigestV>::empty() =~= digests.deep_view());
        }
        if data.len() - pos < 4 {
            return Err(EventLogError::TruncatedLog);
        }
        let event_size = get_u32(data.as_slice(), pos);
        let esize_us = event_size as usize;
        if data.len() - (pos + 4) < esize_us {
            return Err(EventLogError::TruncatedLog);
        }
        let event = vstd::slice::slice_to_vec(
            vstd::slice::slice_subrange(data.as_slice(), pos + 4, pos + 4 + esize_us),
        );
        let consumed = pos + 4 + esize_us;
        let imr_index = imr_raw - 1;
        let rec_num = match self.try_get_record_number(imr_index) {
            None => {
                return Err(EventLogError::TooManyRecords);
            },
            Some(n) => n,
        };
        let ev = TcgEventLog {
            rec_num,
            imr_index,
            event_type,
            digests,
            event_size,
            event,
            extra_info: ExtraInfo::new(),
        };
        proof {
            let rec = spec_parse_event_log(data@, algs)->Ok_0;
            assert(ev@ =~= spec_event_log_of_std(rec, rec_num));
        }
        Ok((ev, consumed))
    }

    /// Parse the spec-ID header record from the start of `data`:
    /// the fixed header with its 20-byte digest, then the nested
    /// specification-ID structure, which becomes the collection's
    /// algorithm table for all later standard records.
    #[verifier::loop_isolation(false)]
    pub fn parse_spec_id_event_log(&mut self, data: Vec<u8>) -> (r: Result<
        (TcgEventLog, usize),
        EventLogError,
    >)
        ensures
            Self::same_core(old(self), final(self)),
            (match spec_parse_spec_id_event_log(data@) {
                Err(e) => (r matches Err(x) && x == e) && final(self).event_logs_record_number_list@ == old(self).event_logs_record_number_list@
                    && final(self).spec_id_header_event@ == old(self).spec_id_header_event@,
                Ok(rec) => {
                    if spec_cnt(old(self).event_logs_record_number_list@, rec.header_imr)
                        == u32::MAX {
                        (r matches Err(x) && x == EventLogError::TooManyRecords) && final(self).event_logs_record_number_list@ == old(self).event_logs_record_number_list@ && final(self).spec_id_header_event@
                            == old(self).spec_id_header_event@
                    } else {
                        r matches Ok(p) && p.0@ == spec_event_log_of_header(
                            rec,
                            spec_cnt(old(self).event_logs_record_number_list@, rec.header_imr),
                        ) && p.1 == rec.consumed && final(self).event_logs_record_number_list@
                            == spec_bump(old(self).event_logs_record_number_list@, rec.header_imr)
                            && final(self).spec_id_header_event@ == rec.header
                    }
                },
            }),
    {
        if data.len() < 32 {
            return Err(EventLogError::TruncatedLog);
        }
        let imr_raw = get_u32(data.as_slice(), 0);
        if imr_raw == 0 {
            return Err(EventLogError::ZeroRegisterIndex);
        }
        let header_event_type = get_u32(data.as_slice(), 4);
        let digest_hash = vstd::slice::slice_to_vec(
            vstd::slice::slice_subrange(data.as_slice(), 8, 28),
        );
        let header_event_size = get_u32(data.as_slice(), 28);
        let esize_us = header_event_size as usize;
        if data.len() - 32 < esize_us {
            return Err(EventLogError::TruncatedLog);
        }
        let header_event = vstd::slice::slice_to_vec(
            vstd::slice::slice_subrange(data.as_slice(), 32, 32 + esize_us),
        );
        if data.len() < 60 {
            return Err(EventLogError::TruncatedLog);
        }
        let spec_id_signature = vstd::slice::slice_to_vec(
            vstd::slice::slice_subrange(data.as_slice(), 32, 48),
        );
        let spec_id_platform_cls = get_u32(data.as_slice(), 48);
        let spec_id_version_minor = get_u8(data.as_slice(), 52);
        let spec_id_version_major = get_u8(data.as_slice(), 53);
        let spec_id_errata = get_u8(data.as_slice(), 54);
        let spec_id_uint_size = get_u8(data.as_slice(), 55);
        let spec_id_num_of_algo = get_u32(data.as_slice(), 56);
        let ghost full = spec_parse_alg_sizes(data@, 60, spec_id_num_of_algo as int);
        let mut pos: usize = 60;
        let mut spec_id_digest_sizes: Vec<TcgEfiSpecIdEventAlgorithmSize> = Vec::new();
        let mut i: u32 = 0;
        proof {
            assert(spec_id_digest_sizes.deep_view() =~= Seq::<
                TcgEfiSpecIdEventAlgorithmSize,
            >::empty());
        }
        while i < spec_id_num_of_algo
            invariant
                *self == *old(self),
                60 <= pos <= data@.len(),
                i <= spec_id_num_of_algo,
                full == spec_parse_alg_sizes(data@, 60, spec_id_num_of_algo as int),
                spec_alg_sizes_continue(
                    full,
                    spec_id_digest_sizes.deep_view(),
                    spec_parse_alg_sizes(data@, pos as int, spec_id_num_of_algo - i),
                ),
            decreases spec_id_num_of_algo - i,
        {
            let ghost done0 = spec_id_digest_sizes.deep_view();
            let ghost rest0 = spec_parse_alg_sizes(data@, pos as int, spec_id_num_of_algo - i);
            if data.len() - pos < 4 {
                return Err(EventLogError::TruncatedLog);
            }
            let algo_id = get_u16(data.as_slice(), pos);
            let digest_size = get_u16(data.as_slice(), pos + 2);
            let pair = TcgEfiSpecIdEventAlgorithmSize { algo_id, digest_size: digest_size as u32 };
            spec_id_digest_sizes.push(pair);
            proof {
                let rest1 = spec_parse_alg_sizes(
                    data@,
                    pos + 4 as int,
                    spec_id_num_of_algo - i - 1,
                );
                assert(spec_id_digest_sizes.deep_view() =~= done0.push(pair));
                match rest1 {
                    Ok(pr) => {
                        assert(rest0 matches Ok(r0) && r0.0 =~= seq![pair] + pr.0 && r0.1 == pr.1);
                        assert(done0 + (seq![pair] + pr.0) =~= done0.push(pair) + pr.0);
                    },
                    Err(_) => {},
                }
            }
            pos = pos + 4;
            i = i + 1;
        }
        proof {
            assert(spec_parse_alg_sizes(data@, pos as int, 0) matches Ok(pr) && pr.0 =~= Seq::<
                TcgEfiSpecIdEventAlgorithmSize,
            >::empty() && pr.1 == pos as int);
            assert(spec_id_digest_sizes.deep_view() + Seq::<
                TcgEfiSpecIdEventAlgorithmSize,
            >::empty() =~= spec_id_digest_sizes.deep_view());
        }
        if data.len() - pos < 1 {
            return Err(EventLogError::TruncatedLog);
        }
        let spec_id_vendor_size = get_u8(data.as_slice(), pos);
        let vsize_us = spec_id_vendor_size as usize;
        if data.len() - (pos + 1) < vsize_us {
            return Err(EventLogError::TruncatedLog);
        }
        let spec_id_vendor_info = vstd::slice::slice_to_vec(
            vstd::slice::slice_subrange(data.as_slice(), pos + 1, pos + 1 + vsize_us),
        );
        let consumed = pos + 1 + vsize_us;
        let header_imr = imr_raw - 1;
        let rec_num = match self.try_get_record_number(header_imr) {
            None => {
                return Err(EventLogError::TooManyRecords);
            },
            Some(n) => n,
        };
        let mut digests: Vec<TcgDigest> = Vec::new();
        digests.push(TcgDigest { algo_id: TPM_ALG_ERROR, hash: digest_hash });
        self.spec_id_header_event = TcgEfiSpecIdEvent {
            signature: spec_id_signature,
            platform_class: spec_id_platform_cls,
            spec_version_minor: spec_id_version_minor,
            spec_version_major: spec_id_version_major,
            spec_errata: spec_id_errata,
            uintn_size: spec_id_uint_size,
            number_of_algorithms: spec_id_num_of_algo,
            digest_sizes: spec_id_digest_sizes,
            vendor_info_size: spec_id_vendor_size,
            vendor_info: spec_id_vendor_info,
        };
        let ev = TcgEventLog {
            rec_num,
            imr_index: header_imr,
            event_type: header_event_type,
            digests,
            event_size: header_event_size,
            event: header_event,
            extra_info: ExtraInfo::new(),
        };
        proof {
            let rec = spec_parse_spec_id_event_log(data@)->Ok_0;
            assert(ev@.digests =~= spec_event_log_of_header(rec, rec_num).digests);
            assert(ev@ =~= spec_event_log_of_header(rec, rec_num));
            assert(final(self).spec_id_header_event@ =~= rec.header);
        }
        Ok((ev, consumed))
    }
}

/// The working-unit record a standard record yields, once its
/// register's counter hands out a record number.
pub open spec fn spec_event_log_of_std(rec: StdRecV, rec_num: u32) -> EventLogV {
    EventLogV {
        rec_num,
        imr_index: rec.imr_index,
        event_type: rec.event_type,
        digests: rec.digests,
        event_size: rec.event.len() as u32,
        event: rec.event,
        extra: Map::empty(),
    }
}

/// The working-unit record the spec-ID header yields: a single
/// legacy digest tagged with the error algorithm identifier.
pub open spec fn spec_event_log_of_header(rec: SpecIdRecV, rec_num: u32) -> EventLogV {
    EventLogV {
        rec_num,
        imr_index: rec.header_imr,
        event_type: rec.event_type,
        digests: seq![DigestV { algo_id: TPM_ALG_ERROR, hash: rec.digest }],
        event_size: rec.event.len() as u32,
        event: rec.event,
        extra: Map::empty(),
    }
}

/// The working-unit record a runtime line yields: one digest, the
/// fixed integrity-measurement event type, and the template name as
/// metadata.
pub open spec fn spec_event_log_of_ima(rec: crate::ima::ImaRecV, rec_num: u32) -> EventLogV {
    EventLogV {
        rec_num,
        imr_index: rec.imr_index,
        event_type: IMA_MEASUREMENT_EVENT,
        digests: seq![DigestV { algo_id: rec.algo_id, hash: rec.hash }],
        event_size: rec.event.len() as u32,
        event: rec.event,
        extra: Map::empty().insert("template_name"@, rec.template_name),
    }
}

/// One pass of the parser: the records it produced, the header and
/// counter state it left behind, and the error that stopped it, if
/// one did.
#[verifier::ext_equal]
pub ghost struct BootParseOut {
    pub entries: Seq<EventLogEntryV>,
    pub header: SpecIdEventV,
    pub counters: Map<u32, u32>,
    pub count: u32,
    pub err: Option<EventLogError>,
}

/// A full parse equals what was already produced plus what remains.
pub open spec fn spec_boot_continues(
    full: BootParseOut,
    done: Seq<EventLogEntryV>,
    rest: BootParseOut,
) -> bool {
    full.entries =~= done + rest.entries && full.header == rest.header && full.counters
        =~= rest.counters && full.count == rest.count && full.err == rest.err
}

/// Walk the boot-time blob from `pos`: stop at the end of the buffer
/// or at an all-ones register-index sentinel; dispatch the first
/// record to the spec-ID parser when it carries the no-action marker,
/// every other record to the standard parser; and stop with the
/// record's error as soon as one fails.
pub open spec fn spec_parse_boot(
    data: Seq<u8>,
    pos: int,
    parse_format: u8,
    count: u32,
    header: SpecIdEventV,
    counters: Map<u32, u32>,
) -> BootParseOut
    decreases data.len() - pos,
        via spec_parse_boot_decreases
{
    if pos < 0 || pos >= data.len() {
        BootParseOut { entries: Seq::empty(), header, counters, count, err: None }
    } else if pos + 4 > data.len() {
        BootParseOut {
            entries: Seq::empty(),
            header,
            counters,
            count,
            err: Some(EventLogError::TruncatedLog),
        }
    } else if spec_u32_le(data, pos) == 0xFFFFFFFF {
        BootParseOut { entries: Seq::empty(), header, counters, count, err: None }
    } else if pos + 8 > data.len() {
        BootParseOut {
            entries: Seq::empty(),
            header,
            counters,
            count,
            err: Some(EventLogError::TruncatedLog),
        }
    } else if spec_u32_le(data, pos + 4) == EV_NO_ACTION && count == 0 {
        match spec_parse_spec_id_event_log(data.skip(pos)) {
            Err(e) => BootParseOut {
                entries: Seq::empty(),
                header,
                counters,
                count,
                err: Some(e),
            },
            Ok(rec) => {
                if spec_cnt(counters, rec.header_imr) == u32::MAX {
                    BootParseOut {
                        entries: Seq::empty(),
                        header,
                        counters,
                        count,
                        err: Some(EventLogError::TooManyRecords),
                    }
                } else {
                    let rec_num = spec_cnt(counters, rec.header_imr);
                    let counters1 = spec_bump(counters, rec.header_imr);
                    match spec_format_event_log(
                        spec_event_log_of_header(rec, rec_num),
                        parse_format,
                    ) {
                        Err(e) => BootParseOut {
                            entries: Seq::empty(),
                            header: rec.header,
                            counters: counters1,
                            count,
                            err: Some(e),
                        },
                        Ok(entry) => {
                            if count == u32::MAX {
                                BootParseOut {
                                    entries: Seq::empty(),
                                    header: rec.header,
                                    counters: counters1,
                                    count,
                                    err: Some(EventLogError::TooManyRecords),
                                }
                            } else {
                                let rest = spec_parse_boot(
                                    data,
                                    pos + rec.consumed,
                                    parse_format,
                                    (count + 1) as u32,
                                    rec.header,
                                    counters1,
                                );
                                BootParseOut {
                                    entries: seq![entry] + rest.entries,
                                    header: rest.header,
                                    counters: rest.counters,
                                    count: rest.count,
                                    err: rest.err,
                                }
                            }
                        },
                    }
                }
            },
        }
    } else {
        match spec_parse_event_log(data.skip(pos), header.digest_sizes) {
            Err(e) => BootParseOut {
                entries: Seq::empty(),
                header,
                counters,
                count,
                err: Some(e),
            },
            Ok(rec) => {
                if spec_cnt(counters, rec.imr_index) == u32::MAX {
                    BootParseOut {
                        entries: Seq::empty(),
                        header,
                        counters,
                        count,
                        err: Some(EventLogError::TooManyRecords),
                    }
                } else {
                    let rec_num = spec_cnt(counters, rec.imr_index);
                    let counters1 = spec_bump(counters, rec.imr_index);
                    match spec_format_event_log(spec_event_log_of_std(rec, rec_num), parse_format) {
                        Err(e) => BootParseOut {
                            entries: Seq::empty(),
                            header,
                            counters: counters1,
                            count,
                            err: Some(e),
                        },
                        Ok(entry) => {
                            if count == u32::MAX {
                                BootParseOut {
                                    entries: Seq::empty(),
                                    header,
                                    counters: counters1,
                                    count,
                                    err: Some(EventLogError::TooManyRecords),
                                }
                            } else {
                                let rest = spec_parse_boot(
                                    data,
                                    pos + rec.consumed,
                                    parse_format,
                                    (count + 1) as u32,
                                    header,
                                    counters1,
                                );
                                BootParseOut {
                                    entries: seq![entry] + rest.entries,
                                    header: rest.header,
                                    counters: rest.counters,
                                    count: rest.count,
                                    err: rest.err,
                                }
                            }
                        },
                    }
                }
            },
        }
    }
}

#[via_fn]
proof fn spec_parse_boot_decreases(
    data: Seq<u8>,
    pos: int,
    parse_format: u8,
    count: u32,
    header: SpecIdEventV,
    counters: Map<u32, u32>,
) {
    if 0 <= pos && pos < data.len() && pos + 8 <= data.len() {
        lemma_parse_spec_id_consumed(data.skip(pos));
        lemma_parse_event_log_consumed(data.skip(pos), header.digest_sizes);
    }
}

/// Walk the runtime lines from `i`: every non-empty line must parse
/// as an integrity-measurement record, and one failing line stops
/// the pass with its error.
pub open spec fn spec_parse_runtime(
    lines: Seq<Seq<char>>,
    i: int,
    parse_format: u8,
    count: u32,
    header: SpecIdEventV,
    counters: Map<u32, u32>,
) -> BootParseOut
    decreases lines.len() - i,
{
    if i < 0 || i >= lines.len() {
        BootParseOut { entries: Seq::empty(), header, counters, count, err: None }
    } else if lines[i].len() == 0 {
        spec_parse_runtime(lines, i + 1, parse_format, count, header, counters)
    } else {
        match crate::ima::spec_parse_ima_line(lines[i]) {
            Err(e) => BootParseOut {
                entries: Seq::empty(),
                header,
                counters,
                count,
                err: Some(e),
            },
            Ok(rec) => {
                if spec_cnt(counters, rec.imr_index) == u32::MAX {
                    BootParseOut {
                        entries: Seq::empty(),
                        header,
                        counters,
                        count,
                        err: Some(EventLogError::TooManyRecords),
                    }
                } else {
                    let rec_num = spec_cnt(counters, rec.imr_index);
                    let counters1 = spec_bump(counters, rec.imr_index);
                    match spec_format_event_log(spec_event_log_of_ima(rec, rec_num), parse_format) {
                        Err(e) => BootParseOut {
                            entries: Seq::empty(),
                            header,
                            counters: counters1,
                            count,
                            err: Some(e),
                        },
                        Ok(entry) => {
                            if count == u32::MAX {
                                BootParseOut {
                                    entries: Seq::empty(),
                                    header,
                                    counters: counters1,
                                    count,
                                    err: Some(EventLogError::TooManyRecords),
                                }
                            } else {
                                let rest = spec_parse_runtime(
                                    lines,
                                    i + 1,
                                    parse_format,
                                    (count + 1) as u32,
                                    header,
                                    counters1,
                                );
                                BootParseOut {
                                    entries: seq![entry] + rest.entries,
                                    header: rest.header,
                                    counters: rest.counters,
                                    count: rest.count,
                                    err: rest.err,
                                }
                            }
                        },
                    }
                }
            },
        }
    }
}

/// One full parse over both inputs: the boot-time blob first, which
/// must not be empty, then every non-empty runtime line in file
/// order.
pub open spec fn spec_parse_full(
    boot: Seq<u8>,
    lines: Seq<Seq<char>>,
    parse_format: u8,
    count: u32,
    header: SpecIdEventV,
    counters: Map<u32, u32>,
) -> BootParseOut {
    if boot.len() == 0 {
        BootParseOut {
            entries: Seq::empty(),
            header,
            counters,
            count,
            err: Some(EventLogError::NoBootData),
        }
    } else {
        let b = spec_parse_boot(boot, 0, parse_format, count, header, counters);
        if b.err is Some {
            b
        } else {
            let r = spec_parse_runtime(lines, 0, parse_format, b.count, b.header, b.counters);
            BootParseOut {
                entries: b.entries + r.entries,
                header: r.header,
                counters: r.counters,
                count: r.count,
                err: r.err,
            }
        }
    }
}

/// The state a parse pass leaves behind: the produced records are
/// appended, the header, the counters and the count are what the
/// pass computed, and the raw inputs are untouched.
pub open spec fn spec_parse_committed(
    pre: &EventLogs,
    post: &EventLogs,
    out: BootParseOut,
) -> bool {
    post.event_logs.deep_view() =~= pre.event_logs.deep_view() + out.entries && post.count
        == out.count && post.spec_id_header_event@ == out.header
        && post.event_logs_record_number_list@ =~= out.counters && post.boot_time_data@
        == pre.boot_time_data@ && post.run_time_data.deep_view() == pre.run_time_data.deep_view()
        && post.parse_format == pre.parse_format
}

/// What a parse pass starting from a collection's current state
/// produces.
pub open spec fn spec_parse_of(s: &EventLogs) -> BootParseOut {
    spec_parse_full(
        s.boot_time_data@,
        s.run_time_data.deep_view(),
        s.parse_format,
        s.count,
        s.spec_id_header_event@,
        s.event_logs_record_number_list@,
    )
}

impl EventLogs {
    /// Parse one runtime integrity-measurement line, drawing the
    /// record number from the same per-register counter space as the
    /// binary records, so both share one increasing sequence.
    pub fn parse_ima_event_log(&mut self, data: &str) -> (r: Result<TcgEventLog, EventLogError>)
        ensures
            Self::same_but_counters(old(self), final(self)),
            (match crate::ima::spec_parse_ima_line(data@) {
                Err(e) => (r matches Err(x) && x == e) && final(self).event_logs_record_number_list@ == old(self).event_logs_record_number_list@,
                Ok(rec) => {
                    if spec_cnt(old(self).event_logs_record_number_list@, rec.imr_index)
                        == u32::MAX {
                        (r matches Err(x) && x == EventLogError::TooManyRecords) && final(self).event_logs_record_number_list@ == old(self).event_logs_record_number_list@
                    } else {
                        r matches Ok(ev) && ev@ == spec_event_log_of_ima(
                            rec,
                            spec_cnt(old(self).event_logs_record_number_list@, rec.imr_index),
                        ) && final(self).event_logs_record_number_list@ == spec_bump(
                            old(self).event_logs_record_number_list@,
                            rec.imr_index,
                        )
                    }
                },
            }),
    {
        let fields = match crate::ima::parse_ima_fields(data) {
            Err(e) => {
                return Err(e);
            },
            Ok(f) => f,
        };
        let rec_num = match self.try_get_record_number(fields.imr_index) {
            None => {
                return Err(EventLogError::TooManyRecords);
            },
            Some(n) => n,
        };
        let mut digests: Vec<TcgDigest> = Vec::new();
        digests.push(TcgDigest { algo_id: fields.algo_id, hash: fields.hash });
        let mut extra_info = ExtraInfo::new();
        extra_info.insert("template_name", fields.template_name.as_str());
        let event_size = fields.event.len() as u32;
        let ev = TcgEventLog {
            rec_num,
            imr_index: fields.imr_index,
            event_type: IMA_MEASUREMENT_EVENT,
            digests,
            event_size,
            event: fields.event,
            extra_info,
        };
        proof {
            let rec = crate::ima::spec_parse_ima_line(data@)->Ok_0;
            assert(ev@.digests =~= spec_event_log_of_ima(rec, rec_num).digests);
            assert(ev@ =~= spec_event_log_of_ima(rec, rec_num));
        }
        Ok(ev)
    }

    /// Parse both raw inputs into typed records, once: a collection
    /// that has parsed successfully is never re-parsed, so a second
    /// call changes nothing.  On failure the records parsed before
    /// the failing one remain, the flag stays down, and the error
    /// says what stopped the pass.
    #[verifier::loop_isolation(false)]
    #[verifier::rlimit(100)]
    pub fn parse(&mut self) -> (r: Result<bool, EventLogError>)
        requires
            old(self).wf(),
        ensures
            final(self).wf(),
            old(self).parsed ==> (r matches Ok(b) && b) && *final(self) == *old(self),
            !old(self).parsed ==> (match r {
                Ok(b) => b && spec_parse_of(old(self)).err is None && spec_parse_committed(
                    old(self),
                    final(self),
                    spec_parse_of(old(self)),
                ) && final(self).parsed,
                Err(e) => spec_parse_of(old(self)).err == Some(e) && spec_parse_committed(
                    old(self),
                    final(self),
                    spec_parse_of(old(self)),
                ) && !final(self).parsed,
            }),
    {
        if self.parsed {
            return Ok(true);
        }
        let ghost out = spec_parse_of(old(self));
        if self.boot_time_data.is_empty() {
            return Err(EventLogError::NoBootData);
        }
        let ghost boot = self.boot_time_data@;
        let ghost out_boot = spec_parse_boot(
            boot,
            0,
            old(self).parse_format,
            old(self).count,
            old(self).spec_id_header_event@,
            old(self).event_logs_record_number_list@,
        );
        let ghost len0 = old(self).event_logs.deep_view().len() as int;
        let total = self.boot_time_data.len();
        let mut index: usize = 0;
        let mut stopped: bool = false;
        proof {
            assert(self.event_logs.deep_view().skip(len0) =~= Seq::<EventLogEntryV>::empty());
        }
        while !stopped && index < total
            invariant
                index <= total,
                !self.parsed,
                self.wf(),
                self.boot_time_data@ == boot,
                self.run_time_data.deep_view() == old(self).run_time_data.deep_view(),
                self.parse_format == old(self).parse_format,
                self.event_logs.deep_view().take(len0) =~= old(self).event_logs.deep_view(),
                self.event_logs.deep_view().len() >= len0,
                spec_boot_continues(
                    out_boot,
                    self.event_logs.deep_view().skip(len0),
                    spec_parse_boot(
                        boot,
                        index as int,
                        self.parse_format,
                        self.count,
                        self.spec_id_header_event@,
                        self.event_logs_record_number_list@,
                    ),
                ),
                stopped ==> spec_parse_boot(
                    boot,
                    index as int,
                    self.parse_format,
                    self.count,
                    self.spec_id_header_event@,
                    self.event_logs_record_number_list@,
                ) =~= (BootParseOut {
                    entries: Seq::empty(),
                    header: self.spec_id_header_event@,
                    counters: self.event_logs_record_number_list@,
                    count: self.count,
                    err: None,
                }),
            decreases total - index, 1int - (if stopped { 1int } else { 0int }),
        {
            let start = index;
            if total - index < 4 {
                return Err(EventLogError::TruncatedLog);
            }
            let imr = get_u32(self.boot_time_data.as_slice(), index);
            if imr == 0xFFFFFFFF {
                stopped = true;
            } else {
                if total - index < 8 {
                    return Err(EventLogError::TruncatedLog);
                }
                let event_type = get_u32(self.boot_time_data.as_slice(), index + 4);
                let sub = vstd::slice::slice_to_vec(
                    vstd::slice::slice_subrange(self.boot_time_data.as_slice(), start, total),
                );
                proof {
                    assert(sub@ =~= boot.skip(start as int));
                }
                let ghost entries_before = self.event_logs.deep_view();
                let ghost algs_before = self.spec_id_header_event@.digest_sizes;
                let parsed_record = if event_type == EV_NO_ACTION && self.count == 0 {
                    self.parse_spec_id_event_log(sub)
                } else {
                    self.parse_event_log(sub)
                };
                match parsed_record {
                    Err(e) => {
                        return Err(e);
                    },
                    Ok((ev, event_len)) => {
                        proof {
                            lemma_parse_spec_id_consumed(boot.skip(start as int));
                            lemma_parse_event_log_consumed(boot.skip(start as int), algs_before);
                        }
                        match ev.format_event_log(self.parse_format) {
                            Err(e) => {
                                return Err(e);
                            },
                            Ok(entry) => {
                                if self.count == u32::MAX {
                                    return Err(EventLogError::TooManyRecords);
                                }
                                let ghost entry_v = entry@;
                                self.event_logs.push(entry);
                                self.count = self.count + 1;
                                index = start + event_len;
                                proof {
                                    assert(self.event_logs.deep_view() =~= entries_before.push(
                                        entry_v,
                                    ));
                                    assert(self.event_logs.deep_view().skip(len0)
                                        =~= entries_before.skip(len0).push(entry_v));
                                    assert(entries_before.skip(len0) + (seq![entry_v]
                                        + spec_parse_boot(
                                        boot,
                                        index as int,
                                        self.parse_format,
                                        self.count,
                                        self.spec_id_header_event@,
                                        self.event_logs_record_number_list@,
                                    ).entries) =~= entries_before.skip(len0).push(entry_v)
                                        + spec_parse_boot(
                                        boot,
                                        index as int,
                                        self.parse_format,
                                        self.count,
                                        self.spec_id_header_event@,
                                        self.event_logs_record_number_list@,
                                    ).entries);
                                }
                            },
                        }
                    },
                }
            }
        }
        let ghost entries_after_boot = self.event_logs.deep_view();
        let ghost out_run = spec_parse_runtime(
            self.run_time_data.deep_view(),
            0,
            self.parse_format,
            self.count,
            self.spec_id_header_event@,
            self.event_logs_record_number_list@,
        );
        proof {
            assert(out_boot.err is None);
            assert(out_boot.entries =~= entries_after_boot.skip(len0));
        }
        let lines_total = self.run_time_data.len();
        let mut li: usize = 0;
        while li < lines_total
            invariant
                li <= lines_total,
                !self.parsed,
                self.wf(),
                self.boot_time_data@ == boot,
                self.run_time_data.deep_view() == old(self).run_time_data.deep_view(),
                lines_total == self.run_time_data.len(),
                self.parse_format == old(self).parse_format,
                self.event_logs.deep_view().take(entries_after_boot.len() as int)
                    =~= entries_after_boot,
                self.event_logs.deep_view().len() >= entries_after_boot.len(),
                spec_boot_continues(
                    out_run,
                    self.event_logs.deep_view().skip(entries_after_boot.len() as int),
                    spec_parse_runtime(
                        self.run_time_data.deep_view(),
                        li as int,
                        self.parse_format,
                        self.count,
                        self.spec_id_header_event@,
                        self.event_logs_record_number_list@,
                    ),
                ),
            decreases lines_total - li,
        {
            let line_is_empty = self.run_time_data[li].as_str().is_empty();
            if !line_is_empty {
                let line = self.run_time_data[li].clone();
                let ghost entries_before = self.event_logs.deep_view();
                match self.parse_ima_event_log(line.as_str()) {
                    Err(e) => {
                        return Err(e);
                    },
                    Ok(ev) => {
                        match ev.format_event_log(self.parse_format) {
                            Err(e) => {
                                return Err(e);
                            },
                            Ok(entry) => {
                                if self.count == u32::MAX {
                                    return Err(EventLogError::TooManyRecords);
                                }
                                let ghost entry_v = entry@;
                                self.event_logs.push(entry);
                                self.count = self.count + 1;
                                proof {
                                    let base = entries_after_boot.len() as int;
                                    assert(self.event_logs.deep_view() =~= entries_before.push(
                                        entry_v,
                                    ));
                                    assert(self.event_logs.deep_view().skip(base)
                                        =~= entries_before.skip(base).push(entry_v));
                                    assert(entries_before.skip(base) + (seq![entry_v]
                                        + spec_parse_runtime(
                                        self.run_time_data.deep_view(),
                                        li + 1,
                                        self.parse_format,
                                        self.count,
                                        self.spec_id_header_event@,
                                        self.event_logs_record_number_list@,
                                    ).entries) =~= entries_before.skip(base).push(entry_v)
                                        + spec_parse_runtime(
                                        self.run_time_data.deep_view(),
                                        li + 1,
                                        self.parse_format,
                                        self.count,
                                        self.spec_id_header_event@,
                                        self.event_logs_record_number_list@,
                                    ).entries);
                                }
                            },
                        }
                    },
                }
            }
            li = li + 1;
        }
        self.parsed = true;
        proof {
            assert(out_run.err is None);
            assert(out.entries =~= out_boot.entries + out_run.entries);
            assert(final(self).event_logs.deep_view() =~= old(self).event_logs.deep_view()
                + out.entries);
        }
        Ok(true)
    }
}

/// The half-open index range a selection asks for, or why it is
/// refused: a start past the total is an error, a start equal to the
/// total selects nothing, a zero count is an error, and a count past
/// the end is clamped to the end.
pub open spec fn spec_select_range(total: u32, start: Option<u32>, count: Option<u32>) -> Result<
    (int, int),
    EventLogError,
> {
    match start {
        Some(s) => {
            if s > total {
                Err(EventLogError::InvalidSelectStart)
            } else if s == total {
                Ok((s as int, s as int))
            } else {
                spec_select_end(total, s as int, count)
            }
        },
        None => spec_select_end(total, 0, count),
    }
}

pub open spec fn spec_select_end(total: u32, begin: int, count: Option<u32>) -> Result<
    (int, int),
    EventLogError,
> {
    match count {
        Some(c) => {
            if c == 0 {
                Err(EventLogError::InvalidSelectCount)
            } else if begin + c > total {
                Ok((begin, total as int))
            } else {
                Ok((begin, begin + c))
            }
        },
        None => Ok((begin, total as int)),
    }
}

impl EventLogs {
    /// Collect the selected sub-range of the parsed records, parsing
    /// both raw inputs first if this collection has not parsed yet.
    /// With no bounds the full parsed sequence comes back; a start
    /// equal to the total yields an empty result; a start beyond it,
    /// or a zero count, is an error; a count past the end is clamped.
    #[verifier::loop_isolation(false)]
    pub fn select(&mut self, start: Option<u32>, count: Option<u32>) -> (r: Result<
        Vec<EventLogEntry>,
        EventLogError,
    >)
        requires
            old(self).wf(),
        ensures
            final(self).wf(),
            ({
                let out = spec_parse_of(old(self));
                let parse_ok = old(self).parsed || out.err is None;
                let logs = if old(self).parsed {
                    old(self).event_logs.deep_view()
                } else {
                    old(self).event_logs.deep_view() + out.entries
                };
                let total = if old(self).parsed {
                    old(self).count
                } else {
                    out.count
                };
                let post_ok = if old(self).parsed {
                    *final(self) == *old(self)
                } else {
                    spec_parse_committed(old(self), final(self), out) && final(self).parsed
                };
                match r {
                    Ok(v) => parse_ok && post_ok && (spec_select_range(total, start, count)
                        matches Ok(pr) && v.deep_view() == logs.subrange(pr.0, pr.1)),
                    Err(e) => (!parse_ok && out.err == Some(e) && spec_parse_committed(
                        old(self),
                        final(self),
                        out,
                    ) && !final(self).parsed) || (parse_ok && post_ok && spec_select_range(
                        total,
                        start,
                        count,
                    ) == Err::<(int, int), EventLogError>(e)),
                }
            }),
    {
        match self.parse() {
            Ok(_) => (),
            Err(e) => {
                return Err(e);
            },
        }
        let total = self.count;
        let begin: u32 = match start {
            Some(s) => {
                if s > total {
                    return Err(EventLogError::InvalidSelectStart);
                } else if s == total {
                    let empty_v: Vec<EventLogEntry> = Vec::new();
                    proof {
                        assert(empty_v.deep_view() =~= self.event_logs.deep_view().subrange(
                            s as int,
                            s as int,
                        ));
                    }
                    return Ok(empty_v);
                } else {
                    s
                }
            },
            None => 0,
        };
        let end: usize = match count {
            Some(c) => {
                if c == 0 {
                    return Err(EventLogError::InvalidSelectCount);
                } else if c > total - begin {
                    self.event_logs.len()
                } else {
                    (begin + c) as usize
                }
            },
            None => self.event_logs.len(),
        };
        let begin_us = begin as usize;
        let mut selected: Vec<EventLogEntry> = Vec::new();
        let mut k: usize = begin_us;
        proof {
            assert(selected.deep_view() =~= self.event_logs.deep_view().subrange(
                begin as int,
                begin as int,
            ));
        }
        while k < end
            invariant
                begin_us <= k <= end,
                end <= self.event_logs.len(),
                selected.deep_view() =~= self.event_logs.deep_view().subrange(
                    begin as int,
                    k as int,
                ),
            decreases end - k,
        {
            let ghost sel0 = selected.deep_view();
            let item = self.event_logs[k].clone();
            selected.push(item);
            proof {
                assert(selected.deep_view() =~= sel0.push(
                    self.event_logs.deep_view()[k as int],
                ));
                assert(selected.deep_view() =~= self.event_logs.deep_view().subrange(
                    begin as int,
                    k + 1,
                ));
            }
            k = k + 1;
        }
        Ok(selected)
    }
}

} // verus!
