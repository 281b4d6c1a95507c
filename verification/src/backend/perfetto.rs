//! Perfetto output: track descriptors, track events and their protobuf encoding.
//!
//! Reference: https://perfetto.dev/docs/reference/synthetic-track-event
use vstd::prelude::*;

use crate::backend::protobuf::{
    len_field, opt_i32_field, opt_text_field, opt_u32_field, opt_u64_field, put_len_field,
    put_opt_i32_field, put_opt_text_field, put_opt_u32_field, put_opt_u64_field,
};
use crate::span::{is_descriptor, kind_name, ProcessDiscriptor, RawSpan, ThreadDiscriptor, Type};
use crate::span_queue::{
    all_flushed, are_descriptors, has_non_slice, is_slice, law_drain_twice_yields_nothing,
    unflushed, DescriptorTable, DEFAULT_BATCH_SIZE,
};

verus! {

/// The characters of an optional string.
pub open spec fn opt_text(s: Option<String>) -> Option<Seq<char>> {
    match s {
        Some(v) => Some(v@),
        None => None,
    }
}

// ---------------------------------------------------------------------------
// Messages
// ---------------------------------------------------------------------------

/// Docs: https://perfetto.dev/docs/reference/trace-packet-proto#DebugAnnotation
pub struct DebugAnnotation {
    pub name: Option<String>,
    pub string_value: Option<String>,
}

/// A debug annotation, strings taken by their characters.
pub struct DebugAnnotationModel {
    pub name: Option<Seq<char>>,
    pub string_value: Option<Seq<char>>,
}

impl View for DebugAnnotation {
    type V = DebugAnnotationModel;

    open spec fn view(&self) -> DebugAnnotationModel {
        DebugAnnotationModel { name: opt_text(self.name), string_value: opt_text(self.string_value) }
    }
}

/// The kind of a track event.
#[derive(Debug, Clone, Copy, PartialEq, Eq)]
pub enum TrackEventType {
    SliceBegin,
    SliceEnd,
}

/// The number of a track event kind in Perfetto's `TrackEvent.Type`.
pub open spec fn event_type_number(t: TrackEventType) -> u64 {
    match t {
        TrackEventType::SliceBegin => 1,
        TrackEventType::SliceEnd => 2,
    }
}

/// Docs: https://perfetto.dev/docs/reference/trace-packet-proto#TrackEvent
pub struct TrackEvent {
    pub track_uuid: Option<u64>,
    pub name: Option<String>,
    pub event_type: Option<TrackEventType>,
    pub debug_annotations: Vec<DebugAnnotation>,
}

/// A track event, strings taken by their characters.
pub struct TrackEventModel {
    pub track_uuid: Option<u64>,
    pub name: Option<Seq<char>>,
    pub event_type: Option<TrackEventType>,
    pub debug_annotations: Seq<DebugAnnotationModel>,
}

/// The models of a list of debug annotations.
pub open spec fn annotation_models(v: Seq<DebugAnnotation>) -> Seq<DebugAnnotationModel> {
    Seq::new(v.len(), |i: int| v[i]@)
}

impl View for TrackEvent {
    type V = TrackEventModel;

    open spec fn view(&self) -> TrackEventModel {
        TrackEventModel {
            track_uuid: self.track_uuid,
            name: opt_text(self.name),
            event_type: self.event_type,
            debug_annotations: annotation_models(self.debug_annotations@),
        }
    }
}

/// Docs: https://perfetto.dev/docs/reference/trace-packet-proto#ProcessDescriptor
#[derive(Debug, Clone, Copy, PartialEq, Eq)]
pub struct ProcessDescriptor {
    pub pid: Option<i32>,
}

/// Docs: https://perfetto.dev/docs/reference/trace-packet-proto#ThreadDescriptor
pub struct ThreadDescriptor {
    pub pid: Option<i32>,
    pub tid: Option<i32>,
    pub thread_name: Option<String>,
}

/// A thread descriptor, its name taken by its characters.
pub struct ThreadDescriptorModel {
    pub pid: Option<i32>,
    pub tid: Option<i32>,
    pub thread_name: Option<Seq<char>>,
}

impl View for ThreadDescriptor {
    type V = ThreadDescriptorModel;

    open spec fn view(&self) -> ThreadDescriptorModel {
        ThreadDescriptorModel { pid: self.pid, tid: self.tid, thread_name: opt_text(self.thread_name) }
    }
}

/// Docs: https://perfetto.dev/docs/reference/trace-packet-proto#TrackDescriptor
pub struct TrackDescriptor {
    pub uuid: Option<u64>,
    pub name: Option<String>,
    pub process: Option<ProcessDescriptor>,
    pub thread: Option<ThreadDescriptor>,
}

/// A track descriptor, strings taken by their characters.
pub struct TrackDescriptorModel {
    pub uuid: Option<u64>,
    pub name: Option<Seq<char>>,
    pub process: Option<ProcessDescriptor>,
    pub thread: Option<ThreadDescriptorModel>,
}

impl View for TrackDescriptor {
    type V = TrackDescriptorModel;

    open spec fn view(&self) -> TrackDescriptorModel {
        TrackDescriptorModel {
            uuid: self.uuid,
            name: opt_text(self.name),
            process: self.process,
            thread: match self.thread {
                Some(t) => Some(t@),
                None => None,
            },
        }
    }
}

/// What a trace packet carries.
pub enum PacketData {
    TrackEvent(TrackEvent),
    TrackDescriptor(TrackDescriptor),
}

/// What a trace packet carries, strings taken by their characters.
pub enum PacketDataModel {
    TrackEvent(TrackEventModel),
    TrackDescriptor(TrackDescriptorModel),
}

/// Docs: https://perfetto.dev/docs/reference/trace-packet-proto
pub struct TracePacket {
    pub timestamp: Option<u64>,
    pub trusted_uid: Option<i32>,
    pub trusted_packet_sequence_id: Option<u32>,
    pub trusted_pid: Option<i32>,
    pub data: Option<PacketData>,
}

/// A trace packet, strings taken by their characters.
pub struct TracePacketModel {
    pub timestamp: Option<u64>,
    pub trusted_uid: Option<i32>,
    pub trusted_packet_sequence_id: Option<u32>,
    pub trusted_pid: Option<i32>,
    pub data: Option<PacketDataModel>,
}

impl View for TracePacket {
    type V = TracePacketModel;

    open spec fn view(&self) -> TracePacketModel {
        TracePacketModel {
            timestamp: self.timestamp,
            trusted_uid: self.trusted_uid,
            trusted_packet_sequence_id: self.trusted_packet_sequence_id,
            trusted_pid: self.trusted_pid,
            data: match self.data {
                Some(PacketData::TrackEvent(e)) => Some(PacketDataModel::TrackEvent(e@)),
                Some(PacketData::TrackDescriptor(d)) => Some(PacketDataModel::TrackDescriptor(d@)),
                None => None,
            },
        }
    }
}

/// The models of a list of packets.
pub open spec fn packet_models(v: Seq<TracePacket>) -> Seq<TracePacketModel> {
    Seq::new(v.len(), |i: int| v[i]@)
}

impl TracePacket {
    /// A packet with no field set.
    pub fn new() -> (res: TracePacket)
        ensures
            res@ == (TracePacketModel {
                timestamp: None,
                trusted_uid: None,
                trusted_packet_sequence_id: None,
                trusted_pid: None,
                data: None,
            }),
    {
        TracePacket {
            timestamp: None,
            trusted_uid: None,
            trusted_packet_sequence_id: None,
            trusted_pid: None,
            data: None,
        }
    }
}

// ---------------------------------------------------------------------------
// Encoding
// ---------------------------------------------------------------------------

/// A debug annotation's fields, in the order of their lowest field number
/// (a oneof counts by its lowest member): its name (field 10, in the oneof
/// that starts at 1), then its string value (field 6, in the oneof that
/// starts at 2).
pub open spec fn debug_annotation_bytes(a: DebugAnnotationModel) -> Seq<u8> {
    opt_text_field(10, a.name) + opt_text_field(6, a.string_value)
}

/// Each annotation as a `debug_annotations` field (field 4) of a track event.
pub open spec fn annotations_bytes(anns: Seq<DebugAnnotationModel>) -> Seq<u8>
    decreases anns.len(),
{
    if anns.len() == 0 {
        Seq::empty()
    } else {
        annotations_bytes(anns.drop_last()) + len_field(4, debug_annotation_bytes(anns.last()))
    }
}

/// A track event's fields, in the order of their lowest field number: its
/// annotations (field 4), type (field 9), name (field 23, in the oneof that
/// starts at 10) and track uuid (field 11).
pub open spec fn track_event_bytes(e: TrackEventModel) -> Seq<u8> {
    annotations_bytes(e.debug_annotations) + opt_u64_field(
        9,
        match e.event_type {
            Some(t) => Some(event_type_number(t)),
            None => None,
        },
    ) + opt_text_field(23, e.name) + opt_u64_field(11, e.track_uuid)
}

/// A process descriptor's fields: its pid (field 1).
pub open spec fn process_descriptor_bytes(p: ProcessDescriptor) -> Seq<u8> {
    opt_i32_field(1, p.pid)
}

/// A thread descriptor's fields: pid (field 1), tid (field 2), thread name (field 5).
pub open spec fn thread_descriptor_bytes(t: ThreadDescriptorModel) -> Seq<u8> {
    opt_i32_field(1, t.pid) + opt_i32_field(2, t.tid) + opt_text_field(5, t.thread_name)
}

/// A track descriptor's fields: uuid (field 1), name (field 2), process
/// (field 3) and thread (field 4).
pub open spec fn track_descriptor_bytes(d: TrackDescriptorModel) -> Seq<u8> {
    opt_u64_field(1, d.uuid) + opt_text_field(2, d.name) + match d.process {
        Some(p) => len_field(3, process_descriptor_bytes(p)),
        None => Seq::empty(),
    } + match d.thread {
        Some(t) => len_field(4, thread_descriptor_bytes(t)),
        None => Seq::empty(),
    }
}

/// A packet's payload: a track event (field 11) or a track descriptor (field 60).
pub open spec fn packet_data_bytes(d: Option<PacketDataModel>) -> Seq<u8> {
    match d {
        Some(PacketDataModel::TrackEvent(e)) => len_field(11, track_event_bytes(e)),
        Some(PacketDataModel::TrackDescriptor(t)) => len_field(60, track_descriptor_bytes(t)),
        None => Seq::empty(),
    }
}

/// A packet's fields, in the order of their lowest field number: the
/// payload (a oneof that starts at field 2), trusted uid (field 3),
/// timestamp (field 8), trusted packet sequence id (field 10), trusted pid
/// (field 79).
pub open spec fn packet_bytes(p: TracePacketModel) -> Seq<u8> {
    packet_data_bytes(p.data) + opt_i32_field(3, p.trusted_uid) + opt_u64_field(8, p.timestamp)
        + opt_u32_field(10, p.trusted_packet_sequence_id) + opt_i32_field(79, p.trusted_pid)
}

/// A whole trace: each packet as a `packet` field (field 1), in order.
pub open spec fn trace_bytes(packets: Seq<TracePacketModel>) -> Seq<u8>
    decreases packets.len(),
{
    if packets.len() == 0 {
        Seq::empty()
    } else {
        trace_bytes(packets.drop_last()) + len_field(1, packet_bytes(packets.last()))
    }
}

/// Encodes a debug annotation.
pub fn encode_debug_annotation(a: &DebugAnnotation) -> (res: Vec<u8>)
    ensures
        res@ == debug_annotation_bytes(a@),
{
    let mut buf: Vec<u8> = Vec::new();
    put_opt_text_field(&mut buf, 10, &a.name);
    put_opt_text_field(&mut buf, 6, &a.string_value);
    assert(buf@ =~= debug_annotation_bytes(a@));
    buf
}

/// Encodes a track event.
pub fn encode_track_event(e: &TrackEvent) -> (res: Vec<u8>)
    ensures
        res@ == track_event_bytes(e@),
{
    let mut buf: Vec<u8> = Vec::new();
    let mut i: usize = 0;
    let ghost anns = annotation_models(e.debug_annotations@);
    while i < e.debug_annotations.len()
        invariant
            i <= e.debug_annotations@.len(),
            anns == annotation_models(e.debug_annotations@),
            buf@ == annotations_bytes(anns.take(i as int)),
        decreases e.debug_annotations@.len() - i,
    {
        assert(anns.take(i + 1).drop_last() =~= anns.take(i as int));
        let body = encode_debug_annotation(&e.debug_annotations[i]);
        put_len_field(&mut buf, 4, body);
        i = i + 1;
    }
    assert(anns.take(e.debug_annotations@.len() as int) =~= anns);
    let ty = match e.event_type {
        Some(TrackEventType::SliceBegin) => Some(1u64),
        Some(TrackEventType::SliceEnd) => Some(2u64),
        None => None,
    };
    put_opt_u64_field(&mut buf, 9, ty);
    put_opt_text_field(&mut buf, 23, &e.name);
    put_opt_u64_field(&mut buf, 11, e.track_uuid);
    assert(buf@ =~= track_event_bytes(e@));
    buf
}

/// Encodes a process descriptor.
pub fn encode_process_descriptor(p: &ProcessDescriptor) -> (res: Vec<u8>)
    ensures
        res@ == process_descriptor_bytes(*p),
{
    let mut buf: Vec<u8> = Vec::new();
    put_opt_i32_field(&mut buf, 1, p.pid);
    assert(buf@ =~= process_descriptor_bytes(*p));
    buf
}

/// Encodes a thread descriptor.
pub fn encode_thread_descriptor(t: &ThreadDescriptor) -> (res: Vec<u8>)
    ensures
        res@ == thread_descriptor_bytes(t@),
{
    let mut buf: Vec<u8> = Vec::new();
    put_opt_i32_field(&mut buf, 1, t.pid);
    put_opt_i32_field(&mut buf, 2, t.tid);
    put_opt_text_field(&mut buf, 5, &t.thread_name);
    assert(buf@ =~= thread_descriptor_bytes(t@));
    buf
}

/// Encodes a track descriptor.
pub fn encode_track_descriptor(d: &TrackDescriptor) -> (res: Vec<u8>)
    ensures
        res@ == track_descriptor_bytes(d@),
{
    let mut buf: Vec<u8> = Vec::new();
    put_opt_u64_field(&mut buf, 1, d.uuid);
    put_opt_text_field(&mut buf, 2, &d.name);
    match &d.process {
        Some(p) => put_len_field(&mut buf, 3, encode_process_descriptor(p)),
        None => {},
    }
    match &d.thread {
        Some(t) => put_len_field(&mut buf, 4, encode_thread_descriptor(t)),
        None => {},
    }
    assert(buf@ =~= track_descriptor_bytes(d@));
    buf
}

/// Encodes a trace packet.
pub fn encode_packet(p: &TracePacket) -> (res: Vec<u8>)
    ensures
        res@ == packet_bytes(p@),
{
    let mut buf: Vec<u8> = Vec::new();
    match &p.data {
        Some(PacketData::TrackEvent(e)) => put_len_field(&mut buf, 11, encode_track_event(e)),
        Some(PacketData::TrackDescriptor(t)) => put_len_field(&mut buf, 60, encode_track_descriptor(t)),
        None => {},
    }
    put_opt_i32_field(&mut buf, 3, p.trusted_uid);
    put_opt_u64_field(&mut buf, 8, p.timestamp);
    put_opt_u32_field(&mut buf, 10, p.trusted_packet_sequence_id);
    put_opt_i32_field(&mut buf, 79, p.trusted_pid);
    assert(buf@ =~= packet_bytes(p@));
    buf
}

/// Encodes a whole trace made of `packets`, in order.
pub fn encode_trace(packets: &Vec<TracePacket>) -> (res: Vec<u8>)
    ensures
        res@ == trace_bytes(packet_models(packets@)),
{
    let mut buf: Vec<u8> = Vec::new();
    let ghost models = packet_models(packets@);
    let mut i: usize = 0;
    while i < packets.len()
        invariant
            i <= packets@.len(),
            models == packet_models(packets@),
            buf@ == trace_bytes(models.take(i as int)),
        decreases packets@.len() - i,
    {
        assert(models.take(i + 1).drop_last() =~= models.take(i as int));
        let body = encode_packet(&packets[i]);
        put_len_field(&mut buf, 1, body);
        i = i + 1;
    }
    assert(models.take(packets@.len() as int) =~= models);
    buf
}

/// The character of a decimal digit.
pub open spec fn digit_char(d: nat) -> char {
    if d == 0 { '0' }
    else if d == 1 { '1' }
    else if d == 2 { '2' }
    else if d == 3 { '3' }
    else if d == 4 { '4' }
    else if d == 5 { '5' }
    else if d == 6 { '6' }
    else if d == 7 { '7' }
    else if d == 8 { '8' }
    else { '9' }
}

/// The decimal representation of `n`, without leading zeros.
pub open spec fn decimal(n: nat) -> Seq<char>
    decreases n,
{
    if n < 10 {
        seq![digit_char(n)]
    } else {
        decimal(n / 10).push(digit_char(n % 10))
    }
}

fn digit_str(d: u64) -> (res: &'static str)
    requires
        d < 10,
    ensures
        res@ == seq![digit_char(d as nat)],
{
    proof {
        reveal_strlit("0");
        reveal_strlit("1");
        reveal_strlit("2");
        reveal_strlit("3");
        reveal_strlit("4");
        reveal_strlit("5");
        reveal_strlit("6");
        reveal_strlit("7");
        reveal_strlit("8");
        reveal_strlit("9");
    }
    if d == 0 { "0" }
    else if d == 1 { "1" }
    else if d == 2 { "2" }
    else if d == 3 { "3" }
    else if d == 4 { "4" }
    else if d == 5 { "5" }
    else if d == 6 { "6" }
    else if d == 7 { "7" }
    else if d == 8 { "8" }
    else { "9" }
}

/// The decimal representation of `n`.
pub fn decimal_string(n: u64) -> (res: String)
    ensures
        res@ == decimal(n as nat),
    decreases n,
{
    if n < 10 {
        digit_str(n).to_owned()
    } else {
        let mut s = decimal_string(n / 10);
        s.append(digit_str(n % 10));
        s
    }
}

/// The name that a thread's track gets: its own name, or its id in decimal.
pub open spec fn track_name(thread_id: u64, thread_name: Option<String>) -> Seq<char> {
    match thread_name {
        Some(name) => name@,
        None => decimal(thread_id as nat),
    }
}

/// `d` is the descriptor of thread `thread_id` named as `thread_name` gives.
pub open spec fn is_thread_descriptor(d: RawSpan, thread_id: u64, thread_name: Option<String>) -> bool {
    &&& d.typ matches Type::ThreadDiscriptor(t) && t.thread_name@ == track_name(thread_id, thread_name)
    &&& d.thread_id == thread_id
    &&& d.start == 0
    &&& d.end == 0
}

/// The descriptor of the current thread, named after the thread or, when it
/// has no name, after its id.
pub fn thread_descriptor(thread_id: u64, thread_name: Option<String>) -> (res: RawSpan)
    ensures
        is_thread_descriptor(res, thread_id, thread_name),
{
    let name = match thread_name {
        Some(name) => name,
        None => decimal_string(thread_id),
    };
    RawSpan {
        typ: Type::ThreadDiscriptor(ThreadDiscriptor { thread_name: name }),
        thread_id,
        start: 0,
        end: 0,
    }
}

/// The descriptor of the process, reported from thread `thread_id`.
pub fn process_descriptor(thread_id: u64) -> (res: RawSpan)
    ensures
        res == (RawSpan {
            typ: Type::ProcessDiscriptor(ProcessDiscriptor {  }),
            thread_id,
            start: 0,
            end: 0,
        }),
{
    RawSpan {
        typ: Type::ProcessDiscriptor(ProcessDiscriptor {  }),
        thread_id,
        start: 0,
        end: 0,
    }
}

// ---------------------------------------------------------------------------
// Building packets from spans
// ---------------------------------------------------------------------------

/// The value Perfetto is given as trusted uid and trusted packet sequence id.
pub const TRUSTED_ID: u32 = 42;

/// The debug annotations of a span: a task's backtrace, if it has one.
pub open spec fn annotations_for(span: RawSpan) -> Seq<DebugAnnotationModel> {
    match span.typ {
        Type::RunTask(t) => match t.backtrace {
            Some(b) => seq![DebugAnnotationModel { name: Some("backtrace"@), string_value: Some(b@) }],
            None => Seq::empty(),
        },
        _ => Seq::empty(),
    }
}

/// The packet that describes the process track `track_uuid` of process `pid`.
pub open spec fn process_descriptor_packet(pid: i32, track_uuid: u64) -> TracePacketModel {
    TracePacketModel {
        timestamp: None,
        trusted_uid: Some(TRUSTED_ID as i32),
        trusted_packet_sequence_id: None,
        trusted_pid: None,
        data: Some(
            PacketDataModel::TrackDescriptor(
                TrackDescriptorModel {
                    uuid: Some(track_uuid),
                    name: None,
                    process: Some(ProcessDescriptor { pid: Some(pid) }),
                    thread: None,
                },
            ),
        ),
    }
}

/// The packet that describes the thread track `track_uuid`, named `name`, of process `pid`.
pub open spec fn thread_descriptor_packet(pid: i32, track_uuid: u64, name: Seq<char>) -> TracePacketModel {
    TracePacketModel {
        timestamp: None,
        trusted_uid: Some(TRUSTED_ID as i32),
        trusted_packet_sequence_id: None,
        trusted_pid: None,
        data: Some(
            PacketDataModel::TrackDescriptor(
                TrackDescriptorModel {
                    uuid: Some(track_uuid),
                    name: Some(name),
                    process: Some(ProcessDescriptor { pid: Some(pid) }),
                    thread: Some(
                        ThreadDescriptorModel {
                            pid: Some(pid),
                            tid: Some((track_uuid as usize) as i32),
                            thread_name: Some(name),
                        },
                    ),
                },
            ),
        ),
    }
}

/// The packet of a descriptor span; its thread id is the track's uuid.
pub open spec fn descriptor_packet(pid: i32, d: RawSpan) -> TracePacketModel {
    match d.typ {
        Type::ThreadDiscriptor(t) => thread_descriptor_packet(pid, d.thread_id, t.thread_name@),
        _ => process_descriptor_packet(pid, d.thread_id),
    }
}

/// The packets of the descriptors `ds`: the last one first, then the others
/// in order.
pub open spec fn descriptor_packets(pid: i32, ds: Seq<RawSpan>) -> Seq<TracePacketModel> {
    if ds.len() == 0 {
        Seq::empty()
    } else {
        seq![descriptor_packet(pid, ds.last())] + Seq::new(
            (ds.len() - 1) as nat,
            |i: int| descriptor_packet(pid, ds[i]),
        )
    }
}

/// The packet that opens the slice of `span` on its thread's track.
pub open spec fn slice_begin_packet(span: RawSpan) -> TracePacketModel {
    TracePacketModel {
        timestamp: Some(span.start),
        trusted_uid: None,
        trusted_packet_sequence_id: Some(TRUSTED_ID),
        trusted_pid: None,
        data: Some(
            PacketDataModel::TrackEvent(
                TrackEventModel {
                    track_uuid: Some(span.thread_id),
                    name: Some(kind_name(span.typ)),
                    event_type: Some(TrackEventType::SliceBegin),
                    debug_annotations: annotations_for(span),
                },
            ),
        ),
    }
}

/// The packet that closes the slice of `span`, reported by process `pid`.
pub open spec fn slice_end_packet(pid: i32, span: RawSpan) -> TracePacketModel {
    TracePacketModel {
        timestamp: Some(span.end),
        trusted_uid: None,
        trusted_packet_sequence_id: Some(TRUSTED_ID),
        trusted_pid: Some(pid),
        data: Some(
            PacketDataModel::TrackEvent(
                TrackEventModel {
                    track_uuid: Some(span.thread_id),
                    name: None,
                    event_type: Some(TrackEventType::SliceEnd),
                    debug_annotations: annotations_for(span),
                },
            ),
        ),
    }
}

/// The packets of the spans: for each, in order, its begin and its end packet.
pub open spec fn span_packets(pid: i32, spans: Seq<RawSpan>) -> Seq<TracePacketModel>
    decreases spans.len(),
{
    if spans.len() == 0 {
        Seq::empty()
    } else {
        span_packets(pid, spans.drop_last()).push(slice_begin_packet(spans.last())).push(
            slice_end_packet(pid, spans.last()),
        )
    }
}

/// The packets of a trace: the descriptors' packets, then the spans'.
pub open spec fn trace_packets(pid: i32, ds: Seq<RawSpan>, spans: Seq<RawSpan>) -> Seq<TracePacketModel> {
    descriptor_packets(pid, ds) + span_packets(pid, spans)
}

/// The descriptors give one packet each, and each span gives a begin packet
/// followed by an end packet, in span order.
proof fn lemma_span_packets_at(pid: i32, spans: Seq<RawSpan>, i: int)
    requires
        0 <= i < spans.len(),
    ensures
        span_packets(pid, spans).len() == 2 * spans.len(),
        span_packets(pid, spans)[2 * i] == slice_begin_packet(spans[i]),
        span_packets(pid, spans)[2 * i + 1] == slice_end_packet(pid, spans[i]),
    decreases spans.len(),
{
    let dl = spans.drop_last();
    if dl.len() > 0 {
        lemma_span_packets_at(pid, dl, if i < dl.len() { i } else { 0 });
    } else {
        assert(span_packets(pid, dl).len() == 0);
    }
    if i < dl.len() {
        assert(dl[i] == spans[i]);
    }
}

/// Every span becomes one slice of its own thread's track: in the trace of
/// descriptors `ds` and spans `spans`, after one packet per descriptor, span
/// `i` gives a begin packet at its start time, named after the span's own
/// type (the name `type_name_str` returns for it), then an end packet at its
/// end time.
pub proof fn law_each_span_is_a_named_slice(pid: i32, ds: Seq<RawSpan>, spans: Seq<RawSpan>, i: int)
    requires
        0 <= i < spans.len(),
    ensures
        ({
            let ps = trace_packets(pid, ds, spans);
            let b = ps[ds.len() + 2 * i];
            let e = ps[ds.len() + 2 * i + 1];
            &&& ps.len() == ds.len() + 2 * spans.len()
            &&& b.timestamp == Some(spans[i].start)
            &&& b.data matches Some(PacketDataModel::TrackEvent(ev)) && ev.name == Some(
                kind_name(spans[i].typ),
            ) && ev.event_type == Some(TrackEventType::SliceBegin) && ev.track_uuid == Some(
                spans[i].thread_id,
            )
            &&& e.timestamp == Some(spans[i].end)
            &&& e.data matches Some(PacketDataModel::TrackEvent(ev)) && ev.name is None
                && ev.event_type == Some(TrackEventType::SliceEnd) && ev.track_uuid == Some(
                spans[i].thread_id,
            )
        }),
{
    lemma_span_packets_at(pid, spans, i);
    let dp = descriptor_packets(pid, ds);
    assert(dp.len() == ds.len());
    let sp = span_packets(pid, spans);
    assert((dp + sp)[ds.len() + 2 * i] == sp[2 * i]);
    assert((dp + sp)[ds.len() + 2 * i + 1] == sp[2 * i + 1]);
}

/// Spans that a trace can show as slices: no descriptors, no runtime start.
pub open spec fn are_slices(spans: Seq<RawSpan>) -> bool {
    forall|i: int| 0 <= i < spans.len() ==> is_slice(#[trigger] spans[i].typ)
}

/// Spans can all be shown as slices exactly when none of them cannot.
pub proof fn lemma_are_slices(s: Seq<RawSpan>)
    ensures
        are_slices(s) == !has_non_slice(s),
{
}

/// A descriptor that a trace has written out is not written again: after
/// `consume` marks every descriptor written, the next trace of `spans`
/// holds only the spans' packets.
pub proof fn law_written_descriptors_not_repeated(
    pid: i32,
    entries: Seq<(RawSpan, bool)>,
    spans: Seq<RawSpan>,
)
    ensures
        trace_packets(pid, unflushed(all_flushed(entries)), spans) == span_packets(pid, spans),
{
    law_drain_twice_yields_nothing(entries);
    assert(trace_packets(pid, unflushed(all_flushed(entries)), spans) =~= span_packets(pid, spans));
}

/// The number of trace packets a batch buffer is sized for.
pub fn buf_size() -> (res: usize)
    ensures
        res == DEFAULT_BATCH_SIZE * 4,
{
    // More precisely, it should be good enough to hold:
    // DEFAULT_BATCH_SIZE * 2 + SHARD_NUM + 1
    //
    // DEFAULT_BATCH_SIZE * 2: normal spans(both start and end events)
    // SHARD_NUM: process and thread descriptors
    // + 1: process descriptor
    DEFAULT_BATCH_SIZE * 4
}

/// The debug annotations of `span`: a task's backtrace, if it has one.
pub fn create_debug_annotations(span: &RawSpan) -> (res: Vec<DebugAnnotation>)
    ensures
        annotation_models(res@) == annotations_for(*span),
{
    let mut annotations: Vec<DebugAnnotation> = Vec::new();
    // Check if this is a RunTask span with a backtrace
    if let Type::RunTask(run_task) = &span.typ {
        if let Some(backtrace) = &run_task.backtrace {
            let name = "backtrace".to_owned();
            let value = backtrace.clone();
            annotations.push(DebugAnnotation { name: Some(name), string_value: Some(value) });
        }
    }
    assert(annotation_models(annotations@) =~= annotations_for(*span));
    annotations
}

/// Docs: https://perfetto.dev/docs/reference/trace-packet-proto#TrackEvent
pub fn create_track_event(
    name: Option<String>,
    track_uuid: u64,
    event_type: Option<TrackEventType>,
    debug_annotations: Vec<DebugAnnotation>,
) -> (res: TrackEvent)
    ensures
        res@ == (TrackEventModel {
            track_uuid: Some(track_uuid),
            name: opt_text(name),
            event_type,
            debug_annotations: annotation_models(debug_annotations@),
        }),
{
    TrackEvent { track_uuid: Some(track_uuid), name, event_type, debug_annotations }
}

/// Docs: https://perfetto.dev/docs/reference/trace-packet-proto#ProcessDescriptor
pub fn create_process_descriptor(pid: i32) -> (res: ProcessDescriptor)
    ensures
        res == (ProcessDescriptor { pid: Some(pid) }),
{
    ProcessDescriptor { pid: Some(pid) }
}

/// Docs: https://perfetto.dev/docs/reference/trace-packet-proto#TrackDescriptor
pub fn create_track_descriptor(
    uuid: u64,
    name: Option<String>,
    process: Option<ProcessDescriptor>,
    thread: Option<ThreadDescriptor>,
) -> (res: TrackDescriptor)
    ensures
        res@ == (TrackDescriptorModel {
            uuid: Some(uuid),
            name: opt_text(name),
            process,
            thread: match thread {
                Some(t) => Some(t@),
                None => None,
            },
        }),
{
    TrackDescriptor { uuid: Some(uuid), name, process, thread }
}

/// Docs: https://perfetto.dev/docs/reference/trace-packet-proto#ThreadDescriptor
pub fn create_thread_descriptor(pid: i32, thread_id: usize, thread_name: String) -> (res: ThreadDescriptor)
    ensures
        res@ == (ThreadDescriptorModel {
            pid: Some(pid),
            tid: Some(thread_id as i32),
            thread_name: Some(thread_name@),
        }),
{
    ThreadDescriptor { pid: Some(pid), tid: Some(thread_id as i32), thread_name: Some(thread_name) }
}

/// Makes `trace` describe the track `track_uuid` of the thread `thread_info`;
/// its timestamp, sequence id and pid stay as they were. A thread's
/// descriptor is written once: `consume` passes here only the descriptors
/// that the table has not written out yet (see
/// `law_written_descriptors_not_repeated`).
pub fn append_thread_descriptor(
    trace: &mut TracePacket,
    thread_info: &ThreadDiscriptor,
    pid: i32,
    track_uuid: u64,
)
    ensures
        ({
            let d = thread_descriptor_packet(pid, track_uuid, thread_info.thread_name@);
            final(trace)@ == TracePacketModel {
                data: d.data,
                trusted_uid: d.trusted_uid,
                ..old(trace)@
            }
        }),
{
    let thread_name = thread_info.thread_name.clone();
    let thread_descriptor = create_thread_descriptor(pid, track_uuid as usize, thread_name.clone());
    let track_descriptor = create_track_descriptor(
        track_uuid,
        Some(thread_name),
        Some(create_process_descriptor(pid)),
        Some(thread_descriptor),
    );
    trace.data = Some(PacketData::TrackDescriptor(track_descriptor));
    trace.trusted_uid = Some(TRUSTED_ID as i32);
}

/// Makes `trace` describe the process track `track_uuid` of process `pid`;
/// its timestamp, sequence id and pid stay as they were.
pub fn append_process_descriptor(trace: &mut TracePacket, pid: i32, track_uuid: u64)
    ensures
        ({
            let d = process_descriptor_packet(pid, track_uuid);
            final(trace)@ == TracePacketModel {
                data: d.data,
                trusted_uid: d.trusted_uid,
                ..old(trace)@
            }
        }),
{
    let process_descriptor = create_process_descriptor(pid);
    let track_descriptor = create_track_descriptor(track_uuid, None, Some(process_descriptor), None);
    trace.data = Some(PacketData::TrackDescriptor(track_descriptor));
    trace.trusted_uid = Some(TRUSTED_ID as i32);
}

/// Reporter implementation for Perfetto tracing.
#[derive(Debug)]
pub struct PerfettoReporter {
    pid: i32,
}

impl PerfettoReporter {
    /// The pid the reporter puts in its packets.
    pub closed spec fn spec_pid(&self) -> i32 {
        self.pid
    }

    /// A reporter for the process with id `process_id`.
    pub fn new(process_id: u32) -> (res: Self)
        ensures
            res.spec_pid() == process_id as i32,
    {
        PerfettoReporter { pid: process_id as i32 }
    }

    /// The packet of descriptor `d`.
    fn descriptor_packet(&self, d: &RawSpan) -> (res: TracePacket)
        requires
            is_descriptor(d.typ),
        ensures
            res@ == descriptor_packet(self.spec_pid(), *d),
    {
        let mut packet = TracePacket::new();
        match &d.typ {
            Type::ThreadDiscriptor(t) => append_thread_descriptor(&mut packet, t, self.pid, d.thread_id),
            _ => append_process_descriptor(&mut packet, self.pid, d.thread_id),
        }
        packet
    }

    /// The packets of a trace holding the descriptors `descriptors` and the
    /// slices of `spans`: each descriptor's packet, the last descriptor
    /// first, then a begin and an end packet for every span, in order.
    pub fn build_packets(&self, descriptors: &Vec<RawSpan>, spans: &Vec<RawSpan>) -> (res: Vec<
        TracePacket,
    >)
        requires
            are_descriptors(descriptors@),
            are_slices(spans@),
        ensures
            packet_models(res@) == trace_packets(self.spec_pid(), descriptors@, spans@),
    {
        let pid = self.pid;
        let mut packets: Vec<TracePacket> = Vec::with_capacity(buf_size());
        let mut num_packets: usize = 0;
        let ghost ds = descriptors@;
        while num_packets < descriptors.len()
            invariant
                num_packets <= ds.len(),
                packets@.len() == num_packets,
                ds == descriptors@,
                are_descriptors(ds),
                pid == self.spec_pid(),
                packet_models(packets@) == descriptor_packets(pid, ds.take(num_packets as int)),
            decreases ds.len() - num_packets,
        {
            let ghost before = packet_models(packets@);
            let packet = self.descriptor_packet(&descriptors[num_packets]);
            let ghost new_model = packet@;
            // The new packet goes to the front; the old front moves to the end.
            if num_packets == 0 {
                packets.push(packet);
            } else {
                let mut front = packet;
                std::mem::swap(&mut front, &mut packets[0]);
                packets.push(front);
            }
            proof {
                let k = num_packets as int;
                let next = ds.take(k + 1);
                assert(new_model == descriptor_packet(pid, next.last()));
                if k == 0 {
                    assert(packet_models(packets@) =~= descriptor_packets(pid, next));
                } else {
                    assert(before =~= descriptor_packets(pid, ds.take(k)));
                    assert(packet_models(packets@) =~= seq![new_model] + before.subrange(1, k)
                        + seq![before[0]]);
                    assert(packet_models(packets@) =~= descriptor_packets(pid, next));
                }
            }
            num_packets = num_packets + 1;
        }
        assert(ds.take(ds.len() as int) =~= ds);
        let ghost dp = descriptor_packets(pid, ds);
        let mut i: usize = 0;
        while i < spans.len()
            invariant
                i <= spans@.len(),
                are_slices(spans@),
                pid == self.spec_pid(),
                packet_models(packets@) == dp + span_packets(pid, spans@.take(i as int)),
            decreases spans@.len() - i,
        {
            let span = &spans[i];
            let ghost before = packet_models(packets@);
            assert(!is_descriptor(spans@[i as int].typ));
            // Start event packet
            let debug_annotations = create_debug_annotations(span);
            let start_event = create_track_event(
                Some(span.typ.type_name_string()),
                span.thread_id,
                Some(TrackEventType::SliceBegin),
                debug_annotations,
            );
            let mut begin = TracePacket::new();
            begin.data = Some(PacketData::TrackEvent(start_event));
            begin.timestamp = Some(span.start);
            begin.trusted_packet_sequence_id = Some(TRUSTED_ID);
            assert(begin@ == slice_begin_packet(spans@[i as int]));
            packets.push(begin);
            // End event packet
            let debug_annotations = create_debug_annotations(span);
            let end_event = create_track_event(
                None,
                span.thread_id,
                Some(TrackEventType::SliceEnd),
                debug_annotations,
            );
            let mut end = TracePacket::new();
            end.data = Some(PacketData::TrackEvent(end_event));
            end.trusted_pid = Some(pid);
            end.timestamp = Some(span.end);
            end.trusted_packet_sequence_id = Some(TRUSTED_ID);
            assert(end@ == slice_end_packet(pid, spans@[i as int]));
            packets.push(end);
            proof {
                let next = spans@.take(i + 1);
                assert(next.drop_last() =~= spans@.take(i as int));
                assert(next.last() == spans@[i as int]);
                assert(span_packets(pid, next) == span_packets(pid, spans@.take(i as int)).push(
                    slice_begin_packet(spans@[i as int]),
                ).push(slice_end_packet(pid, spans@[i as int])));
                assert(packet_models(packets@) =~= before.push(slice_begin_packet(spans@[i as int])).push(
                    slice_end_packet(pid, spans@[i as int]),
                ));
                assert(packet_models(packets@) =~= dp + span_packets(pid, next));
            }
            i = i + 1;
        }
        assert(spans@.take(spans@.len() as int) =~= spans@);
        packets
    }

    /// Encodes a trace of the descriptors not written out yet, marking them
    /// written, and of `spans` (see `build_packets` for the packet order).
    pub fn consume(&self, spans: &Vec<RawSpan>, descriptors: &mut DescriptorTable) -> (res: Vec<u8>)
        requires
            are_slices(spans@),
            are_descriptors(unflushed(old(descriptors).entries())),
        ensures
            final(descriptors).well_formed(),
            res@ == trace_bytes(
                trace_packets(self.spec_pid(), unflushed(old(descriptors).entries()), spans@),
            ),
            final(descriptors).entries() == all_flushed(old(descriptors).entries()),
    {
        let drained = descriptors.drain_descriptors();
        let packets = self.build_packets(&drained, spans);
        encode_trace(&packets)
    }
}

} // verus!
