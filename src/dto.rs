//! The messages of session negotiation: SETUP in its two phases, per-stream
//! requests and responses, TEARDOWN, and the receiver's info record.
use vstd::prelude::*;
use crate::body::{
    get_field, bytes_field, bytes_of, field, int_dict, int_field, int_in, opt_int_field, opt_int_in, opt_str_field,
    opt_str_of, str_field, str_of, Node,
};

verus! {

/// macaddr's `MacAddr6`, a six-byte hardware address: carried in the info
/// record and never read here.
#[verifier::external_type_specification]
#[verifier::external_body]
pub struct ExMacAddr6(macaddr::MacAddr6);

/// Wire codes of the stream types.
pub struct StreamId;

impl StreamId {
    pub const AUDIO_REALTIME: u32 = 96;

    pub const AUDIO_BUFFERED: u32 = 103;

    pub const VIDEO: u32 = 110;
}

/// What the receiver tells about itself.
pub struct InfoResponse {
    pub device_id: macaddr::MacAddr6,
    pub mac_addr: macaddr::MacAddr6,
    pub features: u64,
    pub manufacturer: String,
    pub model: String,
    pub name: String,
    pub protocol_version: String,
    pub source_version: String,
    pub displays: Vec<Display>,
}

/// One display the receiver offers.
pub struct Display {
    pub width: u32,
    pub height: u32,
    pub uuid: String,
    pub max_fps: u32,
    pub features: u32,
}

/// Why a SETUP body was refused.
#[derive(Clone, Copy, Debug, PartialEq, Eq, Structural)]
pub enum SetupError {
    /// The body has neither shape, or a required field is absent or of the
    /// wrong kind.
    MalformedSetup,
    /// A stream request names a type code outside the protocol's three.
    UnknownStreamType(u32),
}

/// A SETUP body: the session-establishing phase, or the stream phase.
pub enum SetupRequest {
    SenderInfo(Box<SenderInfo>),
    Streams { requests: Vec<StreamRequest> },
}

/// The sender's description of itself and of the session's keys.
pub struct SenderInfo {
    pub name: String,
    pub model: String,
    pub device_id: String,
    pub mac_addr: String,
    pub os_name: Option<String>,
    pub os_version: Option<String>,
    pub os_build_version: Option<String>,
    pub ekey: Vec<u8>,
    pub eiv: Vec<u8>,
    pub timing_proto: TimingProtocol,
}

/// The clock synchronisation mode of a session.
#[derive(Clone, Copy, Debug, PartialEq, Eq, Structural)]
pub enum TimingProtocol {
    Ptp {},
    Ntp { remote_port: u16 },
}

/// One stream asked for in the stream phase, by type.
pub enum StreamRequest {
    AudioRealtime(AudioRealtimeRequest),
    AudioBuffered(AudioBufferedRequest),
    Video(VideoRequest),
}

#[derive(Clone, Copy, Debug, PartialEq, Eq, Structural)]
pub struct AudioRealtimeRequest {
    pub content_type: u8,
    pub audio_format: u32,
    pub samples_per_frame: u32,
    pub sample_rate: u32,
    pub min_latency_samples: u32,
    pub max_latency_samples: u32,
    pub remote_control_port: u16,
}

pub struct AudioBufferedRequest {
    pub content_type: u8,
    pub audio_format: u32,
    pub audio_format_index: Option<u8>,
    pub samples_per_frame: u32,
    pub shared_key: Vec<u8>,
    pub client_id: Option<String>,
}

#[derive(Clone, Copy, Debug, PartialEq, Eq, Structural)]
pub struct VideoRequest {
    pub stream_connection_id: i64,
    pub latency_ms: u32,
}

/// What the receiver answers to SETUP: the ports of the session phase, or
/// one response per requested stream, in the order of the requests.
pub enum SetupResponse {
    Info { event_port: u16, timing_port: u16 },
    Streams { responses: Vec<StreamResponse> },
}

/// The receiver's side of one negotiated stream.
#[derive(Clone, Copy, Debug, PartialEq, Eq, Structural)]
pub enum StreamResponse {
    AudioRealtime { id: u64, local_data_port: u16, local_control_port: u16 },
    AudioBuffered { id: u64, local_data_port: u16, audio_buffer_size: u32 },
    Video { id: u64, local_data_port: u16 },
}

/// A TEARDOWN body: the streams to end, or none given to end the session.
pub struct Teardown {
    pub requests: Option<Vec<TeardownRequest>>,
}

/// One stream named by TEARDOWN: its type, and its id where the sender gave it.
#[derive(Clone, Copy, Debug, PartialEq, Eq, Structural)]
pub struct TeardownRequest {
    pub id: Option<u64>,
    pub ty: u32,
}

pub const U8_MAX: i128 = 0xff;

pub const U16_MAX: i128 = 0xffff;

pub const U32_MAX: i128 = 0xffff_ffff;

pub const U64_MAX: i128 = 0xffff_ffff_ffff_ffff;

pub const I64_MIN: i128 = -0x8000_0000_0000_0000;

pub const I64_MAX: i128 = 0x7fff_ffff_ffff_ffff;

/// The timing mode named by `timingProtocol`; NTP also needs `timingPort`.
pub open spec fn timing_of(b: Node) -> Option<TimingProtocol> {
    match str_of(field(b, "timingProtocol"@)) {
        Some(s) => if s@ == "PTP"@ {
            Some(TimingProtocol::Ptp {  })
        } else if s@ == "NTP"@ {
            match int_in(field(b, "timingPort"@), 0, U16_MAX as int) {
                Some(p) => Some(TimingProtocol::Ntp { remote_port: p as u16 }),
                None => None,
            }
        } else {
            None
        },
        None => None,
    }
}

/// `b` has every field of the session-establishing phase.
pub open spec fn sender_info_ok(b: Node) -> bool {
    &&& str_of(field(b, "name"@)) is Some
    &&& str_of(field(b, "model"@)) is Some
    &&& str_of(field(b, "deviceID"@)) is Some
    &&& str_of(field(b, "macAddress"@)) is Some
    &&& opt_str_of(field(b, "osName"@)) is Some
    &&& opt_str_of(field(b, "osVersion"@)) is Some
    &&& opt_str_of(field(b, "osBuildVersion"@)) is Some
    &&& bytes_of(field(b, "ekey"@)) is Some
    &&& bytes_of(field(b, "eiv"@)) is Some
    &&& timing_of(b) is Some
}

/// `s` holds the session-phase fields of `b`.
pub open spec fn sender_info_from(b: Node, s: SenderInfo) -> bool {
    &&& str_of(field(b, "name"@)) == Some(s.name)
    &&& str_of(field(b, "model"@)) == Some(s.model)
    &&& str_of(field(b, "deviceID"@)) == Some(s.device_id)
    &&& str_of(field(b, "macAddress"@)) == Some(s.mac_addr)
    &&& opt_str_of(field(b, "osName"@)) == Some(s.os_name)
    &&& opt_str_of(field(b, "osVersion"@)) == Some(s.os_version)
    &&& opt_str_of(field(b, "osBuildVersion"@)) == Some(s.os_build_version)
    &&& bytes_of(field(b, "ekey"@)) == Some(s.ekey@)
    &&& bytes_of(field(b, "eiv"@)) == Some(s.eiv@)
    &&& timing_of(b) == Some(s.timing_proto)
}

pub open spec fn audio_realtime_of(e: Node) -> Option<AudioRealtimeRequest> {
    let ct = int_in(field(e, "ct"@), 0, U8_MAX as int);
    let format = int_in(field(e, "audioFormat"@), 0, U32_MAX as int);
    let spf = int_in(field(e, "spf"@), 0, U32_MAX as int);
    let sr = int_in(field(e, "sr"@), 0, U32_MAX as int);
    let lmin = int_in(field(e, "latencyMin"@), 0, U32_MAX as int);
    let lmax = int_in(field(e, "latencyMax"@), 0, U32_MAX as int);
    let port = int_in(field(e, "controlPort"@), 0, U16_MAX as int);
    if ct is Some && format is Some && spf is Some && sr is Some && lmin is Some && lmax is Some
        && port is Some {
        Some(
            AudioRealtimeRequest {
                content_type: ct->0 as u8,
                audio_format: format->0 as u32,
                samples_per_frame: spf->0 as u32,
                sample_rate: sr->0 as u32,
                min_latency_samples: lmin->0 as u32,
                max_latency_samples: lmax->0 as u32,
                remote_control_port: port->0 as u16,
            },
        )
    } else {
        None
    }
}

pub open spec fn audio_buffered_ok(e: Node) -> bool {
    &&& int_in(field(e, "ct"@), 0, U8_MAX as int) is Some
    &&& int_in(field(e, "audioFormat"@), 0, U32_MAX as int) is Some
    &&& opt_int_in(field(e, "audioFormatIndex"@), 0, U8_MAX as int) is Some
    &&& int_in(field(e, "spf"@), 0, U32_MAX as int) is Some
    &&& bytes_of(field(e, "shk"@)) is Some
    &&& opt_str_of(field(e, "clientID"@)) is Some
}

pub open spec fn narrow_u8(v: Option<i128>) -> Option<u8> {
    match v {
        Some(x) => Some(x as u8),
        None => None,
    }
}

pub open spec fn narrow_u64(v: Option<i128>) -> Option<u64> {
    match v {
        Some(x) => Some(x as u64),
        None => None,
    }
}

/// `a` holds the buffered-audio fields of `e`.
pub open spec fn audio_buffered_from(e: Node, a: AudioBufferedRequest) -> bool {
    &&& int_in(field(e, "ct"@), 0, U8_MAX as int) == Some(a.content_type as i128)
    &&& int_in(field(e, "audioFormat"@), 0, U32_MAX as int) == Some(a.audio_format as i128)
    &&& opt_int_in(field(e, "audioFormatIndex"@), 0, U8_MAX as int) matches Some(i)
        && narrow_u8(i) == a.audio_format_index
    &&& int_in(field(e, "spf"@), 0, U32_MAX as int) == Some(a.samples_per_frame as i128)
    &&& bytes_of(field(e, "shk"@)) == Some(a.shared_key@)
    &&& opt_str_of(field(e, "clientID"@)) == Some(a.client_id)
}

pub open spec fn video_of(e: Node) -> Option<VideoRequest> {
    let id = int_in(field(e, "streamConnectionID"@), I64_MIN as int, I64_MAX as int);
    let latency = int_in(field(e, "latencyMs"@), 0, U32_MAX as int);
    if id is Some && latency is Some {
        Some(VideoRequest { stream_connection_id: id->0 as i64, latency_ms: latency->0 as u32 })
    } else {
        None
    }
}

/// The type code of a stream element, if it has one that fits a `u32`.
pub open spec fn stream_type_of(e: Node) -> Option<i128> {
    int_in(field(e, "type"@), 0, U32_MAX as int)
}

/// Whether one stream element decodes, and if not, why: the type code is
/// read first, then the fields of the type it names.
pub open spec fn stream_check(e: Node) -> Result<(), SetupError> {
    match stream_type_of(e) {
        None => Err(SetupError::MalformedSetup),
        Some(t) => if t == StreamId::AUDIO_REALTIME {
            if audio_realtime_of(e) is Some {
                Ok(())
            } else {
                Err(SetupError::MalformedSetup)
            }
        } else if t == StreamId::AUDIO_BUFFERED {
            if audio_buffered_ok(e) {
                Ok(())
            } else {
                Err(SetupError::MalformedSetup)
            }
        } else if t == StreamId::VIDEO {
            if video_of(e) is Some {
                Ok(())
            } else {
                Err(SetupError::MalformedSetup)
            }
        } else {
            Err(SetupError::UnknownStreamType(t as u32))
        },
    }
}

/// `r` is the request that the stream element `e` describes.
pub open spec fn stream_request_from(e: Node, r: StreamRequest) -> bool {
    match r {
        StreamRequest::AudioRealtime(a) => stream_type_of(e) == Some(StreamId::AUDIO_REALTIME as i128)
            && audio_realtime_of(e) == Some(a),
        StreamRequest::AudioBuffered(a) => stream_type_of(e) == Some(
            StreamId::AUDIO_BUFFERED as i128,
        ) && audio_buffered_from(e, a),
        StreamRequest::Video(v) => stream_type_of(e) == Some(StreamId::VIDEO as i128) && video_of(e)
            == Some(v),
    }
}

/// The first refusal among the elements `items[i..]`, in order.
pub open spec fn list_check(items: Seq<Node>, i: int) -> Result<(), SetupError>
    decreases items.len() - i,
{
    if i < 0 || i >= items.len() {
        Ok(())
    } else {
        match stream_check(items[i]) {
            Err(e) => Err(e),
            Ok(_) => list_check(items, i + 1),
        }
    }
}

/// The stream phase: a non-empty `streams` array whose every element
/// decodes; otherwise the first refusal.
pub open spec fn streams_check(b: Node) -> Result<Seq<Node>, SetupError> {
    match field(b, "streams"@) {
        Some(Node::Array(items)) => if items@.len() == 0 {
            Err(SetupError::MalformedSetup)
        } else {
            match list_check(items@, 0) {
                Ok(_) => Ok(items@),
                Err(e) => Err(e),
            }
        },
        _ => Err(SetupError::MalformedSetup),
    }
}

impl StreamRequest {
    pub open spec fn type_code(self) -> u32 {
        match self {
            StreamRequest::AudioRealtime(_) => StreamId::AUDIO_REALTIME,
            StreamRequest::AudioBuffered(_) => StreamId::AUDIO_BUFFERED,
            StreamRequest::Video(_) => StreamId::VIDEO,
        }
    }

    /// The wire code of this request's stream type.
    pub fn stream_type(&self) -> (r: u32)
        ensures
            r == self.type_code(),
    {
        match self {
            StreamRequest::AudioRealtime(_) => StreamId::AUDIO_REALTIME,
            StreamRequest::AudioBuffered(_) => StreamId::AUDIO_BUFFERED,
            StreamRequest::Video(_) => StreamId::VIDEO,
        }
    }

    /// Decodes one element of the `streams` array: its `type` code selects
    /// the fields that are read next.
    pub fn decode(e: &Node) -> (r: Result<StreamRequest, SetupError>)
        ensures
            match r {
                Ok(req) => stream_check(*e) is Ok && stream_request_from(*e, req),
                Err(err) => stream_check(*e) == Err::<(), SetupError>(err),
            },
    {
        let tag = match int_field(e, "type", 0, U32_MAX) {
            Some(t) => t as u32,
            None => {
                return Err(SetupError::MalformedSetup);
            },
        };
        if tag == StreamId::AUDIO_REALTIME {
            match AudioRealtimeRequest::decode(e) {
                Some(a) => Ok(StreamRequest::AudioRealtime(a)),
                None => Err(SetupError::MalformedSetup),
            }
        } else if tag == StreamId::AUDIO_BUFFERED {
            match AudioBufferedRequest::decode(e) {
                Some(a) => Ok(StreamRequest::AudioBuffered(a)),
                None => Err(SetupError::MalformedSetup),
            }
        } else if tag == StreamId::VIDEO {
            match VideoRequest::decode(e) {
                Some(v) => Ok(StreamRequest::Video(v)),
                None => Err(SetupError::MalformedSetup),
            }
        } else {
            Err(SetupError::UnknownStreamType(tag))
        }
    }
}

impl AudioRealtimeRequest {
    pub fn decode(e: &Node) -> (r: Option<AudioRealtimeRequest>)
        ensures
            r == audio_realtime_of(*e),
    {
        let ct = int_field(e, "ct", 0, U8_MAX);
        let format = int_field(e, "audioFormat", 0, U32_MAX);
        let spf = int_field(e, "spf", 0, U32_MAX);
        let sr = int_field(e, "sr", 0, U32_MAX);
        let lmin = int_field(e, "latencyMin", 0, U32_MAX);
        let lmax = int_field(e, "latencyMax", 0, U32_MAX);
        let port = int_field(e, "controlPort", 0, U16_MAX);
        match (ct, format, spf, sr, lmin, lmax, port) {
            (Some(ct), Some(format), Some(spf), Some(sr), Some(lmin), Some(lmax), Some(port)) => {
                Some(
                    AudioRealtimeRequest {
                        content_type: ct as u8,
                        audio_format: format as u32,
                        samples_per_frame: spf as u32,
                        sample_rate: sr as u32,
                        min_latency_samples: lmin as u32,
                        max_latency_samples: lmax as u32,
                        remote_control_port: port as u16,
                    },
                )
            },
            _ => None,
        }
    }
}

impl AudioBufferedRequest {
    pub fn decode(e: &Node) -> (r: Option<AudioBufferedRequest>)
        ensures
            r is Some <==> audio_buffered_ok(*e),
            r matches Some(a) ==> audio_buffered_from(*e, a),
    {
        let ct = int_field(e, "ct", 0, U8_MAX);
        let format = int_field(e, "audioFormat", 0, U32_MAX);
        let index = opt_int_field(e, "audioFormatIndex", 0, U8_MAX);
        let spf = int_field(e, "spf", 0, U32_MAX);
        let key = bytes_field(e, "shk");
        let client = opt_str_field(e, "clientID");
        match (ct, format, index, spf, key, client) {
            (Some(ct), Some(format), Some(index), Some(spf), Some(key), Some(client)) => {
                let audio_format_index = match index {
                    Some(i) => Some(i as u8),
                    None => None,
                };
                Some(
                    AudioBufferedRequest {
                        content_type: ct as u8,
                        audio_format: format as u32,
                        audio_format_index,
                        samples_per_frame: spf as u32,
                        shared_key: key,
                        client_id: client,
                    },
                )
            },
            _ => None,
        }
    }
}

impl VideoRequest {
    pub fn decode(e: &Node) -> (r: Option<VideoRequest>)
        ensures
            r == video_of(*e),
    {
        let id = int_field(e, "streamConnectionID", I64_MIN, I64_MAX);
        let latency = int_field(e, "latencyMs", 0, U32_MAX);
        match (id, latency) {
            (Some(id), Some(latency)) => Some(
                VideoRequest { stream_connection_id: id as i64, latency_ms: latency as u32 },
            ),
            _ => None,
        }
    }
}

impl SetupRequest {
    /// Decodes a SETUP body. The session-establishing shape is tried first;
    /// a body without it is read as the stream phase, which fails on the
    /// first element that does not decode.
    pub fn decode(body: &Node) -> (r: Result<SetupRequest, SetupError>)
        ensures
            sender_info_ok(*body) ==> (r matches Ok(SetupRequest::SenderInfo(s)) && sender_info_from(
                *body,
                *s,
            )),
            !sender_info_ok(*body) ==> match streams_check(*body) {
                Ok(items) => r matches Ok(SetupRequest::Streams { requests }) && requests@.len()
                    == items.len() && forall|i: int|
                    0 <= i < items.len() ==> stream_request_from(items[i], #[trigger] requests@[i]),
                Err(e) => r matches Err(e2) && e2 == e,
            },
    {
        match SenderInfo::decode(body) {
            Some(s) => {
                return Ok(SetupRequest::SenderInfo(Box::new(s)));
            },
            None => {},
        }
        let items = match get_field(body, "streams") {
            Some(Node::Array(items)) => items,
            _ => {
                return Err(SetupError::MalformedSetup);
            },
        };
        if items.len() == 0 {
            return Err(SetupError::MalformedSetup);
        }
        let mut requests: Vec<StreamRequest> = Vec::new();
        let mut i: usize = 0;
        while i < items.len()
            invariant
                0 <= i <= items@.len(),
                field(*body, "streams"@) == Some(Node::Array(*items)),
                !sender_info_ok(*body),
                items@.len() > 0,
                list_check(items@, 0) == list_check(items@, i as int),
                requests@.len() == i,
                forall|j: int| 0 <= j < i ==> stream_request_from(items@[j], #[trigger] requests@[j]),
            decreases items.len() - i,
        {
            match StreamRequest::decode(&items[i]) {
                Ok(req) => {
                    requests.push(req);
                },
                Err(e) => {
                    return Err(e);
                },
            }
            i = i + 1;
        }
        Ok(SetupRequest::Streams { requests })
    }
}

pub open spec fn teardown_item_of(e: Node) -> Option<TeardownRequest> {
    let id = opt_int_in(field(e, "streamID"@), 0, U64_MAX as int);
    let ty = int_in(field(e, "type"@), 0, U32_MAX as int);
    if id is Some && ty is Some {
        Some(TeardownRequest { id: narrow_u64(id->0), ty: ty->0 as u32 })
    } else {
        None
    }
}

/// `b` is a TEARDOWN body: a dictionary whose `streams`, where present and
/// not null, is an array of stream entries.
pub open spec fn teardown_ok(b: Node) -> bool {
    &&& b is Dict
    &&& match field(b, "streams"@) {
        None => true,
        Some(Node::Null) => true,
        Some(Node::Array(items)) => forall|i: int|
            0 <= i < items@.len() ==> (#[trigger] teardown_item_of(items@[i])) is Some,
        _ => false,
    }
}

/// `t` holds what the TEARDOWN body `b` lists.
pub open spec fn teardown_from(b: Node, t: Teardown) -> bool {
    match field(b, "streams"@) {
        Some(Node::Array(items)) => t.requests matches Some(v) && v@.len() == items@.len()
            && forall|i: int|
            0 <= i < items@.len() ==> teardown_item_of(items@[i]) == Some(#[trigger] v@[i]),
        _ => t.requests is None,
    }
}

/// Whether TEARDOWN `t` ends the active stream `id` of type `ty`: every
/// stream when no list is given; else a listed entry of that type with that
/// id, or with no id (which names every stream of its type).
pub open spec fn ends_stream(t: Teardown, id: u64, ty: u32) -> bool {
    match t.requests {
        None => true,
        Some(v) => exists|j: int|
            0 <= j < v@.len() && (#[trigger] v@[j]).ty == ty && (v@[j].id is None || v@[j].id
                == Some(id)),
    }
}

impl TeardownRequest {
    pub fn decode(e: &Node) -> (r: Option<TeardownRequest>)
        ensures
            r == teardown_item_of(*e),
    {
        let id = opt_int_field(e, "streamID", 0, U64_MAX);
        let ty = int_field(e, "type", 0, U32_MAX);
        match (id, ty) {
            (Some(id), Some(ty)) => {
                let id = match id {
                    Some(v) => Some(v as u64),
                    None => None,
                };
                Some(TeardownRequest { id, ty: ty as u32 })
            },
            _ => None,
        }
    }
}

impl Teardown {
    /// Decodes a TEARDOWN body; an absent or null `streams` is kept apart
    /// from an empty list.
    pub fn decode(body: &Node) -> (r: Option<Teardown>)
        ensures
            r is Some <==> teardown_ok(*body),
            r matches Some(t) ==> teardown_from(*body, t),
    {
        match body {
            Node::Dict(_) => {},
            _ => {
                return None;
            },
        }
        let items = match get_field(body, "streams") {
            None => {
                return Some(Teardown { requests: None });
            },
            Some(Node::Null) => {
                return Some(Teardown { requests: None });
            },
            Some(Node::Array(items)) => items,
            _ => {
                return None;
            },
        };
        let mut requests: Vec<TeardownRequest> = Vec::new();
        let mut i: usize = 0;
        while i < items.len()
            invariant
                0 <= i <= items@.len(),
                *body is Dict,
                field(*body, "streams"@) == Some(Node::Array(*items)),
                requests@.len() == i,
                forall|j: int|
                    0 <= j < i ==> teardown_item_of(items@[j]) == Some(#[trigger] requests@[j]),
            decreases items.len() - i,
        {
            match TeardownRequest::decode(&items[i]) {
                Some(t) => {
                    requests.push(t);
                },
                None => {
                    return None;
                },
            }
            i = i + 1;
        }
        assert forall|j: int| 0 <= j < items@.len() implies (#[trigger] teardown_item_of(
            items@[j],
        )) is Some by {
            assert(teardown_item_of(items@[j]) == Some(requests@[j]));
        }
        Some(Teardown { requests: Some(requests) })
    }

    /// Whether this TEARDOWN ends the active stream `id` of type `ty`.
    pub fn ends_stream(&self, id: u64, ty: u32) -> (r: bool)
        ensures
            r == ends_stream(*self, id, ty),
    {
        match &self.requests {
            None => true,
            Some(v) => {
                let mut i: usize = 0;
                while i < v.len()
                    invariant
                        0 <= i <= v@.len(),
                        self.requests == Some(*v),
                        forall|j: int|
                            0 <= j < i ==> !((#[trigger] v@[j]).ty == ty && (v@[j].id is None
                                || v@[j].id == Some(id))),
                    decreases v.len() - i,
                {
                    let t = v[i];
                    let hit = match t.id {
                        None => true,
                        Some(x) => x == id,
                    };
                    if t.ty == ty && hit {
                        return true;
                    }
                    i = i + 1;
                }
                false
            },
        }
    }
}

/// The fields a stream response is written with, in order.
pub open spec fn response_fields(r: StreamResponse) -> Seq<(Seq<char>, int)> {
    match r {
        StreamResponse::AudioRealtime { id, local_data_port, local_control_port } => seq![
            ("type"@, StreamId::AUDIO_REALTIME as int),
            ("streamID"@, id as int),
            ("dataPort"@, local_data_port as int),
            ("controlPort"@, local_control_port as int),
        ],
        StreamResponse::AudioBuffered { id, local_data_port, audio_buffer_size } => seq![
            ("type"@, StreamId::AUDIO_BUFFERED as int),
            ("streamID"@, id as int),
            ("dataPort"@, local_data_port as int),
            ("audioBufferSize"@, audio_buffer_size as int),
        ],
        StreamResponse::Video { id, local_data_port } => seq![
            ("type"@, StreamId::VIDEO as int),
            ("streamID"@, id as int),
            ("dataPort"@, local_data_port as int),
        ],
    }
}

/// `n` is the written form of the SETUP response `r`.
pub open spec fn setup_response_written(n: Node, r: SetupResponse) -> bool {
    match r {
        SetupResponse::Info { event_port, timing_port } => int_dict(
            n,
            seq![("eventPort"@, event_port as int), ("timingPort"@, timing_port as int)],
        ),
        SetupResponse::Streams { responses } => {
            &&& n matches Node::Dict(entries)
            &&& entries@.len() == 1
            &&& entries@[0].0@ == "streams"@
            &&& entries@[0].1 matches Node::Array(items)
            &&& items@.len() == responses@.len()
            &&& forall|i: int|
                0 <= i < items@.len() ==> int_dict(
                    #[trigger] items@[i],
                    response_fields(responses@[i]),
                )
        },
    }
}

/// A response answers a request of the same stream type.
pub open spec fn answers(resp: StreamResponse, req: StreamRequest) -> bool {
    ||| resp is AudioRealtime && req is AudioRealtime
    ||| resp is AudioBuffered && req is AudioBuffered
    ||| resp is Video && req is Video
}

proof fn lemma_list_check_reaches(items: Seq<Node>, k: int, i: int)
    requires
        0 <= k <= i < items.len(),
        stream_check(items[i]) is Err,
    ensures
        list_check(items, k) is Err,
        (forall|j: int| k <= j < i ==> (#[trigger] stream_check(items[j])) is Ok) ==> list_check(
            items,
            k,
        ) == stream_check(items[i]),
    decreases i - k,
{
    if k < i {
        lemma_list_check_reaches(items, k + 1, i);
    }
}

/// In the stream phase, an element whose type code is none of the three
/// protocol codes refuses the whole request, so no stream is admitted; the
/// refusal is `UnknownStreamType` of that code when every element before
/// it decodes.
pub proof fn lemma_unknown_type_refuses(body: Node, items: Seq<Node>, i: int)
    requires
        field(body, "streams"@) matches Some(Node::Array(v)) && v@ == items,
        0 <= i < items.len(),
        stream_type_of(items[i]) matches Some(t) && t != StreamId::AUDIO_REALTIME && t
            != StreamId::AUDIO_BUFFERED && t != StreamId::VIDEO,
    ensures
        streams_check(body) is Err,
        (forall|j: int| 0 <= j < i ==> (#[trigger] stream_check(items[j])) is Ok) ==> streams_check(
            body,
        ) == Err::<Seq<Node>, SetupError>(
            SetupError::UnknownStreamType(stream_type_of(items[i])->0 as u32),
        ),
{
    lemma_list_check_reaches(items, 0, i);
}

/// The response to a stream request, written out, carries in `type` the
/// code that the request's element was decoded with.
pub proof fn lemma_response_type_echoes_request(
    e: Node,
    req: StreamRequest,
    resp: StreamResponse,
    n: Node,
)
    requires
        stream_request_from(e, req),
        answers(resp, req),
        int_dict(n, response_fields(resp)),
    ensures
        field(n, "type"@) == Some(Node::Int(req.type_code() as i128)),
        stream_type_of(e) == Some(req.type_code() as i128),
        resp.type_code() == req.type_code(),
{
    let entries = n->Dict_0@;
    assert(entries[0].0@ == response_fields(resp)[0].0);
    assert(entries[0].1 == Node::Int(response_fields(resp)[0].1 as i128));
}

fn push_int(entries: &mut Vec<(String, Node)>, key: &str, v: i128)
    ensures
        final(entries)@.len() == old(entries)@.len() + 1,
        final(entries)@.subrange(0, old(entries)@.len() as int) == old(entries)@,
        final(entries)@[old(entries)@.len() as int].0@ == key@,
        final(entries)@[old(entries)@.len() as int].1 == Node::Int(v),
{
    entries.push((String::from_str(key), Node::Int(v)));
    proof {
        assert(final(entries)@.subrange(0, old(entries)@.len() as int) =~= old(entries)@);
    }
}

impl StreamResponse {
    pub open spec fn type_code(self) -> u32 {
        match self {
            StreamResponse::AudioRealtime { .. } => StreamId::AUDIO_REALTIME,
            StreamResponse::AudioBuffered { .. } => StreamId::AUDIO_BUFFERED,
            StreamResponse::Video { .. } => StreamId::VIDEO,
        }
    }

    /// The wire code of this response's stream type.
    pub fn stream_type(&self) -> (r: u32)
        ensures
            r == self.type_code(),
    {
        match self {
            StreamResponse::AudioRealtime { .. } => StreamId::AUDIO_REALTIME,
            StreamResponse::AudioBuffered { .. } => StreamId::AUDIO_BUFFERED,
            StreamResponse::Video { .. } => StreamId::VIDEO,
        }
    }

    /// Writes the response as a dictionary: `type`, `streamID`, `dataPort`,
    /// then `controlPort` or `audioBufferSize` where the type has one.
    pub fn encode(&self) -> (r: Node)
        ensures
            int_dict(r, response_fields(*self)),
    {
        let mut entries: Vec<(String, Node)> = Vec::new();
        match *self {
            StreamResponse::AudioRealtime { id, local_data_port, local_control_port } => {
                push_int(&mut entries, "type", StreamId::AUDIO_REALTIME as i128);
                push_int(&mut entries, "streamID", id as i128);
                push_int(&mut entries, "dataPort", local_data_port as i128);
                push_int(&mut entries, "controlPort", local_control_port as i128);
            },
            StreamResponse::AudioBuffered { id, local_data_port, audio_buffer_size } => {
                push_int(&mut entries, "type", StreamId::AUDIO_BUFFERED as i128);
                push_int(&mut entries, "streamID", id as i128);
                push_int(&mut entries, "dataPort", local_data_port as i128);
                push_int(&mut entries, "audioBufferSize", audio_buffer_size as i128);
            },
            StreamResponse::Video { id, local_data_port } => {
                push_int(&mut entries, "type", StreamId::VIDEO as i128);
                push_int(&mut entries, "streamID", id as i128);
                push_int(&mut entries, "dataPort", local_data_port as i128);
            },
        }
        Node::Dict(entries)
    }
}

impl SetupResponse {
    /// Writes the response: the two ports of the session phase (the timing
    /// port always present), or a `streams` array with one dictionary per
    /// response in order.
    pub fn encode(&self) -> (r: Node)
        ensures
            setup_response_written(r, *self),
    {
        match self {
            SetupResponse::Info { event_port, timing_port } => {
                let mut entries: Vec<(String, Node)> = Vec::new();
                push_int(&mut entries, "eventPort", *event_port as i128);
                push_int(&mut entries, "timingPort", *timing_port as i128);
                Node::Dict(entries)
            },
            SetupResponse::Streams { responses } => {
                let mut items: Vec<Node> = Vec::new();
                let mut i: usize = 0;
                while i < responses.len()
                    invariant
                        0 <= i <= responses@.len(),
                        items@.len() == i,
                        forall|j: int|
                            0 <= j < i ==> int_dict(
                                #[trigger] items@[j],
                                response_fields(responses@[j]),
                            ),
                    decreases responses.len() - i,
                {
                    let n = responses[i].encode();
                    items.push(n);
                    i = i + 1;
                }
                let mut entries: Vec<(String, Node)> = Vec::new();
                entries.push((String::from_str("streams"), Node::Array(items)));
                Node::Dict(entries)
            },
        }
    }
}

impl TimingProtocol {
    pub fn decode(b: &Node) -> (r: Option<TimingProtocol>)
        ensures
            r == timing_of(*b),
    {
        let proto = str_field(b, "timingProtocol");
        match proto {
            Some(s) => {
                let ptp = String::from_str("PTP");
                let ntp = String::from_str("NTP");
                if s == ptp {
                    Some(TimingProtocol::Ptp {  })
                } else if s == ntp {
                    match int_field(b, "timingPort", 0, U16_MAX) {
                        Some(p) => Some(TimingProtocol::Ntp { remote_port: p as u16 }),
                        None => None,
                    }
                } else {
                    None
                }
            },
            None => None,
        }
    }
}

impl SenderInfo {
    pub fn decode(b: &Node) -> (r: Option<SenderInfo>)
        ensures
            r is Some <==> sender_info_ok(*b),
            r matches Some(s) ==> sender_info_from(*b, s),
    {
        let name = str_field(b, "name");
        let model = str_field(b, "model");
        let device_id = str_field(b, "deviceID");
        let mac_addr = str_field(b, "macAddress");
        let os_name = opt_str_field(b, "osName");
        let os_version = opt_str_field(b, "osVersion");
        let os_build_version = opt_str_field(b, "osBuildVersion");
        let ekey = bytes_field(b, "ekey");
        let eiv = bytes_field(b, "eiv");
        let timing_proto = TimingProtocol::decode(b);
        match (name, model, device_id, mac_addr, os_name, os_version, os_build_version, ekey, eiv, timing_proto) {
            (
                Some(name),
                Some(model),
                Some(device_id),
                Some(mac_addr),
                Some(os_name),
                Some(os_version),
                Some(os_build_version),
                Some(ekey),
                Some(eiv),
                Some(timing_proto),
            ) => Some(
                SenderInfo {
                    name,
                    model,
                    device_id,
                    mac_addr,
                    os_name,
                    os_version,
                    os_build_version,
                    ekey,
                    eiv,
                    timing_proto,
                },
            ),
            _ => None,
        }
    }
}

} // verus!
