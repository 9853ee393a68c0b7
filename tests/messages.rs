use airplay_rtsp::body::Node;
use airplay_rtsp::dto::{
    SetupError, SetupRequest, SetupResponse, StreamId, StreamRequest, StreamResponse, Teardown,
    TeardownRequest, TimingProtocol,
};

fn s(v: &str) -> Node {
    Node::Str(v.to_string())
}

fn num(v: i128) -> Node {
    Node::Int(v)
}

fn dict(entries: Vec<(&str, Node)>) -> Node {
    Node::Dict(entries.into_iter().map(|(k, v)| (k.to_string(), v)).collect())
}

fn get<'a>(n: &'a Node, key: &str) -> Option<&'a Node> {
    match n {
        Node::Dict(entries) => entries.iter().find(|(k, _)| k == key).map(|(_, v)| v),
        _ => None,
    }
}

fn as_int(n: Option<&Node>) -> Option<i128> {
    match n {
        Some(Node::Int(v)) => Some(*v),
        _ => None,
    }
}

fn sender_fields(timing: &str) -> Vec<(&'static str, Node)> {
    vec![
        ("name", s("Phone")),
        ("model", s("iPhone14,2")),
        ("deviceID", s("AA:BB:CC:DD:EE:FF")),
        ("macAddress", s("AA:BB:CC:DD:EE:01")),
        ("osName", s("iPhone OS")),
        ("ekey", Node::Data(vec![1, 2, 3])),
        ("eiv", Node::Array(vec![num(4), num(5)])),
        ("timingProtocol", s(timing)),
    ]
}

fn realtime_audio() -> Node {
    dict(vec![
        ("type", num(96)),
        ("ct", num(1)),
        ("audioFormat", num(0x40000)),
        ("spf", num(352)),
        ("sr", num(44100)),
        ("latencyMin", num(11025)),
        ("latencyMax", num(88200)),
        ("controlPort", num(6001)),
    ])
}

fn buffered_audio() -> Node {
    dict(vec![
        ("type", num(103)),
        ("ct", num(2)),
        ("audioFormat", num(0x1000000)),
        ("spf", num(1024)),
        ("shk", Node::Data(vec![9; 4])),
        ("clientID", s("client")),
    ])
}

fn video() -> Node {
    dict(vec![("type", num(110)), ("streamConnectionID", num(-42)), ("latencyMs", num(100))])
}

#[test]
fn phase_one_ptp() {
    let body = dict(sender_fields("PTP"));
    match SetupRequest::decode(&body) {
        Ok(SetupRequest::SenderInfo(info)) => {
            assert_eq!(info.name, "Phone");
            assert_eq!(info.device_id, "AA:BB:CC:DD:EE:FF");
            assert_eq!(info.os_name.as_deref(), Some("iPhone OS"));
            assert_eq!(info.os_version, None);
            assert_eq!(info.ekey, vec![1, 2, 3]);
            assert_eq!(info.eiv, vec![4, 5]);
            assert_eq!(info.timing_proto, TimingProtocol::Ptp {});
        }
        _ => panic!("expected the session phase"),
    }
}

#[test]
fn phase_one_ntp_reads_port() {
    let mut fields = sender_fields("NTP");
    fields.push(("timingPort", num(7011)));
    match SetupRequest::decode(&dict(fields)) {
        Ok(SetupRequest::SenderInfo(info)) => {
            assert_eq!(info.timing_proto, TimingProtocol::Ntp { remote_port: 7011 });
        }
        _ => panic!("expected the session phase"),
    }
}

#[test]
fn ntp_without_port_is_malformed() {
    let body = dict(sender_fields("NTP"));
    assert!(matches!(SetupRequest::decode(&body), Err(SetupError::MalformedSetup)));
}

#[test]
fn string_key_is_utf8_bytes() {
    let mut fields = sender_fields("PTP");
    fields[5] = ("ekey", s("ké"));
    match SetupRequest::decode(&dict(fields)) {
        Ok(SetupRequest::SenderInfo(info)) => assert_eq!(info.ekey, "ké".as_bytes().to_vec()),
        _ => panic!("expected the session phase"),
    }
}

#[test]
fn phase_one_with_streams_stays_phase_one() {
    let mut fields = sender_fields("PTP");
    fields.push(("streams", Node::Array(vec![video()])));
    assert!(matches!(SetupRequest::decode(&dict(fields)), Ok(SetupRequest::SenderInfo(_))));
}

#[test]
fn phase_two_all_types() {
    let body = dict(vec![("streams", Node::Array(vec![realtime_audio(), buffered_audio(), video()]))]);
    match SetupRequest::decode(&body) {
        Ok(SetupRequest::Streams { requests }) => {
            assert_eq!(requests.len(), 3);
            match &requests[0] {
                StreamRequest::AudioRealtime(a) => {
                    assert_eq!(a.content_type, 1);
                    assert_eq!(a.samples_per_frame, 352);
                    assert_eq!(a.sample_rate, 44100);
                    assert_eq!(a.max_latency_samples, 88200);
                    assert_eq!(a.remote_control_port, 6001);
                }
                _ => panic!("expected realtime audio"),
            }
            match &requests[1] {
                StreamRequest::AudioBuffered(a) => {
                    assert_eq!(a.audio_format, 0x1000000);
                    assert_eq!(a.audio_format_index, None);
                    assert_eq!(a.shared_key, vec![9; 4]);
                    assert_eq!(a.client_id.as_deref(), Some("client"));
                }
                _ => panic!("expected buffered audio"),
            }
            match &requests[2] {
                StreamRequest::Video(v) => {
                    assert_eq!(v.stream_connection_id, -42);
                    assert_eq!(v.latency_ms, 100);
                }
                _ => panic!("expected video"),
            }
            let codes: Vec<u32> = requests.iter().map(|r| r.stream_type()).collect();
            assert_eq!(codes, vec![96, 103, 110]);
        }
        _ => panic!("expected the stream phase"),
    }
}

#[test]
fn unknown_stream_type_rejects_request() {
    let odd = dict(vec![("type", num(120)), ("latencyMs", num(1))]);
    let body = dict(vec![("streams", Node::Array(vec![video(), odd, realtime_audio()]))]);
    assert!(matches!(
        SetupRequest::decode(&body),
        Err(SetupError::UnknownStreamType(120))
    ));
}

#[test]
fn unknown_stream_type_alone() {
    for code in [0, 97, 104, 111, 4_000_000_000] {
        let body = dict(vec![("streams", Node::Array(vec![dict(vec![("type", num(code))])]))]);
        assert!(matches!(
            SetupRequest::decode(&body),
            Err(SetupError::UnknownStreamType(c)) if c as i128 == code
        ));
    }
}

#[test]
fn missing_stream_field_is_malformed() {
    let bad = dict(vec![("type", num(110)), ("latencyMs", num(1))]);
    let body = dict(vec![("streams", Node::Array(vec![bad]))]);
    assert!(matches!(SetupRequest::decode(&body), Err(SetupError::MalformedSetup)));
}

#[test]
fn out_of_range_field_is_malformed() {
    let bad = dict(vec![("type", num(110)), ("streamConnectionID", num(1)), ("latencyMs", num(-1))]);
    let body = dict(vec![("streams", Node::Array(vec![bad]))]);
    assert!(matches!(SetupRequest::decode(&body), Err(SetupError::MalformedSetup)));
}

#[test]
fn neither_shape_is_malformed() {
    assert!(matches!(SetupRequest::decode(&dict(vec![])), Err(SetupError::MalformedSetup)));
    assert!(matches!(SetupRequest::decode(&Node::Null), Err(SetupError::MalformedSetup)));
    let empty = dict(vec![("streams", Node::Array(vec![]))]);
    assert!(matches!(SetupRequest::decode(&empty), Err(SetupError::MalformedSetup)));
}

#[test]
fn stream_id_codes() {
    assert_eq!(StreamId::AUDIO_REALTIME, 96);
    assert_eq!(StreamId::AUDIO_BUFFERED, 103);
    assert_eq!(StreamId::VIDEO, 110);
}

#[test]
fn response_type_matches_request() {
    let responses = [
        StreamResponse::AudioRealtime { id: 1, local_data_port: 7000, local_control_port: 7001 },
        StreamResponse::AudioBuffered { id: 2, local_data_port: 7002, audio_buffer_size: 8388608 },
        StreamResponse::Video { id: 3, local_data_port: 7010 },
    ];
    let requests = [realtime_audio(), buffered_audio(), video()];
    for (resp, req) in responses.iter().zip(requests.iter()) {
        let decoded = StreamRequest::decode(req).ok().unwrap();
        let written = resp.encode();
        assert_eq!(as_int(get(&written, "type")), Some(decoded.stream_type() as i128));
        assert_eq!(resp.stream_type(), decoded.stream_type());
    }
}

#[test]
fn response_fields_written() {
    let rt = StreamResponse::AudioRealtime { id: 5, local_data_port: 7000, local_control_port: 7001 }.encode();
    assert_eq!(as_int(get(&rt, "streamID")), Some(5));
    assert_eq!(as_int(get(&rt, "dataPort")), Some(7000));
    assert_eq!(as_int(get(&rt, "controlPort")), Some(7001));
    let buffered = StreamResponse::AudioBuffered { id: 6, local_data_port: 7002, audio_buffer_size: 1024 }.encode();
    assert_eq!(as_int(get(&buffered, "audioBufferSize")), Some(1024));
    assert_eq!(get(&buffered, "controlPort").is_none(), true);
    let v = StreamResponse::Video { id: u64::MAX, local_data_port: 7010 }.encode();
    assert_eq!(as_int(get(&v, "streamID")), Some(u64::MAX as i128));
    match v {
        Node::Dict(entries) => assert_eq!(entries.len(), 3),
        _ => panic!("expected a dictionary"),
    }
}

#[test]
fn setup_response_info_always_has_timing_port() {
    let n = SetupResponse::Info { event_port: 7100, timing_port: 0 }.encode();
    assert_eq!(as_int(get(&n, "eventPort")), Some(7100));
    assert_eq!(as_int(get(&n, "timingPort")), Some(0));
}

#[test]
fn setup_response_streams_in_order() {
    let resp = SetupResponse::Streams {
        responses: vec![
            StreamResponse::Video { id: 1, local_data_port: 7010 },
            StreamResponse::AudioRealtime { id: 2, local_data_port: 7000, local_control_port: 7001 },
        ],
    };
    let n = resp.encode();
    match get(&n, "streams") {
        Some(Node::Array(items)) => {
            assert_eq!(items.len(), 2);
            assert_eq!(as_int(get(&items[0], "type")), Some(110));
            assert_eq!(as_int(get(&items[1], "type")), Some(96));
            assert_eq!(as_int(get(&items[1], "streamID")), Some(2));
        }
        _ => panic!("expected a streams array"),
    }
}

#[test]
fn teardown_absent_streams_ends_everything() {
    let td = Teardown::decode(&dict(vec![])).unwrap();
    assert!(td.requests.is_none());
    let active = [(1u64, 96u32), (2, 103), (3, 110)];
    assert!(active.iter().all(|(id, ty)| td.ends_stream(*id, *ty)));
    let null = Teardown::decode(&dict(vec![("streams", Node::Null)])).unwrap();
    assert!(null.requests.is_none());
}

#[test]
fn teardown_empty_list_ends_nothing() {
    let td = Teardown::decode(&dict(vec![("streams", Node::Array(vec![]))])).unwrap();
    assert_eq!(td.requests.as_ref().map(|v| v.len()), Some(0));
    let active = [(1u64, 96u32), (2, 103), (3, 110)];
    assert!(active.iter().all(|(id, ty)| !td.ends_stream(*id, *ty)));
}

#[test]
fn teardown_listed_streams() {
    let body = dict(vec![(
        "streams",
        Node::Array(vec![
            dict(vec![("streamID", num(3)), ("type", num(110))]),
            dict(vec![("type", num(96))]),
        ]),
    )]);
    let td = Teardown::decode(&body).unwrap();
    assert_eq!(
        td.requests.as_deref(),
        Some(&[TeardownRequest { id: Some(3), ty: 110 }, TeardownRequest { id: None, ty: 96 }][..])
    );
    assert!(td.ends_stream(3, 110));
    assert!(!td.ends_stream(4, 110));
    assert!(td.ends_stream(1, 96));
    assert!(td.ends_stream(8, 96));
    assert!(!td.ends_stream(2, 103));
}

#[test]
fn teardown_malformed() {
    assert!(Teardown::decode(&Node::Null).is_none());
    assert!(Teardown::decode(&dict(vec![("streams", num(1))])).is_none());
    let bad = dict(vec![("streams", Node::Array(vec![dict(vec![("streamID", num(1))])]))]);
    assert!(Teardown::decode(&bad).is_none());
}

#[test]
fn type_code_past_u32_is_malformed() {
    let body = dict(vec![("streams", Node::Array(vec![dict(vec![("type", num(1 << 32))])]))]);
    assert!(matches!(SetupRequest::decode(&body), Err(SetupError::MalformedSetup)));
}

#[test]
fn stream_element_not_a_dictionary_is_malformed() {
    let body = dict(vec![("streams", Node::Array(vec![num(110)]))]);
    assert!(matches!(SetupRequest::decode(&body), Err(SetupError::MalformedSetup)));
}

#[test]
fn first_refusal_decides_error() {
    let bad = dict(vec![("type", num(96))]);
    let odd = dict(vec![("type", num(7))]);
    let body = dict(vec![("streams", Node::Array(vec![bad, odd]))]);
    assert!(matches!(SetupRequest::decode(&body), Err(SetupError::MalformedSetup)));
}

#[test]
fn buffered_audio_index_present() {
    let mut e = buffered_audio();
    if let Node::Dict(entries) = &mut e {
        entries.push(("audioFormatIndex".to_string(), num(3)));
    }
    match StreamRequest::decode(&e) {
        Ok(StreamRequest::AudioBuffered(a)) => assert_eq!(a.audio_format_index, Some(3)),
        _ => panic!("expected buffered audio"),
    }
}

#[test]
fn teardown_largest_stream_id() {
    let body = dict(vec![(
        "streams",
        Node::Array(vec![dict(vec![("streamID", num(u64::MAX as i128)), ("type", num(110))])]),
    )]);
    let td = Teardown::decode(&body).unwrap();
    assert!(td.ends_stream(u64::MAX, 110));
    let over = dict(vec![(
        "streams",
        Node::Array(vec![dict(vec![("streamID", num(u64::MAX as i128 + 1)), ("type", num(110))])]),
    )]);
    assert!(Teardown::decode(&over).is_none());
}
