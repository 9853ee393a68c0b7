use airplay_rtsp::codec::VideoCodec;
use airplay_rtsp::lifecycle::{PacketEvent, VideoWorker, WorkerAction};

#[test]
fn payload_before_config_is_dropped() {
    let worker = VideoWorker::new();
    assert!(matches!(worker.on_event(&PacketEvent::Payload), WorkerAction::DropUninitialized));
}

#[test]
fn config_initializes_then_payload_forwards() {
    let mut worker = VideoWorker::new();
    let header = vec![1, 0x64, 0, 0x1f, 0xff, 0xe1, 0, 0x17];
    match worker.on_event(&PacketEvent::Config(header.clone())) {
        WorkerAction::Initialize { codec, record } => {
            assert_eq!(codec, VideoCodec::H264);
            assert_eq!(record, header);
        }
        _ => panic!("expected initialisation"),
    }
    worker.pipeline_built();
    assert!(matches!(worker.on_event(&PacketEvent::Payload), WorkerAction::Forward));
    assert!(matches!(worker.on_event(&PacketEvent::Other), WorkerAction::Ignore));
    assert!(matches!(worker.on_event(&PacketEvent::Closed), WorkerAction::EndOfStream));
}

#[test]
fn close_without_pipeline_finishes() {
    let worker = VideoWorker::new();
    assert!(matches!(worker.on_event(&PacketEvent::Closed), WorkerAction::Finish));
}

#[test]
fn short_config_is_unknown_codec() {
    let worker = VideoWorker::new();
    match worker.on_event(&PacketEvent::Config(vec![0, 1, 2])) {
        WorkerAction::Initialize { codec, record } => {
            assert_eq!(codec, VideoCodec::Unknown);
            assert_eq!(record, vec![0, 1, 2]);
        }
        _ => panic!("expected initialisation"),
    }
}
