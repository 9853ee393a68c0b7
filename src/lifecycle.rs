//! The decisions of a video stream's worker: which packet sets up the
//! decoder, which is forwarded, and what closing the channel calls for.
use vstd::prelude::*;
use crate::codec::{codec_config, codec_of, decoder_config, VideoCodec};

verus! {

/// What arrives on a video stream's packet channel.
pub enum PacketEvent {
    /// A codec configuration packet, with its container header.
    Config(Vec<u8>),
    /// A media payload packet.
    Payload,
    /// A packet of a kind the worker does not handle.
    Other,
    /// The producer closed the channel.
    Closed,
}

/// What the worker does next.
pub enum WorkerAction {
    /// Build the decode pipeline for `codec`, set up with `record`.
    Initialize { codec: VideoCodec, record: Vec<u8> },
    /// Push the payload into the pipeline.
    Forward,
    /// Drop a payload that came before any pipeline, with a warning.
    DropUninitialized,
    /// Leave the packet unhandled.
    Ignore,
    /// Signal end of stream to the pipeline, then release it.
    EndOfStream,
    /// No pipeline was built: stop at once.
    Finish,
}

/// The state of a video stream's worker: whether a pipeline stands.
pub struct VideoWorker {
    pub initialized: bool,
}

impl VideoWorker {
    pub fn new() -> (r: VideoWorker)
        ensures
            !r.initialized,
    {
        VideoWorker { initialized: false }
    }

    /// Records that the pipeline asked for by `Initialize` was built.
    pub fn pipeline_built(&mut self)
        ensures
            final(self).initialized,
    {
        self.initialized = true;
    }

    /// Decides what to do with one event. A configuration packet always
    /// (re)builds the pipeline; payloads go through only once one stands.
    pub fn on_event(&self, event: &PacketEvent) -> (r: WorkerAction)
        ensures
            match *event {
                PacketEvent::Config(header) => r matches WorkerAction::Initialize { codec, record }
                    && codec == codec_of(header@) && record@ == decoder_config(header@, codec),
                PacketEvent::Payload => if self.initialized {
                    r is Forward
                } else {
                    r is DropUninitialized
                },
                PacketEvent::Other => r is Ignore,
                PacketEvent::Closed => if self.initialized {
                    r is EndOfStream
                } else {
                    r is Finish
                },
            },
    {
        match event {
            PacketEvent::Config(header) => {
                let (codec, record) = codec_config(header.as_slice());
                WorkerAction::Initialize { codec, record }
            },
            PacketEvent::Payload => if self.initialized {
                WorkerAction::Forward
            } else {
                WorkerAction::DropUninitialized
            },
            PacketEvent::Other => WorkerAction::Ignore,
            PacketEvent::Closed => if self.initialized {
                WorkerAction::EndOfStream
            } else {
                WorkerAction::Finish
            },
        }
    }
}

} // verus!
