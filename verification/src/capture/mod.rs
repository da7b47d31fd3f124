use vstd::prelude::*;
use std::sync::mpsc::{Receiver, Sender};

pub mod audio;
pub mod windows;

verus! {

#[verifier::external_type_specification]
#[verifier::external_body]
#[verifier::reject_recursive_types(T)]
pub struct ExSender<T>(std::sync::mpsc::Sender<T>);

#[verifier::external_type_specification]
#[verifier::external_body]
#[verifier::reject_recursive_types(T)]
pub struct ExReceiver<T>(std::sync::mpsc::Receiver<T>);

/// Whether `tx` and `rx` are the sending and the receiving end of one and the same channel, so
/// that what is sent on `tx` is received on `rx`.
pub uninterp spec fn same_channel(tx: Sender<CaptureFrame>, rx: Receiver<CaptureFrame>) -> bool;

/// `std::sync::mpsc::channel` creates a new channel and returns its sending and its receiving
/// end: claimed, that the two belong to the same channel. Nothing else is claimed of them;
/// they are handles whose contents Verus does not see.
#[verifier::external_body]
fn frame_channel() -> (ends: (Sender<CaptureFrame>, Receiver<CaptureFrame>))
    ensures
        same_channel(ends.0, ends.1),
{
    std::sync::mpsc::channel()
}

/// The source a captured frame comes from.
#[derive(Debug, Clone, Copy, PartialEq, Eq, Hash, Structural)]
pub enum StreamId {
    Screen,
    Camera,
    Mic,
    Loopback,
}

/// What is known of a frame's format; each field is present only for the kind of stream it
/// describes.
#[derive(Debug, Clone)]
pub struct FrameMetadata {
    pub sample_rate: Option<u32>,
    pub channels: Option<u16>,
    pub width: Option<u32>,
    pub height: Option<u32>,
}

/// One unit of captured media on its way to the muxer.
#[derive(Debug, Clone)]
pub struct CaptureFrame {
    pub stream_id: StreamId,
    /// Presentation time, in monotonic nanoseconds.
    pub pts_ns: u64,
    pub sequence: u64,
    pub data: Vec<u8>,
    pub metadata: FrameMetadata,
}

/// The channel that carries captured frames from the capture engines to the muxer.
pub struct CapturePipeline {
    pub tx: Sender<CaptureFrame>,
    pub rx: Receiver<CaptureFrame>,
}

impl CapturePipeline {
    /// Opens a new channel; `tx` and `rx` are its two ends.
    pub fn new() -> (p: Self)
        ensures
            same_channel(p.tx, p.rx),
    {
        let (tx, rx) = frame_channel();
        CapturePipeline { tx, rx }
    }
}

} // verus!
