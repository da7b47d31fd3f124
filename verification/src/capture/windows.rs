use vstd::prelude::*;
use std::sync::mpsc::Sender;
use crate::capture::{CaptureFrame, FrameMetadata, StreamId};

verus! {

/// The state of screen capture on Windows: the capture session and frame pool while capture
/// runs, the H.264 encoder once one was made, and the channel that frames are sent on. The
/// platform objects are the type parameters (`S` the capture session, `P` the frame pool,
/// `E` the encoder); creating, using and closing them is the caller's part.
pub struct WindowsCaptureEngine<S, P, E> {
    capture_session: Option<S>,
    frame_pool: Option<P>,
    encoder: Option<E>,
    tx: Option<Sender<CaptureFrame>>,
}

impl<S, P, E> WindowsCaptureEngine<S, P, E> {
    /// The capture session, while capture runs.
    pub closed spec fn session(&self) -> Option<S> {
        self.capture_session
    }

    /// The frame pool, while capture runs.
    pub closed spec fn pool(&self) -> Option<P> {
        self.frame_pool
    }

    /// The encoder, once capture was started.
    pub closed spec fn encoder_of(&self) -> Option<E> {
        self.encoder
    }

    /// The channel that frames go out on, once one was set.
    pub closed spec fn sender_of(&self) -> Option<Sender<CaptureFrame>> {
        self.tx
    }

    /// An engine that holds nothing yet.
    pub fn new() -> (e: Self)
        ensures
            e.session() is None,
            e.pool() is None,
            e.encoder_of() is None,
            e.sender_of() is None,
    {
        WindowsCaptureEngine { capture_session: None, frame_pool: None, encoder: None, tx: None }
    }

    /// Sets the channel that captured frames are sent on, in place of any earlier one.
    pub fn set_sender(&mut self, tx: Sender<CaptureFrame>)
        ensures
            final(self).sender_of() == Some(tx),
            final(self).session() == old(self).session(),
            final(self).pool() == old(self).pool(),
            final(self).encoder_of() == old(self).encoder_of(),
    {
        self.tx = Some(tx);
    }

    /// The channel that frames go out on, if one was set.
    pub fn sender(&self) -> (s: Option<&Sender<CaptureFrame>>)
        ensures
            match s {
                Some(t) => self.sender_of() == Some(*t),
                None => self.sender_of() is None,
            },
    {
        match &self.tx {
            Some(t) => Some(t),
            None => None,
        }
    }

    /// What starting capture sends: where a channel is set, the first frame for encoder output
    /// `compressed` and an item of `width` by `height`, with the channel to send it on; where
    /// none is set, nothing.
    pub fn first_frame(&self, compressed: Vec<u8>, width: i32, height: i32) -> (out: Option<
        (&Sender<CaptureFrame>, CaptureFrame),
    >)
        ensures
            match out {
                Some((tx, f)) => self.sender_of() == Some(*tx) && is_initial_frame(
                    f,
                    compressed@,
                    width,
                    height,
                ),
                None => self.sender_of() is None,
            },
    {
        match &self.tx {
            Some(tx) => Some((tx, initial_frame(compressed, width, height))),
            None => None,
        }
    }

    /// Records a started capture: the frame pool and session that the platform handed out,
    /// and the encoder made for them, in place of any earlier ones.
    pub fn start(&mut self, frame_pool: P, session: S, encoder: E)
        ensures
            final(self).pool() == Some(frame_pool),
            final(self).session() == Some(session),
            final(self).encoder_of() == Some(encoder),
            final(self).sender_of() == old(self).sender_of(),
    {
        self.frame_pool = Some(frame_pool);
        self.capture_session = Some(session);
        self.encoder = Some(encoder);
    }

    /// Stops capture: hands back the session and the frame pool, for the caller to close,
    /// and holds neither any more. The encoder and the channel stay.
    pub fn stop(&mut self) -> (closed: (Option<S>, Option<P>))
        ensures
            closed.0 == old(self).session(),
            closed.1 == old(self).pool(),
            final(self).session() is None,
            final(self).pool() is None,
            final(self).encoder_of() == old(self).encoder_of(),
            final(self).sender_of() == old(self).sender_of(),
    {
        let session = self.capture_session.take();
        let pool = self.frame_pool.take();
        (session, pool)
    }
}

/// Whether `f` is the first frame of screen capture for encoder output `compressed` and a
/// captured item of `width` by `height`: the screen stream's frame 0 at time 0, the sizes
/// reinterpreted as unsigned as `as` does, no audio fields.
pub open spec fn is_initial_frame(f: CaptureFrame, compressed: Seq<u8>, width: i32, height: i32)
    -> bool {
    &&& f.stream_id == StreamId::Screen
    &&& f.pts_ns == 0
    &&& f.sequence == 0
    &&& f.data@ == compressed
    &&& f.metadata.sample_rate is None
    &&& f.metadata.channels is None
    &&& f.metadata.width == Some(width as u32)
    &&& f.metadata.height == Some(height as u32)
}

/// The first frame of screen capture carries the item's own width as its width and its own
/// height as its height, whichever is larger, as the 32-bit patterns of the signed sizes; it
/// is frame 0 of the screen stream, at time 0, with the encoder's bytes and no audio fields.
pub proof fn lemma_initial_frame_keeps_the_size(
    f: CaptureFrame,
    compressed: Seq<u8>,
    width: i32,
    height: i32,
)
    requires
        is_initial_frame(f, compressed, width, height),
    ensures
        f.metadata.width == Some(width as u32),
        f.metadata.height == Some(height as u32),
        0 <= width ==> f.metadata.width == Some(width as u32) && f.metadata.width.unwrap() == width,
        0 <= height ==> f.metadata.height.unwrap() == height,
        f.stream_id == StreamId::Screen,
        f.pts_ns == 0,
        f.sequence == 0,
        f.data@ == compressed,
        f.metadata.sample_rate is None,
        f.metadata.channels is None,
{
}

/// The first frame sent when screen capture starts: the encoder's output for it, as the
/// screen stream's frame 0 at time 0, with the captured item's size (the platform's signed
/// width and height, reinterpreted as unsigned as `as` does).
pub fn initial_frame(compressed: Vec<u8>, width: i32, height: i32) -> (f: CaptureFrame)
    ensures
        is_initial_frame(f, compressed@, width, height),
        f.stream_id == StreamId::Screen,
        f.pts_ns == 0,
        f.sequence == 0,
        f.data@ == compressed@,
        f.metadata.width == Some(width as u32),
        f.metadata.height == Some(height as u32),
{
    CaptureFrame {
        stream_id: StreamId::Screen,
        pts_ns: 0,
        sequence: 0,
        data: compressed,
        metadata: FrameMetadata {
            sample_rate: None,
            channels: None,
            width: Some(width as u32),
            height: Some(height as u32),
        },
    }
}

} // verus!
