use vstd::prelude::*;
use crate::capture::CaptureFrame;
use crate::clock::utc_now_millis;
use crate::muxer::checkpoint::{recording_status, SessionCheckpoint};
use crate::muxer::stream::{lemma_run_ignores_later_opens, lemma_run_step, run};
use crate::muxer::mp4_box::{
    be32, box_header, lemma_box_then_rest, mp4_box, parse_boxes, push_be32, push_bytes, BoxView,
};

verus! {

/// The buffered size past which the writer cuts a media segment.
pub const FLUSH_THRESHOLD: usize = 1048576;

/// The length of the initialization segment.
pub const INIT_SEGMENT_LEN: usize = 50;

/// How many seconds the muxer lets pass between two checkpoints of its session.
pub const CHECKPOINT_INTERVAL_SECS: u64 = 2;

/// The box type `ftyp`.
pub open spec fn ftyp_type() -> Seq<u8> {
    seq![0x66u8, 0x74, 0x79, 0x70]
}

/// The box type `moov`.
pub open spec fn moov_type() -> Seq<u8> {
    seq![0x6du8, 0x6f, 0x6f, 0x76]
}

/// The box type `moof`.
pub open spec fn moof_type() -> Seq<u8> {
    seq![0x6du8, 0x6f, 0x6f, 0x66]
}

/// The box type `mdat`.
pub open spec fn mdat_type() -> Seq<u8> {
    seq![0x6du8, 0x64, 0x61, 0x74]
}

/// The `ftyp` payload: major brand `iso5`, minor version 512, compatible brands `iso5` and
/// `mp41`.
pub open spec fn ftyp_payload() -> Seq<u8> {
    seq![0x69u8, 0x73, 0x6f, 0x35] + be32(512) + seq![0x69u8, 0x73, 0x6f, 0x35] + seq![
        0x6du8,
        0x70,
        0x34,
        0x31,
    ]
}

/// The placeholder `moov` payload, the ASCII text `dummy_moov_payload`.
pub open spec fn moov_payload() -> Seq<u8> {
    seq![
        0x64u8, 0x75, 0x6d, 0x6d, 0x79, 0x5f, 0x6d, 0x6f, 0x6f, 0x76, 0x5f, 0x70, 0x61, 0x79,
        0x6c, 0x6f, 0x61, 0x64,
    ]
}

/// The placeholder `moof` payload, the ASCII text `dummy_moof_payload`.
pub open spec fn moof_payload() -> Seq<u8> {
    seq![
        0x64u8, 0x75, 0x6d, 0x6d, 0x79, 0x5f, 0x6d, 0x6f, 0x6f, 0x66, 0x5f, 0x70, 0x61, 0x79,
        0x6c, 0x6f, 0x61, 0x64,
    ]
}

/// The initialization segment: an `ftyp` box, then a `moov` box.
pub open spec fn init_segment() -> Seq<u8> {
    mp4_box(ftyp_type(), ftyp_payload()) + mp4_box(moov_type(), moov_payload())
}

/// The initialization segment is 50 bytes and reads back as an `ftyp` box with its brands,
/// then the `moov` box.
pub proof fn lemma_init_segment_boxes()
    ensures
        init_segment().len() == INIT_SEGMENT_LEN,
        parse_boxes(init_segment()) == Some(
            seq![
                BoxView { box_type: ftyp_type(), payload: ftyp_payload() },
                BoxView { box_type: moov_type(), payload: moov_payload() },
            ],
        ),
{
    let moov = mp4_box(moov_type(), moov_payload());
    lemma_box_then_rest(moov_type(), moov_payload(), Seq::empty());
    assert(moov + Seq::<u8>::empty() =~= moov);
    lemma_box_then_rest(ftyp_type(), ftyp_payload(), moov);
    assert(seq![BoxView { box_type: ftyp_type(), payload: ftyp_payload() }] + (seq![
        BoxView { box_type: moov_type(), payload: moov_payload() },
    ] + Seq::<BoxView>::empty()) =~= seq![
        BoxView { box_type: ftyp_type(), payload: ftyp_payload() },
        BoxView { box_type: moov_type(), payload: moov_payload() },
    ]);
}

/// A media segment whose buffer fits a 32-bit size field reads back as the `moof` box, then
/// an `mdat` box whose payload is exactly the buffer.
pub proof fn lemma_segment_boxes(pending: Seq<u8>)
    requires
        pending.len() + 8 <= u32::MAX,
    ensures
        segment_bytes(pending).len() == 34 + pending.len(),
        parse_boxes(segment_bytes(pending)) == Some(
            seq![
                BoxView { box_type: moof_type(), payload: moof_payload() },
                BoxView { box_type: mdat_type(), payload: pending },
            ],
        ),
{
    let moof_box = mp4_box(moof_type(), moof_payload());
    let mdat_box = mp4_box(mdat_type(), pending);
    assert(segment_bytes(pending) =~= moof_box + (mdat_box + Seq::<u8>::empty()));
    lemma_box_then_rest(mdat_type(), pending, Seq::<u8>::empty());
    lemma_box_then_rest(moof_type(), moof_payload(), mdat_box + Seq::<u8>::empty());
    assert(seq![BoxView { box_type: moof_type(), payload: moof_payload() }] + (seq![
        BoxView { box_type: mdat_type(), payload: pending },
    ] + Seq::<BoxView>::empty()) =~= seq![
        BoxView { box_type: moof_type(), payload: moof_payload() },
        BoxView { box_type: mdat_type(), payload: pending },
    ]);
}

/// The pending bytes after taking a frame with payload `data`: the initialization segment
/// goes in front of the first frame, and the frame's bytes follow.
pub open spec fn staged(pending: Seq<u8>, frame_count: int, data: Seq<u8>) -> Seq<u8> {
    pending + (if frame_count == 0 {
        init_segment()
    } else {
        Seq::empty()
    }) + data
}

/// Whether `len` pending bytes are cut into a segment: only with an output open, and only
/// past the threshold.
pub open spec fn flush_due(len: nat, output_open: bool) -> bool {
    output_open && len > FLUSH_THRESHOLD
}

/// A segment is cut exactly when an output is open and more than one mebibyte (1,048,576
/// bytes) is buffered, however far past that the buffer has grown; never without an output.
pub proof fn lemma_segment_due_past_one_mebibyte(len: nat, output_open: bool)
    ensures
        flush_due(len, output_open) <==> (output_open && len > 1024 * 1024),
        len > 1024 * 1024 ==> flush_due(len, true),
        !flush_due(len, false),
{
}

/// The media segment cut from `pending`: a `moof` box, then an `mdat` box around the pending
/// bytes. The `mdat` header takes the length as a 32-bit number, so past 4 GiB it keeps the low
/// 32 bits.
pub open spec fn segment_bytes(pending: Seq<u8>) -> Seq<u8> {
    mp4_box(moof_type(), moof_payload()) + box_header(mdat_type(), pending.len() as u32)
        + pending
}

/// Whether the `mdat` header for `len` bytes can be computed: its size field, eight more than
/// the length cut to 32 bits, must itself fit in 32 bits.
pub open spec fn segment_fits(len: nat) -> bool {
    (len as u32) as int + 8 <= u32::MAX
}

/// Writes captured frames as a fragmented MP4 stream: an initialization segment before the
/// first frame, then, whenever enough is buffered and an output is open, a media segment.
pub struct FragmentedMp4Writer {
    /// The bytes buffered and not yet cut into a segment.
    pub buffer: Vec<u8>,
    pub segment_duration_ms: u32,
    pub frame_count: u64,
    pub bytes_written: u64,
    /// What the writer has been fed, for the proofs: see `follows_run`.
    pub history: Ghost<WriterHistory>,
}

/// The frames a writer has taken, whether an output was open for each, and whether a
/// segment it returned is still to be reported written.
pub struct WriterHistory {
    pub frames: Seq<Seq<u8>>,
    pub opens: Seq<bool>,
    pub awaiting_flush: bool,
}

impl FragmentedMp4Writer {
    /// The writer stands where the model `run` of its history puts it: the same frame count,
    /// and the same buffer and byte count, except that while a returned segment is still to be
    /// reported, the buffer is that segment's content and its bytes are not yet counted.
    pub open spec fn follows_run(&self) -> bool {
        let h = self.history@;
        let r = run(h.frames, h.opens);
        &&& h.opens.len() == h.frames.len()
        &&& self.frame_count == r.frame_count
        &&& if h.awaiting_flush {
            &&& h.frames.len() > 0
            &&& r.pending == Seq::<u8>::empty()
            &&& r.bytes_written == self.bytes_written + segment_bytes(self.buffer@).len()
            &&& r.output == run(h.frames.drop_last(), h.opens).output + segment_bytes(
                self.buffer@,
            )
        } else {
            &&& self.buffer@ == r.pending
            &&& self.bytes_written == r.bytes_written
        }
    }

    /// A writer that has taken no frame and written nothing.
    pub fn new(segment_duration_ms: u32) -> (w: Self)
        ensures
            w.buffer@ == Seq::<u8>::empty(),
            w.segment_duration_ms == segment_duration_ms,
            w.frame_count == 0,
            w.bytes_written == 0,
            w.history@.frames == Seq::<Seq<u8>>::empty(),
            w.history@.opens == Seq::<bool>::empty(),
            !w.history@.awaiting_flush,
            w.follows_run(),
    {
        FragmentedMp4Writer {
            buffer: Vec::with_capacity(4 * 1024 * 1024),
            segment_duration_ms,
            frame_count: 0,
            bytes_written: 0,
            history: Ghost(
                WriterHistory { frames: Seq::empty(), opens: Seq::empty(), awaiting_flush: false },
            ),
        }
    }

    /// Appends the header of a box of type `box_type` whose payload is `payload_size` bytes.
    pub fn write_box_header(buf: &mut Vec<u8>, box_type: &[u8; 4], payload_size: u32)
        requires
            payload_size <= u32::MAX - 8,
        ensures
            final(buf)@ == old(buf)@ + box_header(box_type@, payload_size),
    {
        let size = 8 + payload_size;
        push_be32(buf, size);
        push_bytes(buf, box_type);
        assert(buf@ =~= old(buf)@ + box_header(box_type@, payload_size));
    }

    /// Appends a whole box: its header, then `payload`.
    fn write_box(buf: &mut Vec<u8>, box_type: &[u8; 4], payload: &[u8])
        requires
            payload@.len() + 8 <= u32::MAX,
        ensures
            final(buf)@ == old(buf)@ + mp4_box(box_type@, payload@),
    {
        Self::write_box_header(buf, box_type, payload.len() as u32);
        push_bytes(buf, payload);
        assert(buf@ =~= old(buf)@ + mp4_box(box_type@, payload@));
    }

    /// Appends the initialization segment (`ftyp`, then `moov`) to the buffer.
    fn write_initialization_segment(&mut self)
        ensures
            final(self).buffer@ == old(self).buffer@ + init_segment(),
            final(self).segment_duration_ms == old(self).segment_duration_ms,
            final(self).frame_count == old(self).frame_count,
            final(self).bytes_written == old(self).bytes_written,
            final(self).history == old(self).history,
    {
        let mut ftyp_body: Vec<u8> = Vec::new();
        let iso5: [u8; 4] = [0x69, 0x73, 0x6f, 0x35];
        let mp41: [u8; 4] = [0x6d, 0x70, 0x34, 0x31];
        push_bytes(&mut ftyp_body, &iso5);
        push_be32(&mut ftyp_body, 512);
        push_bytes(&mut ftyp_body, &iso5);
        push_bytes(&mut ftyp_body, &mp41);
        assert(ftyp_body@ =~= ftyp_payload());

        let ftyp: [u8; 4] = [0x66, 0x74, 0x79, 0x70];
        assert(ftyp@ =~= ftyp_type());
        Self::write_box(&mut self.buffer, &ftyp, ftyp_body.as_slice());

        let moov: [u8; 4] = [0x6d, 0x6f, 0x6f, 0x76];
        let moov_body: [u8; 18] = [
            0x64, 0x75, 0x6d, 0x6d, 0x79, 0x5f, 0x6d, 0x6f, 0x6f, 0x76, 0x5f, 0x70, 0x61, 0x79,
            0x6c, 0x6f, 0x61, 0x64,
        ];
        assert(moov@ =~= moov_type());
        assert(moov_body@ =~= moov_payload());
        Self::write_box(&mut self.buffer, &moov, &moov_body);
        assert(self.buffer@ =~= old(self).buffer@ + init_segment());
    }

    /// The media segment for the buffered bytes: a `moof` box, then an `mdat` box holding
    /// the buffer.
    fn flush_segment(&self) -> (seg: Vec<u8>)
        requires
            segment_fits(self.buffer@.len()),
        ensures
            seg@ == segment_bytes(self.buffer@),
    {
        let mut segment_buf: Vec<u8> = Vec::new();
        let moof: [u8; 4] = [0x6d, 0x6f, 0x6f, 0x66];
        let moof_body: [u8; 18] = [
            0x64, 0x75, 0x6d, 0x6d, 0x79, 0x5f, 0x6d, 0x6f, 0x6f, 0x66, 0x5f, 0x70, 0x61, 0x79,
            0x6c, 0x6f, 0x61, 0x64,
        ];
        assert(moof@ =~= moof_type());
        assert(moof_body@ =~= moof_payload());
        Self::write_box(&mut segment_buf, &moof, &moof_body);

        let mdat: [u8; 4] = [0x6d, 0x64, 0x61, 0x74];
        assert(mdat@ =~= mdat_type());
        Self::write_box_header(&mut segment_buf, &mdat, self.buffer.len() as u32);
        push_bytes(&mut segment_buf, self.buffer.as_slice());
        assert(segment_buf@ =~= segment_bytes(self.buffer@));
        segment_buf
    }

    /// Takes one frame: counts it, puts the initialization segment in front of the first
    /// frame, and buffers the frame's bytes. When `output_open` and the buffer has grown past
    /// the threshold, returns the media segment to write; the buffer stays until
    /// `segment_flushed` reports that segment written.
    pub fn write_frame(&mut self, frame: &CaptureFrame, output_open: bool) -> (segment: Option<
        Vec<u8>,
    >)
        requires
            old(self).frame_count < u64::MAX,
            flush_due(
                staged(old(self).buffer@, old(self).frame_count as int, frame.data@).len(),
                output_open,
            ) ==> segment_fits(
                staged(old(self).buffer@, old(self).frame_count as int, frame.data@).len(),
            ),
        ensures
            final(self).frame_count == old(self).frame_count + 1,
            final(self).buffer@ == staged(
                old(self).buffer@,
                old(self).frame_count as int,
                frame.data@,
            ),
            final(self).segment_duration_ms == old(self).segment_duration_ms,
            final(self).bytes_written == old(self).bytes_written,
            match segment {
                Some(seg) => flush_due(final(self).buffer@.len(), output_open) && seg@
                    == segment_bytes(final(self).buffer@),
                None => !flush_due(final(self).buffer@.len(), output_open),
            },
            segment is Some <==> (output_open && final(self).buffer@.len() > 1024 * 1024),
            final(self).history@.frames == old(self).history@.frames.push(frame.data@),
            final(self).history@.opens == old(self).history@.opens.push(output_open),
            final(self).history@.awaiting_flush == segment is Some,
            old(self).follows_run() && !old(self).history@.awaiting_flush ==> {
                &&& final(self).follows_run()
                &&& run(final(self).history@.frames, final(self).history@.opens).output == match segment {
                    Some(seg) => run(old(self).history@.frames, old(self).history@.opens).output + seg@,
                    None => run(old(self).history@.frames, old(self).history@.opens).output,
                }
            },
    {
        let ghost h = self.history@;
        self.frame_count = self.frame_count + 1;
        if self.frame_count == 1 {
            self.write_initialization_segment();
        }
        push_bytes(&mut self.buffer, frame.data.as_slice());
        assert(self.buffer@ =~= staged(old(self).buffer@, old(self).frame_count as int, frame.data@));
        let segment = if output_open && self.buffer.len() > FLUSH_THRESHOLD {
            Some(self.flush_segment())
        } else {
            None
        };
        self.history = Ghost(
            WriterHistory {
                frames: h.frames.push(frame.data@),
                opens: h.opens.push(output_open),
                awaiting_flush: segment is Some,
            },
        );
        proof {
            if old(self).follows_run() && !h.awaiting_flush {
                Self::lemma_write_follows(*old(self), *self, frame.data@, output_open);
            }
        }
        segment
    }

    /// One `write_frame` step keeps a writer on its run.
    proof fn lemma_write_follows(
        pre: FragmentedMp4Writer,
        post: FragmentedMp4Writer,
        data: Seq<u8>,
        open: bool,
    )
        requires
            pre.follows_run(),
            !pre.history@.awaiting_flush,
            post.frame_count == pre.frame_count + 1,
            post.buffer@ == staged(pre.buffer@, pre.frame_count as int, data),
            post.bytes_written == pre.bytes_written,
            post.history@.frames == pre.history@.frames.push(data),
            post.history@.opens == pre.history@.opens.push(open),
            post.history@.awaiting_flush == flush_due(post.buffer@.len(), open),
        ensures
            post.follows_run(),
            run(post.history@.frames, post.history@.opens).output == if flush_due(
                post.buffer@.len(),
                open,
            ) {
                run(pre.history@.frames, pre.history@.opens).output + segment_bytes(post.buffer@)
            } else {
                run(pre.history@.frames, pre.history@.opens).output
            },
    {
        let h = pre.history@;
        lemma_run_step(h.frames, h.opens, data, open);
        lemma_run_ignores_later_opens(h.frames, h.opens, seq![open]);
        assert(h.opens.push(open) =~= h.opens + seq![open]);
        assert(h.frames.push(data).drop_last() =~= h.frames);
    }

    /// Reports the segment that `write_frame` returned as written out: its bytes count as
    /// written, and the buffer starts over empty.
    pub fn segment_flushed(&mut self)
        requires
            old(self).bytes_written + segment_bytes(old(self).buffer@).len() <= u64::MAX,
        ensures
            final(self).buffer@ == Seq::<u8>::empty(),
            final(self).bytes_written == old(self).bytes_written + segment_bytes(
                old(self).buffer@,
            ).len(),
            final(self).frame_count == old(self).frame_count,
            final(self).segment_duration_ms == old(self).segment_duration_ms,
            final(self).history@.frames == old(self).history@.frames,
            final(self).history@.opens == old(self).history@.opens,
            !final(self).history@.awaiting_flush,
            old(self).follows_run() && old(self).history@.awaiting_flush
                ==> final(self).follows_run(),
    {
        let ghost h = self.history@;
        let segment_len: u64 = 34 + self.buffer.len() as u64;
        self.bytes_written = self.bytes_written + segment_len;
        self.buffer.clear();
        self.history = Ghost(
            WriterHistory { frames: h.frames, opens: h.opens, awaiting_flush: false },
        );
    }

    /// The checkpoint of session `session_id`, taken at `timestamp_ms`, while recording:
    /// frames taken and bytes written so far, as signed 64-bit numbers.
    pub fn checkpoint(&self, session_id: String, timestamp_ms: i64) -> (c: SessionCheckpoint)
        ensures
            c.session_id@ == session_id@,
            c.timestamp_ms == timestamp_ms,
            c.total_frames == self.frame_count as i64,
            c.file_size_bytes == self.bytes_written as i64,
            c.storage_status@ == recording_status(),
    {
        SessionCheckpoint::recording(session_id, timestamp_ms, self.frame_count, self.bytes_written)
    }

    /// The checkpoint of session `session_id` taken now, by the wall clock; `None` where the
    /// clock cannot be read as a time after the Unix epoch.
    pub fn checkpoint_now(&self, session_id: String) -> (c: Option<SessionCheckpoint>)
        ensures
            c matches Some(c) ==> {
                &&& c.session_id@ == session_id@
                &&& c.timestamp_ms >= 0
                &&& c.total_frames == self.frame_count as i64
                &&& c.file_size_bytes == self.bytes_written as i64
                &&& c.storage_status@ == recording_status()
                &&& call_ensures(utc_now_millis, (), Some(c.timestamp_ms))
            },
            c is None ==> call_ensures(utc_now_millis, (), None::<i64>),
    {
        match utc_now_millis() {
            Some(now) => Some(self.checkpoint(session_id, now)),
            None => None,
        }
    }
}

/// Whether a checkpoint is due, `elapsed_secs` whole seconds after the last one.
pub fn checkpoint_due(elapsed_secs: u64) -> (due: bool)
    ensures
        due == (elapsed_secs >= CHECKPOINT_INTERVAL_SECS),
{
    elapsed_secs >= CHECKPOINT_INTERVAL_SECS
}

} // verus!
