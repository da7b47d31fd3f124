use vstd::prelude::*;
use crate::muxer::fmp4::{
    flush_due, init_segment, lemma_init_segment_boxes, lemma_segment_boxes, mdat_type,
    moof_payload, moof_type, segment_bytes, staged, FragmentedMp4Writer,
};
use crate::muxer::mp4_box::{lemma_parse_concat, parse_boxes, BoxView};

verus! {

/// Where a writer stands after a run of frames, each successful segment written out.
pub struct RunView {
    /// The bytes still buffered.
    pub pending: Seq<u8>,
    /// The frames taken.
    pub frame_count: nat,
    /// The bytes counted as written.
    pub bytes_written: nat,
    /// Every segment written, in order.
    pub output: Seq<u8>,
}

/// A new writer fed the frame payloads `frames`, the `i`-th with an output open or not as
/// `opens[i]` says (`opens` may run longer than `frames`), every segment it returns written out and reported (`write_frame`, then
/// `segment_flushed`).
pub open spec fn run(frames: Seq<Seq<u8>>, opens: Seq<bool>) -> RunView
    decreases frames.len(),
{
    if frames.len() == 0 {
        RunView {
            pending: Seq::empty(),
            frame_count: 0,
            bytes_written: 0,
            output: Seq::empty(),
        }
    } else {
        let prev = run(frames.drop_last(), opens);
        let st = staged(prev.pending, prev.frame_count as int, frames.last());
        if flush_due(st.len(), opens[frames.len() - 1]) {
            RunView {
                pending: Seq::empty(),
                frame_count: prev.frame_count + 1,
                bytes_written: prev.bytes_written + segment_bytes(st).len(),
                output: prev.output + segment_bytes(st),
            }
        } else {
            RunView {
                pending: st,
                frame_count: prev.frame_count + 1,
                bytes_written: prev.bytes_written,
                output: prev.output,
            }
        }
    }
}

/// Whether every segment cut in the run holds less than 4 GiB minus its header, so that its
/// `mdat` size field is exact.
pub open spec fn run_fits(frames: Seq<Seq<u8>>, opens: Seq<bool>) -> bool
    decreases frames.len(),
{
    if frames.len() == 0 {
        true
    } else {
        let prev = run(frames.drop_last(), opens);
        let st = staged(prev.pending, prev.frame_count as int, frames.last());
        &&& run_fits(frames.drop_last(), opens)
        &&& (flush_due(st.len(), opens[frames.len() - 1]) ==> st.len() + 8 <= u32::MAX)
    }
}

/// The payloads of `frames`, one after the other.
pub open spec fn concat_all(frames: Seq<Seq<u8>>) -> Seq<u8>
    decreases frames.len(),
{
    if frames.len() == 0 {
        Seq::empty()
    } else {
        concat_all(frames.drop_last()) + frames.last()
    }
}

/// The payloads of the `mdat` boxes among `boxes`, one after the other.
pub open spec fn mdat_data(boxes: Seq<BoxView>) -> Seq<u8>
    decreases boxes.len(),
{
    if boxes.len() == 0 {
        Seq::empty()
    } else {
        mdat_data(boxes.drop_last()) + if boxes.last().box_type == mdat_type() {
            boxes.last().payload
        } else {
            Seq::empty()
        }
    }
}

/// What every byte of media that a run has taken in should be found as: nothing before the
/// first frame, and after it the initialization segment followed by every frame's payload.
pub open spec fn stream_content(frames: Seq<Seq<u8>>) -> Seq<u8> {
    if frames.len() == 0 {
        Seq::empty()
    } else {
        init_segment() + concat_all(frames)
    }
}

proof fn lemma_mdat_data_append_segment(boxes: Seq<BoxView>, data: Seq<u8>)
    ensures
        mdat_data(
            boxes + seq![
                BoxView { box_type: moof_type(), payload: moof_payload() },
                BoxView { box_type: mdat_type(), payload: data },
            ],
        ) == mdat_data(boxes) + data,
{
    let moof = BoxView { box_type: moof_type(), payload: moof_payload() };
    let mdat = BoxView { box_type: mdat_type(), payload: data };
    let all = boxes + seq![moof, mdat];
    assert(all.drop_last() =~= boxes.push(moof));
    assert(boxes.push(moof).drop_last() =~= boxes);
    assert(moof_type()[3] != mdat_type()[3]);
    assert(mdat_data(boxes.push(moof)) =~= mdat_data(boxes));
    assert(mdat_data(all) =~= mdat_data(boxes) + data);
}

/// The media stream loses, duplicates and reorders nothing: after any run of frames whose
/// segments fit their 32-bit size fields, everything written parses box by box, the `mdat`
/// payloads of what was written followed by what is still buffered are exactly the
/// initialization segment and then every frame's payload in order, the bytes counted as
/// written are the bytes written, and every frame is counted.
pub proof fn lemma_stream_keeps_every_byte(frames: Seq<Seq<u8>>, opens: Seq<bool>)
    requires
        opens.len() >= frames.len(),
        run_fits(frames, opens),
    ensures
        parse_boxes(run(frames, opens).output) is Some,
        mdat_data(parse_boxes(run(frames, opens).output).unwrap()) + run(frames, opens).pending
            == stream_content(frames),
        run(frames, opens).bytes_written == run(frames, opens).output.len(),
        run(frames, opens).frame_count == frames.len(),
    decreases frames.len(),
{
    if frames.len() == 0 {
        assert(parse_boxes(Seq::<u8>::empty()) == Some(Seq::<BoxView>::empty()));
        assert(mdat_data(Seq::<BoxView>::empty()) + Seq::<u8>::empty() =~= Seq::<u8>::empty());
    } else {
        let prefix = frames.drop_last();
        let f = frames.last();
        let prev = run(prefix, opens);
        lemma_stream_keeps_every_byte(prefix, opens);
        let boxes = parse_boxes(prev.output).unwrap();
        let st = staged(prev.pending, prev.frame_count as int, f);
        assert(frames =~= prefix.push(f));
        assert(concat_all(frames) == concat_all(prefix) + f);
        assert(mdat_data(boxes) + st =~= stream_content(frames)) by {
            if prefix.len() == 0 {
                assert(concat_all(prefix) =~= Seq::<u8>::empty());
                assert(concat_all(frames) =~= f);
                assert(boxes =~= Seq::<BoxView>::empty());
                assert(st =~= init_segment() + f);
            } else {
                assert(st =~= prev.pending + f);
                assert(mdat_data(boxes) + st =~= (mdat_data(boxes) + prev.pending) + f);
                assert(stream_content(frames) =~= (init_segment() + concat_all(prefix)) + f);
            }
        }
        if flush_due(st.len(), opens[frames.len() - 1]) {
            let seg = segment_bytes(st);
            let two = seq![
                BoxView { box_type: moof_type(), payload: moof_payload() },
                BoxView { box_type: mdat_type(), payload: st },
            ];
            lemma_segment_boxes(st);
            lemma_parse_concat(prev.output, seg);
            lemma_mdat_data_append_segment(boxes, st);
            assert(mdat_data(boxes + two) + Seq::<u8>::empty() =~= mdat_data(boxes) + st);
        }
    }
}

/// With no output open, a writer writes nothing and cuts no segment: after any run of frames
/// every frame is counted, no byte is counted as written, and the buffer holds the
/// initialization segment followed by every frame's payload in order (nothing before the first
/// frame).
pub proof fn lemma_closed_output_buffers_everything(frames: Seq<Seq<u8>>, opens: Seq<bool>)
    requires
        opens.len() >= frames.len(),
        forall|i: int| 0 <= i < frames.len() ==> !#[trigger] opens[i],
    ensures
        run(frames, opens).output == Seq::<u8>::empty(),
        run(frames, opens).bytes_written == 0,
        run(frames, opens).frame_count == frames.len(),
        run(frames, opens).pending == stream_content(frames),
    decreases frames.len(),
{
    if frames.len() > 0 {
        let prefix = frames.drop_last();
        let f = frames.last();
        let prev = run(prefix, opens);
        lemma_closed_output_buffers_everything(prefix, opens);
        assert(!opens[frames.len() - 1]);
        assert(frames =~= prefix.push(f));
        let st = staged(prev.pending, prev.frame_count as int, f);
        if prefix.len() == 0 {
            assert(concat_all(prefix) =~= Seq::<u8>::empty());
            assert(concat_all(frames) =~= f);
            assert(st =~= init_segment() + f);
        } else {
            assert(st =~= prev.pending + f);
            assert(stream_content(frames) =~= (init_segment() + concat_all(prefix)) + f);
        }
    }
}

/// A run reads only as many output flags as it has frames: flags past the last frame change
/// nothing.
pub proof fn lemma_run_ignores_later_opens(frames: Seq<Seq<u8>>, opens: Seq<bool>, more: Seq<bool>)
    requires
        opens.len() >= frames.len(),
    ensures
        run(frames, opens + more) == run(frames, opens),
    decreases frames.len(),
{
    if frames.len() > 0 {
        lemma_run_ignores_later_opens(frames.drop_last(), opens, more);
        assert((opens + more)[frames.len() - 1] == opens[frames.len() - 1]);
    }
}

/// Taking one more frame (`data`, with an output open as `open` says) extends a run by exactly
/// the step that `write_frame` takes, followed by `segment_flushed` where a segment comes out.
pub proof fn lemma_run_step(frames: Seq<Seq<u8>>, opens: Seq<bool>, data: Seq<u8>, open: bool)
    requires
        opens.len() == frames.len(),
    ensures
        ({
            let prev = run(frames, opens);
            let next = run(frames.push(data), opens.push(open));
            let st = staged(prev.pending, prev.frame_count as int, data);
            &&& next.frame_count == prev.frame_count + 1
            &&& if flush_due(st.len(), open) {
                &&& next.pending == Seq::<u8>::empty()
                &&& next.bytes_written == prev.bytes_written + segment_bytes(st).len()
                &&& next.output == prev.output + segment_bytes(st)
            } else {
                &&& next.pending == st
                &&& next.bytes_written == prev.bytes_written
                &&& next.output == prev.output
            }
        }),
{
    lemma_run_ignores_later_opens(frames, opens, seq![open]);
    assert(frames.push(data).drop_last() =~= frames);
    assert(opens.push(open) =~= opens + seq![open]);
}

/// The stream law for an actual writer: a writer that follows the run of its history (every
/// writer from `FragmentedMp4Writer::new`, through `write_frame` calls each followed by
/// `segment_flushed` whenever a segment came back) and has no segment outstanding has counted
/// every frame, counted as written exactly the bytes of the segments it returned, and those
/// segments' `mdat` payloads followed by its buffer are the initialization segment and then
/// every frame's payload in order, as long as each segment fit its 32-bit size field.
pub proof fn lemma_writer_keeps_every_byte(w: FragmentedMp4Writer)
    requires
        w.follows_run(),
        !w.history@.awaiting_flush,
        run_fits(w.history@.frames, w.history@.opens),
    ensures
        w.frame_count == w.history@.frames.len(),
        w.bytes_written == run(w.history@.frames, w.history@.opens).output.len(),
        parse_boxes(run(w.history@.frames, w.history@.opens).output) is Some,
        mdat_data(parse_boxes(run(w.history@.frames, w.history@.opens).output).unwrap())
            + w.buffer@ == stream_content(w.history@.frames),
{
    lemma_stream_keeps_every_byte(w.history@.frames, w.history@.opens);
}

/// A writer fed only with no output open (as the recorder's writer always is, having no file)
/// writes nothing: it has counted every frame, no byte as written, and its buffer holds the
/// initialization segment followed by every frame's payload in order.
pub proof fn lemma_writer_with_output_closed(w: FragmentedMp4Writer)
    requires
        w.follows_run(),
        forall|i: int| 0 <= i < w.history@.frames.len() ==> !#[trigger] w.history@.opens[i],
    ensures
        !w.history@.awaiting_flush,
        w.frame_count == w.history@.frames.len(),
        w.bytes_written == 0,
        w.buffer@ == stream_content(w.history@.frames),
{
    let h = w.history@;
    lemma_closed_output_buffers_everything(h.frames, h.opens);
    if h.awaiting_flush {
        lemma_init_segment_boxes();
        assert(stream_content(h.frames).len() >= init_segment().len());
    }
}

} // verus!
