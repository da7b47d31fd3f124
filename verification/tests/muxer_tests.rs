use recorder::capture::{CaptureFrame, FrameMetadata, StreamId};
use recorder::muxer::checkpoint::SessionCheckpoint;
use recorder::muxer::fmp4::{
    checkpoint_due, FragmentedMp4Writer, CHECKPOINT_INTERVAL_SECS, FLUSH_THRESHOLD,
    INIT_SEGMENT_LEN,
};

fn frame(data: Vec<u8>) -> CaptureFrame {
    CaptureFrame {
        stream_id: StreamId::Screen,
        pts_ns: 0,
        sequence: 0,
        data,
        metadata: FrameMetadata { sample_rate: None, channels: None, width: None, height: None },
    }
}

fn init_segment_bytes() -> Vec<u8> {
    let mut v = Vec::new();
    v.extend_from_slice(&24u32.to_be_bytes());
    v.extend_from_slice(b"ftyp");
    v.extend_from_slice(b"iso5");
    v.extend_from_slice(&512u32.to_be_bytes());
    v.extend_from_slice(b"iso5");
    v.extend_from_slice(b"mp41");
    v.extend_from_slice(&26u32.to_be_bytes());
    v.extend_from_slice(b"moov");
    v.extend_from_slice(b"dummy_moov_payload");
    v
}

fn segment_of(buffer: &[u8]) -> Vec<u8> {
    let mut v = Vec::new();
    v.extend_from_slice(&26u32.to_be_bytes());
    v.extend_from_slice(b"moof");
    v.extend_from_slice(b"dummy_moof_payload");
    v.extend_from_slice(&(8 + buffer.len() as u32).to_be_bytes());
    v.extend_from_slice(b"mdat");
    v.extend_from_slice(buffer);
    v
}

/// Splits bytes into (type, payload) boxes by their size fields.
fn read_boxes(mut s: &[u8]) -> Vec<([u8; 4], Vec<u8>)> {
    let mut out = Vec::new();
    while !s.is_empty() {
        let size = u32::from_be_bytes([s[0], s[1], s[2], s[3]]) as usize;
        assert!(size >= 8 && size <= s.len());
        out.push(([s[4], s[5], s[6], s[7]], s[8..size].to_vec()));
        s = &s[size..];
    }
    out
}

#[test]
fn new_writer_is_empty() {
    let w = FragmentedMp4Writer::new(2000);
    assert_eq!(w.segment_duration_ms, 2000);
    assert_eq!(w.frame_count, 0);
    assert_eq!(w.bytes_written, 0);
    assert!(w.buffer.is_empty());
}

#[test]
fn box_header_is_size_then_type() {
    let mut buf = vec![9u8];
    FragmentedMp4Writer::write_box_header(&mut buf, b"moov", 18);
    assert_eq!(buf, vec![9, 0, 0, 0, 26, b'm', b'o', b'o', b'v']);
    let mut big = Vec::new();
    FragmentedMp4Writer::write_box_header(&mut big, b"mdat", 0x0102_0300);
    assert_eq!(big, vec![0x01, 0x02, 0x03, 0x08, b'm', b'd', b'a', b't']);
}

#[test]
fn first_frame_is_preceded_by_the_initialization_segment() {
    let mut w = FragmentedMp4Writer::new(2000);
    let seg = w.write_frame(&frame(vec![1, 2, 3]), false);
    assert!(seg.is_none());
    assert_eq!(w.frame_count, 1);
    let mut expected = init_segment_bytes();
    assert_eq!(expected.len(), INIT_SEGMENT_LEN);
    expected.extend_from_slice(&[1, 2, 3]);
    assert_eq!(w.buffer, expected);
    let boxes = read_boxes(&init_segment_bytes());
    assert_eq!(boxes.len(), 2);
    assert_eq!(&boxes[0].0, b"ftyp");
    assert_eq!(&boxes[1].0, b"moov");
    assert_eq!(boxes[1].1, b"dummy_moov_payload".to_vec());
}

#[test]
fn later_frames_are_appended_without_a_second_initialization_segment() {
    let mut w = FragmentedMp4Writer::new(2000);
    w.write_frame(&frame(vec![1]), true);
    w.write_frame(&frame(vec![2, 3]), true);
    w.write_frame(&frame(vec![]), true);
    assert_eq!(w.frame_count, 3);
    let mut expected = init_segment_bytes();
    expected.extend_from_slice(&[1, 2, 3]);
    assert_eq!(w.buffer, expected);
    assert_eq!(w.bytes_written, 0);
}

#[test]
fn no_segment_without_an_open_output() {
    let mut w = FragmentedMp4Writer::new(2000);
    let seg = w.write_frame(&frame(vec![7; FLUSH_THRESHOLD + 10]), false);
    assert!(seg.is_none());
    assert_eq!(w.buffer.len(), INIT_SEGMENT_LEN + FLUSH_THRESHOLD + 10);
    let seg = w.write_frame(&frame(vec![8; 5]), false);
    assert!(seg.is_none());
    assert_eq!(w.buffer.len(), INIT_SEGMENT_LEN + FLUSH_THRESHOLD + 15);
}

#[test]
fn no_segment_at_exactly_the_threshold() {
    let mut w = FragmentedMp4Writer::new(2000);
    let seg = w.write_frame(&frame(vec![0; FLUSH_THRESHOLD - INIT_SEGMENT_LEN]), true);
    assert!(seg.is_none());
    assert_eq!(w.buffer.len(), FLUSH_THRESHOLD);
    let seg = w.write_frame(&frame(vec![1]), true);
    assert!(seg.is_some());
}

#[test]
fn segment_past_the_threshold_wraps_the_buffer_in_moof_and_mdat() {
    let mut w = FragmentedMp4Writer::new(2000);
    let data: Vec<u8> = (0..FLUSH_THRESHOLD + 1).map(|i| (i % 251) as u8).collect();
    let seg = w.write_frame(&frame(data.clone()), true).expect("a segment is due");
    let mut staged = init_segment_bytes();
    staged.extend_from_slice(&data);
    assert_eq!(seg, segment_of(&staged));
    assert_eq!(seg.len(), 34 + staged.len());
    // The buffer stays until the segment is reported written.
    assert_eq!(w.buffer, staged);
    assert_eq!(w.bytes_written, 0);
    w.segment_flushed();
    assert!(w.buffer.is_empty());
    assert_eq!(w.bytes_written, seg.len() as u64);
    assert_eq!(w.frame_count, 1);
    let boxes = read_boxes(&seg);
    assert_eq!(boxes.len(), 2);
    assert_eq!(&boxes[0].0, b"moof");
    assert_eq!(boxes[0].1, b"dummy_moof_payload".to_vec());
    assert_eq!(&boxes[1].0, b"mdat");
    assert_eq!(boxes[1].1, staged);
}

#[test]
fn stream_keeps_every_byte_in_order() {
    let mut w = FragmentedMp4Writer::new(2000);
    let mut output = Vec::new();
    let mut all = init_segment_bytes();
    let sizes = [300_000usize, 500_000, 400_000, 10, 900_000, 700_000, 3];
    for (k, n) in sizes.iter().enumerate() {
        let data: Vec<u8> = (0..*n).map(|i| ((i + k * 7) % 256) as u8).collect();
        all.extend_from_slice(&data);
        if let Some(seg) = w.write_frame(&frame(data), k != 3) {
            output.extend_from_slice(&seg);
            w.segment_flushed();
        }
    }
    assert_eq!(w.frame_count, sizes.len() as u64);
    assert_eq!(w.bytes_written, output.len() as u64);
    let mut recovered = Vec::new();
    let boxes = read_boxes(&output);
    assert!(boxes.len() >= 2);
    for (i, (t, p)) in boxes.iter().enumerate() {
        if i % 2 == 0 {
            assert_eq!(t, b"moof");
        } else {
            assert_eq!(t, b"mdat");
            recovered.extend_from_slice(p);
        }
    }
    recovered.extend_from_slice(&w.buffer);
    assert_eq!(recovered, all);
}

#[test]
fn checkpoint_carries_the_writer_counts() {
    let mut w = FragmentedMp4Writer::new(2000);
    w.write_frame(&frame(vec![0; FLUSH_THRESHOLD]), true).unwrap();
    w.segment_flushed();
    w.write_frame(&frame(vec![1, 2]), true);
    let c = w.checkpoint("session_42".to_string(), 1234);
    assert_eq!(c.session_id, "session_42");
    assert_eq!(c.timestamp_ms, 1234);
    assert_eq!(c.total_frames, 2);
    assert_eq!(c.file_size_bytes, (34 + INIT_SEGMENT_LEN + FLUSH_THRESHOLD) as i64);
    assert_eq!(c.storage_status, "recording");
    let now = w.checkpoint_now("s".to_string()).expect("the clock reads after the epoch");
    assert!(now.timestamp_ms > 1_600_000_000_000);
    assert_eq!(now.total_frames, 2);
    assert_eq!(now.storage_status, "recording");
}

#[test]
fn checkpoint_counts_are_reinterpreted_as_signed() {
    let c = SessionCheckpoint::recording("s".to_string(), -1, u64::MAX, 1 << 63);
    assert_eq!(c.total_frames, -1);
    assert_eq!(c.file_size_bytes, i64::MIN);
    assert_eq!(c.timestamp_ms, -1);
}

#[test]
fn recovered_session_keeps_its_counts() {
    let mut c = SessionCheckpoint::recording("session_7".to_string(), 99, 10, 2048);
    c.mark_recovered();
    assert_eq!(c.storage_status, "recovered");
    assert_eq!(c.session_id, "session_7");
    assert_eq!(c.timestamp_ms, 99);
    assert_eq!(c.total_frames, 10);
    assert_eq!(c.file_size_bytes, 2048);
}

#[test]
fn checkpoints_fall_due_every_two_seconds() {
    assert_eq!(CHECKPOINT_INTERVAL_SECS, 2);
    assert!(!checkpoint_due(0));
    assert!(!checkpoint_due(1));
    assert!(checkpoint_due(2));
    assert!(checkpoint_due(3600));
}

#[test]
fn closed_output_buffers_every_frame_and_writes_nothing() {
    let mut w = FragmentedMp4Writer::new(2000);
    let mut all = init_segment_bytes();
    for k in 0..5u8 {
        let data = vec![k; 400_000 + k as usize];
        all.extend_from_slice(&data);
        assert!(w.write_frame(&frame(data), false).is_none());
    }
    assert_eq!(w.frame_count, 5);
    assert_eq!(w.bytes_written, 0);
    assert_eq!(w.buffer, all);
}
