use recorder::capture::audio::AudioCaptureEngine;
use recorder::capture::windows::{initial_frame, WindowsCaptureEngine};
use recorder::capture::{CapturePipeline, StreamId};

#[test]
fn pipeline_carries_frames_from_tx_to_rx() {
    let pipeline = CapturePipeline::new();
    let f = initial_frame(vec![1, 2, 3], 640, 480);
    pipeline.tx.send(f).unwrap();
    let got = pipeline.rx.recv().unwrap();
    assert_eq!(got.data, vec![1, 2, 3]);
    assert_eq!(got.stream_id, StreamId::Screen);
}

#[test]
fn initial_frame_describes_the_screen() {
    let f = initial_frame(vec![0xaa, 0xbb], 1920, 1080);
    assert_eq!(f.stream_id, StreamId::Screen);
    assert_eq!(f.pts_ns, 0);
    assert_eq!(f.sequence, 0);
    assert_eq!(f.data, vec![0xaa, 0xbb]);
    assert_eq!(f.metadata.sample_rate, None);
    assert_eq!(f.metadata.channels, None);
    assert_eq!(f.metadata.width, Some(1920));
    assert_eq!(f.metadata.height, Some(1080));
}

#[test]
fn initial_frame_reinterprets_negative_sizes() {
    let f = initial_frame(Vec::new(), -1, i32::MIN);
    assert_eq!(f.metadata.width, Some(u32::MAX));
    assert_eq!(f.metadata.height, Some(1 << 31));
    assert!(f.data.is_empty());
}

#[test]
fn engine_starts_without_sender() {
    let e: WindowsCaptureEngine<&str, &str, &str> = WindowsCaptureEngine::new();
    assert!(e.sender().is_none());
}

#[test]
fn engine_sends_on_the_channel_it_was_given() {
    let pipeline = CapturePipeline::new();
    let mut e: WindowsCaptureEngine<u8, u16, u32> = WindowsCaptureEngine::new();
    e.set_sender(pipeline.tx);
    let tx = e.sender().expect("sender set");
    tx.send(initial_frame(vec![5], 1, 1)).unwrap();
    assert_eq!(pipeline.rx.recv().unwrap().data, vec![5]);
}

#[test]
fn stop_hands_back_what_start_recorded() {
    let mut e: WindowsCaptureEngine<&str, &str, &str> = WindowsCaptureEngine::new();
    assert_eq!(e.stop(), (None, None));
    e.start("pool", "session", "encoder");
    assert_eq!(e.stop(), (Some("session"), Some("pool")));
    assert_eq!(e.stop(), (None, None));
    e.start("pool2", "session2", "encoder2");
    e.start("pool3", "session3", "encoder3");
    assert_eq!(e.stop(), (Some("session3"), Some("pool3")));
}

#[test]
fn stream_ids_compare_by_variant() {
    assert_eq!(StreamId::Mic, StreamId::Mic);
    assert_ne!(StreamId::Mic, StreamId::Loopback);
    assert_ne!(StreamId::Screen, StreamId::Camera);
}

#[test]
fn audio_engine_holds_the_input_stream_until_stopped() {
    let mut e: AudioCaptureEngine<String> = AudioCaptureEngine::new();
    assert!(!e.is_capturing());
    e.start("mic".to_string());
    assert!(e.is_capturing());
    e.stop();
    assert!(!e.is_capturing());
    e.stop();
    assert!(!e.is_capturing());
}

#[test]
fn first_frame_goes_out_only_with_a_channel() {
    let e: WindowsCaptureEngine<u8, u8, u8> = WindowsCaptureEngine::new();
    assert!(e.first_frame(vec![1, 2], 800, 600).is_none());

    let pipeline = CapturePipeline::new();
    let mut e: WindowsCaptureEngine<u8, u8, u8> = WindowsCaptureEngine::new();
    e.set_sender(pipeline.tx);
    let (tx, f) = e.first_frame(vec![1, 2], 800, 600).expect("a channel is set");
    assert_eq!(f.stream_id, StreamId::Screen);
    assert_eq!(f.pts_ns, 0);
    assert_eq!(f.sequence, 0);
    assert_eq!(f.data, vec![1, 2]);
    assert_eq!(f.metadata.width, Some(800));
    assert_eq!(f.metadata.height, Some(600));
    assert_eq!(f.metadata.sample_rate, None);
    assert_eq!(f.metadata.channels, None);
    tx.send(f).unwrap();
    assert_eq!(pipeline.rx.recv().unwrap().data, vec![1, 2]);
}
