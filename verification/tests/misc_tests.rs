use recorder::ai::transcriber::WhisperEngine;
use recorder::clock::{epoch_millis, utc_now_millis, LAST_SECOND_OF_9999};
use recorder::text::push_decimal;
use recorder::{greet, new_session_id, session_id_for};
use std::path::PathBuf;

#[test]
fn greet_names_the_caller() {
    assert_eq!(greet("Alice"), "Hello, Alice! You've been greeted from Rust!");
    assert_eq!(greet(""), "Hello, ! You've been greeted from Rust!");
}

#[test]
fn session_ids_are_decimal_timestamps() {
    assert_eq!(session_id_for(0), "session_0");
    assert_eq!(session_id_for(7), "session_7");
    assert_eq!(session_id_for(1_700_000_000_123), "session_1700000000123");
    assert_eq!(session_id_for(-5), "session_-5");
    assert_eq!(session_id_for(i64::MAX), "session_9223372036854775807");
    assert_eq!(session_id_for(i64::MIN), "session_-9223372036854775808");
}

#[test]
fn decimal_matches_format() {
    for n in [0i64, 9, 10, 99, 100, 12345, -1, -10, -987654321, i64::MAX, i64::MIN] {
        let mut s = String::from("x");
        push_decimal(&mut s, n);
        assert_eq!(s, format!("x{}", n));
    }
}

#[test]
fn new_session_id_uses_the_clock() {
    let id = new_session_id().expect("the clock reads after the epoch");
    let digits = id.strip_prefix("session_").expect("prefix");
    let millis: i64 = digits.parse().unwrap();
    assert!(millis > 1_600_000_000_000);
}

#[test]
fn whisper_engine_always_loads() {
    let e = WhisperEngine::new(&PathBuf::from("/models/ggml-tiny.en.bin"));
    assert!(e.is_ok());
}

#[test]
fn whisper_engine_gives_the_placeholder_transcript() {
    let e = WhisperEngine::new(&PathBuf::from("m.bin")).unwrap();
    let t = e.transcribe_chunk(&"session_1".to_string());
    assert_eq!(t.session_id, "session_1");
    assert_eq!(t.start_time, 0);
    assert_eq!(t.end_time, 5000);
    assert_eq!(t.text, "Mock transcribed text");
}

#[test]
fn epoch_millis_counts_whole_milliseconds() {
    assert_eq!(epoch_millis(0, 0), Some(0));
    assert_eq!(epoch_millis(1, 999_999), Some(1000));
    assert_eq!(epoch_millis(1, 1_000_000), Some(1001));
    assert_eq!(epoch_millis(1_700_000_000, 123_456_789), Some(1_700_000_000_123));
    assert_eq!(epoch_millis(LAST_SECOND_OF_9999, 999_999_999), Some(253_402_300_799_999));
    assert_eq!(epoch_millis(u64::MAX, 0), None);
}

#[test]
fn clock_reads_after_the_epoch() {
    let ms = utc_now_millis().expect("the clock reads after the epoch");
    assert!(ms > 1_600_000_000_000);
}
