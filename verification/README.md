# recorder

The core of a screen and audio recorder, verified with Verus.

- `src/muxer/mp4_box.rs`: ISO base media boxes as bytes, a reader for them, and the laws
  that tie writing and reading together.
- `src/muxer/fmp4.rs`: the fragmented MP4 writer (initialization segment, buffering,
  `moof`/`mdat` segments, checkpoints of its counts).
- `src/muxer/stream.rs`: the model of a whole run of frames, the proof that the written
  stream keeps every frame byte in order, and the same laws for an actual writer, which the
  writer's ghost history ties to the model call by call.
- `src/muxer/checkpoint.rs`: session checkpoints and their recovery status.
- `src/capture/`: frames, the capture channel, and the state of screen and audio capture.
- `src/ai/transcriber.rs`: the transcription engine's per-chunk result.
- `src/lib.rs`, `src/text.rs`, `src/clock.rs`: greeting and session identifiers, decimal
  rendering, the wall clock.
- `app/`: the Tauri shell, platform capture (Windows, cpal), files and the SQLite session
  database.
