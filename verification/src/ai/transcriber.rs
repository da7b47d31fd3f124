use vstd::prelude::*;
use std::path::PathBuf;

verus! {

#[verifier::external_type_specification]
#[verifier::external_body]
pub struct ExPathBuf(std::path::PathBuf);

/// `Clone::clone` on a `PathBuf` returns a copy of the path: claimed equal to the original.
pub assume_specification[ <std::path::PathBuf as Clone>::clone ](p: &PathBuf) -> (res: PathBuf)
    ensures
        res == *p,
;

/// The text that the stand-in for speech recognition gives each chunk of audio.
pub open spec fn placeholder_text() -> Seq<char> {
    "Mock transcribed text"@
}

/// One stretch of transcribed speech, as stored for a session: times in milliseconds from the
/// start of the chunk.
#[derive(Debug, Clone)]
pub struct TranscriptEntry {
    pub session_id: String,
    pub start_time: i32,
    pub end_time: i32,
    pub text: String,
}

/// Speech recognition for recordings. Inference is stood in for: every chunk of audio is
/// transcribed as the same placeholder text over its first five seconds.
pub struct WhisperEngine {
    _model_path: PathBuf,
}

impl WhisperEngine {
    /// The model file the engine was made with.
    pub closed spec fn model_path(&self) -> PathBuf {
        self._model_path
    }

    /// An engine for the model at `model_path`; it always succeeds.
    pub fn new(model_path: &PathBuf) -> (res: Result<Self, String>)
        ensures
            res matches Ok(e) && e.model_path() == *model_path,
    {
        Ok(WhisperEngine { _model_path: model_path.clone() })
    }

    /// The transcript entry of one chunk of audio in session `session_id`.
    pub fn transcribe_chunk(&self, session_id: &String) -> (t: TranscriptEntry)
        ensures
            t.session_id@ == session_id@,
            t.start_time == 0,
            t.end_time == 5000,
            t.text@ == placeholder_text(),
    {
        TranscriptEntry {
            session_id: session_id.clone(),
            start_time: 0,
            end_time: 5000,
            text: String::from_str("Mock transcribed text"),
        }
    }
}

} // verus!
