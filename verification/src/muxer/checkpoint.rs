use vstd::prelude::*;

verus! {

/// The status of a session whose recording is under way.
pub open spec fn recording_status() -> Seq<char> {
    "recording"@
}

/// The status of a session that was found orphaned and taken over.
pub open spec fn recovered_status() -> Seq<char> {
    "recovered"@
}

/// What is saved of a recording session, so that a crash can be recovered from.
#[derive(Debug, Clone)]
pub struct SessionCheckpoint {
    pub session_id: String,
    pub timestamp_ms: i64,
    pub total_frames: i64,
    pub file_size_bytes: i64,
    pub storage_status: String,
}

impl SessionCheckpoint {
    /// The checkpoint of session `session_id` at `timestamp_ms`, while recording, after
    /// `frame_count` frames and `bytes_written` bytes; the two counts are stored as the
    /// database's signed 64-bit integers, reinterpreting the bits as `as` does.
    pub fn recording(session_id: String, timestamp_ms: i64, frame_count: u64, bytes_written: u64)
        -> (c: SessionCheckpoint)
        ensures
            c.session_id@ == session_id@,
            c.timestamp_ms == timestamp_ms,
            c.total_frames == frame_count as i64,
            c.file_size_bytes == bytes_written as i64,
            c.storage_status@ == recording_status(),
    {
        SessionCheckpoint {
            session_id,
            timestamp_ms,
            total_frames: frame_count as i64,
            file_size_bytes: bytes_written as i64,
            storage_status: String::from_str("recording"),
        }
    }

    /// Marks an orphaned session as recovered; everything else stays.
    pub fn mark_recovered(&mut self)
        ensures
            final(self).storage_status@ == recovered_status(),
            final(self).session_id == old(self).session_id,
            final(self).timestamp_ms == old(self).timestamp_ms,
            final(self).total_frames == old(self).total_frames,
            final(self).file_size_bytes == old(self).file_size_bytes,
    {
        self.storage_status = String::from_str("recovered");
    }
}

} // verus!
