//! The messages exchanged with the speech-recognition service.
//!
//! On the wire they are JSON objects tagged by a `type` field; the front end
//! encodes and decodes them, and the library decides what they mean.

use vstd::prelude::*;

verus! {

/// A control message sent to the recognition service.
#[derive(Clone, Copy, Debug, PartialEq, Eq)]
pub enum AsrRequest {
    /// Start a transcription session.
    Start,
    /// Stop the transcription session.
    Stop,
    /// End the current utterance (silence was detected).
    Finalize,
    /// Liveness check.
    Ping,
    /// Ask for the service's status.
    Status,
}

/// A message received from the recognition service.
#[allow(inconsistent_fields)]
#[derive(Clone, Debug, PartialEq, Eq)]
pub enum AsrResponse {
    /// The session started.
    Started,
    /// The session stopped, with any text still pending.
    Stopped {
        /// Text finalized on stopping, if any.
        final_text: Option<String>,
        /// The segment it belongs to, if any.
        segment_id: Option<i32>,
    },
    /// Answer to a ping.
    Pong,
    /// The service's status.
    Status {
        /// Whether the model is loaded.
        model_loaded: bool,
        /// Whether a session is active.
        session_active: bool,
    },
    /// Interim text for a segment; it may still change.
    Partial {
        /// The interim text.
        text: String,
        /// The segment it belongs to.
        segment_id: i32,
        /// The speaker, if identified.
        speaker: Option<String>,
    },
    /// Final text for a segment.
    Final {
        /// The final text.
        text: String,
        /// The segment it belongs to.
        segment_id: i32,
        /// The speaker, if identified.
        speaker: Option<String>,
    },
    /// The service reports an error.
    Error {
        /// What went wrong.
        message: String,
    },
}

} // verus!
