//! Live meeting transcription: the verified core of the transcriptor.
//!
//! The library holds the audio sample processing, the voice-activity state
//! machine, the meeting session and its renderings, the summarizer front end
//! and the application state machine that the terminal front end drives.

pub mod text;
pub mod time;
pub mod audio;
pub mod vad;
pub mod session;
pub mod summarization;
pub mod asr;
pub mod config;
pub mod ui;
