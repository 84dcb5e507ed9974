//! Application settings.

use vstd::prelude::*;

verus! {

/// Settings of the recognition service connection.
#[derive(Clone, Debug, PartialEq, Eq)]
pub struct AsrConfig {
    /// WebSocket URL of the service.
    pub url: String,
    /// Whether to reconnect when the connection drops.
    pub auto_reconnect: bool,
    /// Delay before reconnecting, in milliseconds.
    pub reconnect_delay_ms: u64,
}

/// Settings of audio capture.
#[derive(Clone, Debug, PartialEq, Eq)]
pub struct AudioConfig {
    /// Sample rate handed to the recognizer, in Hz.
    pub sample_rate: u32,
    /// Length of an audio chunk, in milliseconds.
    pub chunk_duration_ms: u32,
    /// Whether to capture the microphone.
    pub capture_mic: bool,
    /// Whether to capture system audio.
    pub capture_system: bool,
}

/// Settings of the summarization model.
#[derive(Clone, Debug, PartialEq, Eq)]
pub struct LlmConfig {
    /// Path of the GGUF model file, if one is known.
    pub model_path: Option<String>,
    /// Threads for inference.
    pub n_threads: u32,
    /// Context size.
    pub n_ctx: u32,
    /// Sampling temperature, an `f32` by its IEEE-754 bits.
    pub temperature_bits: u32,
}

/// Settings of the transcript output.
#[derive(Clone, Debug, PartialEq, Eq)]
pub struct OutputConfig {
    /// Directory that transcripts are written to.
    pub directory: String,
    /// Auto-save interval in seconds (0 disables it).
    pub auto_save_interval: u64,
}

/// All settings.
#[derive(Clone, Debug, PartialEq, Eq)]
pub struct Config {
    /// Recognition service.
    pub asr: AsrConfig,
    /// Audio capture.
    pub audio: AudioConfig,
    /// Summarization model.
    pub llm: LlmConfig,
    /// Output.
    pub output: OutputConfig,
}

/// The bits of `0.3f32`, the default sampling temperature.
pub const DEFAULT_TEMPERATURE_BITS: u32 = 0x3e99_999au32;

impl Config {
    /// The default settings, with the transcript directory and the model
    /// path found on this machine: service at `ws://127.0.0.1:8765` with
    /// reconnection after a second, 16 kHz audio in 160 ms chunks from both
    /// microphone and system, four threads with an 8192-token context at
    /// temperature 0.3, and auto-save every minute.
    pub fn defaults(output_directory: String, model_path: Option<String>) -> (c: Config)
        ensures
            c.asr.url@ == "ws://127.0.0.1:8765"@,
            c.asr.auto_reconnect,
            c.asr.reconnect_delay_ms == 1000,
            c.audio == (AudioConfig {
                sample_rate: 16000,
                chunk_duration_ms: 160,
                capture_mic: true,
                capture_system: true,
            }),
            c.llm == (LlmConfig {
                model_path,
                n_threads: 4,
                n_ctx: 8192,
                temperature_bits: DEFAULT_TEMPERATURE_BITS,
            }),
            c.output == (OutputConfig { directory: output_directory, auto_save_interval: 60 }),
    {
        let mut url = String::new();
        url.append("ws://127.0.0.1:8765");
        Config {
            asr: AsrConfig { url, auto_reconnect: true, reconnect_delay_ms: 1000 },
            audio: AudioConfig {
                sample_rate: 16000,
                chunk_duration_ms: 160,
                capture_mic: true,
                capture_system: true,
            },
            llm: LlmConfig {
                model_path,
                n_threads: 4,
                n_ctx: 8192,
                temperature_bits: DEFAULT_TEMPERATURE_BITS,
            },
            output: OutputConfig { directory: output_directory, auto_save_interval: 60 },
        }
    }
}

} // verus!
