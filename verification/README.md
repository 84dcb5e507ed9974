# linux-audio-transcriptor

Live meeting transcription and summarization for Linux, with its core
written in Verus and verified.

- `src/` is the verified library:
  - `audio.rs`: mono mixing, the equal-rate case of resampling, 16-bit PCM
    decoding and encoding, the system-capture conversion (valid region,
    stereo to mono, 48 kHz to 16 kHz) and the chunk accumulator;
  - `vad.rs`: the silence counter that ends utterances, and the window of
    recent chunk levels;
  - `session.rs`: the meeting session, the summarizer input and the Markdown export;
  - `summarization.rs`: prompts, requests and the summarizer's load state;
  - `ui.rs`: the application state and the decisions of the main loop;
  - `asr.rs`, `config.rs`, `time.rs`, `text.rs`: messages, settings,
    timestamps (rendered by chrono) and text building blocks.
- `app/` is the program around it: the terminal (ratatui, crossterm), the
  audio devices (cpal, PipeWire), the WebSocket client (tokio-tungstenite),
  configuration and session files (toml, serde_json), and the floating-point
  work: linear-interpolation resampling between unequal rates, floating-point
  sample mixing, and the level computation that tells speech from silence.
- `tests/` exercises the library on concrete values.
