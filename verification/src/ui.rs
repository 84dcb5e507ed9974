//! The application's state and the decisions of its main loop.
//!
//! The front end owns the terminal, the audio devices and the connection to
//! the recognition service. It hands every key press, recognizer message and
//! audio chunk to [`App`], which updates the state and says what to do next.

use vstd::prelude::*;

use crate::asr::{AsrRequest, AsrResponse};
use crate::config::Config;
use crate::session::{Session, FULL_CONFIDENCE_BITS};
use crate::summarization::{
    placeholder_summary_text, summarizer_error_message, SummarizerError, Summarizer,
    SummaryRequest, SummaryType,
};
use crate::text::{is_blank, is_blank_text, push_two_digits, texts, two_digits};
use crate::time::{
    div_toward_zero, format_local_time, now, time_text, whole_hours, whole_minutes, whole_seconds,
    TimeSpan, Timestamp,
};
use crate::vad::{vad_after, vad_finalizes, VadState, SILENCE_SAMPLES};

verus! {

/// The panel that keys scroll.
#[derive(Clone, Copy, Debug, PartialEq, Eq)]
pub enum ActivePanel {
    /// The live transcript.
    Transcript,
    /// The summary.
    Summary,
}

/// A key as the application distinguishes keys.
#[derive(Clone, Copy, Debug, PartialEq, Eq)]
pub enum Key {
    /// A character key.
    Char(char),
    /// The tab key.
    Tab,
    /// The up arrow.
    Up,
    /// The down arrow.
    Down,
    /// Any other key.
    Other,
}

/// Events of the terminal front end.
#[derive(Clone, Debug, PartialEq, Eq)]
pub enum Event {
    /// A key press, and whether Control was held.
    Key {
        /// The key.
        key: Key,
        /// Whether Control was held.
        ctrl: bool,
    },
    /// The terminal was resized to the given columns and rows.
    Resize(u16, u16),
    /// A periodic tick.
    Tick,
    /// A transcription arrived.
    Transcription {
        /// The text.
        text: String,
        /// The speaker.
        speaker: String,
    },
    /// An error occurred.
    Error(String),
}

/// What a key asks the front end to do beyond the state change.
#[derive(Clone, Copy, Debug, PartialEq, Eq)]
pub enum UserAction {
    /// Nothing more.
    Nothing,
    /// Start or stop recording.
    ToggleRecording,
    /// Generate a summary.
    GenerateSummary,
    /// Export the transcript.
    ExportTranscript,
    /// Reconnect to the recognition service.
    Reconnect,
}

/// What toggling the recording asks of the front end.
#[derive(Clone, Copy, Debug, PartialEq, Eq)]
pub enum RecordingStep {
    /// Nothing: there is no connection to record over.
    NotConnected,
    /// Send [`AsrRequest::Start`], start the captures chosen, then call
    /// [`App::recording_started`].
    Start {
        /// Start the microphone.
        mic: bool,
        /// Start the system-audio capture.
        system: bool,
    },
    /// Stop the captures, send [`AsrRequest::Stop`], then call
    /// [`App::recording_stopped`].
    Stop,
}

/// A transcript ready to be written.
#[derive(Clone, Debug, PartialEq, Eq)]
pub struct ExportPlan {
    /// The file name, within the output directory.
    pub file_name: String,
    /// The Markdown to write.
    pub markdown: String,
}

/// The application's state.
#[derive(Clone, Debug)]
pub struct App {
    /// Settings.
    pub config: Config,
    /// WebSocket URL of the recognition service.
    pub asr_url: String,
    /// The summarizer, when a model path is known.
    pub summarizer: Option<Summarizer>,
    /// The meeting being transcribed.
    pub session: Session,
    /// Whether recording is on.
    pub is_recording: bool,
    /// Whether the recognition service is connected.
    pub is_connected: bool,
    /// The panel that keys scroll.
    pub active_panel: ActivePanel,
    /// Scroll offset of the transcript panel.
    pub transcript_scroll: u16,
    /// Scroll offset of the summary panel.
    pub summary_scroll: u16,
    /// The status line.
    pub status_message: String,
    /// Whether the application should quit.
    pub should_quit: bool,
    /// Voice-activity detection.
    pub vad: VadState,
    /// The interim text of the segment being recognized.
    pub partial_text: Option<String>,
}

/// Whether a key quits: `q`, or Control-`c`.
pub open spec fn quits(key: Key, ctrl: bool) -> bool {
    key == Key::Char('q') || (key == Key::Char('c') && ctrl)
}

/// What a key asks of the front end.
pub open spec fn key_action(key: Key, ctrl: bool) -> UserAction {
    if quits(key, ctrl) {
        UserAction::Nothing
    } else if key == Key::Char(' ') {
        UserAction::ToggleRecording
    } else if key == Key::Char('s') {
        UserAction::GenerateSummary
    } else if key == Key::Char('e') {
        UserAction::ExportTranscript
    } else if key == Key::Char('r') {
        UserAction::Reconnect
    } else {
        UserAction::Nothing
    }
}

/// The other panel.
pub open spec fn other_panel(p: ActivePanel) -> ActivePanel {
    match p {
        ActivePanel::Transcript => ActivePanel::Summary,
        ActivePanel::Summary => ActivePanel::Transcript,
    }
}

/// A scroll offset one line up, stopping at the top.
pub open spec fn scrolled_up(offset: u16) -> u16 {
    if offset == 0 {
        0
    } else {
        (offset - 1) as u16
    }
}

/// A scroll offset one line down, stopping at the largest offset.
pub open spec fn scrolled_down(offset: u16) -> u16 {
    if offset == u16::MAX {
        u16::MAX
    } else {
        (offset + 1) as u16
    }
}

/// The state after a key: quitting keys set the quit flag, tab switches the
/// panel, the arrows scroll the active panel; nothing else changes.
pub open spec fn after_key(a: App, key: Key, ctrl: bool) -> App {
    App {
        should_quit: a.should_quit || quits(key, ctrl),
        active_panel: if key == Key::Tab && !quits(key, ctrl) {
            other_panel(a.active_panel)
        } else {
            a.active_panel
        },
        transcript_scroll: if a.active_panel == ActivePanel::Transcript && key == Key::Up {
            scrolled_up(a.transcript_scroll)
        } else if a.active_panel == ActivePanel::Transcript && key == Key::Down {
            scrolled_down(a.transcript_scroll)
        } else {
            a.transcript_scroll
        },
        summary_scroll: if a.active_panel == ActivePanel::Summary && key == Key::Up {
            scrolled_up(a.summary_scroll)
        } else if a.active_panel == ActivePanel::Summary && key == Key::Down {
            scrolled_down(a.summary_scroll)
        } else {
            a.summary_scroll
        },
        ..a
    }
}

/// The export file name for a session whose start renders as `start_text`:
/// `transcript_<start_text>.md`.
pub fn transcript_file_name(start_text: &str) -> (name: String)
    ensures
        name@ == "transcript_"@ + start_text@ + ".md"@,
{
    let mut name = String::new();
    name.append("transcript_");
    name.append(start_text);
    name.append(".md");
    name
}

/// The state after an audio chunk: while recording, the detector takes it in;
/// otherwise nothing changes.
pub open spec fn after_audio(a: App, is_speech: bool, chunk_len: nat) -> App {
    if a.is_recording {
        App { vad: vad_after(a.vad, is_speech, chunk_len), ..a }
    } else {
        a
    }
}

/// The request an audio chunk calls for: [`AsrRequest::Finalize`] when,
/// while recording, it ends the utterance.
pub open spec fn audio_request(a: App, is_speech: bool, chunk_len: nat) -> Option<AsrRequest> {
    if a.is_recording && vad_finalizes(a.vad, is_speech, chunk_len) {
        Some(AsrRequest::Finalize)
    } else {
        None
    }
}

/// While recording, each chunk keeps the detector consistent, changes
/// nothing but the detector, and calls for finalizing exactly when it is
/// silence after speech that brings the silence to [`SILENCE_SAMPLES`]
/// (800 ms at 16 kHz), which resets speech and silence; with recording off
/// a chunk changes nothing and calls for nothing.
pub proof fn law_audio_chunk_step(a: App, is_speech: bool, chunk_len: nat)
    requires
        a.wf(),
    ensures
        ({
            let b = after_audio(a, is_speech, chunk_len);
            let r = audio_request(a, is_speech, chunk_len);
            &&& b.wf()
            &&& b == (App { vad: b.vad, ..a })
            &&& a.is_recording ==> ((r == Some(AsrRequest::Finalize)) <==> (!is_speech
                && a.vad.in_speech && a.vad.silence_samples + chunk_len >= SILENCE_SAMPLES))
            &&& r is Some ==> (!b.vad.in_speech && b.vad.silence_samples == 0)
            &&& !a.is_recording ==> (b == a && r is None)
        }),
{
}

/// The message shown when there is no model to summarize with.
pub open spec fn no_model_message() -> Seq<char> {
    "No LLM model found. Download: huggingface-cli download LiquidAI/LFM2-2.6B-Transcript-GGUF --local-dir ~/.cache/lfm2/"@
}

impl App {
    /// The session's timestamps are in range and the detector's counts are consistent.
    pub open spec fn wf(self) -> bool {
        &&& self.session.wf()
        &&& self.vad.wf()
    }

    /// Everything but the status line is as in `a`.
    pub open spec fn same_but_status(self, a: App) -> bool {
        self == App { status_message: self.status_message, ..a }
    }

    /// The state of a new application whose session starts at `now`: the
    /// model path given on the command line, else the configured one, gives
    /// the summarizer; nothing is recorded or connected yet.
    pub fn new_at(
        config: Config,
        asr_url: String,
        llm_model: Option<String>,
        title: Option<String>,
        now: Timestamp,
    ) -> (app: App)
        requires
            now.wf(),
        ensures
            app.wf(),
            app.config == config,
            app.asr_url == asr_url,
            app.summarizer == (match llm_model {
                Some(path) => Some(Summarizer::new_spec(path, config)),
                None => match config.llm.model_path {
                    Some(path) => Some(Summarizer::new_spec(path, config)),
                    None => None,
                },
            }),
            app.session.started_at == now,
            app.session.title@ == (match title {
                Some(t) => t@,
                None => crate::session::default_title(now),
            }),
            app.session.ended_at.is_none(),
            app.session.participants@.len() == 0,
            app.session.transcript@.len() == 0,
            app.session.summary.is_none(),
            app.session.action_items@.len() == 0,
            app.session.decisions@.len() == 0,
            !app.is_recording,
            !app.is_connected,
            app.active_panel == ActivePanel::Transcript,
            app.transcript_scroll == 0,
            app.summary_scroll == 0,
            app.status_message@ == "Press Space to start recording"@,
            !app.should_quit,
            app.vad == (VadState { in_speech: false, silence_samples: 0, current_segment_id: -1i32 }),
            app.partial_text.is_none(),
    {
        let model_path = match llm_model {
            Some(path) => Some(path),
            None => match &config.llm.model_path {
                Some(path) => Some(path.clone()),
                None => None,
            },
        };
        let summarizer = match model_path {
            Some(path) => Some(
                Summarizer::new(
                    path,
                    config.llm.n_threads,
                    config.llm.n_ctx,
                    config.llm.temperature_bits,
                ),
            ),
            None => None,
        };
        let session = Session::new_at(title, now);
        let mut status_message = String::new();
        status_message.append("Press Space to start recording");
        App {
            config,
            asr_url,
            summarizer,
            session,
            is_recording: false,
            is_connected: false,
            active_panel: ActivePanel::Transcript,
            transcript_scroll: 0,
            summary_scroll: 0,
            status_message,
            should_quit: false,
            vad: VadState::new(),
            partial_text: None,
        }
    }

    /// The state of a new application whose session starts now.
    pub fn new(
        config: Config,
        asr_url: String,
        llm_model: Option<String>,
        title: Option<String>,
    ) -> (app: App)
        ensures
            app.wf(),
            app.config == config,
            app.asr_url == asr_url,
            app.summarizer == (match llm_model {
                Some(path) => Some(Summarizer::new_spec(path, config)),
                None => match config.llm.model_path {
                    Some(path) => Some(Summarizer::new_spec(path, config)),
                    None => None,
                },
            }),
            app.session.title@ == (match title {
                Some(t) => t@,
                None => crate::session::default_title(app.session.started_at),
            }),
            app.session.ended_at.is_none(),
            app.session.participants@.len() == 0,
            app.session.transcript@.len() == 0,
            app.session.summary.is_none(),
            app.session.action_items@.len() == 0,
            app.session.decisions@.len() == 0,
            !app.is_recording,
            !app.is_connected,
            app.active_panel == ActivePanel::Transcript,
            app.transcript_scroll == 0,
            app.summary_scroll == 0,
            app.status_message@ == "Press Space to start recording"@,
            !app.should_quit,
            app.vad == (VadState { in_speech: false, silence_samples: 0, current_segment_id: -1i32 }),
            app.partial_text.is_none(),
    {
        App::new_at(config, asr_url, llm_model, title, now())
    }

    /// Handles a key press: `q` or Control-`c` quit, tab switches the panel,
    /// the arrows scroll the active panel, and space, `s`, `e` and `r` ask the
    /// front end to toggle recording, summarize, export or reconnect.
    pub fn handle_key(&mut self, key: Key, ctrl: bool) -> (action: UserAction)
        ensures
            *final(self) == after_key(*old(self), key, ctrl),
            action == key_action(key, ctrl),
    {
        match key {
            Key::Char('q') => {
                self.should_quit = true;
                UserAction::Nothing
            },
            Key::Char('c') if ctrl => {
                self.should_quit = true;
                UserAction::Nothing
            },
            Key::Char(' ') => UserAction::ToggleRecording,
            Key::Char('s') => UserAction::GenerateSummary,
            Key::Char('e') => UserAction::ExportTranscript,
            Key::Char('r') => UserAction::Reconnect,
            Key::Tab => {
                self.active_panel = match self.active_panel {
                    ActivePanel::Transcript => ActivePanel::Summary,
                    ActivePanel::Summary => ActivePanel::Transcript,
                };
                UserAction::Nothing
            },
            Key::Up => {
                match self.active_panel {
                    ActivePanel::Transcript => {
                        self.transcript_scroll = self.transcript_scroll.saturating_sub(1);
                    },
                    ActivePanel::Summary => {
                        self.summary_scroll = self.summary_scroll.saturating_sub(1);
                    },
                }
                UserAction::Nothing
            },
            Key::Down => {
                match self.active_panel {
                    ActivePanel::Transcript => {
                        self.transcript_scroll = self.transcript_scroll.saturating_add(1);
                    },
                    ActivePanel::Summary => {
                        self.summary_scroll = self.summary_scroll.saturating_add(1);
                    },
                }
                UserAction::Nothing
            },
            _ => UserAction::Nothing,
        }
    }

    /// Decides what toggling the recording takes: stopping when recording;
    /// otherwise starting the configured captures, or, without a connection,
    /// nothing but a status message.
    pub fn toggle_recording(&mut self) -> (step: RecordingStep)
        ensures
            old(self).is_recording ==> step == RecordingStep::Stop && *final(self) == *old(self),
            !old(self).is_recording && !old(self).is_connected ==> step
                == RecordingStep::NotConnected && final(self).same_but_status(*old(self))
                && final(self).status_message@ == "Not connected to ASR server"@,
            !old(self).is_recording && old(self).is_connected ==> step == (RecordingStep::Start {
                mic: old(self).config.audio.capture_mic,
                system: old(self).config.audio.capture_system,
            }) && *final(self) == *old(self),
    {
        if self.is_recording {
            RecordingStep::Stop
        } else if !self.is_connected {
            self.status_message = String::new();
            self.status_message.append("Not connected to ASR server");
            RecordingStep::NotConnected
        } else {
            RecordingStep::Start {
                mic: self.config.audio.capture_mic,
                system: self.config.audio.capture_system,
            }
        }
    }

    /// Recording has started.
    pub fn recording_started(&mut self)
        ensures
            final(self).status_message@ == "Recording... Press Space to stop"@,
            *final(self) == (App {
                is_recording: true,
                status_message: final(self).status_message,
                ..*old(self)
            }),
    {
        self.is_recording = true;
        self.status_message = String::new();
        self.status_message.append("Recording... Press Space to stop");
    }

    /// Recording has stopped at `now`: the session ends, voice detection and
    /// the interim text are reset.
    pub fn recording_stopped_at(&mut self, now: Timestamp)
        requires
            old(self).wf(),
            now.wf(),
        ensures
            final(self).wf(),
            final(self).session == (Session { ended_at: Some(now), ..old(self).session }),
            final(self).status_message@ == "Recording stopped. Press 's' to generate summary"@,
            *final(self) == (App {
                session: final(self).session,
                is_recording: false,
                vad: VadState { in_speech: false, silence_samples: 0, current_segment_id: -1i32 },
                partial_text: None,
                status_message: final(self).status_message,
                ..*old(self)
            }),
    {
        self.session.end_at(now);
        self.is_recording = false;
        self.vad = VadState::new();
        self.partial_text = None;
        self.status_message = String::new();
        self.status_message.append("Recording stopped. Press 's' to generate summary");
    }

    /// Recording has stopped now.
    pub fn recording_stopped(&mut self)
        requires
            old(self).wf(),
        ensures
            final(self).wf(),
            final(self).session.ended_at.is_some(),
            final(self).session == (Session {
                ended_at: final(self).session.ended_at,
                ..old(self).session
            }),
            final(self).status_message@ == "Recording stopped. Press 's' to generate summary"@,
            *final(self) == (App {
                session: final(self).session,
                is_recording: false,
                vad: VadState { in_speech: false, silence_samples: 0, current_segment_id: -1i32 },
                partial_text: None,
                status_message: final(self).status_message,
                ..*old(self)
            }),
    {
        let t = now();
        self.recording_stopped_at(t);
    }
}

/// How a recognizer message changes the state, given the transcript entry
/// time `now`: non-blank interim text becomes the partial text of its
/// segment; non-blank final text (or text left on stopping) joins the
/// transcript and clears the partial text; an error is shown; the others
/// change nothing.
pub open spec fn response_applied(a: App, b: App, response: AsrResponse, now: Timestamp) -> bool {
    match response {
        AsrResponse::Partial { text, segment_id, speaker } => if !is_blank_text(text@) {
            b == App {
                partial_text: Some(text),
                vad: VadState { current_segment_id: segment_id, ..a.vad },
                ..a
            }
        } else {
            b == a
        },
        AsrResponse::Final { text, segment_id, speaker } => {
            &&& b == App { session: b.session, partial_text: None, ..a }
            &&& if !is_blank_text(text@) {
                entry_appended(a.session, b.session, text@, now) && b.session.transcript@.last().speaker@
                    == (match speaker {
                    Some(s) => s@,
                    None => "Speaker"@,
                })
            } else {
                b.session == a.session
            }
        },
        AsrResponse::Stopped { final_text, segment_id } => {
            &&& b == App { session: b.session, partial_text: None, ..a }
            &&& match final_text {
                Some(t) => if !is_blank_text(t@) {
                    entry_appended(a.session, b.session, t@, now)
                        && b.session.transcript@.last().speaker@ == "Speaker"@
                } else {
                    b.session == a.session
                },
                None => b.session == a.session,
            }
        },
        AsrResponse::Error { message } => {
            &&& b.same_but_status(a)
            &&& b.status_message@ == "ASR error: "@ + message@
        },
        _ => b == a,
    }
}

/// `b` is `a` with one more transcript entry holding `text`, timed `now`, at full confidence.
pub open spec fn entry_appended(a: Session, b: Session, text: Seq<char>, now: Timestamp) -> bool {
    &&& b == Session { transcript: b.transcript, ..a }
    &&& b.transcript@.len() == a.transcript@.len() + 1
    &&& b.transcript@.drop_last() == a.transcript@
    &&& b.transcript@.last().text@ == text
    &&& b.transcript@.last().timestamp == now
    &&& b.transcript@.last().confidence_bits == FULL_CONFIDENCE_BITS
}

impl App {
    /// Takes in one message of the recognition service, timing any new
    /// transcript entry at `now`.
    pub fn apply_asr_response_at(&mut self, response: AsrResponse, now: Timestamp)
        requires
            old(self).wf(),
            now.wf(),
        ensures
            final(self).wf(),
            response_applied(*old(self), *final(self), response, now),
    {
        let ghost r = response;
        match response {
            AsrResponse::Partial { text, segment_id, speaker } => {
                if !is_blank(text.as_str()) {
                    self.partial_text = Some(text);
                    self.vad.current_segment_id = segment_id;
                }
            },
            AsrResponse::Final { text, segment_id, speaker } => {
                if !is_blank(text.as_str()) {
                    let speaker_name = match speaker {
                        Some(s) => s,
                        None => {
                            let mut s = String::new();
                            s.append("Speaker");
                            s
                        },
                    };
                    self.session.add_entry_at(speaker_name, text, FULL_CONFIDENCE_BITS, now);
                    assert(self.session.transcript@.drop_last() =~= old(self).session.transcript@);
                }
                self.partial_text = None;
            },
            AsrResponse::Stopped { final_text, segment_id } => {
                match final_text {
                    Some(t) => {
                        if !is_blank(t.as_str()) {
                            let mut speaker_name = String::new();
                            speaker_name.append("Speaker");
                            self.session.add_entry_at(speaker_name, t, FULL_CONFIDENCE_BITS, now);
                            assert(self.session.transcript@.drop_last()
                                =~= old(self).session.transcript@);
                        }
                    },
                    None => {},
                }
                self.partial_text = None;
            },
            AsrResponse::Error { message } => {
                let mut status = String::new();
                status.append("ASR error: ");
                status.append(message.as_str());
                self.status_message = status;
            },
            _ => {},
        }
    }

    /// Takes in one message of the recognition service, timing any new
    /// transcript entry now.
    pub fn apply_asr_response(&mut self, response: AsrResponse)
        requires
            old(self).wf(),
        ensures
            final(self).wf(),
            exists|t: Timestamp| t.wf() && response_applied(*old(self), *final(self), response, t),
    {
        let t = now();
        self.apply_asr_response_at(response, t);
    }

    /// Takes in one streamed audio chunk of `chunk_len` samples, which the
    /// caller has judged speech or not, and returns the request to send when
    /// the utterance has ended: [`AsrRequest::Finalize`]. Audio is not
    /// processed while recording is off.
    pub fn observe_audio(&mut self, is_speech: bool, chunk_len: usize) -> (request: Option<
        AsrRequest,
    >)
        requires
            old(self).wf(),
        ensures
            final(self).wf(),
            *final(self) == after_audio(*old(self), is_speech, chunk_len as nat),
            request == audio_request(*old(self), is_speech, chunk_len as nat),
    {
        if !self.is_recording {
            return None;
        }
        if self.vad.observe(is_speech, chunk_len) {
            Some(AsrRequest::Finalize)
        } else {
            None
        }
    }
}


/// How summarizing changes the state, given whether the model file exists
/// and the time `now` that the summarizer input is taken at.
pub open spec fn summary_applied(a: App, b: App, model_file_exists: bool, now: Timestamp) -> bool {
    if a.session.transcript@.len() == 0 {
        b.same_but_status(a) && b.status_message@ == "No transcript to summarize"@
    } else {
        match a.summarizer {
            None => b.same_but_status(a) && b.status_message@ == no_model_message(),
            Some(s) => if !s.is_loaded && !model_file_exists {
                &&& b.same_but_status(a)
                &&& b.status_message@ == "Failed to load model: "@ + summarizer_error_message(
                    SummarizerError::ModelNotFound { model_path: s.model_path },
                )
            } else {
                &&& b == App {
                    summarizer: Some(Summarizer { is_loaded: true, ..s }),
                    session: Session { summary: b.session.summary, ..a.session },
                    active_panel: ActivePanel::Summary,
                    status_message: b.status_message,
                    ..a
                }
                &&& b.status_message@ == "Summary generated"@
                &&& b.session.summary matches Some(text) && text@ == placeholder_summary_text(
                    s.model_path@,
                    SummaryType::Detailed,
                    a.session.llm_text_at(now),
                )
            },
        }
    }
}

impl App {
    /// Summarizes the session as it stands at `now`: with a transcript and a
    /// model (loaded before if need be, given whether its file exists), a
    /// detailed summary becomes the session's and the summary panel becomes
    /// active; otherwise the status line says why not.
    pub fn generate_summary_at(&mut self, model_file_exists: bool, now: Timestamp)
        requires
            old(self).wf(),
            now.wf(),
        ensures
            final(self).wf(),
            summary_applied(*old(self), *final(self), model_file_exists, now),
    {
        if self.session.transcript.len() == 0 {
            self.status_message = String::new();
            self.status_message.append("No transcript to summarize");
            return;
        }
        let mut summarizer = match self.summarizer.take() {
            Some(s) => s,
            None => {
                self.status_message = String::new();
                self.status_message.append(
                    "No LLM model found. Download: huggingface-cli download LiquidAI/LFM2-2.6B-Transcript-GGUF --local-dir ~/.cache/lfm2/",
                );
                return;
            },
        };
        self.status_message = String::new();
        self.status_message.append("Generating summary...");
        if !summarizer.is_loaded() {
            match summarizer.load(model_file_exists) {
                Ok(()) => {},
                Err(e) => {
                    let mut status = String::new();
                    status.append("Failed to load model: ");
                    let message = e.message();
                    status.append(message.as_str());
                    self.status_message = status;
                    self.summarizer = Some(summarizer);
                    return;
                },
            }
        }
        let transcript = self.session.format_for_llm_at(now);
        let request = SummaryRequest { transcript, summary_type: SummaryType::Detailed };
        match summarizer.summarize(&request) {
            Ok(summary) => {
                self.session.summary = Some(summary);
                self.status_message = String::new();
                self.status_message.append("Summary generated");
                self.active_panel = ActivePanel::Summary;
            },
            Err(e) => {
                let mut status = String::new();
                status.append("Summary failed: ");
                let message = e.message();
                status.append(message.as_str());
                self.status_message = status;
            },
        }
        self.summarizer = Some(summarizer);
    }

    /// Summarizes the session as it stands now.
    pub fn generate_summary(&mut self, model_file_exists: bool)
        requires
            old(self).wf(),
        ensures
            final(self).wf(),
            exists|t: Timestamp|
                t.wf() && summary_applied(*old(self), *final(self), model_file_exists, t),
    {
        let t = now();
        self.generate_summary_at(model_file_exists, t);
    }

    /// The file name of the session's export: `transcript_YYYYMMDD_HHMMSS.md`
    /// after the session's start.
    pub open spec fn export_file_name(self) -> Seq<char> {
        "transcript_"@ + time_text(self.session.started_at, "%Y%m%d_%H%M%S"@) + ".md"@
    }

    /// Prepares the export of the session as it stands at `now`: nothing but
    /// a status message when there is no transcript; otherwise the file name
    /// and the Markdown, with the state unchanged.
    pub fn export_transcript_at(&mut self, now: Timestamp) -> (plan: Option<ExportPlan>)
        requires
            old(self).wf(),
            now.wf(),
        ensures
            final(self).wf(),
            old(self).session.transcript@.len() == 0 ==> {
                &&& plan.is_none()
                &&& final(self).same_but_status(*old(self))
                &&& final(self).status_message@ == "No transcript to export"@
            },
            old(self).session.transcript@.len() > 0 ==> {
                &&& *final(self) == *old(self)
                &&& plan matches Some(p)
                &&& p.file_name@ == old(self).export_file_name()
                &&& p.markdown@ == old(self).session.markdown_text_at(now)
            },
    {
        if self.session.transcript.len() == 0 {
            self.status_message = String::new();
            self.status_message.append("No transcript to export");
            return None;
        }
        let markdown = self.session.export_markdown_at(now);
        let stamp = format_local_time(&self.session.started_at, "%Y%m%d_%H%M%S");
        let file_name = transcript_file_name(stamp.as_str());
        Some(ExportPlan { file_name, markdown })
    }

    /// Prepares the export of the session as it stands now.
    pub fn export_transcript(&mut self) -> (plan: Option<ExportPlan>)
        requires
            old(self).wf(),
        ensures
            final(self).wf(),
            old(self).session.transcript@.len() == 0 ==> plan.is_none()
                && final(self).status_message@ == "No transcript to export"@,
            old(self).session.transcript@.len() > 0 ==> {
                &&& *final(self) == *old(self)
                &&& plan matches Some(p)
                &&& p.file_name@ == old(self).export_file_name()
                &&& exists|t: Timestamp| t.wf() && p.markdown@ == old(self).session.markdown_text_at(t)
            },
    {
        let t = now();
        self.export_transcript_at(t)
    }

    /// The export has been written to `location`.
    pub fn export_finished(&mut self, location: &str)
        ensures
            final(self).same_but_status(*old(self)),
            final(self).status_message@ == "Exported to "@ + location@,
    {
        let mut status = String::new();
        status.append("Exported to ");
        status.append(location);
        self.status_message = status;
    }

    /// The first connection attempt is under way.
    pub fn connecting(&mut self)
        ensures
            final(self).same_but_status(*old(self)),
            final(self).status_message@ == "Connecting to ASR server..."@,
    {
        self.status_message = String::new();
        self.status_message.append("Connecting to ASR server...");
    }

    /// The first connection attempt succeeded.
    pub fn connected(&mut self)
        ensures
            *final(self) == (App {
                is_connected: true,
                status_message: final(self).status_message,
                ..*old(self)
            }),
            final(self).status_message@ == "Connected. Press Space to start recording"@,
    {
        self.is_connected = true;
        self.status_message = String::new();
        self.status_message.append("Connected. Press Space to start recording");
    }

    /// The first connection attempt failed with `error`.
    pub fn connection_failed(&mut self, error: &str)
        ensures
            *final(self) == (App {
                is_connected: false,
                status_message: final(self).status_message,
                ..*old(self)
            }),
            final(self).status_message@ == "ASR connection failed: "@ + error@
                + ". Press 'r' to retry"@,
    {
        let mut status = String::new();
        status.append("ASR connection failed: ");
        status.append(error);
        status.append(". Press 'r' to retry");
        self.status_message = status;
        self.is_connected = false;
    }

    /// A reconnection attempt is under way.
    pub fn reconnecting(&mut self)
        ensures
            final(self).same_but_status(*old(self)),
            final(self).status_message@ == "Reconnecting to ASR server..."@,
    {
        self.status_message = String::new();
        self.status_message.append("Reconnecting to ASR server...");
    }

    /// A reconnection attempt succeeded.
    pub fn reconnected(&mut self)
        ensures
            *final(self) == (App {
                is_connected: true,
                status_message: final(self).status_message,
                ..*old(self)
            }),
            final(self).status_message@ == "Reconnected. Press Space to start recording"@,
    {
        self.is_connected = true;
        self.status_message = String::new();
        self.status_message.append("Reconnected. Press Space to start recording");
    }

    /// A reconnection attempt failed with `error`.
    pub fn reconnect_failed(&mut self, error: &str)
        ensures
            *final(self) == (App {
                is_connected: false,
                status_message: final(self).status_message,
                ..*old(self)
            }),
            final(self).status_message@ == "Connection failed: "@ + error@,
    {
        let mut status = String::new();
        status.append("Connection failed: ");
        status.append(error);
        self.status_message = status;
        self.is_connected = false;
    }

    /// The microphone could not be set up, for the reason `error`.
    pub fn microphone_unavailable(&mut self, error: &str)
        ensures
            final(self).same_but_status(*old(self)),
            final(self).status_message@ == "Mic unavailable: "@ + error@,
    {
        let mut status = String::new();
        status.append("Mic unavailable: ");
        status.append(error);
        self.status_message = status;
    }

    /// The title of the transcript panel, marked when it is active.
    pub fn transcript_title(&self) -> (t: &'static str)
        ensures
            t@ == (if self.active_panel == ActivePanel::Transcript {
                " Transcript [active] "@
            } else {
                " Transcript "@
            }),
    {
        match self.active_panel {
            ActivePanel::Transcript => " Transcript [active] ",
            ActivePanel::Summary => " Transcript ",
        }
    }

    /// The title of the summary panel, marked when it is active.
    pub fn summary_title(&self) -> (t: &'static str)
        ensures
            t@ == (if self.active_panel == ActivePanel::Summary {
                " Summary [active] "@
            } else {
                " Summary "@
            }),
    {
        match self.active_panel {
            ActivePanel::Summary => " Summary [active] ",
            ActivePanel::Transcript => " Summary ",
        }
    }

    /// What the summary panel shows: the summary, or how to get one.
    pub fn summary_text(&self) -> (t: &str)
        ensures
            t@ == (match self.session.summary {
                Some(s) => s@,
                None => "No summary yet.\n\nPress 's' after recording to generate a summary."@,
            }),
    {
        match &self.session.summary {
            Some(s) => s.as_str(),
            None => "No summary yet.\n\nPress 's' after recording to generate a summary.",
        }
    }
}

/// One line of the transcript panel.
#[derive(Clone, Debug, PartialEq, Eq)]
pub struct TranscriptLine {
    /// The time, as `[HH:MM:SS] `.
    pub stamp: String,
    /// The speaker, as `name: `.
    pub speaker: String,
    /// What was said.
    pub text: String,
    /// Whether the text is interim, still being recognized.
    pub interim: bool,
}

/// The time stamp of a transcript line for the instant `t`.
pub open spec fn line_stamp(t: Timestamp) -> Seq<char> {
    "["@ + time_text(t, "%H:%M:%S"@) + "] "@
}

/// The views of the transcript panel's lines at `now`: one per transcript
/// entry, then the interim text, if any, stamped `now` and spoken by `Speaker`.
pub open spec fn transcript_lines_ok(a: App, lines: Seq<TranscriptLine>, now: Timestamp) -> bool {
    let n = a.session.transcript@.len();
    &&& lines.len() == n + (if a.partial_text is Some { 1int } else { 0int })
    &&& forall|k: int|
        0 <= k < n ==> {
            let e = a.session.transcript@[k];
            &&& (#[trigger] lines[k]).stamp@ == line_stamp(e.timestamp)
            &&& lines[k].speaker@ == e.speaker@ + ": "@
            &&& lines[k].text@ == e.text@
            &&& !lines[k].interim
        }
    &&& a.partial_text matches Some(p) ==> {
        &&& lines[n as int].stamp@ == line_stamp(now)
        &&& lines[n as int].speaker@ == "Speaker: "@
        &&& lines[n as int].text@ == p@
        &&& lines[n as int].interim
    }
}

/// A stamp `[text] `.
fn bracketed(text: &str) -> (s: String)
    ensures
        s@ == "["@ + text@ + "] "@,
{
    let mut s = String::new();
    s.append("[");
    s.append(text);
    s.append("] ");
    s
}

/// A string holding `a` followed by `b`.
fn joined2(a: &str, b: &str) -> (s: String)
    ensures
        s@ == a@ + b@,
{
    let mut s = String::new();
    s.append(a);
    s.append(b);
    s
}

impl App {
    /// The lines of the transcript panel at `now`.
    pub fn transcript_lines_at(&self, now: Timestamp) -> (lines: Vec<TranscriptLine>)
        requires
            self.wf(),
            now.wf(),
        ensures
            transcript_lines_ok(*self, lines@, now),
    {
        let times = self.session.format_entry_times();
        let n = self.session.transcript.len();
        let mut lines: Vec<TranscriptLine> = Vec::new();
        let mut k: usize = 0;
        while k < n
            invariant
                self.wf(),
                n == self.session.transcript@.len(),
                texts(times@) == self.session.entry_times(),
                times@.len() == n,
                k <= n,
                lines@.len() == k,
                forall|m: int|
                    0 <= m < k ==> {
                        let e = self.session.transcript@[m];
                        &&& (#[trigger] lines@[m]).stamp@ == line_stamp(e.timestamp)
                        &&& lines@[m].speaker@ == e.speaker@ + ": "@
                        &&& lines@[m].text@ == e.text@
                        &&& !lines@[m].interim
                    },
            decreases n - k,
        {
            let entry = &self.session.transcript[k];
            assert(texts(times@)[k as int] == times@[k as int]@);
            let line = TranscriptLine {
                stamp: bracketed(times[k].as_str()),
                speaker: joined2(entry.speaker.as_str(), ": "),
                text: entry.text.clone(),
                interim: false,
            };
            lines.push(line);
            k = k + 1;
        }
        match &self.partial_text {
            Some(p) => {
                let t = format_local_time(&now, "%H:%M:%S");
                let mut speaker = String::new();
                speaker.append("Speaker: ");
                lines.push(
                    TranscriptLine {
                        stamp: bracketed(t.as_str()),
                        speaker,
                        text: p.clone(),
                        interim: true,
                    },
                );
            },
            None => {},
        }
        lines
    }

    /// The lines of the transcript panel now.
    pub fn transcript_lines(&self) -> (lines: Vec<TranscriptLine>)
        requires
            self.wf(),
        ensures
            exists|t: Timestamp| t.wf() && transcript_lines_ok(*self, lines@, t),
    {
        let t = now();
        self.transcript_lines_at(t)
    }

    /// The recording mark of the header.
    pub fn recording_indicator(&self) -> (s: &'static str)
        ensures
            s@ == (if self.is_recording {
                " \u{25cf} REC "@
            } else {
                " \u{25cb} IDLE "@
            }),
    {
        if self.is_recording {
            " \u{25cf} REC "
        } else {
            " \u{25cb} IDLE "
        }
    }

    /// The connection mark of the header.
    pub fn connection_indicator(&self) -> (s: &'static str)
        ensures
            s@ == (if self.is_connected {
                " \u{25cf} Connected "@
            } else {
                " \u{25cb} Disconnected "@
            }),
    {
        if self.is_connected {
            " \u{25cf} Connected "
        } else {
            " \u{25cb} Disconnected "
        }
    }
}

/// The first line shown of a transcript of `total_lines` lines in a panel
/// `area_height` rows high (borders take two): the newest lines are shown,
/// moved back toward the top by `scroll` lines and stopping at the top;
/// truncated to 16 bits.
pub open spec fn transcript_scroll_spec(total_lines: nat, area_height: nat, scroll: nat) -> u16 {
    let visible: int = if area_height >= 2 {
        area_height - 2
    } else {
        0
    };
    let newest: int = if total_lines > visible {
        total_lines - visible
    } else {
        0
    };
    if newest > scroll {
        ((newest - scroll) % 65536) as u16
    } else {
        0
    }
}

/// The scroll offset of the transcript panel: the newest lines, moved back
/// by the panel's scroll position `scroll`.
pub fn transcript_scroll_offset(total_lines: usize, area_height: u16, scroll: u16) -> (offset: u16)
    ensures
        offset == transcript_scroll_spec(total_lines as nat, area_height as nat, scroll as nat),
{
    let visible = area_height.saturating_sub(2) as usize;
    let newest: usize = if total_lines > visible {
        total_lines - visible
    } else {
        0
    };
    let back = scroll as usize;
    if newest > back {
        ((newest - back) % 65536) as u16
    } else {
        0
    }
}

/// Each line scrolled up moves the transcript window one line toward the
/// top, until the top is reached; with no scroll the newest lines are shown.
pub proof fn law_scroll_moves_transcript_window(total_lines: nat, area_height: nat, scroll: nat)
    requires
        total_lines < 65536,
    ensures
        transcript_scroll_spec(total_lines, area_height, scroll) > 0 ==> transcript_scroll_spec(
            total_lines,
            area_height,
            scroll + 1,
        ) == transcript_scroll_spec(total_lines, area_height, scroll) - 1,
        transcript_scroll_spec(total_lines, area_height, scroll) == 0 ==> transcript_scroll_spec(
            total_lines,
            area_height,
            scroll + 1,
        ) == 0,
        transcript_scroll_spec(total_lines, area_height, 0) + (if area_height >= 2 {
            area_height - 2
        } else {
            0
        }) >= total_lines,
{
}

/// The remainder of `a` divided by a positive `b`, with the sign of `a` as Rust's `%` gives it.
pub open spec fn rem_toward_zero(a: int, b: int) -> int {
    a - b * div_toward_zero(a, b)
}

/// A span shown as `HH:MM:SS`: whole hours, then the minutes and seconds
/// within the hour and minute, each at least two digits wide.
pub open spec fn clock_text_spec(nanos: int) -> Seq<char> {
    two_digits(whole_hours(nanos)) + ":"@ + two_digits(rem_toward_zero(whole_minutes(nanos), 60))
        + ":"@ + two_digits(rem_toward_zero(whole_seconds(nanos), 60))
}

/// The session clock of the status bar, `HH:MM:SS`.
pub fn clock_text(span: &TimeSpan) -> (text: String)
    requires
        span.wf(),
    ensures
        text@ == clock_text_spec(span.nanoseconds as int),
{
    let hours = span.num_hours();
    let minutes = span.num_minutes();
    let seconds = span.num_seconds();
    let mut text = String::new();
    push_two_digits(&mut text, hours);
    text.append(":");
    push_two_digits(&mut text, minutes % 60);
    text.append(":");
    push_two_digits(&mut text, seconds % 60);
    text
}


/// Tab pressed twice brings back the panel that was active, and changes nothing else.
pub proof fn law_tab_twice_restores(a: App, ctrl: bool)
    ensures
        after_key(after_key(a, Key::Tab, ctrl), Key::Tab, ctrl) == a,
{
}

/// Scrolling the active panel down and then up returns it to where it was,
/// unless it was already at the largest offset.
pub proof fn law_scroll_down_then_up_restores(a: App, ctrl: bool)
    requires
        a.active_panel == ActivePanel::Transcript ==> a.transcript_scroll < u16::MAX,
        a.active_panel == ActivePanel::Summary ==> a.summary_scroll < u16::MAX,
    ensures
        after_key(after_key(a, Key::Down, ctrl), Key::Up, ctrl) == a,
{
}

/// Only `q` and Control-`c` quit, and once quitting, any further key keeps quitting.
pub proof fn law_quitting_is_final(a: App, key: Key, ctrl: bool)
    ensures
        after_key(a, key, ctrl).should_quit == (a.should_quit || quits(key, ctrl)),
        a.should_quit ==> after_key(a, key, ctrl).should_quit,
{
}

/// The keyboard shortcuts: space starts or stops recording, `s` summarizes,
/// `e` exports, `r` reconnects, whether Control is held or not.
pub proof fn law_shortcut_keys(ctrl: bool)
    ensures
        key_action(Key::Char(' '), ctrl) == UserAction::ToggleRecording,
        key_action(Key::Char('s'), ctrl) == UserAction::GenerateSummary,
        key_action(Key::Char('e'), ctrl) == UserAction::ExportTranscript,
        key_action(Key::Char('r'), ctrl) == UserAction::Reconnect,
        quits(Key::Char('q'), ctrl),
{
}

/// A final result ends the interim text: after any final message the
/// partial text is gone, and a non-blank one adds exactly one transcript
/// entry, after all the earlier ones.
pub proof fn law_final_replaces_partial(
    a: App,
    b: App,
    text: String,
    segment_id: i32,
    speaker: Option<String>,
    now: Timestamp,
)
    requires
        response_applied(a, b, AsrResponse::Final { text, segment_id, speaker }, now),
    ensures
        b.partial_text.is_none(),
        !is_blank_text(text@) ==> b.session.transcript@ == a.session.transcript@.push(
            b.session.transcript@.last(),
        ) && b.session.transcript@.last().text@ == text@,
        is_blank_text(text@) ==> b.session.transcript@ == a.session.transcript@,
{
    if !is_blank_text(text@) {
        assert(b.session.transcript@ =~= b.session.transcript@.drop_last().push(
            b.session.transcript@.last(),
        ));
    }
}

/// Messages that carry no text for the transcript (start, pong, status) and
/// blank interim text leave the state as it was.
pub proof fn law_contentless_messages_change_nothing(a: App, b: App, response: AsrResponse, now: Timestamp)
    requires
        response_applied(a, b, response, now),
        response is Started || response is Pong || response is Status || (
        response matches AsrResponse::Partial { text, .. } && is_blank_text(text@)),
    ensures
        b == a,
{
}

/// Summarizing twice with the model available gives the same summary the
/// second time, the model then being loaded.
pub proof fn law_summary_is_repeatable(a: App, b: App, c: App, exists1: bool, exists2: bool, now: Timestamp)
    requires
        a.session.transcript@.len() > 0,
        a.summarizer matches Some(s) && (s.is_loaded || exists1),
        summary_applied(a, b, exists1, now),
        summary_applied(b, c, exists2, now),
    ensures
        c.session.summary matches Some(t2) && b.session.summary matches Some(t1) && t2@ == t1@,
        c.summarizer == b.summarizer,
        c.status_message@ == "Summary generated"@,
{
    let s = a.summarizer.unwrap();
    assert(b.session.transcript == a.session.transcript);
    assert(b.session.llm_text_at(now) == a.session.llm_text_at(now));
}


/// Non-blank interim text always becomes the partial text shown, whatever
/// partial text was shown before, and marks its segment as the current one;
/// the transcript is not touched. So of two interim messages in a row, the
/// later one is what is shown.
pub proof fn law_partial_replaces_interim(
    a: App,
    b: App,
    c: App,
    text: String,
    segment_id: i32,
    speaker: Option<String>,
    text2: String,
    segment_id2: i32,
    speaker2: Option<String>,
    now: Timestamp,
)
    requires
        !is_blank_text(text@),
        response_applied(a, b, AsrResponse::Partial { text, segment_id, speaker }, now),
    ensures
        b.partial_text == Some(text),
        b.vad.current_segment_id == segment_id,
        b.session == a.session,
        !is_blank_text(text2@) && response_applied(
            b,
            c,
            AsrResponse::Partial { text: text2, segment_id: segment_id2, speaker: speaker2 },
            now,
        ) ==> c.partial_text == Some(text2) && c.session == a.session,
{
}

} // verus!
