use linux_audio_transcriptor::asr::{AsrRequest, AsrResponse};
use linux_audio_transcriptor::config::Config;
use linux_audio_transcriptor::time::{TimeSpan, Timestamp};
use linux_audio_transcriptor::ui::{
    clock_text, transcript_scroll_offset, ActivePanel, App, Key, RecordingStep, UserAction,
};

const START: i64 = 1705314600; // 2024-01-15 10:30:00 UTC

fn at(secs: i64) -> Timestamp {
    Timestamp { secs, nanos: 0, offset_secs: 0 }
}

fn app_with_model(model: Option<&str>) -> App {
    let config = Config::defaults("/out".to_string(), model.map(|m| m.to_string()));
    App::new_at(config, "ws://asr".to_string(), None, Some("Weekly".to_string()), at(START))
}

#[test]
fn new_app_starts_idle() {
    let app = app_with_model(Some("/cfg.gguf"));
    assert!(!app.is_recording && !app.is_connected && !app.should_quit);
    assert_eq!(app.status_message, "Press Space to start recording");
    assert_eq!(app.active_panel, ActivePanel::Transcript);
    assert_eq!(app.summarizer.as_ref().unwrap().model_path, "/cfg.gguf");
    assert_eq!(app.vad.current_segment_id, -1);
    assert_eq!(app.asr_url, "ws://asr");
    let cli = App::new_at(
        Config::defaults("/out".to_string(), Some("/cfg.gguf".to_string())),
        "u".to_string(),
        Some("/cli.gguf".to_string()),
        None,
        at(START),
    );
    assert_eq!(cli.summarizer.as_ref().unwrap().model_path, "/cli.gguf");
    assert_eq!(cli.session.title, "Meeting 2024-01-15 10:30");
    assert!(app_with_model(None).summarizer.is_none());
}

#[test]
fn keys_map_to_actions() {
    let mut app = app_with_model(None);
    assert_eq!(app.handle_key(Key::Char(' '), false), UserAction::ToggleRecording);
    assert_eq!(app.handle_key(Key::Char('s'), false), UserAction::GenerateSummary);
    assert_eq!(app.handle_key(Key::Char('e'), false), UserAction::ExportTranscript);
    assert_eq!(app.handle_key(Key::Char('r'), true), UserAction::Reconnect);
    assert_eq!(app.handle_key(Key::Char('c'), false), UserAction::Nothing);
    assert!(!app.should_quit);
    assert_eq!(app.handle_key(Key::Char('c'), true), UserAction::Nothing);
    assert!(app.should_quit);
    let mut other = app_with_model(None);
    other.handle_key(Key::Char('q'), false);
    assert!(other.should_quit);
}

#[test]
fn tab_and_arrows_move_the_view() {
    let mut app = app_with_model(None);
    app.handle_key(Key::Up, false);
    assert_eq!(app.transcript_scroll, 0);
    app.handle_key(Key::Down, false);
    app.handle_key(Key::Down, false);
    assert_eq!(app.transcript_scroll, 2);
    app.handle_key(Key::Tab, false);
    assert_eq!(app.active_panel, ActivePanel::Summary);
    app.handle_key(Key::Down, false);
    assert_eq!(app.summary_scroll, 1);
    assert_eq!(app.transcript_scroll, 2);
    app.handle_key(Key::Tab, false);
    assert_eq!(app.active_panel, ActivePanel::Transcript);
    app.transcript_scroll = u16::MAX;
    app.handle_key(Key::Down, false);
    assert_eq!(app.transcript_scroll, u16::MAX);
}

#[test]
fn recording_needs_a_connection() {
    let mut app = app_with_model(None);
    assert_eq!(app.toggle_recording(), RecordingStep::NotConnected);
    assert_eq!(app.status_message, "Not connected to ASR server");
    app.connecting();
    assert_eq!(app.status_message, "Connecting to ASR server...");
    app.connected();
    assert!(app.is_connected);
    assert_eq!(app.status_message, "Connected. Press Space to start recording");
    assert_eq!(app.toggle_recording(), RecordingStep::Start { mic: true, system: true });
    app.recording_started();
    assert!(app.is_recording);
    assert_eq!(app.status_message, "Recording... Press Space to stop");
    assert_eq!(app.toggle_recording(), RecordingStep::Stop);
    app.observe_audio(true, 1600);
    app.partial_text = Some("interim".to_string());
    app.recording_stopped_at(at(START + 90));
    assert!(!app.is_recording);
    assert!(app.partial_text.is_none());
    assert!(!app.vad.in_speech);
    assert_eq!(app.session.ended_at, Some(at(START + 90)));
    assert_eq!(app.status_message, "Recording stopped. Press 's' to generate summary");
}

#[test]
fn connection_messages() {
    let mut app = app_with_model(None);
    app.connection_failed("refused");
    assert_eq!(app.status_message, "ASR connection failed: refused. Press 'r' to retry");
    assert!(!app.is_connected);
    app.reconnecting();
    assert_eq!(app.status_message, "Reconnecting to ASR server...");
    app.reconnected();
    assert!(app.is_connected);
    assert_eq!(app.status_message, "Reconnected. Press Space to start recording");
    app.reconnect_failed("timeout");
    assert!(!app.is_connected);
    assert_eq!(app.status_message, "Connection failed: timeout");
    app.microphone_unavailable("busy");
    assert_eq!(app.status_message, "Mic unavailable: busy");
}

#[test]
fn recognizer_messages_update_transcript() {
    let mut app = app_with_model(None);
    app.apply_asr_response_at(
        AsrResponse::Partial { text: "hel".to_string(), segment_id: 7, speaker: None },
        at(START + 1),
    );
    assert_eq!(app.partial_text.as_deref(), Some("hel"));
    assert_eq!(app.vad.current_segment_id, 7);
    app.apply_asr_response_at(
        AsrResponse::Partial { text: " \t\n".to_string(), segment_id: 8, speaker: None },
        at(START + 2),
    );
    assert_eq!(app.partial_text.as_deref(), Some("hel"));
    assert_eq!(app.vad.current_segment_id, 7);
    app.apply_asr_response_at(
        AsrResponse::Final { text: "hello".to_string(), segment_id: 7, speaker: None },
        at(START + 3),
    );
    assert!(app.partial_text.is_none());
    assert_eq!(app.session.transcript.len(), 1);
    assert_eq!(app.session.transcript[0].speaker, "Speaker");
    assert_eq!(app.session.transcript[0].text, "hello");
    assert_eq!(app.session.transcript[0].timestamp, at(START + 3));
    app.apply_asr_response_at(
        AsrResponse::Final {
            text: "hi".to_string(),
            segment_id: 9,
            speaker: Some("Speaker 2".to_string()),
        },
        at(START + 4),
    );
    assert_eq!(app.session.transcript[1].speaker, "Speaker 2");
    app.apply_asr_response_at(
        AsrResponse::Final { text: "\u{3000}".to_string(), segment_id: 10, speaker: None },
        at(START + 5),
    );
    assert_eq!(app.session.transcript.len(), 2);
    app.apply_asr_response_at(
        AsrResponse::Stopped { final_text: Some("bye".to_string()), segment_id: Some(11) },
        at(START + 6),
    );
    assert_eq!(app.session.transcript.len(), 3);
    assert_eq!(app.session.transcript[2].speaker, "Speaker");
    app.apply_asr_response_at(AsrResponse::Stopped { final_text: None, segment_id: None }, at(START + 7));
    assert_eq!(app.session.transcript.len(), 3);
    app.apply_asr_response_at(AsrResponse::Error { message: "boom".to_string() }, at(START + 8));
    assert_eq!(app.status_message, "ASR error: boom");
    app.apply_asr_response(AsrResponse::Pong);
    app.apply_asr_response(AsrResponse::Status { model_loaded: true, session_active: false });
    app.apply_asr_response(AsrResponse::Started);
    assert_eq!(app.session.transcript.len(), 3);
}

#[test]
fn audio_chunks_finalize_after_silence() {
    let mut app = app_with_model(None);
    assert_eq!(app.observe_audio(true, 1600), None);
    assert!(!app.vad.in_speech);
    app.connected();
    app.toggle_recording();
    app.recording_started();
    assert_eq!(app.observe_audio(false, 16000), None);
    assert_eq!(app.observe_audio(true, 1600), None);
    for _ in 0..7 {
        assert_eq!(app.observe_audio(false, 1600), None);
    }
    assert_eq!(app.observe_audio(false, 1600), Some(AsrRequest::Finalize));
    assert_eq!(app.observe_audio(false, 1600), None);
}

#[test]
fn summary_needs_transcript_and_model() {
    let mut app = app_with_model(None);
    app.generate_summary_at(true, at(START));
    assert_eq!(app.status_message, "No transcript to summarize");
    app.apply_asr_response_at(
        AsrResponse::Final { text: "hello".to_string(), segment_id: 1, speaker: None },
        at(START + 1),
    );
    app.generate_summary_at(true, at(START));
    assert_eq!(
        app.status_message,
        "No LLM model found. Download: huggingface-cli download LiquidAI/LFM2-2.6B-Transcript-GGUF --local-dir ~/.cache/lfm2/"
    );
    let mut with_model = app_with_model(Some("/m.gguf"));
    with_model.apply_asr_response_at(
        AsrResponse::Final { text: "hello".to_string(), segment_id: 1, speaker: None },
        at(START + 1),
    );
    with_model.generate_summary_at(false, at(START + 60));
    assert_eq!(
        with_model.status_message,
        "Failed to load model: Model file not found: \"/m.gguf\". Download with:\nhuggingface-cli download LiquidAI/LFM2-2.6B-Transcript-GGUF --local-dir ~/.cache/lfm2/"
    );
    assert!(with_model.session.summary.is_none());
    with_model.generate_summary_at(true, at(START + 60));
    assert_eq!(with_model.status_message, "Summary generated");
    assert_eq!(with_model.active_panel, ActivePanel::Summary);
    let expected_len = "Title: Weekly\nDate: January 15, 2024\nTime: 10:30 AM\nDuration: 1 minutes\n----------\n**Speaker**: hello\n".len();
    assert_eq!(
        with_model.session.summary.as_deref(),
        Some(format!(
            "[Summary generation not yet implemented]\n\nModel: \"/m.gguf\"\nSummary type: Detailed\nTranscript length: {} chars",
            expected_len
        ).as_str())
    );
    assert_eq!(with_model.summary_text(), with_model.session.summary.as_deref().unwrap());
    with_model.generate_summary_at(false, at(START + 60));
    assert_eq!(with_model.status_message, "Summary generated");
}

#[test]
fn export_plans_file_and_markdown() {
    let mut app = app_with_model(None);
    assert!(app.export_transcript_at(at(START)).is_none());
    assert_eq!(app.status_message, "No transcript to export");
    app.apply_asr_response_at(
        AsrResponse::Final { text: "hello".to_string(), segment_id: 1, speaker: None },
        at(START + 1),
    );
    let plan = app.export_transcript_at(at(START + 60)).unwrap();
    assert_eq!(plan.file_name, "transcript_20240115_103000.md");
    assert_eq!(plan.markdown, app.session.export_markdown_at(at(START + 60)));
    app.export_finished("/out/transcript_20240115_103000.md");
    assert_eq!(app.status_message, "Exported to /out/transcript_20240115_103000.md");
}

#[test]
fn panel_titles_and_texts() {
    let mut app = app_with_model(None);
    assert_eq!(app.transcript_title(), " Transcript [active] ");
    assert_eq!(app.summary_title(), " Summary ");
    app.handle_key(Key::Tab, false);
    assert_eq!(app.transcript_title(), " Transcript ");
    assert_eq!(app.summary_title(), " Summary [active] ");
    assert_eq!(
        app.summary_text(),
        "No summary yet.\n\nPress 's' after recording to generate a summary."
    );
}

#[test]
fn transcript_scroll_shows_latest_lines() {
    assert_eq!(transcript_scroll_offset(5, 10, 0), 0);
    assert_eq!(transcript_scroll_offset(20, 10, 0), 12);
    assert_eq!(transcript_scroll_offset(3, 1, 0), 3);
    assert_eq!(transcript_scroll_offset(70000, 2, 0), 4464);
}

#[test]
fn transcript_scroll_moves_back_from_newest() {
    assert_eq!(transcript_scroll_offset(20, 10, 1), 11);
    assert_eq!(transcript_scroll_offset(20, 10, 12), 0);
    assert_eq!(transcript_scroll_offset(20, 10, 500), 0);
    let mut app = app_with_model(None);
    app.handle_key(Key::Down, false);
    app.handle_key(Key::Down, false);
    assert_eq!(transcript_scroll_offset(20, 10, app.transcript_scroll), 10);
}

#[test]
fn clock_text_pads_fields() {
    assert_eq!(clock_text(&TimeSpan { nanoseconds: 3725_000_000_000 }), "01:02:05");
    assert_eq!(clock_text(&TimeSpan { nanoseconds: 0 }), "00:00:00");
    assert_eq!(clock_text(&TimeSpan { nanoseconds: 360_000_000_000_000 }), "100:00:00");
    assert_eq!(clock_text(&TimeSpan { nanoseconds: -65_000_000_000 }), "00:-1:-5");
}

#[test]
fn quitting_stays_quitting() {
    let mut app = app_with_model(None);
    app.handle_key(Key::Char('q'), false);
    app.handle_key(Key::Char('x'), false);
    app.handle_key(Key::Tab, true);
    assert!(app.should_quit);
    assert_eq!(app.handle_key(Key::Other, false), UserAction::Nothing);
}

#[test]
fn tab_twice_and_scroll_round_trip() {
    let mut app = app_with_model(None);
    app.summary_scroll = 5;
    app.handle_key(Key::Tab, false);
    app.handle_key(Key::Down, false);
    app.handle_key(Key::Up, false);
    assert_eq!(app.summary_scroll, 5);
    app.handle_key(Key::Tab, false);
    assert_eq!(app.active_panel, ActivePanel::Transcript);
    assert_eq!(app.summary_scroll, 5);
    assert_eq!(app.transcript_scroll, 0);
}

#[test]
fn session_line_count_follows_transcript() {
    let mut app = app_with_model(None);
    for k in 0..3 {
        app.apply_asr_response_at(
            AsrResponse::Final { text: format!("line {}", k), segment_id: k, speaker: None },
            at(START + k as i64),
        );
    }
    let text = app.session.format_for_llm_at(at(START + 10));
    assert!(text.ends_with("**Speaker**: line 0\n**Speaker**: line 1\n**Speaker**: line 2\n"));
}

#[test]
fn audio_is_ignored_while_not_recording() {
    let mut app = app_with_model(None);
    app.vad.in_speech = true;
    app.vad.silence_samples = 12000;
    assert_eq!(app.observe_audio(false, usize::MAX), None);
    assert_eq!(app.vad.silence_samples, 12000);
    app.is_recording = true;
    assert_eq!(app.observe_audio(false, usize::MAX), Some(AsrRequest::Finalize));
    assert_eq!(app.vad.silence_samples, 0);
}

#[test]
fn transcript_lines_and_indicators() {
    let mut app = app_with_model(None);
    assert_eq!(app.recording_indicator(), " \u{25cb} IDLE ");
    assert_eq!(app.connection_indicator(), " \u{25cb} Disconnected ");
    app.connected();
    app.recording_started();
    assert_eq!(app.recording_indicator(), " \u{25cf} REC ");
    assert_eq!(app.connection_indicator(), " \u{25cf} Connected ");
    app.apply_asr_response_at(
        AsrResponse::Final {
            text: "hello".to_string(),
            segment_id: 1,
            speaker: Some("Ann".to_string()),
        },
        at(START + 61),
    );
    app.apply_asr_response_at(
        AsrResponse::Partial { text: "wor".to_string(), segment_id: 2, speaker: None },
        at(START + 62),
    );
    let lines = app.transcript_lines_at(at(START + 63));
    assert_eq!(lines.len(), 2);
    assert_eq!(lines[0].stamp, "[10:31:01] ");
    assert_eq!(lines[0].speaker, "Ann: ");
    assert_eq!(lines[0].text, "hello");
    assert!(!lines[0].interim);
    assert_eq!(lines[1].stamp, "[10:31:03] ");
    assert_eq!(lines[1].speaker, "Speaker: ");
    assert_eq!(lines[1].text, "wor");
    assert!(lines[1].interim);
}
