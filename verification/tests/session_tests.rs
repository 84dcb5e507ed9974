use linux_audio_transcriptor::session::{Session, TranscriptEntry, FULL_CONFIDENCE_BITS};
use linux_audio_transcriptor::summarization::{
    Summarizer, SummarizerError, SummaryRequest, SummaryType,
};
use linux_audio_transcriptor::time::{TimeSpan, Timestamp};
use linux_audio_transcriptor::config::{Config, DEFAULT_TEMPERATURE_BITS};

fn at(secs: i64) -> Timestamp {
    Timestamp { secs, nanos: 0, offset_secs: 0 }
}

const START: i64 = 1705314600; // 2024-01-15 10:30:00 UTC

#[test]
fn timestamps_render_in_their_offset() {
    let east = Timestamp { secs: START, nanos: 0, offset_secs: 3600 };
    let s = Session::new_at(None, east);
    assert_eq!(s.title, "Meeting 2024-01-15 11:30");
    let mut s2 = Session::new_at(Some("x".to_string()), east);
    s2.add_entry_at("A".to_string(), "B".to_string(), 0, east);
    assert_eq!(s2.format_entry_times(), vec!["11:30:00".to_string()]);
}

#[test]
fn clock_reads_a_valid_timestamp() {
    let t = Session::new(None).started_at;
    assert!(t.nanos < 1_000_000_000);
    assert!(t.offset_secs > -86400 && t.offset_secs < 86400);
    assert!(t.secs > 1_600_000_000);
}

#[test]
fn new_session_takes_title_or_start() {
    let s = Session::new_at(Some("Team Standup".to_string()), at(START));
    assert_eq!(s.title, "Team Standup");
    assert!(s.ended_at.is_none());
    assert!(s.transcript.is_empty());
    let untitled = Session::new_at(None, at(START));
    assert_eq!(untitled.title, "Meeting 2024-01-15 10:30");
    assert_eq!(untitled.started_at, at(START));
}

#[test]
fn add_entry_appends_in_order() {
    let mut s = Session::new_at(Some("t".to_string()), at(START));
    s.add_entry_at("Alice".to_string(), "Hello".to_string(), FULL_CONFIDENCE_BITS, at(START + 5));
    s.add_entry("Bob".to_string(), "Hi".to_string(), 0);
    assert_eq!(s.transcript.len(), 2);
    assert_eq!(s.transcript[0].speaker, "Alice");
    assert_eq!(s.transcript[0].timestamp, at(START + 5));
    assert_eq!(f32::from_bits(s.transcript[0].confidence_bits), 1.0);
    assert_eq!(s.transcript[1].text, "Hi");
}

#[test]
fn duration_runs_until_end() {
    let mut s = Session::new_at(None, at(START));
    assert_eq!(s.duration_at(at(START + 125)).num_minutes(), 2);
    s.end_at(at(START + 3725));
    let d = s.duration_at(at(START + 999_999));
    assert_eq!(d.num_seconds(), 3725);
    assert_eq!(d.num_minutes(), 62);
    assert_eq!(d.num_hours(), 1);
    assert_eq!(s.duration().num_seconds(), 3725);
}

#[test]
fn negative_spans_round_toward_zero() {
    let d = TimeSpan::between(
        Timestamp { secs: 100, nanos: 0, offset_secs: 0 },
        Timestamp { secs: 165, nanos: 500_000_000, offset_secs: 0 },
    );
    assert_eq!(d.nanoseconds, -65_500_000_000);
    assert_eq!(d.num_seconds(), -65);
    assert_eq!(d.num_minutes(), -1);
    assert_eq!(d.num_hours(), 0);
}

fn sample_session() -> Session {
    let mut s = Session::new_at(Some("Standup".to_string()), at(START));
    s.add_entry_at("Alice".to_string(), "Hello".to_string(), FULL_CONFIDENCE_BITS, at(START + 61));
    s.add_entry_at("Bob".to_string(), "Ship it".to_string(), FULL_CONFIDENCE_BITS, at(START + 62));
    s
}

#[test]
fn format_for_llm_lists_header_and_lines() {
    let s = sample_session();
    assert_eq!(
        s.format_for_llm_at(at(START + 300)),
        "Title: Standup\nDate: January 15, 2024\nTime: 10:30 AM\nDuration: 5 minutes\n----------\n**Alice**: Hello\n**Bob**: Ship it\n"
    );
    let mut p = sample_session();
    p.participants = vec!["Alice".to_string(), "Bob".to_string()];
    assert_eq!(
        p.render_llm_input("D", "T", -3),
        "Title: Standup\nDate: D\nTime: T\nDuration: -3 minutes\nParticipants: Alice, Bob\n----------\n**Alice**: Hello\n**Bob**: Ship it\n"
    );
}

#[test]
fn ended_session_text_does_not_change() {
    let mut s = sample_session();
    s.end_at(at(START + 600));
    assert_eq!(s.format_for_llm_at(at(START + 700)), s.format_for_llm_at(at(START + 99_999)));
    assert_eq!(s.format_for_llm(), s.format_for_llm_at(at(START)));
    assert_eq!(s.export_markdown(), s.export_markdown_at(at(START)));
}

#[test]
fn export_markdown_has_all_sections() {
    let mut s = sample_session();
    s.participants = vec!["Alice".to_string()];
    s.summary = Some("All good.".to_string());
    s.action_items = vec!["Deploy".to_string()];
    s.decisions = vec!["Ship Friday".to_string()];
    assert_eq!(
        s.export_markdown_at(at(START + 120)),
        "# Standup\n\n**Date:** January 15, 2024 at 10:30 AM  \n**Duration:** 2 minutes  \n\n\
**Participants:**\n- Alice\n\n## Summary\n\nAll good.\n\n## Action Items\n\n- [ ] Deploy\n\n\
## Key Decisions\n\n- Ship Friday\n\n## Transcript\n\n**Alice** (10:31:01): Hello\n\n**Bob** (10:31:02): Ship it\n\n"
    );
}

#[test]
fn export_markdown_without_optional_sections() {
    let s = Session::new_at(Some("Empty".to_string()), at(START));
    assert_eq!(
        s.export_markdown_at(at(START)),
        "# Empty\n\n**Date:** January 15, 2024 at 10:30 AM  \n**Duration:** 0 minutes  \n\n## Transcript\n\n"
    );
}

#[test]
fn entry_times_render_each_timestamp() {
    let s = sample_session();
    assert_eq!(s.format_entry_times(), vec!["10:31:01".to_string(), "10:31:02".to_string()]);
}

#[test]
fn summary_prompts_and_names() {
    assert_eq!(
        SummaryType::Executive.prompt(),
        "Provide a brief executive summary (2-3 sentences) of the key outcomes and decisions from this meeting."
    );
    assert_eq!(
        SummaryType::Topics.prompt(),
        "List the main topics and subjects that were discussed during this meeting, in order of appearance."
    );
    assert_eq!(SummaryType::ActionItems.name(), "ActionItems");
    assert_eq!(format!("{:?}", SummaryType::Participants), SummaryType::Participants.name());
}

#[test]
fn chat_prompt_wraps_transcript() {
    let r = SummaryRequest { transcript: "X".to_string(), summary_type: SummaryType::Decisions };
    assert_eq!(
        r.chat_prompt(),
        "<|system|>\nYou are an expert meeting analyst. Analyze the transcript carefully and provide clear, accurate information based on the content.\n<|user|>\nList the key decisions that were made during this meeting. Be specific about what was decided and any context for the decision.\n\n<transcript>\nX\n</transcript>\n<|assistant|>\n"
    );
}

#[test]
fn summarizer_needs_loading() {
    let mut s = Summarizer::new("/models/m.gguf".to_string(), 4, 8192, 0);
    assert!(!s.is_loaded());
    let r = SummaryRequest { transcript: "héllo".to_string(), summary_type: SummaryType::Detailed };
    let e = s.summarize(&r).unwrap_err();
    assert_eq!(e, SummarizerError::NotLoaded);
    assert_eq!(e.message(), "Model not loaded. Call load() first.");
    let missing = s.load(false).unwrap_err();
    assert_eq!(
        missing.message(),
        "Model file not found: \"/models/m.gguf\". Download with:\nhuggingface-cli download LiquidAI/LFM2-2.6B-Transcript-GGUF --local-dir ~/.cache/lfm2/"
    );
    assert!(!s.is_loaded());
    s.load(true).unwrap();
    assert!(s.is_loaded());
    assert_eq!(
        s.summarize(&r).unwrap(),
        "[Summary generation not yet implemented]\n\nModel: \"/models/m.gguf\"\nSummary type: Detailed\nTranscript length: 6 chars"
    );
}

#[test]
fn config_defaults() {
    let c = Config::defaults("/data/transcripts".to_string(), None);
    assert_eq!(c.asr.url, "ws://127.0.0.1:8765");
    assert!(c.asr.auto_reconnect);
    assert_eq!(c.asr.reconnect_delay_ms, 1000);
    assert_eq!(c.audio.sample_rate, 16000);
    assert_eq!(c.audio.chunk_duration_ms, 160);
    assert!(c.audio.capture_mic && c.audio.capture_system);
    assert_eq!(c.llm.n_threads, 4);
    assert_eq!(c.llm.n_ctx, 8192);
    assert_eq!(f32::from_bits(c.llm.temperature_bits), 0.3);
    assert_eq!(c.llm.temperature_bits, DEFAULT_TEMPERATURE_BITS);
    assert_eq!(c.output.directory, "/data/transcripts");
    assert_eq!(c.output.auto_save_interval, 60);
}

#[test]
fn transcript_entries_compare_by_fields() {
    let e = TranscriptEntry {
        timestamp: at(START),
        speaker: "A".to_string(),
        text: "B".to_string(),
        confidence_bits: FULL_CONFIDENCE_BITS,
    };
    let f = e.clone();
    assert_eq!(f.speaker, e.speaker);
    assert_eq!(f.timestamp, e.timestamp);
}
