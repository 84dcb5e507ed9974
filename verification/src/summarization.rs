//! The summarizer front end: prompts, requests and the model's load state.

use vstd::prelude::*;
use vstd::utf8::encode_utf8;

use crate::text::{decimal, push_decimal};

verus! {

/// The kind of summary asked of the model.
#[derive(Clone, Copy, Debug, PartialEq, Eq)]
pub enum SummaryType {
    /// A brief executive summary of two or three sentences.
    Executive,
    /// A detailed summary covering all topics.
    Detailed,
    /// The action items.
    ActionItems,
    /// The key decisions.
    Decisions,
    /// The participants.
    Participants,
    /// The topics discussed.
    Topics,
}

/// The instruction given to the model for each kind of summary.
pub open spec fn summary_prompt(t: SummaryType) -> Seq<char> {
    match t {
        SummaryType::Executive => "Provide a brief executive summary (2-3 sentences) of the key outcomes and decisions from this meeting."@,
        SummaryType::Detailed => "Provide a detailed summary of the transcript, covering all major topics discussed, decisions made, and action items assigned."@,
        SummaryType::ActionItems => "List the specific action items that were assigned during this meeting. For each item, include who is responsible and any deadlines mentioned."@,
        SummaryType::Decisions => "List the key decisions that were made during this meeting. Be specific about what was decided and any context for the decision."@,
        SummaryType::Participants => "List the participants mentioned in this transcript and briefly describe their role or contributions to the meeting."@,
        SummaryType::Topics => "List the main topics and subjects that were discussed during this meeting, in order of appearance."@,
    }
}

/// The name of each kind of summary, as its `Debug` rendering shows it.
pub open spec fn summary_type_name(t: SummaryType) -> Seq<char> {
    match t {
        SummaryType::Executive => "Executive"@,
        SummaryType::Detailed => "Detailed"@,
        SummaryType::ActionItems => "ActionItems"@,
        SummaryType::Decisions => "Decisions"@,
        SummaryType::Participants => "Participants"@,
        SummaryType::Topics => "Topics"@,
    }
}

impl SummaryType {
    /// The instruction for this kind of summary.
    pub fn prompt(&self) -> (p: &'static str)
        ensures
            p@ == summary_prompt(*self),
    {
        match self {
            SummaryType::Executive => "Provide a brief executive summary (2-3 sentences) of the key outcomes and decisions from this meeting.",
            SummaryType::Detailed => "Provide a detailed summary of the transcript, covering all major topics discussed, decisions made, and action items assigned.",
            SummaryType::ActionItems => "List the specific action items that were assigned during this meeting. For each item, include who is responsible and any deadlines mentioned.",
            SummaryType::Decisions => "List the key decisions that were made during this meeting. Be specific about what was decided and any context for the decision.",
            SummaryType::Participants => "List the participants mentioned in this transcript and briefly describe their role or contributions to the meeting.",
            SummaryType::Topics => "List the main topics and subjects that were discussed during this meeting, in order of appearance.",
        }
    }

    /// The name of this kind of summary, as `Debug` renders it.
    pub fn name(&self) -> (n: &'static str)
        ensures
            n@ == summary_type_name(*self),
    {
        match self {
            SummaryType::Executive => "Executive",
            SummaryType::Detailed => "Detailed",
            SummaryType::ActionItems => "ActionItems",
            SummaryType::Decisions => "Decisions",
            SummaryType::Participants => "Participants",
            SummaryType::Topics => "Topics",
        }
    }
}

/// A request for a summary of a transcript.
#[derive(Clone, Debug)]
pub struct SummaryRequest {
    /// The transcript as formatted for the model.
    pub transcript: String,
    /// The kind of summary asked for.
    pub summary_type: SummaryType,
}

/// The system instruction given to the model.
pub open spec fn system_prompt() -> Seq<char> {
    "You are an expert meeting analyst. Analyze the transcript carefully and provide clear, accurate information based on the content."@
}

/// The chat prompt for a request: the system instruction, then the user turn
/// holding the kind's instruction and the transcript, then the assistant's cue.
pub open spec fn chat_prompt_text(summary_type: SummaryType, transcript: Seq<char>) -> Seq<char> {
    "<|system|>\n"@ + system_prompt() + "\n<|user|>\n"@ + summary_prompt(summary_type)
        + "\n\n<transcript>\n"@ + transcript + "\n</transcript>"@ + "\n<|assistant|>\n"@
}

impl SummaryRequest {
    /// The chat prompt that the model is given for this request.
    pub fn chat_prompt(&self) -> (p: String)
        ensures
            p@ == chat_prompt_text(self.summary_type, self.transcript@),
    {
        let mut p = String::new();
        p.append("<|system|>\n");
        p.append("You are an expert meeting analyst. Analyze the transcript carefully and provide clear, accurate information based on the content.");
        p.append("\n<|user|>\n");
        p.append(self.summary_type.prompt());
        p.append("\n\n<transcript>\n");
        p.append(self.transcript.as_str());
        p.append("\n</transcript>");
        p.append("\n<|assistant|>\n");
        p
    }
}

/// The text that Rust's `Debug` gives for the path `path` (quoted, with escapes).
pub uninterp spec fn path_debug_text(path: Seq<char>) -> Seq<char>;

/// Renders a path as `{:?}` does for `std::path::Path`.
/// Trusted: the text is `path_debug_text` of the path, a function of it alone.
#[verifier::external_body]
fn debug_path(path: &str) -> (text: String)
    ensures
        text@ == path_debug_text(path@),
{
    format!("{:?}", std::path::Path::new(path))
}

/// Why the summarizer could not do what it was asked.
#[derive(Clone, Debug, PartialEq, Eq)]
pub enum SummarizerError {
    /// The model file is not where it was looked for.
    ModelNotFound {
        /// The path looked at.
        model_path: String,
    },
    /// A summary was asked for before the model was loaded.
    NotLoaded,
}

/// The message of each error, as the user reads it.
pub open spec fn summarizer_error_message(e: SummarizerError) -> Seq<char> {
    match e {
        SummarizerError::ModelNotFound { model_path } => "Model file not found: "@
            + path_debug_text(model_path@)
            + ". Download with:\nhuggingface-cli download LiquidAI/LFM2-2.6B-Transcript-GGUF --local-dir ~/.cache/lfm2/"@,
        SummarizerError::NotLoaded => "Model not loaded. Call load() first."@,
    }
}

/// The message for a model missing at a path shown as `shown_path`.
pub fn model_not_found_message(shown_path: &str) -> (m: String)
    ensures
        m@ == "Model file not found: "@ + shown_path@
            + ". Download with:\nhuggingface-cli download LiquidAI/LFM2-2.6B-Transcript-GGUF --local-dir ~/.cache/lfm2/"@,
{
    let mut m = String::new();
    m.append("Model file not found: ");
    m.append(shown_path);
    m.append(
        ". Download with:\nhuggingface-cli download LiquidAI/LFM2-2.6B-Transcript-GGUF --local-dir ~/.cache/lfm2/",
    );
    m
}

impl SummarizerError {
    /// The error's message.
    pub fn message(&self) -> (m: String)
        ensures
            m@ == summarizer_error_message(*self),
    {
        match self {
            SummarizerError::ModelNotFound { model_path } => {
                let shown = debug_path(model_path.as_str());
                model_not_found_message(shown.as_str())
            },
            SummarizerError::NotLoaded => {
                let mut m = String::new();
                m.append("Model not loaded. Call load() first.");
                m
            },
        }
    }
}

/// The placeholder answer for a summary of kind `summary_type` of a
/// transcript `transcript_bytes` bytes long, with the model path shown as `shown_path`.
pub fn placeholder_text(shown_path: &str, summary_type: SummaryType, transcript_bytes: usize) -> (text:
    String)
    ensures
        text@ == "[Summary generation not yet implemented]\n\nModel: "@ + shown_path@
            + "\nSummary type: "@ + summary_type_name(summary_type) + "\nTranscript length: "@
            + decimal(transcript_bytes as nat) + " chars"@,
{
    let mut text = String::new();
    text.append("[Summary generation not yet implemented]\n\nModel: ");
    text.append(shown_path);
    text.append("\nSummary type: ");
    text.append(summary_type.name());
    text.append("\nTranscript length: ");
    push_decimal(&mut text, transcript_bytes as u64);
    text.append(" chars");
    text
}

/// The model front end: where the model is, how it is to be run, and whether it is loaded.
#[derive(Clone, Debug)]
pub struct Summarizer {
    /// Path of the GGUF model file.
    pub model_path: String,
    /// Threads for inference.
    pub n_threads: u32,
    /// Context size.
    pub n_ctx: u32,
    /// Sampling temperature, an `f32` by its IEEE-754 bits.
    pub temperature_bits: u32,
    /// Whether the model has been loaded.
    pub is_loaded: bool,
}

/// The placeholder text answered, while generation is not available, for a
/// summary of kind `summary_type` of `transcript` with the model at `model_path`.
pub open spec fn placeholder_summary_text(
    model_path: Seq<char>,
    summary_type: SummaryType,
    transcript: Seq<char>,
) -> Seq<char> {
    "[Summary generation not yet implemented]\n\nModel: "@ + path_debug_text(model_path)
        + "\nSummary type: "@ + summary_type_name(summary_type) + "\nTranscript length: "@
        + decimal((encode_utf8(transcript).len() as usize) as nat) + " chars"@
}

/// The placeholder text answered for a request.
pub open spec fn placeholder_summary(model_path: Seq<char>, request: SummaryRequest) -> Seq<char> {
    placeholder_summary_text(model_path, request.summary_type, request.transcript@)
}

impl Summarizer {
    /// The summarizer that the settings `config` give for the model at `model_path`.
    pub open spec fn new_spec(model_path: String, config: crate::config::Config) -> Summarizer {
        Summarizer {
            model_path,
            n_threads: config.llm.n_threads,
            n_ctx: config.llm.n_ctx,
            temperature_bits: config.llm.temperature_bits,
            is_loaded: false,
        }
    }

    /// A summarizer for the model at `model_path`, not yet loaded.
    pub fn new(model_path: String, n_threads: u32, n_ctx: u32, temperature_bits: u32) -> (s: Self)
        ensures
            s == (Summarizer { model_path, n_threads, n_ctx, temperature_bits, is_loaded: false }),
    {
        Summarizer { model_path, n_threads, n_ctx, temperature_bits, is_loaded: false }
    }

    /// Loads the model, given whether its file exists: an error naming the path
    /// when it does not; otherwise the summarizer is loaded from then on.
    pub fn load(&mut self, model_file_exists: bool) -> (r: Result<(), SummarizerError>)
        ensures
            model_file_exists ==> r is Ok && *final(self) == (Summarizer {
                is_loaded: true,
                ..*old(self)
            }),
            !model_file_exists ==> r == Err::<(), SummarizerError>(
                SummarizerError::ModelNotFound { model_path: old(self).model_path },
            ) && *final(self) == *old(self),
    {
        if !model_file_exists {
            return Err(SummarizerError::ModelNotFound { model_path: self.model_path.clone() });
        }
        self.is_loaded = true;
        Ok(())
    }

    /// Answers a request: an error until the model is loaded, then the
    /// placeholder text naming the model, the kind of summary and the
    /// transcript's length in bytes.
    pub fn summarize(&self, request: &SummaryRequest) -> (r: Result<String, SummarizerError>)
        ensures
            !self.is_loaded ==> r == Err::<String, SummarizerError>(SummarizerError::NotLoaded),
            self.is_loaded ==> (r matches Ok(text) && text@ == placeholder_summary(
                self.model_path@,
                *request,
            )),
    {
        if !self.is_loaded {
            return Err(SummarizerError::NotLoaded);
        }
        // The prompt that inference is to be given; generation itself is not available yet.
        let _prompt = request.chat_prompt();
        let shown = debug_path(self.model_path.as_str());
        let len = request.transcript.as_str().len();
        Ok(placeholder_text(shown.as_str(), request.summary_type, len))
    }

    /// Whether the model is loaded.
    pub fn is_loaded(&self) -> (b: bool)
        ensures
            b == self.is_loaded,
    {
        self.is_loaded
    }
}

} // verus!
