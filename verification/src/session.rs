//! The meeting session: its transcript, its metadata, and the texts built
//! from it for the summarizer and for export.

use vstd::prelude::*;

use crate::text::{framed, join, push_framed, push_joined, push_signed_decimal, signed_decimal, texts};
use crate::time::{format_local_time, now, time_text, whole_minutes, TimeSpan, Timestamp};

verus! {

/// One transcribed utterance.
#[derive(Clone, Debug)]
pub struct TranscriptEntry {
    /// When the utterance was transcribed.
    pub timestamp: Timestamp,
    /// Who spoke (for instance `Speaker`, or a name from the recognizer).
    pub speaker: String,
    /// What was said.
    pub text: String,
    /// The confidence score, an `f32` between 0.0 and 1.0, by its IEEE-754 bits.
    pub confidence_bits: u32,
}

/// A meeting: its title, when it ran, what was said, and its summary.
#[derive(Clone, Debug)]
pub struct Session {
    /// The meeting's title.
    pub title: String,
    /// When the session started.
    pub started_at: Timestamp,
    /// When the session ended, once it has.
    pub ended_at: Option<Timestamp>,
    /// Participants, where known.
    pub participants: Vec<String>,
    /// The transcript, in the order the utterances were finalized.
    pub transcript: Vec<TranscriptEntry>,
    /// The generated summary, once there is one.
    pub summary: Option<String>,
    /// Action items taken from the summary.
    pub action_items: Vec<String>,
    /// Key decisions taken from the summary.
    pub decisions: Vec<String>,
}

/// The bits of `1.0f32`, the confidence given to finalized utterances.
pub const FULL_CONFIDENCE_BITS: u32 = 0x3f80_0000u32;

/// The title of an untitled meeting started at `start`: `Meeting YYYY-MM-DD HH:MM`.
pub open spec fn default_title(start: Timestamp) -> Seq<char> {
    "Meeting "@ + time_text(start, "%Y-%m-%d %H:%M"@)
}

/// The title of an untitled meeting whose start renders as `start_text`.
pub fn meeting_title(start_text: &str) -> (title: String)
    ensures
        title@ == "Meeting "@ + start_text@,
{
    let mut title = String::new();
    title.append("Meeting ");
    title.append(start_text);
    title
}

/// The transcript as the summarizer reads it: one `**speaker**: text` line per entry.
pub open spec fn llm_lines(entries: Seq<TranscriptEntry>) -> Seq<char>
    decreases entries.len(),
{
    if entries.len() == 0 {
        Seq::empty()
    } else {
        llm_lines(entries.drop_last()) + "**"@ + entries.last().speaker@ + "**: "@
            + entries.last().text@ + "\n"@
    }
}

/// The first `n` transcript entries as exported: a `**speaker** (time): text`
/// paragraph each, where `times[i]` is the rendered time of entry `i`.
pub open spec fn markdown_lines(entries: Seq<TranscriptEntry>, times: Seq<Seq<char>>, n: nat) -> Seq<
    char,
>
    decreases n,
{
    if n == 0 {
        Seq::empty()
    } else {
        let i = n - 1;
        markdown_lines(entries, times, (n - 1) as nat) + "**"@ + entries[i].speaker@ + "** ("@
            + times[i] + "): "@ + entries[i].text@ + "\n\n"@
    }
}

/// The head of the Markdown export: title, start and duration.
pub open spec fn markdown_header(title: Seq<char>, when: Seq<char>, minutes: int) -> Seq<char> {
    "# "@ + title + "\n\n"@ + "**Date:** "@ + when + "  \n"@ + "**Duration:** "@ + signed_decimal(
        minutes,
    ) + " minutes  \n\n"@
}

/// A bulleted Markdown section under `heading`, or nothing when there are no items.
pub open spec fn markdown_list(heading: Seq<char>, items: Seq<Seq<char>>, bullet: Seq<char>) -> Seq<
    char,
> {
    if items.len() > 0 {
        heading + framed(items, bullet, "\n"@) + "\n"@
    } else {
        Seq::empty()
    }
}

/// The summary section of the Markdown export, or nothing without a summary.
pub open spec fn markdown_summary(summary: Option<String>) -> Seq<char> {
    match summary {
        Some(s) => "## Summary\n\n"@ + s@ + "\n\n"@,
        None => Seq::empty(),
    }
}

/// Appends the head of the Markdown export.
fn push_markdown_header(md: &mut String, title: &str, when: &str, minutes: i64)
    ensures
        final(md)@ == old(md)@ + markdown_header(title@, when@, minutes as int),
{
    let ghost start = md@;
    md.append("# ");
    md.append(title);
    md.append("\n\n");
    md.append("**Date:** ");
    md.append(when);
    md.append("  \n");
    md.append("**Duration:** ");
    push_signed_decimal(md, minutes);
    md.append(" minutes  \n\n");
    assert(md@ =~= start + markdown_header(title@, when@, minutes as int));
}

/// Appends a bulleted section under `heading` when there are items.
fn push_markdown_list(md: &mut String, heading: &str, items: &Vec<String>, bullet: &str)
    ensures
        final(md)@ == old(md)@ + markdown_list(heading@, texts(items@), bullet@),
{
    let ghost start = md@;
    if items.len() > 0 {
        md.append(heading);
        push_framed(md, items, bullet, "\n");
        md.append("\n");
        assert(md@ =~= start + markdown_list(heading@, texts(items@), bullet@));
    } else {
        assert(md@ =~= start + markdown_list(heading@, texts(items@), bullet@));
    }
}

/// Appends the summary section when there is a summary.
fn push_markdown_summary(md: &mut String, summary: &Option<String>)
    ensures
        final(md)@ == old(md)@ + markdown_summary(*summary),
{
    let ghost start = md@;
    match summary {
        Some(s) => {
            md.append("## Summary\n\n");
            md.append(s.as_str());
            md.append("\n\n");
        },
        None => {},
    }
    assert(md@ =~= start + markdown_summary(*summary));
}

impl Session {
    /// Every timestamp of the session lies in chrono's range.
    pub open spec fn wf(self) -> bool {
        &&& self.started_at.wf()
        &&& (self.ended_at matches Some(t) ==> t.wf())
        &&& forall|i: int|
            0 <= i < self.transcript@.len() ==> (#[trigger] self.transcript@[i]).timestamp.wf()
    }

    /// The span of the session: from its start to its end, or to `now` while it runs.
    pub open spec fn span_nanos(self, now: Timestamp) -> int {
        let end = match self.ended_at {
            Some(t) => t,
            None => now,
        };
        end.instant_nanos() - self.started_at.instant_nanos()
    }

    /// The session's summarizer input, given the rendered start date and time
    /// and the duration in minutes.
    pub open spec fn llm_text(self, date: Seq<char>, time: Seq<char>, minutes: int) -> Seq<char> {
        "Title: "@ + self.title@ + "\n"@ + "Date: "@ + date + "\n"@ + "Time: "@ + time + "\n"@
            + "Duration: "@ + signed_decimal(minutes) + " minutes\n"@ + (if self.participants@.len()
            > 0 {
            "Participants: "@ + join(texts(self.participants@), ", "@) + "\n"@
        } else {
            Seq::empty()
        }) + "----------\n"@ + llm_lines(self.transcript@)
    }

    /// The summarizer input of the session as it stands at `now`.
    pub open spec fn llm_text_at(self, now: Timestamp) -> Seq<char> {
        self.llm_text(
            time_text(self.started_at, "%B %d, %Y"@),
            time_text(self.started_at, "%I:%M %p"@),
            whole_minutes(self.span_nanos(now)),
        )
    }

    /// The session as Markdown, given the rendered start, the duration in
    /// minutes and the rendered time of each transcript entry.
    pub open spec fn markdown_text(self, when: Seq<char>, minutes: int, times: Seq<Seq<char>>) -> Seq<
        char,
    > {
        markdown_header(self.title@, when, minutes) + markdown_list(
            "**Participants:**\n"@,
            texts(self.participants@),
            "- "@,
        ) + markdown_summary(self.summary) + markdown_list(
            "## Action Items\n\n"@,
            texts(self.action_items@),
            "- [ ] "@,
        ) + markdown_list("## Key Decisions\n\n"@, texts(self.decisions@), "- "@)
            + "## Transcript\n\n"@ + markdown_lines(self.transcript@, times, self.transcript@.len())
    }

    /// The rendered times of the transcript entries, `HH:MM:SS` each.
    pub open spec fn entry_times(self) -> Seq<Seq<char>> {
        self.transcript@.map_values(|e: TranscriptEntry| time_text(e.timestamp, "%H:%M:%S"@))
    }

    /// The session as Markdown as it stands at `now`.
    pub open spec fn markdown_text_at(self, now: Timestamp) -> Seq<char> {
        self.markdown_text(
            time_text(self.started_at, "%B %d, %Y at %I:%M %p"@),
            whole_minutes(self.span_nanos(now)),
            self.entry_times(),
        )
    }

    /// A new session started at `now`, titled `title` or, without one, after its start.
    pub fn new_at(title: Option<String>, now: Timestamp) -> (s: Session)
        requires
            now.wf(),
        ensures
            s.wf(),
            s.started_at == now,
            s.title@ == (match title {
                Some(t) => t@,
                None => default_title(now),
            }),
            s.ended_at.is_none(),
            s.participants@.len() == 0,
            s.transcript@.len() == 0,
            s.summary.is_none(),
            s.action_items@.len() == 0,
            s.decisions@.len() == 0,
    {
        let title = match title {
            Some(t) => t,
            None => {
                let stamp = format_local_time(&now, "%Y-%m-%d %H:%M");
                meeting_title(stamp.as_str())
            },
        };
        Session {
            title,
            started_at: now,
            ended_at: None,
            participants: Vec::new(),
            transcript: Vec::new(),
            summary: None,
            action_items: Vec::new(),
            decisions: Vec::new(),
        }
    }

    /// A new session starting now, titled `title` or, without one, after its start.
    pub fn new(title: Option<String>) -> (s: Session)
        ensures
            s.wf(),
            s.title@ == (match title {
                Some(t) => t@,
                None => default_title(s.started_at),
            }),
            s.ended_at.is_none(),
            s.participants@.len() == 0,
            s.transcript@.len() == 0,
            s.summary.is_none(),
            s.action_items@.len() == 0,
            s.decisions@.len() == 0,
    {
        Session::new_at(title, now())
    }

    /// Appends an utterance transcribed at `now`; nothing else changes.
    pub fn add_entry_at(&mut self, speaker: String, text: String, confidence_bits: u32, now: Timestamp)
        requires
            old(self).wf(),
            now.wf(),
        ensures
            final(self).wf(),
            final(self).transcript@ == old(self).transcript@.push(
                TranscriptEntry { timestamp: now, speaker, text, confidence_bits },
            ),
            final(self).title == old(self).title,
            final(self).started_at == old(self).started_at,
            final(self).ended_at == old(self).ended_at,
            final(self).participants == old(self).participants,
            final(self).summary == old(self).summary,
            final(self).action_items == old(self).action_items,
            final(self).decisions == old(self).decisions,
    {
        self.transcript.push(TranscriptEntry { timestamp: now, speaker, text, confidence_bits });
        assert forall|i: int| 0 <= i < self.transcript@.len() implies (
        #[trigger] self.transcript@[i]).timestamp.wf() by {
            if i < old(self).transcript@.len() {
                assert(self.transcript@[i] == old(self).transcript@[i]);
            }
        }
    }

    /// Appends an utterance transcribed now; nothing else changes.
    pub fn add_entry(&mut self, speaker: String, text: String, confidence_bits: u32)
        requires
            old(self).wf(),
        ensures
            final(self).wf(),
            final(self).transcript@.len() == old(self).transcript@.len() + 1,
            final(self).transcript@.drop_last() == old(self).transcript@,
            final(self).transcript@.last().speaker == speaker,
            final(self).transcript@.last().text == text,
            final(self).transcript@.last().confidence_bits == confidence_bits,
            final(self).title == old(self).title,
            final(self).started_at == old(self).started_at,
            final(self).ended_at == old(self).ended_at,
            final(self).participants == old(self).participants,
            final(self).summary == old(self).summary,
            final(self).action_items == old(self).action_items,
            final(self).decisions == old(self).decisions,
    {
        let t = now();
        self.add_entry_at(speaker, text, confidence_bits, t);
        assert(self.transcript@.drop_last() =~= old(self).transcript@);
    }

    /// Marks the session ended at `now`; nothing else changes.
    pub fn end_at(&mut self, now: Timestamp)
        requires
            old(self).wf(),
            now.wf(),
        ensures
            final(self).wf(),
            *final(self) == (Session { ended_at: Some(now), ..*old(self) }),
    {
        self.ended_at = Some(now);
    }

    /// Marks the session ended now; nothing else changes.
    pub fn end(&mut self)
        requires
            old(self).wf(),
        ensures
            final(self).wf(),
            final(self).ended_at.is_some(),
            *final(self) == (Session { ended_at: final(self).ended_at, ..*old(self) }),
    {
        let t = now();
        self.end_at(t);
    }

    /// The length of the session: to its end, or to `now` while it runs.
    pub fn duration_at(&self, now: Timestamp) -> (d: TimeSpan)
        requires
            self.wf(),
            now.wf(),
        ensures
            d.wf(),
            d.nanoseconds == self.span_nanos(now),
    {
        let end = match self.ended_at {
            Some(t) => t,
            None => now,
        };
        TimeSpan::between(end, self.started_at)
    }

    /// The length of the session: to its end, or to the present while it runs.
    pub fn duration(&self) -> (d: TimeSpan)
        requires
            self.wf(),
        ensures
            d.wf(),
            exists|t: Timestamp| t.wf() && d.nanoseconds == self.span_nanos(t),
            self.ended_at.is_some() ==> d.nanoseconds == self.span_nanos(self.started_at),
    {
        let t = now();
        self.duration_at(t)
    }

    /// Builds the summarizer input from the rendered start date and time and
    /// the duration in minutes: a header of title, date, time, duration and
    /// participants, a rule, then one `**speaker**: text` line per utterance.
    pub fn render_llm_input(&self, date: &str, time: &str, minutes: i64) -> (out: String)
        ensures
            out@ == self.llm_text(date@, time@, minutes as int),
    {
        let mut out = String::new();
        out.append("Title: ");
        out.append(self.title.as_str());
        out.append("\n");
        out.append("Date: ");
        out.append(date);
        out.append("\n");
        out.append("Time: ");
        out.append(time);
        out.append("\n");
        out.append("Duration: ");
        push_signed_decimal(&mut out, minutes);
        out.append(" minutes\n");
        let ghost head = out@;
        if self.participants.len() > 0 {
            out.append("Participants: ");
            push_joined(&mut out, &self.participants, ", ");
            out.append("\n");
        }
        let ghost with_participants = out@;
        out.append("----------\n");
        let ghost before_lines = out@;
        let n = self.transcript.len();
        let mut i: usize = 0;
        while i < n
            invariant
                n == self.transcript@.len(),
                i <= n,
                out@ == before_lines + llm_lines(self.transcript@.take(i as int)),
            decreases n - i,
        {
            let entry = &self.transcript[i];
            assert(self.transcript@.take(i + 1).drop_last() =~= self.transcript@.take(i as int));
            out.append("**");
            out.append(entry.speaker.as_str());
            out.append("**: ");
            out.append(entry.text.as_str());
            out.append("\n");
            i = i + 1;
        }
        assert(self.transcript@.take(n as int) =~= self.transcript@);
        assert(out@ =~= self.llm_text(date@, time@, minutes as int));
        out
    }

    /// The summarizer input of the session as it stands at `now`.
    pub fn format_for_llm_at(&self, now: Timestamp) -> (out: String)
        requires
            self.wf(),
            now.wf(),
        ensures
            out@ == self.llm_text_at(now),
    {
        let date = format_local_time(&self.started_at, "%B %d, %Y");
        let time = format_local_time(&self.started_at, "%I:%M %p");
        let minutes = self.duration_at(now).num_minutes();
        self.render_llm_input(date.as_str(), time.as_str(), minutes)
    }

    /// The summarizer input of the session as it stands now.
    pub fn format_for_llm(&self) -> (out: String)
        requires
            self.wf(),
        ensures
            exists|t: Timestamp| t.wf() && out@ == self.llm_text_at(t),
    {
        let t = now();
        self.format_for_llm_at(t)
    }

    /// Builds the Markdown export from the rendered start, the duration in
    /// minutes and the rendered time of each entry: title, date, duration,
    /// then participants, summary, action items and decisions where there are
    /// any, then the transcript.
    pub fn render_markdown(&self, when: &str, minutes: i64, times: &Vec<String>) -> (md: String)
        requires
            times@.len() == self.transcript@.len(),
        ensures
            md@ == self.markdown_text(when@, minutes as int, texts(times@)),
    {
        let ghost tv = texts(times@);
        let mut md = String::new();
        push_markdown_header(&mut md, self.title.as_str(), when, minutes);
        push_markdown_list(&mut md, "**Participants:**\n", &self.participants, "- ");
        push_markdown_summary(&mut md, &self.summary);
        push_markdown_list(&mut md, "## Action Items\n\n", &self.action_items, "- [ ] ");
        push_markdown_list(&mut md, "## Key Decisions\n\n", &self.decisions, "- ");
        md.append("## Transcript\n\n");
        let ghost before_lines = md@;
        let n = self.transcript.len();
        let mut i: usize = 0;
        while i < n
            invariant
                n == self.transcript@.len(),
                n == times@.len(),
                tv == texts(times@),
                i <= n,
                md@ == before_lines + markdown_lines(self.transcript@, tv, i as nat),
            decreases n - i,
        {
            let entry = &self.transcript[i];
            md.append("**");
            md.append(entry.speaker.as_str());
            md.append("** (");
            md.append(times[i].as_str());
            md.append("): ");
            md.append(entry.text.as_str());
            md.append("\n\n");
            i = i + 1;
        }
        assert(md@ =~= self.markdown_text(when@, minutes as int, tv));
        md
    }

    /// The rendered time, `HH:MM:SS`, of each transcript entry.
    pub fn format_entry_times(&self) -> (times: Vec<String>)
        requires
            self.wf(),
        ensures
            texts(times@) == self.entry_times(),
            times@.len() == self.transcript@.len(),
    {
        let mut times: Vec<String> = Vec::new();
        let n = self.transcript.len();
        let mut i: usize = 0;
        while i < n
            invariant
                self.wf(),
                n == self.transcript@.len(),
                i <= n,
                times@.len() == i,
                forall|k: int|
                    0 <= k < i ==> #[trigger] times@[k]@ == time_text(
                        self.transcript@[k].timestamp,
                        "%H:%M:%S"@,
                    ),
            decreases n - i,
        {
            let t = format_local_time(&self.transcript[i].timestamp, "%H:%M:%S");
            times.push(t);
            i = i + 1;
        }
        assert(texts(times@) =~= self.entry_times());
        times
    }

    /// The session as Markdown as it stands at `now`.
    pub fn export_markdown_at(&self, now: Timestamp) -> (md: String)
        requires
            self.wf(),
            now.wf(),
        ensures
            md@ == self.markdown_text_at(now),
    {
        let when = format_local_time(&self.started_at, "%B %d, %Y at %I:%M %p");
        let minutes = self.duration_at(now).num_minutes();
        let times = self.format_entry_times();
        self.render_markdown(when.as_str(), minutes, &times)
    }

    /// The session as Markdown as it stands now.
    pub fn export_markdown(&self) -> (md: String)
        requires
            self.wf(),
        ensures
            exists|t: Timestamp| t.wf() && md@ == self.markdown_text_at(t),
    {
        let t = now();
        self.export_markdown_at(t)
    }
}


/// Once a session has ended, its duration and its renderings no longer
/// depend on when they are asked for.
pub proof fn law_ended_session_is_fixed(s: Session, t1: Timestamp, t2: Timestamp)
    requires
        s.ended_at.is_some(),
    ensures
        s.span_nanos(t1) == s.span_nanos(t2),
        s.llm_text_at(t1) == s.llm_text_at(t2),
        s.markdown_text_at(t1) == s.markdown_text_at(t2),
{
}

/// Adding an entry extends the summarizer input by exactly that entry's line.
pub proof fn law_entry_extends_llm_lines(entries: Seq<TranscriptEntry>, e: TranscriptEntry)
    ensures
        llm_lines(entries.push(e)) == llm_lines(entries) + "**"@ + e.speaker@ + "**: "@ + e.text@
            + "\n"@,
{
    assert(entries.push(e).drop_last() =~= entries);
}

} // verus!
