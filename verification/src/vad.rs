//! Voice-activity detection: the silence counter that decides when an
//! utterance has ended, and the window of recent chunk levels.
//!
//! Whether a chunk is speech is decided from the average level of the recent
//! chunks; the levels are floating point and stay with the caller, which
//! keeps them in a [`LevelWindow`]. The state machine here counts silence
//! after speech and says when to ask the recognizer to finalize.

use vstd::prelude::*;

verus! {

/// Sample rate of the audio that the detector sees.
pub const VAD_SAMPLE_RATE: usize = 16000;

/// Silence after speech, in milliseconds, that ends an utterance.
pub const SILENCE_DURATION_MS: usize = 800;

/// Silence after speech, in samples, that ends an utterance (800 ms at 16 kHz).
pub const SILENCE_SAMPLES: usize = 12800;

/// How many recent chunk levels are averaged.
pub const LEVEL_WINDOW_LEN: usize = 10;

/// The detector's state between chunks.
#[derive(Clone, Copy, Debug, PartialEq, Eq)]
pub struct VadState {
    /// Whether speech has been heard since the last finalize.
    pub in_speech: bool,
    /// Samples of silence since the last speech.
    pub silence_samples: usize,
    /// The segment that the recognizer is refining.
    pub current_segment_id: i32,
}

/// The state after one chunk: speech restarts the silence count; silence
/// after speech adds to it, and reaching [`SILENCE_SAMPLES`] ends the utterance.
pub open spec fn vad_after(s: VadState, is_speech: bool, chunk_len: nat) -> VadState {
    if is_speech {
        VadState { in_speech: true, silence_samples: 0, ..s }
    } else if s.in_speech {
        if s.silence_samples + chunk_len >= SILENCE_SAMPLES {
            VadState { in_speech: false, silence_samples: 0, ..s }
        } else {
            VadState { silence_samples: (s.silence_samples + chunk_len) as usize, ..s }
        }
    } else {
        s
    }
}

/// Whether the chunk ends the utterance, so that the recognizer is asked to finalize.
pub open spec fn vad_finalizes(s: VadState, is_speech: bool, chunk_len: nat) -> bool {
    !is_speech && s.in_speech && s.silence_samples + chunk_len >= SILENCE_SAMPLES
}

impl VadState {
    /// Silence is counted only after speech, and never reaches the threshold
    /// between chunks.
    pub open spec fn wf(self) -> bool {
        &&& self.silence_samples < SILENCE_SAMPLES
        &&& !self.in_speech ==> self.silence_samples == 0
    }

    /// The detector before any audio: no speech, no silence, no segment.
    pub fn new() -> (s: Self)
        ensures
            s.wf(),
            s == (VadState { in_speech: false, silence_samples: 0, current_segment_id: -1i32 }),
    {
        VadState { in_speech: false, silence_samples: 0, current_segment_id: -1 }
    }

    /// Takes in one chunk of `chunk_len` samples, which is speech or not, and
    /// returns whether the utterance has ended.
    pub fn observe(&mut self, is_speech: bool, chunk_len: usize) -> (finalize: bool)
        requires
            old(self).wf(),
        ensures
            final(self).wf(),
            *final(self) == vad_after(*old(self), is_speech, chunk_len as nat),
            finalize == vad_finalizes(*old(self), is_speech, chunk_len as nat),
    {
        if is_speech {
            self.in_speech = true;
            self.silence_samples = 0;
            false
        } else if self.in_speech {
            if chunk_len >= SILENCE_SAMPLES - self.silence_samples {
                self.in_speech = false;
                self.silence_samples = 0;
                true
            } else {
                self.silence_samples = self.silence_samples + chunk_len;
                false
            }
        } else {
            false
        }
    }
}

/// Every state the detector reaches from a well-formed one is well-formed:
/// silence never stays at or above the threshold, and is never counted
/// outside speech.
pub proof fn law_vad_keeps_wf(s: VadState, is_speech: bool, chunk_len: nat)
    requires
        s.wf(),
    ensures
        vad_after(s, is_speech, chunk_len).wf(),
{
}

/// A speech chunk never ends an utterance and restarts the silence count.
pub proof fn law_speech_restarts_silence(s: VadState, chunk_len: nat)
    ensures
        !vad_finalizes(s, true, chunk_len),
        vad_after(s, true, chunk_len).in_speech,
        vad_after(s, true, chunk_len).silence_samples == 0,
{
}

/// Silence with no speech before it changes nothing and ends nothing.
pub proof fn law_silence_before_speech_is_ignored(s: VadState, chunk_len: nat)
    requires
        s.wf(),
        !s.in_speech,
    ensures
        vad_after(s, false, chunk_len) == s,
        !vad_finalizes(s, false, chunk_len),
{
}

/// Silent chunks after speech add up across calls: two chunks that together
/// stay below the threshold leave the same count as one chunk of both lengths.
pub proof fn law_silence_accumulates(s: VadState, a: nat, b: nat)
    requires
        s.wf(),
        s.in_speech,
        s.silence_samples + a + b < SILENCE_SAMPLES,
    ensures
        vad_after(vad_after(s, false, a), false, b) == vad_after(s, false, a + b),
        !vad_finalizes(s, false, a),
        !vad_finalizes(vad_after(s, false, a), false, b),
{
}

/// After speech, an utterance ends at the first silent chunk that brings the
/// silence to [`SILENCE_SAMPLES`], and the detector is then back before speech.
pub proof fn law_finalize_resets(s: VadState, chunk_len: nat)
    requires
        s.wf(),
        s.in_speech,
        s.silence_samples + chunk_len >= SILENCE_SAMPLES,
    ensures
        vad_finalizes(s, false, chunk_len),
        !vad_after(s, false, chunk_len).in_speech,
        vad_after(s, false, chunk_len).silence_samples == 0,
{
}

/// The total of a sequence of chunk lengths.
pub open spec fn total_len(lens: Seq<nat>) -> nat
    decreases lens.len(),
{
    if lens.len() == 0 {
        0
    } else {
        total_len(lens.drop_last()) + lens.last()
    }
}

/// The state after a run of silent chunks of the given lengths, in order.
pub open spec fn after_silence(s: VadState, lens: Seq<nat>) -> VadState
    decreases lens.len(),
{
    if lens.len() == 0 {
        s
    } else {
        vad_after(after_silence(s, lens.drop_last()), false, lens.last())
    }
}

proof fn lemma_silence_run(s: VadState, lens: Seq<nat>)
    requires
        s.wf(),
        s.in_speech,
        s.silence_samples + total_len(lens) < SILENCE_SAMPLES,
    ensures
        after_silence(s, lens).in_speech,
        after_silence(s, lens).silence_samples == s.silence_samples + total_len(lens),
        after_silence(s, lens).current_segment_id == s.current_segment_id,
    decreases lens.len(),
{
    if lens.len() > 0 {
        lemma_silence_run(s, lens.drop_last());
    }
}

/// After speech, silent chunks add up across calls, and the utterance ends
/// with the chunk that brings the silence since the speech to
/// [`SILENCE_SAMPLES`] (800 ms), not before.
pub proof fn law_utterance_ends_when_silence_adds_up(s: VadState, lens: Seq<nat>)
    requires
        s.wf(),
        s.in_speech,
        lens.len() > 0,
        s.silence_samples + total_len(lens.drop_last()) < SILENCE_SAMPLES,
    ensures
        after_silence(s, lens.drop_last()).in_speech,
        after_silence(s, lens.drop_last()).silence_samples == s.silence_samples + total_len(
            lens.drop_last(),
        ),
        vad_finalizes(after_silence(s, lens.drop_last()), false, lens.last()) <==> s.silence_samples
            + total_len(lens) >= SILENCE_SAMPLES,
{
    lemma_silence_run(s, lens.drop_last());
}

/// The levels of the most recent chunks, at most [`LEVEL_WINDOW_LEN`] of them,
/// oldest first.
pub struct LevelWindow<T> {
    levels: Vec<T>,
}

impl<T> View for LevelWindow<T> {
    type V = Seq<T>;

    /// The levels held, oldest first.
    closed spec fn view(&self) -> Seq<T> {
        self.levels@
    }
}

/// The window after `level` arrives: appended, and the oldest dropped when
/// there are more than [`LEVEL_WINDOW_LEN`].
pub open spec fn window_after<T>(w: Seq<T>, level: T) -> Seq<T> {
    if w.len() + 1 > LEVEL_WINDOW_LEN {
        w.push(level).drop_first()
    } else {
        w.push(level)
    }
}

impl<T> LevelWindow<T> {
    #[verifier::type_invariant]
    spec fn bounded(self) -> bool {
        self.levels@.len() <= LEVEL_WINDOW_LEN
    }

    /// An empty window.
    pub fn new() -> (w: Self)
        ensures
            w@ == Seq::<T>::empty(),
    {
        LevelWindow { levels: Vec::new() }
    }

    /// Adds the level of the newest chunk, dropping the oldest when the
    /// window would hold more than [`LEVEL_WINDOW_LEN`].
    pub fn push(&mut self, level: T)
        ensures
            final(self)@ == window_after(old(self)@, level),
            final(self)@.len() <= LEVEL_WINDOW_LEN,
            final(self)@.len() > 0,
    {
        proof {
            use_type_invariant(&*self);
        }
        let mut levels = Vec::new();
        std::mem::swap(&mut levels, &mut self.levels);
        levels.push(level);
        if levels.len() > LEVEL_WINDOW_LEN {
            levels.remove(0);
        }
        self.levels = levels;
    }

    /// Forgets all levels.
    pub fn clear(&mut self)
        ensures
            final(self)@ == Seq::<T>::empty(),
    {
        self.levels = Vec::new();
    }

    /// The levels held, oldest first.
    pub fn levels(&self) -> (l: &[T])
        ensures
            l@ == self@,
            l@.len() <= LEVEL_WINDOW_LEN,
    {
        proof {
            use_type_invariant(self);
        }
        self.levels.as_slice()
    }
}

} // verus!
