//! Audio sample processing: mono mixing, resampling, PCM decoding and chunking.

use vstd::prelude::*;

use crate::time::div_toward_zero;

verus! {

/// Which capture an audio chunk came from.
#[derive(Clone, Copy, Debug, PartialEq, Eq)]
pub enum AudioSource {
    /// Microphone input.
    Microphone,
    /// System audio (the monitor of the default sink).
    System,
}

impl AudioSource {
    /// The label shown for the source: `Mic` or `System`.
    pub fn display_name(&self) -> (name: &'static str)
        ensures
            name@ == (match self {
                AudioSource::Microphone => "Mic"@,
                AudioSource::System => "System"@,
            }),
    {
        match self {
            AudioSource::Microphone => "Mic",
            AudioSource::System => "System",
        }
    }
}

/// A fresh vector holding the samples of `s`.
pub fn copy_samples(s: &[i16]) -> (v: Vec<i16>)
    ensures
        v@ == s@,
{
    let mut v: Vec<i16> = Vec::new();
    let mut i: usize = 0;
    while i < s.len()
        invariant
            i <= s@.len(),
            v@ == s@.take(i as int),
        decreases s@.len() - i,
    {
        v.push(s[i]);
        i = i + 1;
        assert(v@ =~= s@.take(i as int));
    }
    assert(s@.take(s@.len() as int) =~= s@);
    v
}

/// Whether resampling `len` samples from `source_rate` to `target_rate`
/// changes them: the rates differ and there are samples.
pub open spec fn needs_resampling(len: nat, source_rate: nat, target_rate: nat) -> bool {
    source_rate != target_rate && len > 0
}

/// The part of resampling that needs no interpolation: at equal rates, or
/// with no samples, the samples unchanged; otherwise nothing.
pub open spec fn resample_passthrough(s: Seq<i16>, source_rate: nat, target_rate: nat) -> Option<
    Seq<i16>,
> {
    if needs_resampling(s.len(), source_rate, target_rate) {
        None
    } else {
        Some(s)
    }
}

proof fn lemma_div_toward_zero_between(num: int, t: int, lo: int, hi: int)
    by (nonlinear_arith)
    requires
        t > 0,
        lo <= hi,
        lo * t <= num <= hi * t,
    ensures
        lo <= div_toward_zero(num, t) <= hi,
{
    if num >= 0 {
        assert(num / t <= hi);
        assert(lo <= num / t);
    } else {
        assert((-num) / t <= -lo);
        assert(-hi <= (-num) / t);
    }
}

/// Resampling from `source_rate` to `target_rate`, as far as it involves no
/// interpolation: equal rates, or no samples, give a copy of the samples;
/// between unequal rates the answer is `None`, and the linear interpolation,
/// which is computed in floating point, is the caller's.
pub fn resample_audio(samples: &[i16], source_rate: u32, target_rate: u32) -> (out: Option<
    Vec<i16>,
>)
    ensures
        match out {
            Some(v) => resample_passthrough(samples@, source_rate as nat, target_rate as nat)
                == Some(v@),
            None => resample_passthrough(samples@, source_rate as nat, target_rate as nat)
                is None,
        },
{
    if source_rate == target_rate || samples.len() == 0 {
        Some(copy_samples(samples))
    } else {
        None
    }
}

/// The sum of the samples of `s`.
pub open spec fn sample_sum(s: Seq<i16>) -> int
    decreases s.len(),
{
    if s.len() == 0 {
        0
    } else {
        sample_sum(s.drop_last()) + s.last()
    }
}

/// The number of frames of `channels` interleaved samples in `len` samples,
/// counting a last, incomplete frame.
pub open spec fn frame_count(len: nat, channels: nat) -> nat
    recommends
        channels > 0,
{
    ((len + channels - 1) / (channels as int)) as nat
}

/// The `k`-th frame of `channels` interleaved samples (the last one may be short).
pub open spec fn frame(s: Seq<i16>, channels: nat, k: int) -> Seq<i16> {
    let start = k * channels;
    let end = if start + channels <= s.len() {
        start + channels
    } else {
        s.len() as int
    };
    s.subrange(start, end)
}

/// Interleaved samples mixed down to one channel: each frame's sum divided
/// by the channel count, rounded toward zero.
pub open spec fn mono_mix(s: Seq<i16>, channels: nat) -> Seq<i16> {
    Seq::new(
        frame_count(s.len(), channels),
        |k: int| div_toward_zero(sample_sum(frame(s, channels, k)), channels as int) as i16,
    )
}

proof fn lemma_frame_start_in_range(k: int, len: int, ch: int)
    by (nonlinear_arith)
    requires
        0 <= k,
        ch > 0,
        k < (len + ch - 1) / ch,
    ensures
        0 <= k * ch < len,
        k * ch + ch <= len ==> (k + 1) * ch <= len,
{
    assert((k + 1) * ch <= len + ch - 1);
}

proof fn lemma_sum_step(s: Seq<i16>, start: int, j: int)
    requires
        0 <= start <= j < s.len(),
    ensures
        sample_sum(s.subrange(start, j + 1)) == sample_sum(s.subrange(start, j)) + s[j],
{
    assert(s.subrange(start, j + 1).drop_last() =~= s.subrange(start, j));
}

/// Mixes interleaved `channels`-channel samples down to mono, one sample per
/// frame: the frame's sum divided by `channels`, rounded toward zero.
pub fn mix_to_mono(data: &[i16], channels: u16) -> (mono: Vec<i16>)
    requires
        channels > 0,
    ensures
        mono@ == mono_mix(data@, channels as nat),
{
    let len = data.len();
    let ch = channels as usize;
    assert(len % ch != 0 ==> len / ch < usize::MAX) by (nonlinear_arith)
        requires ch > 0, len <= usize::MAX;
    let frames = len / ch + if len % ch == 0 {
        0
    } else {
        1
    };
    assert(frames == frame_count(len as nat, ch as nat)) by (nonlinear_arith)
        requires
            ch > 0,
            frames == len / ch + if len % ch == 0 { 0int } else { 1int },
    ;
    let mut mono: Vec<i16> = Vec::new();
    let mut k: usize = 0;
    while k < frames
        invariant
            len == data@.len(),
            ch == channels,
            ch > 0,
            frames == frame_count(len as nat, ch as nat),
            k <= frames,
            mono@.len() == k,
            forall|m: int| 0 <= m < k ==> mono@[m] == mono_mix(data@, ch as nat)[m],
        decreases frames - k,
    {
        proof {
            lemma_frame_start_in_range(k as int, len as int, ch as int);
        }
        let start = k * ch;
        let end = if len - start < ch {
            len
        } else {
            start + ch
        };
        assert(data@.subrange(start as int, end as int) == frame(data@, ch as nat, k as int));
        let mut sum: i32 = 0;
        let mut j: usize = start;
        while j < end
            invariant
                start <= j <= end <= len,
                len == data@.len(),
                end - start <= ch <= 65535,
                sum == sample_sum(data@.subrange(start as int, j as int)),
                -32768 * (j - start) <= sum <= 32767 * (j - start),
            decreases end - j,
        {
            proof {
                lemma_sum_step(data@, start as int, j as int);
            }
            sum = sum + data[j] as i32;
            j = j + 1;
        }
        proof {
            let n: int = (end - start) as int;
            assert(-32768 * (ch as int) <= sum <= 32767 * (ch as int)) by (nonlinear_arith)
                requires
                    -32768 * n <= sum <= 32767 * n,
                    0 <= n <= ch,
            ;
            lemma_div_toward_zero_between(sum as int, ch as int, -32768, 32767);
        }
        let c = ch as i32;
        let value: i32 = if sum >= 0 {
            sum / c
        } else {
            -((-sum) / c)
        };
        mono.push(value as i16);
        k = k + 1;
    }
    assert(mono@ =~= mono_mix(data@, ch as nat));
    mono
}

/// The 16-bit signed value of the little-endian byte pair `lo`, `hi`.
pub open spec fn le_i16(lo: u8, hi: u8) -> int {
    let u = lo + 256 * hi;
    if u >= 32768 {
        u - 65536
    } else {
        u
    }
}

/// The 16-bit little-endian samples encoded in `bytes`; a trailing odd byte is dropped.
pub open spec fn decoded_s16le(bytes: Seq<u8>) -> Seq<i16> {
    Seq::new(bytes.len() / 2, |k: int| le_i16(bytes[2 * k], bytes[2 * k + 1]) as i16)
}

/// The little-endian byte encoding of 16-bit samples.
pub open spec fn encoded_s16le(samples: Seq<i16>) -> Seq<u8> {
    Seq::new(
        samples.len() * 2,
        |b: int|
            {
                let v = samples[b / 2];
                let u = if v < 0 {
                    v + 65536
                } else {
                    v as int
                };
                if b % 2 == 0 {
                    (u % 256) as u8
                } else {
                    (u / 256) as u8
                }
            },
    )
}

/// Decodes the bytes `bytes[start..end]` as 16-bit little-endian samples,
/// two bytes per sample, dropping a trailing odd byte.
pub fn decode_s16le(bytes: &[u8], start: usize, end: usize) -> (samples: Vec<i16>)
    requires
        start <= end <= bytes@.len(),
    ensures
        samples@ == decoded_s16le(bytes@.subrange(start as int, end as int)),
{
    let ghost region = bytes@.subrange(start as int, end as int);
    let count = (end - start) / 2;
    let mut samples: Vec<i16> = Vec::new();
    let mut k: usize = 0;
    while k < count
        invariant
            start <= end <= bytes@.len(),
            region == bytes@.subrange(start as int, end as int),
            count == (end - start) / 2,
            k <= count,
            samples@.len() == k,
            forall|m: int| 0 <= m < k ==> samples@[m] == decoded_s16le(region)[m],
        decreases count - k,
    {
        let lo = bytes[start + 2 * k];
        let hi = bytes[start + 2 * k + 1];
        let u: u32 = lo as u32 + 256 * hi as u32;
        let value: i16 = if u >= 32768 {
            (u as i32 - 65536) as i16
        } else {
            u as i16
        };
        samples.push(value);
        k = k + 1;
    }
    assert(samples@ =~= decoded_s16le(region));
    samples
}

/// Encodes samples as 16-bit little-endian bytes, two per sample.
pub fn encode_s16le(samples: &[i16]) -> (bytes: Vec<u8>)
    requires
        samples@.len() * 2 <= usize::MAX,
    ensures
        bytes@ == encoded_s16le(samples@),
{
    let mut bytes: Vec<u8> = Vec::new();
    let mut k: usize = 0;
    while k < samples.len()
        invariant
            k <= samples@.len(),
            samples@.len() * 2 <= usize::MAX,
            bytes@.len() == 2 * k,
            forall|b: int| 0 <= b < 2 * k ==> bytes@[b] == encoded_s16le(samples@)[b],
        decreases samples@.len() - k,
    {
        let v = samples[k];
        let u: u32 = if v < 0 {
            (v as i32 + 65536) as u32
        } else {
            v as u32
        };
        bytes.push((u % 256) as u8);
        bytes.push((u / 256) as u8);
        k = k + 1;
        assert forall|b: int| 0 <= b < 2 * k implies bytes@[b] == encoded_s16le(samples@)[b] by {
            if b >= 2 * k - 2 {
                assert(b / 2 == k - 1);
            }
        }
    }
    assert(bytes@ =~= encoded_s16le(samples@));
    bytes
}

/// Stereo pairs averaged to mono: each complete pair's sum halved toward
/// zero; a lone trailing sample is kept as it is.
pub open spec fn stereo_to_mono_samples(s: Seq<i16>) -> Seq<i16> {
    Seq::new(
        (s.len() + 1) / 2,
        |k: int|
            if 2 * k + 1 < s.len() {
                div_toward_zero(s[2 * k] + s[2 * k + 1], 2) as i16
            } else {
                s[2 * k]
            },
    )
}

/// Averages interleaved stereo pairs to mono.
pub fn stereo_to_mono(samples: &[i16]) -> (mono: Vec<i16>)
    ensures
        mono@ == stereo_to_mono_samples(samples@),
{
    let len = samples.len();
    let count = len / 2 + len % 2;
    let mut mono: Vec<i16> = Vec::new();
    let mut k: usize = 0;
    while k < count
        invariant
            len == samples@.len(),
            count == (len + 1) / 2,
            k <= count,
            mono@.len() == k,
            forall|m: int| 0 <= m < k ==> mono@[m] == stereo_to_mono_samples(samples@)[m],
        decreases count - k,
    {
        let value: i16 = if 2 * k + 1 < len {
            let sum: i32 = samples[2 * k] as i32 + samples[2 * k + 1] as i32;
            let half: i32 = if sum >= 0 {
                sum / 2
            } else {
                -((-sum) / 2)
            };
            half as i16
        } else {
            samples[2 * k]
        };
        mono.push(value);
        k = k + 1;
    }
    assert(mono@ =~= stereo_to_mono_samples(samples@));
    mono
}

/// Every third sample, starting with the first (a 48 kHz to 16 kHz decimation).
pub open spec fn every_third_samples(s: Seq<i16>) -> Seq<i16> {
    Seq::new((s.len() + 2) / 3, |k: int| s[3 * k])
}

/// Keeps every third sample, starting with the first.
pub fn take_every_third(samples: &[i16]) -> (out: Vec<i16>)
    ensures
        out@ == every_third_samples(samples@),
{
    let len = samples.len();
    let count = len / 3 + if len % 3 == 0 {
        0
    } else {
        1
    };
    let mut out: Vec<i16> = Vec::new();
    let mut k: usize = 0;
    while k < count
        invariant
            len == samples@.len(),
            count == (len + 2) / 3,
            k <= count,
            out@.len() == k,
            forall|m: int| 0 <= m < k ==> out@[m] == samples@[3 * m],
        decreases count - k,
    {
        out.push(samples[3 * k]);
        k = k + 1;
    }
    assert(out@ =~= every_third_samples(samples@));
    out
}

/// The byte range of a capture buffer that holds valid data: the chunk's
/// `offset`..`offset + size` when it is non-empty and inside the buffer, else
/// the whole buffer.
pub open spec fn valid_region(buffer_len: int, offset: int, size: int) -> (int, int) {
    if offset + size <= buffer_len && size > 0 {
        (offset, offset + size)
    } else {
        (0, buffer_len)
    }
}

/// The samples that one system-audio capture buffer yields: the valid
/// region decoded as 16-bit little-endian stereo, averaged to mono, then
/// decimated by three.
pub open spec fn system_capture_samples(raw: Seq<u8>, offset: int, size: int) -> Seq<i16> {
    let region = valid_region(raw.len() as int, offset, size);
    every_third_samples(
        stereo_to_mono_samples(decoded_s16le(raw.subrange(region.0, region.1))),
    )
}

/// Converts one system-audio capture buffer (48 kHz 16-bit stereo) to
/// 16 kHz mono samples, reading only the chunk's valid region.
pub fn convert_system_capture(raw: &[u8], offset: usize, size: usize) -> (samples: Vec<i16>)
    ensures
        samples@ == system_capture_samples(raw@, offset as int, size as int),
{
    let len = raw.len();
    let (start, end) = if offset <= len && size <= len - offset && size > 0 {
        (offset, offset + size)
    } else {
        (0, len)
    };
    let stereo = decode_s16le(raw, start, end);
    let mono = stereo_to_mono(stereo.as_slice());
    take_every_third(mono.as_slice())
}

/// The sum of the squares of the samples.
pub open spec fn sum_of_squares_spec(s: Seq<i16>) -> int
    decreases s.len(),
{
    if s.len() == 0 {
        0
    } else {
        sum_of_squares_spec(s.drop_last()) + s.last() * s.last()
    }
}

/// The energy of a chunk: the sum of the squares of its samples.
pub fn sum_of_squares(samples: &[i16]) -> (total: u128)
    ensures
        total == sum_of_squares_spec(samples@),
{
    let mut total: u128 = 0;
    let mut i: usize = 0;
    while i < samples.len()
        invariant
            i <= samples@.len(),
            total == sum_of_squares_spec(samples@.take(i as int)),
            total <= 1073741824 * i,
        decreases samples@.len() - i,
    {
        let v = samples[i] as i64;
        assert(0 <= v * v <= 1073741824) by (nonlinear_arith)
            requires -32768 <= v <= 32767;
        let sq: i64 = v * v;
        assert(samples@.take(i + 1).drop_last() =~= samples@.take(i as int));
        total = total + sq as u128;
        i = i + 1;
    }
    assert(samples@.take(samples@.len() as int) =~= samples@);
    total
}


/// Samples handed on per chunk from system capture (100 ms at 16 kHz).
pub const CHUNK_SIZE: usize = 1600;

/// The full chunks of `all`, in order.
pub open spec fn full_chunks(all: Seq<i16>) -> Seq<Seq<i16>> {
    Seq::new(
        all.len() / (CHUNK_SIZE as nat),
        |j: int| all.subrange(j * CHUNK_SIZE, (j + 1) * CHUNK_SIZE),
    )
}

/// What is left of `all` after its full chunks.
pub open spec fn chunk_leftover(all: Seq<i16>) -> Seq<i16> {
    all.subrange((all.len() / (CHUNK_SIZE as nat)) * CHUNK_SIZE, all.len() as int)
}

/// The views of a vector of sample vectors.
pub open spec fn chunk_views(v: Seq<Vec<i16>>) -> Seq<Seq<i16>> {
    v.map_values(|c: Vec<i16>| c@)
}

/// A fresh vector holding `v[start..end]`.
pub fn copy_range(v: &Vec<i16>, start: usize, end: usize) -> (out: Vec<i16>)
    requires
        start <= end <= v@.len(),
    ensures
        out@ == v@.subrange(start as int, end as int),
{
    let mut out: Vec<i16> = Vec::new();
    let mut i: usize = start;
    while i < end
        invariant
            start <= i <= end <= v@.len(),
            out@ == v@.subrange(start as int, i as int),
        decreases end - i,
    {
        out.push(v[i]);
        i = i + 1;
        assert(out@ =~= v@.subrange(start as int, i as int));
    }
    out
}

/// Collects converted system-audio samples and hands them on in chunks of
/// exactly [`CHUNK_SIZE`] samples, keeping the rest until more arrive.
pub struct ChunkAccumulator {
    pending: Vec<i16>,
}

impl View for ChunkAccumulator {
    type V = Seq<i16>;

    /// The samples waiting for a chunk to fill.
    closed spec fn view(&self) -> Seq<i16> {
        self.pending@
    }
}

impl ChunkAccumulator {
    /// Fewer than a chunk's worth of samples ever wait.
    #[verifier::type_invariant]
    spec fn pending_below_chunk(self) -> bool {
        self.pending@.len() < CHUNK_SIZE
    }

    /// An accumulator with nothing pending.
    pub fn new() -> (acc: Self)
        ensures
            acc@ == Seq::<i16>::empty(),
    {
        ChunkAccumulator { pending: Vec::new() }
    }

    /// The number of samples waiting; always below a chunk.
    pub fn pending_len(&self) -> (n: usize)
        ensures
            n == self@.len(),
            n < CHUNK_SIZE,
    {
        proof {
            use_type_invariant(self);
        }
        self.pending.len()
    }

    /// Appends `samples` to what is pending and takes out every full chunk, in
    /// order; what remains stays pending.
    pub fn push_samples(&mut self, samples: &[i16]) -> (chunks: Vec<Vec<i16>>)
        requires
            old(self)@.len() + samples@.len() <= usize::MAX,
        ensures
            chunk_views(chunks@) == full_chunks(old(self)@ + samples@),
            final(self)@ == chunk_leftover(old(self)@ + samples@),
    {
        proof {
            use_type_invariant(&*self);
        }
        let mut all: Vec<i16> = Vec::new();
        let mut i: usize = 0;
        while i < self.pending.len()
            invariant
                i <= self.pending@.len(),
                all@ == self.pending@.take(i as int),
            decreases self.pending@.len() - i,
        {
            all.push(self.pending[i]);
            i = i + 1;
            assert(all@ =~= self.pending@.take(i as int));
        }
        assert(self.pending@.take(self.pending@.len() as int) =~= self.pending@);
        let mut k: usize = 0;
        while k < samples.len()
            invariant
                k <= samples@.len(),
                all@ == self.pending@ + samples@.take(k as int),
            decreases samples@.len() - k,
        {
            all.push(samples[k]);
            k = k + 1;
            assert(all@ =~= self.pending@ + samples@.take(k as int));
        }
        assert(samples@.take(samples@.len() as int) =~= samples@);
        let ghost whole = all@;
        assert(whole == self@ + samples@);
        let total = all.len();
        let n = total / CHUNK_SIZE;
        let mut chunks: Vec<Vec<i16>> = Vec::new();
        let mut j: usize = 0;
        while j < n
            invariant
                all@ == whole,
                total == whole.len(),
                n == total / CHUNK_SIZE,
                j <= n,
                chunks@.len() == j,
                forall|m: int| 0 <= m < j ==> #[trigger] chunks@[m]@ == full_chunks(whole)[m],
            decreases n - j,
        {
            assert((j + 1) * CHUNK_SIZE <= total) by (nonlinear_arith)
                requires j < n, n == total / CHUNK_SIZE;
            let chunk = copy_range(&all, j * CHUNK_SIZE, (j + 1) * CHUNK_SIZE);
            chunks.push(chunk);
            j = j + 1;
        }
        assert(n * CHUNK_SIZE <= all@.len()) by (nonlinear_arith)
            requires n == all@.len() / (CHUNK_SIZE as nat);
        let rest = copy_range(&all, n * CHUNK_SIZE, all.len());
        assert(rest@.len() < CHUNK_SIZE) by (nonlinear_arith)
            requires n == all@.len() / (CHUNK_SIZE as nat), rest@.len() == all@.len() - n * CHUNK_SIZE;
        self.pending = rest;
        assert(chunk_views(chunks@) =~= full_chunks(whole));
        chunks
    }
}


/// Whether `pattern` occurs in `text` at some position.
pub open spec fn contains_text(text: Seq<char>, pattern: Seq<char>) -> bool {
    exists|i: int| 0 <= i <= text.len() - pattern.len() && #[trigger] text.subrange(i, i + pattern.len()) == pattern
}

/// The lowercase mapping of `s`, as Rust's `str::to_lowercase` gives it.
pub uninterp spec fn lowercase_text(s: Seq<char>) -> Seq<char>;

/// Lowercases `s` with `str::to_lowercase`.
/// Trusted: the result is `lowercase_text` of `s`, a function of `s` alone.
#[verifier::external_body]
fn to_lowercase(s: &str) -> (lower: String)
    ensures
        lower@ == lowercase_text(s@),
{
    s.to_lowercase()
}

/// Whether `pattern` occurs in `text`.
pub fn contains(text: &str, pattern: &str) -> (found: bool)
    ensures
        found == contains_text(text@, pattern@),
{
    let n = text.unicode_len();
    let m = pattern.unicode_len();
    if m > n {
        assert(!contains_text(text@, pattern@));
        return false;
    }
    let mut i: usize = 0;
    while i <= n - m
        invariant
            n == text@.len(),
            m == pattern@.len(),
            m <= n,
            i <= n - m + 1,
            forall|k: int| 0 <= k < i ==> #[trigger] text@.subrange(k, k + m) != pattern@,
        decreases n - m + 1 - i,
    {
        let mut j: usize = 0;
        let mut same = true;
        while j < m
            invariant
                n == text@.len(),
                m == pattern@.len(),
                i + m <= n,
                j <= m,
                same == (forall|l: int| 0 <= l < j ==> text@[i + l] == pattern@[l]),
            decreases m - j,
        {
            if text.get_char(i + j) != pattern.get_char(j) {
                same = false;
            }
            j = j + 1;
        }
        if same {
            assert(text@.subrange(i as int, i + m) =~= pattern@);
            return true;
        }
        assert(text@.subrange(i as int, i + m) != pattern@) by {
            let l = choose|l: int| 0 <= l < m && text@[i + l] != pattern@[l];
            assert(text@.subrange(i as int, i + m)[l] == text@[i + l]);
        }
        i = i + 1;
    }
    assert forall|k: int| 0 <= k <= n - m implies #[trigger] text@.subrange(k, k + m) != pattern@ by {}
    false
}

/// Whether a device name marks a monitor (loopback) source: it contains
/// `monitor` in any letter case.
pub open spec fn is_monitor_name(name: Seq<char>) -> bool {
    contains_text(lowercase_text(name), "monitor"@)
}

/// Whether the device named `name` is a monitor of an output.
pub fn is_monitor_device_name(name: &str) -> (monitor: bool)
    ensures
        monitor == is_monitor_name(name@),
{
    let lower = to_lowercase(name);
    contains(lower.as_str(), "monitor")
}

/// Whether a listed device name (absent when it could not be read) marks a monitor.
pub open spec fn names_monitor(name: Option<String>) -> bool {
    name matches Some(n) && is_monitor_name(n@)
}

/// Picks the system-audio device among input devices listed by name (or
/// `None` where the name could not be read): the first monitor, if any.
pub fn find_monitor_device(names: &Vec<Option<String>>) -> (index: Option<usize>)
    ensures
        match index {
            Some(k) => {
                &&& k < names@.len()
                &&& names_monitor(names@[k as int])
                &&& forall|j: int| 0 <= j < k ==> !names_monitor(#[trigger] names@[j])
            },
            None => forall|j: int| 0 <= j < names@.len() ==> !names_monitor(#[trigger] names@[j]),
        },
{
    let mut k: usize = 0;
    while k < names.len()
        invariant
            k <= names@.len(),
            forall|j: int| 0 <= j < k ==> !names_monitor(#[trigger] names@[j]),
        decreases names@.len() - k,
    {
        match &names[k] {
            Some(name) => {
                if is_monitor_device_name(name.as_str()) {
                    return Some(k);
                }
            },
            None => {},
        }
        k = k + 1;
    }
    None
}

proof fn lemma_chunks_prefix(all: Seq<i16>, k: int)
    requires
        0 <= k <= all.len() / (CHUNK_SIZE as nat),
    ensures
        full_chunks(all).take(k).flatten() =~= all.subrange(0, k * CHUNK_SIZE),
    decreases k,
{
    let fc = full_chunks(all);
    if k == 0 {
        assert(fc.take(0) =~= Seq::<Seq<i16>>::empty());
    } else {
        lemma_chunks_prefix(all, k - 1);
        assert(fc.take(k) =~= fc.take(k - 1).push(fc[k - 1]));
        fc.take(k - 1).lemma_flatten_push(fc[k - 1]);
        assert(k * CHUNK_SIZE <= all.len()) by (nonlinear_arith)
            requires k <= all.len() / (CHUNK_SIZE as nat), k >= 1;
        assert((k - 1) * CHUNK_SIZE + CHUNK_SIZE == k * CHUNK_SIZE) by (nonlinear_arith);
        assert(all.subrange(0, (k - 1) * CHUNK_SIZE) + all.subrange((k - 1) * CHUNK_SIZE, k * CHUNK_SIZE)
            =~= all.subrange(0, k * CHUNK_SIZE));
    }
}

/// Chunking loses and reorders nothing: the full chunks handed out, in
/// order, followed by what is kept pending, are exactly the samples given;
/// every chunk holds [`CHUNK_SIZE`] samples and fewer than that are kept.
pub proof fn law_chunking_conserves_samples(all: Seq<i16>)
    ensures
        full_chunks(all).flatten() + chunk_leftover(all) == all,
        chunk_leftover(all).len() < CHUNK_SIZE,
        forall|j: int| 0 <= j < full_chunks(all).len() ==> (#[trigger] full_chunks(all)[j]).len() == CHUNK_SIZE,
{
    let n = all.len() / (CHUNK_SIZE as nat);
    lemma_chunks_prefix(all, n as int);
    assert(full_chunks(all).take(n as int) =~= full_chunks(all));
    assert(n * CHUNK_SIZE <= all.len()) by (nonlinear_arith)
        requires n == all.len() / (CHUNK_SIZE as nat);
    assert(all.len() - n * CHUNK_SIZE < CHUNK_SIZE) by (nonlinear_arith)
        requires n == all.len() / (CHUNK_SIZE as nat);
    assert(all.subrange(0, n * CHUNK_SIZE) + chunk_leftover(all) =~= all);
    assert forall|j: int| 0 <= j < full_chunks(all).len() implies (#[trigger] full_chunks(all)[j]).len() == CHUNK_SIZE by {
        assert((j + 1) * CHUNK_SIZE <= all.len()) by (nonlinear_arith)
            requires 0 <= j < n, n == all.len() / (CHUNK_SIZE as nat);
        assert((j + 1) * CHUNK_SIZE - j * CHUNK_SIZE == CHUNK_SIZE) by (nonlinear_arith);
    }
}

/// The chunks handed out while `inputs` arrive one after another, starting
/// with `pending` waiting, in the order they are handed out.
pub open spec fn chunks_over_run(pending: Seq<i16>, inputs: Seq<Seq<i16>>) -> Seq<Seq<i16>>
    decreases inputs.len(),
{
    if inputs.len() == 0 {
        Seq::empty()
    } else {
        chunks_over_run(pending, inputs.drop_last()) + full_chunks(
            pending_after_run(pending, inputs.drop_last()) + inputs.last(),
        )
    }
}

/// What waits after `inputs` have arrived one after another, starting with
/// `pending` waiting.
pub open spec fn pending_after_run(pending: Seq<i16>, inputs: Seq<Seq<i16>>) -> Seq<i16>
    decreases inputs.len(),
{
    if inputs.len() == 0 {
        pending
    } else {
        chunk_leftover(pending_after_run(pending, inputs.drop_last()) + inputs.last())
    }
}

/// Over any run of arrivals, chunking loses, duplicates and reorders
/// nothing: all chunks handed out, in order, followed by what still waits,
/// are what was waiting followed by everything that arrived; every chunk
/// holds [`CHUNK_SIZE`] samples and fewer than that wait.
pub proof fn law_chunking_over_many_buffers(pending: Seq<i16>, inputs: Seq<Seq<i16>>)
    requires
        pending.len() < CHUNK_SIZE,
    ensures
        chunks_over_run(pending, inputs).flatten() + pending_after_run(pending, inputs) == pending
            + inputs.flatten(),
        pending_after_run(pending, inputs).len() < CHUNK_SIZE,
        forall|k: int|
            0 <= k < chunks_over_run(pending, inputs).len() ==> (#[trigger] chunks_over_run(
                pending,
                inputs,
            )[k]).len() == CHUNK_SIZE,
    decreases inputs.len(),
{
    if inputs.len() > 0 {
        let before = inputs.drop_last();
        law_chunking_over_many_buffers(pending, before);
        let p = pending_after_run(pending, before);
        let all = p + inputs.last();
        law_chunking_conserves_samples(all);
        let earlier = chunks_over_run(pending, before);
        let now_out = full_chunks(all);
        vstd::seq_lib::lemma_flatten_concat(earlier, now_out);
        assert(inputs =~= before.push(inputs.last()));
        before.lemma_flatten_push(inputs.last());
        let ef = earlier.flatten();
        let nf = now_out.flatten();
        let left = chunk_leftover(all);
        assert(chunks_over_run(pending, inputs) == earlier + now_out);
        assert(pending_after_run(pending, inputs) == left);
        assert(nf + left == all);
        assert(ef + nf + left =~= ef + (nf + left));
        assert(ef + all =~= (ef + p) + inputs.last());
        assert(ef + p == pending + before.flatten());
        assert((pending + before.flatten()) + inputs.last() =~= pending + (before.flatten()
            + inputs.last()));
        assert(inputs.flatten() == before.flatten() + inputs.last());
        assert forall|k: int|
            0 <= k < chunks_over_run(pending, inputs).len() implies (#[trigger] chunks_over_run(
            pending,
            inputs,
        )[k]).len() == CHUNK_SIZE by {
            if k < earlier.len() {
                assert(chunks_over_run(pending, inputs)[k] == earlier[k]);
            } else {
                assert(chunks_over_run(pending, inputs)[k] == now_out[k - earlier.len()]);
            }
        }
    }
}

/// The samples that a run of system-capture buffers yields, buffer by
/// buffer: each buffer with its chunk offset and size.
pub open spec fn capture_run_samples(buffers: Seq<(Seq<u8>, int, int)>) -> Seq<Seq<i16>> {
    buffers.map_values(|b: (Seq<u8>, int, int)| system_capture_samples(b.0, b.1, b.2))
}

/// System capture over any run of buffers hands on, in order, exactly the
/// converted samples of all buffers cut into chunks of [`CHUNK_SIZE`]; fewer
/// than that stay buffered.
pub proof fn law_system_capture_over_many_buffers(buffers: Seq<(Seq<u8>, int, int)>)
    ensures
        chunks_over_run(Seq::empty(), capture_run_samples(buffers)).flatten() + pending_after_run(
            Seq::empty(),
            capture_run_samples(buffers),
        ) == capture_run_samples(buffers).flatten(),
        pending_after_run(Seq::empty(), capture_run_samples(buffers)).len() < CHUNK_SIZE,
        forall|k: int|
            0 <= k < chunks_over_run(Seq::empty(), capture_run_samples(buffers)).len() ==> (
            #[trigger] chunks_over_run(Seq::empty(), capture_run_samples(buffers))[k]).len()
                == CHUNK_SIZE,
{
    law_chunking_over_many_buffers(Seq::empty(), capture_run_samples(buffers));
    assert(Seq::<i16>::empty() + capture_run_samples(buffers).flatten()
        =~= capture_run_samples(buffers).flatten());
}

/// Resampling at equal rates, or of no samples, gives back the samples
/// unchanged; unequal rates always call for interpolation.
pub proof fn law_resample_same_rate_is_identity(s: Seq<i16>, source_rate: nat, target_rate: nat)
    ensures
        resample_passthrough(s, target_rate, target_rate) == Some(s),
        resample_passthrough(Seq::<i16>::empty(), source_rate, target_rate) == Some(
            Seq::<i16>::empty(),
        ),
        source_rate != target_rate && s.len() > 0 ==> resample_passthrough(
            s,
            source_rate,
            target_rate,
        ) is None,
{
}

/// Each sample duplicated into both channels of a stereo stream.
pub open spec fn duplicated_to_stereo(s: Seq<i16>) -> Seq<i16> {
    Seq::new(2 * s.len(), |i: int| s[i / 2])
}

/// Averaging a stereo stream whose channels are equal gives back the channel.
pub proof fn law_stereo_of_equal_channels(s: Seq<i16>)
    ensures
        stereo_to_mono_samples(duplicated_to_stereo(s)) == s,
{
    let d = duplicated_to_stereo(s);
    let m = stereo_to_mono_samples(d);
    assert(m.len() == s.len());
    assert forall|k: int| 0 <= k < s.len() implies m[k] == s[k] by {
        assert((2 * k) / 2 == k);
        assert((2 * k + 1) / 2 == k);
        let v = s[k] as int;
        assert(div_toward_zero(v + v, 2) == v);
    }
    assert(m =~= s);
}

/// Decoding the little-endian encoding of samples gives back the samples.
pub proof fn law_decode_encode_roundtrip(s: Seq<i16>)
    ensures
        decoded_s16le(encoded_s16le(s)) == s,
{
    let e = encoded_s16le(s);
    let d = decoded_s16le(e);
    assert(d.len() == s.len());
    assert forall|k: int| 0 <= k < s.len() implies d[k] == s[k] by {
        assert((2 * k) / 2 == k);
        assert((2 * k + 1) / 2 == k);
        assert((2 * k) % 2 == 0);
        assert((2 * k + 1) % 2 == 1);
        let v = s[k] as int;
        let u = if v < 0 { v + 65536 } else { v };
        assert(0 <= u < 65536);
        assert((u % 256) + 256 * (u / 256) == u) by (nonlinear_arith)
            requires 0 <= u;
        assert(u / 256 < 256) by (nonlinear_arith)
            requires 0 <= u < 65536;
    }
    assert(d =~= s);
}


/// A capture buffer's samples come from its valid chunk alone: when the
/// chunk `offset..offset + size` is non-empty and inside the buffer, the
/// result is that of the chunk's bytes on their own, bytes outside the chunk
/// (stale data from earlier cycles) never matter, and `size` bytes give
/// `((size / 2 + 1) / 2 + 2) / 3` samples.
pub proof fn law_capture_reads_only_valid_chunk(
    raw: Seq<u8>,
    other: Seq<u8>,
    offset: int,
    size: int,
)
    requires
        0 <= offset,
        0 < size,
        offset + size <= raw.len(),
        offset + size <= other.len(),
        other.subrange(offset, offset + size) == raw.subrange(offset, offset + size),
    ensures
        system_capture_samples(raw, offset, size) == system_capture_samples(
            raw.subrange(offset, offset + size),
            0,
            size,
        ),
        system_capture_samples(raw, offset, size) == system_capture_samples(other, offset, size),
        system_capture_samples(raw, offset, size).len() == ((size / 2 + 1) / 2 + 2) / 3,
{
    let chunk = raw.subrange(offset, offset + size);
    assert(chunk.subrange(0, size) =~= chunk);
}

/// Adding a sample to a chunk adds exactly its square to the chunk's energy:
/// the energy is the exact sum of squares, with no wrapping.
pub proof fn law_energy_adds_square(s: Seq<i16>, x: i16)
    ensures
        sum_of_squares_spec(s.push(x)) == sum_of_squares_spec(s) + x * x,
{
    assert(s.push(x).drop_last() =~= s);
}

/// The energy of a chunk is never negative and never decreases when samples
/// are added after it.
pub proof fn law_energy_grows_with_samples(s: Seq<i16>, t: Seq<i16>)
    ensures
        0 <= sum_of_squares_spec(s) <= sum_of_squares_spec(s + t),
    decreases s.len() + t.len(),
{
    if t.len() == 0 {
        assert(s + t =~= s);
        if s.len() > 0 {
            law_energy_grows_with_samples(s.drop_last(), t);
            assert(s.last() * s.last() >= 0) by (nonlinear_arith);
        }
    } else {
        law_energy_grows_with_samples(s, t.drop_last());
        assert((s + t).drop_last() =~= s + t.drop_last());
        let y = (s + t).last();
        assert(y * y >= 0) by (nonlinear_arith);
    }
}

/// A chunk whose samples all equal `v` has energy `len * v * v`.
pub proof fn law_energy_of_constant_chunk(s: Seq<i16>, v: i16)
    requires
        forall|i: int| 0 <= i < s.len() ==> s[i] == v,
    ensures
        sum_of_squares_spec(s) == s.len() * (v * v),
    decreases s.len(),
{
    if s.len() > 0 {
        let d = s.drop_last();
        law_energy_of_constant_chunk(d, v);
        let m: int = d.len() as int;
        let w: int = v * v;
        assert((m + 1) * w == m * w + w) by (nonlinear_arith);
    }
}

/// Every partial sum of 16-bit samples lies within the samples' range
/// times their count.
proof fn lemma_sample_sum_bounds(s: Seq<i16>)
    ensures
        -32768 * s.len() <= sample_sum(s) <= 32767 * s.len(),
    decreases s.len(),
{
    if s.len() > 0 {
        lemma_sample_sum_bounds(s.drop_last());
    }
}

/// Replacing one sample changes the sum by the difference.
proof fn lemma_sample_sum_update(a: Seq<i16>, idx: int, x: i16)
    requires
        0 <= idx < a.len(),
    ensures
        sample_sum(a.update(idx, x)) == sample_sum(a) - a[idx] + x,
    decreases a.len(),
{
    let b = a.update(idx, x);
    if idx == a.len() - 1 {
        assert(b.drop_last() =~= a.drop_last());
    } else {
        lemma_sample_sum_update(a.drop_last(), idx, x);
        assert(b.drop_last() =~= a.drop_last().update(idx, x));
    }
}

/// Each mixed sample is its frame's average: times the channel count it is
/// the frame's sum rounded toward zero to a multiple of the channel count
/// (every sample of the frame counts, whatever its channel); there is one
/// mixed sample per frame.
pub proof fn law_mono_sample_is_frame_average(s: Seq<i16>, channels: nat, k: int)
    requires
        channels > 0,
        0 <= k < frame_count(s.len(), channels),
    ensures
        mono_mix(s, channels).len() == frame_count(s.len(), channels),
        ({
            let m = mono_mix(s, channels)[k] as int;
            let t = sample_sum(frame(s, channels, k));
            &&& t >= 0 ==> m * channels <= t < m * channels + channels
            &&& t < 0 ==> m * channels - channels < t <= m * channels
        }),
{
    let c = channels as int;
    lemma_frame_start_in_range(k, s.len() as int, c);
    let f = frame(s, channels, k);
    let t = sample_sum(f);
    lemma_sample_sum_bounds(f);
    let l = f.len() as int;
    assert(l <= c);
    assert(-32768 * c <= t <= 32767 * c) by (nonlinear_arith)
        requires
            -32768 * l <= t <= 32767 * l,
            0 <= l <= c,
    ;
    lemma_div_toward_zero_between(t, c, -32768, 32767);
    let d = div_toward_zero(t, c);
    assert(mono_mix(s, channels)[k] as int == d);
    if t >= 0 {
        assert(d * c <= t < d * c + c) by (nonlinear_arith)
            requires
                c > 0,
                t >= 0,
                d == t / c,
        ;
    } else {
        let u = -t;
        let q = u / c;
        assert(q * c <= u < q * c + c) by (nonlinear_arith)
            requires
                c > 0,
                u > 0,
                q == u / c,
        ;
        assert(d == -q);
        assert(d * c == -(q * c)) by (nonlinear_arith)
            requires
                d == -q,
        ;
    }
}

/// Mixing does not depend on which channel carries which sample: swapping
/// two samples of one frame leaves that frame's mixed sample unchanged.
pub proof fn law_mono_ignores_channel_order(s: Seq<i16>, channels: nat, k: int, i: int, j: int)
    requires
        channels > 0,
        0 <= k < frame_count(s.len(), channels),
        k * channels <= i < k * channels + channels,
        k * channels <= j < k * channels + channels,
        i < s.len(),
        j < s.len(),
    ensures
        mono_mix(s.update(i, s[j]).update(j, s[i]), channels).len() == mono_mix(s, channels).len(),
        mono_mix(s.update(i, s[j]).update(j, s[i]), channels)[k] == mono_mix(s, channels)[k],
{
    let c = channels as int;
    let s2 = s.update(i, s[j]).update(j, s[i]);
    lemma_frame_start_in_range(k, s.len() as int, c);
    let st = k * c;
    let f = frame(s, channels, k);
    let f2 = frame(s2, channels, k);
    if i == j {
        assert(s2 =~= s);
    } else {
        let g = f.update(i - st, s[j]);
        assert(f2 =~= g.update(j - st, s[i]));
        lemma_sample_sum_update(f, i - st, s[j]);
        lemma_sample_sum_update(g, j - st, s[i]);
        assert(g[j - st] == s[j]);
        assert(f[i - st] == s[i]);
    }
    assert(sample_sum(f2) == sample_sum(f));
}

} // verus!
