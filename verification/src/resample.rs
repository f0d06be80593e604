//! Positions of the linear-interpolation resampler.
//!
//! Captured audio arrives interleaved at the device's rate and is brought to
//! mono at [`TARGET_RATE`]. Which frames are read for an output sample, and
//! with what weight, is integer arithmetic and is settled here; the caller
//! applies the weights to the amplitudes.

use vstd::prelude::*;

verus! {

/// Sample rate of canonical audio, in hertz.
pub const TARGET_RATE: u32 = 16000;

/// Channel count of canonical audio.
pub const TARGET_CHANNELS: u16 = 1;

/// Width of a sample in the audio file: signed 16-bit integers.
pub const BITS_PER_SAMPLE: u16 = 16;

/// Number of mono frames that `samples` interleaved samples of `channels`
/// channels give. A trailing group that is not full still counts as a frame.
pub open spec fn spec_mono_len(samples: int, channels: int) -> int {
    if channels <= 1 {
        samples
    } else {
        (samples + channels - 1) / channels
    }
}

/// Number of output samples for `mono_len` frames captured at `rate`:
/// the floor of `mono_len / (rate / 16000)`.
pub open spec fn spec_resampled_len(mono_len: int, rate: int) -> int {
    (mono_len * 16000) / rate
}

/// Frame on which output sample `i` starts: the floor of `i * (rate / 16000)`.
pub open spec fn spec_source_index(i: int, rate: int) -> int {
    (i * rate) / 16000
}

/// Weight of the following frame for output sample `i`, in 16000ths: the
/// fractional part of `i * (rate / 16000)`.
pub open spec fn spec_source_weight(i: int, rate: int) -> int {
    (i * rate) % 16000
}

/// Whether captured audio has to pass through the resampler at all.
pub open spec fn spec_needs_resampling(rate: u32, channels: u16) -> bool {
    rate != 16000 || channels != 1
}

/// How one output sample is obtained from the mono frames.
#[derive(Clone, Copy, Debug, PartialEq, Eq, Structural)]
pub enum Tap {
    /// `mono[index] * (1 - w) + mono[index + 1] * w` with `w = weight / 16000`.
    Blend { index: usize, weight: u32 },
    /// `mono[index]` as it is: the frame has no successor.
    Hold { index: usize },
}

impl Tap {
    /// The first frame that the tap reads.
    pub open spec fn spec_index(self) -> usize {
        match self {
            Tap::Blend { index, .. } => index,
            Tap::Hold { index } => index,
        }
    }

    /// The first frame that the tap reads.
    #[verifier::when_used_as_spec(spec_index)]
    pub fn index(self) -> (r: usize)
        ensures
            r == self.spec_index(),
    {
        match self {
            Tap::Blend { index, .. } => index,
            Tap::Hold { index } => index,
        }
    }
}

/// The tap of output sample `i` over `mono_len` frames captured at `rate`.
pub open spec fn spec_tap(i: int, mono_len: int, rate: int) -> Tap {
    let index = spec_source_index(i, rate);
    if index + 1 < mono_len {
        Tap::Blend { index: index as usize, weight: spec_source_weight(i, rate) as u32 }
    } else {
        Tap::Hold { index: index as usize }
    }
}

/// Every output position below the resampled length starts on a frame that
/// exists, so no output sample is ever dropped.
pub proof fn lemma_source_index_in_bounds(i: int, mono_len: int, rate: int)
    requires
        rate > 0,
        0 <= i < spec_resampled_len(mono_len, rate),
    ensures
        0 <= spec_source_index(i, rate) < mono_len,
        0 <= spec_source_weight(i, rate) < 16000,
{
    let n = spec_resampled_len(mono_len, rate);
    assert(n * rate <= mono_len * 16000) by (nonlinear_arith)
        requires
            n == (mono_len * 16000) / rate,
            rate > 0,
    ;
    assert((i + 1) * rate <= n * rate) by (nonlinear_arith)
        requires
            i + 1 <= n,
            rate > 0,
    ;
    assert(i * rate + rate == (i + 1) * rate) by (nonlinear_arith);
    assert(0 <= i * rate) by (nonlinear_arith)
        requires
            0 <= i,
            rate > 0,
    ;
    assert(i * rate < mono_len * 16000);
}

/// Number of mono frames in `samples` interleaved samples.
pub fn mono_len(samples: usize, channels: u16) -> (n: usize)
    ensures
        n == spec_mono_len(samples as int, channels as int),
{
    if channels <= 1 {
        samples
    } else {
        let c: usize = channels as usize;
        let q: usize = samples / c;
        let r: usize = samples % c;
        assert(samples == q * c + r) by (nonlinear_arith)
            requires
                q == samples as int / c as int,
                r == samples as int % c as int,
                c > 0,
        ;
        assert((samples + c - 1) / (c as int) == if r == 0 { q as int } else { q + 1 }) by (nonlinear_arith)
            requires
                samples == q * c + r,
                0 <= r < c,
                c > 1,
        ;
        if r == 0 {
            q
        } else {
            assert(q + 1 <= samples) by (nonlinear_arith)
                requires
                    samples == q * c + r,
                    0 < r,
                    c > 1,
            ;
            q + 1
        }
    }
}

/// Whether audio captured at `rate` with `channels` channels has to pass
/// through the resampler, or is canonical as it stands.
pub fn needs_resampling(rate: u32, channels: u16) -> (b: bool)
    ensures
        b == spec_needs_resampling(rate, channels),
{
    rate != TARGET_RATE || channels != TARGET_CHANNELS
}

/// Number of output samples for `mono_len` frames captured at `rate`, or
/// `None` where the rate is zero or that number does not fit the machine's
/// word.
pub fn resampled_len(mono_len: usize, rate: u32) -> (n: Option<usize>)
    ensures
        n matches Some(k) ==> rate > 0 && k == spec_resampled_len(mono_len as int, rate as int),
        n is None <==> rate == 0 || spec_resampled_len(mono_len as int, rate as int)
            > usize::MAX,
{
    if rate == 0 {
        return None;
    }
    let scaled: u128 = (mono_len as u128) * 16000u128;
    let n: u128 = scaled / (rate as u128);
    if n > usize::MAX as u128 {
        None
    } else {
        Some(n as usize)
    }
}

/// The tap of output sample `i`.
pub fn tap(i: usize, mono_len: usize, rate: u32) -> (t: Tap)
    requires
        rate > 0,
        i < spec_resampled_len(mono_len as int, rate as int),
    ensures
        t == spec_tap(i as int, mono_len as int, rate as int),
        t.spec_index() < mono_len,
        t matches Tap::Blend { index, weight } ==> index + 1 < mono_len && weight < 16000,
{
    proof {
        lemma_source_index_in_bounds(i as int, mono_len as int, rate as int);
    }
    let pos: u128 = (i as u128) * (rate as u128);
    assert(pos == i * rate) by (nonlinear_arith)
        requires
            pos == (i as u128) * (rate as u128),
            i <= u64::MAX,
            rate <= u32::MAX,
    ;
    let index: usize = (pos / 16000u128) as usize;
    let weight: u32 = (pos % 16000u128) as u32;
    if index + 1 < mono_len {
        Tap::Blend { index, weight }
    } else {
        Tap::Hold { index }
    }
}

/// First sample of mono frame `k` in the interleaved buffer.
pub open spec fn spec_frame_start(k: int, channels: int) -> int {
    if channels <= 1 {
        k
    } else {
        k * channels
    }
}

/// One past the last sample of mono frame `k`: a full group of `channels`
/// samples, cut short where the buffer ends.
pub open spec fn spec_frame_end(k: int, samples: int, channels: int) -> int {
    if channels <= 1 {
        k + 1
    } else if (k + 1) * channels <= samples {
        (k + 1) * channels
    } else {
        samples
    }
}

/// The samples that mono frame `k` averages, as a half-open range of the
/// interleaved buffer. The mean always divides by `channels`, also for a
/// trailing group that is cut short.
pub fn frame_span(k: usize, samples: usize, channels: u16) -> (span: (usize, usize))
    requires
        k < spec_mono_len(samples as int, channels as int),
    ensures
        span.0 == spec_frame_start(k as int, channels as int),
        span.1 == spec_frame_end(k as int, samples as int, channels as int),
        span.0 < span.1 <= samples,
        span.1 - span.0 <= if channels <= 1 { 1int } else { channels as int },
{
    if channels <= 1 {
        (k, k + 1)
    } else {
        let c: usize = channels as usize;
        assert(k * c < samples && (k + 1) * c == k * c + c) by (nonlinear_arith)
            requires
                k < (samples + c - 1) / (c as int),
                c > 1,
        ;
        let start: usize = k * c;
        let end: usize = if samples - start >= c {
            start + c
        } else {
            samples
        };
        (start, end)
    }
}

/// Audio that is already mono at the canonical rate keeps its length, and
/// output sample `i` starts on frame `i` with no weight on its successor.
pub proof fn lemma_canonical_input_is_kept(i: int, samples: int)
    requires
        0 <= i < samples <= usize::MAX,
    ensures
        spec_mono_len(samples, 1) == samples,
        spec_resampled_len(samples, 16000) == samples,
        spec_source_index(i, 16000) == i,
        spec_source_weight(i, 16000) == 0,
        spec_tap(i, samples, 16000).spec_index() == i,
{
    assert((samples * 16000) / 16000 == samples) by (nonlinear_arith);
    assert((i * 16000) / 16000 == i && (i * 16000) % 16000 == 0) by (nonlinear_arith);
}

/// Whatever the rate, the first output sample starts on the first frame with
/// no weight on its successor: it is the first frame itself.
pub proof fn lemma_first_sample(rate: int)
    ensures
        spec_source_index(0, rate) == 0,
        spec_source_weight(0, rate) == 0,
{
    assert(0 * rate == 0) by (nonlinear_arith);
}

/// A stereo buffer of `2 * n` samples gives `n` frames, and frame `k` averages
/// exactly the pair `(2k, 2k + 1)`.
pub proof fn lemma_stereo_pairs(k: int, n: int)
    requires
        0 <= k < n,
    ensures
        spec_mono_len(2 * n, 2) == n,
        spec_frame_start(k, 2) == 2 * k,
        spec_frame_end(k, 2 * n, 2) == 2 * k + 2,
{
}

/// Halving the rate: at 32 kHz every output sample `i` starts on frame `2i`
/// with no weight on its successor, and `samples` frames give `samples / 2`
/// output samples.
pub proof fn lemma_double_rate(i: int, samples: int)
    requires
        0 <= i,
        0 <= samples,
    ensures
        spec_resampled_len(samples, 32000) == samples / 2,
        spec_source_index(i, 32000) == 2 * i,
        spec_source_weight(i, 32000) == 0,
{
    assert((samples * 16000) / 32000 == samples / 2) by (nonlinear_arith)
        requires
            0 <= samples,
    ;
    assert((i * 32000) / 16000 == 2 * i && (i * 32000) % 16000 == 0) by (nonlinear_arith);
}

} // verus!
