//! Sample extraction: frame-window arithmetic, stereo downmix, and
//! fixed-point normalization of signed 16-bit PCM samples.
//!
//! The decoder itself is an external collaborator: it hands this module the
//! source's native `(sample_rate, channel_count, total_frame_count)` and the
//! raw interleaved samples of the requested window, as plain values.
//!
//! Normalized amplitudes are held in fixed point, as signed counts of
//! `1 / 10_000_000` of full scale: exactly the resolution the wire format
//! transmits (seven digits after the decimal point). A sample `s` at volume
//! `v` millionths normalizes to the nearest unit count of
//! `s / 32768 * v / 1_000_000`, ties rounded to even.

use vstd::prelude::*;

use crate::errors::StreamError;

verus! {

/// A volume multiplier of exactly 1.0, in millionths.
pub const DEFAULT_VOLUME_MILLIONTHS: u32 = 1000000;

/// Fixed-point units per 1.0 of normalized amplitude: the wire format
/// carries seven digits after the decimal point.
pub const UNITS_PER_ONE: u64 = 10000000;

/// What a session reads of one configured audio source: seconds trimmed from
/// either end, and a non-negative volume multiplier in millionths of 1.0.
#[derive(Clone, Copy, Debug)]
pub struct AudioSourceSpec {
    pub start_offset_seconds: usize,
    pub end_offset_seconds: usize,
    pub volume_millionths: u32,
}

impl Default for AudioSourceSpec {
    /// The default window: nothing trimmed, volume 1.0.
    fn default() -> (d: Self)
        ensures
            d.start_offset_seconds == 0,
            d.end_offset_seconds == 0,
            d.volume_millionths == DEFAULT_VOLUME_MILLIONTHS,
    {
        AudioSourceSpec {
            start_offset_seconds: 0,
            end_offset_seconds: 0,
            volume_millionths: DEFAULT_VOLUME_MILLIONTHS,
        }
    }
}

/// The window of samples a session reads: the absolute frame where reading
/// starts, and how many interleaved samples are taken from there.
#[derive(Clone, Copy, Debug, PartialEq, Eq, Structural)]
pub struct FrameWindow {
    pub start_frame: usize,
    pub frame_count: usize,
}

/// Frame index where extraction begins.
pub open spec fn spec_start_frame(start_offset_seconds: int, sample_rate: int) -> int {
    start_offset_seconds * sample_rate
}

/// Frame index (exclusive) where extraction ends: the total frame count less
/// the end-offset trim, saturated at zero.
pub open spec fn spec_end_frame(end_offset_seconds: int, sample_rate: int, total_frames: int) -> int {
    if total_frames - end_offset_seconds * sample_rate >= 0 {
        total_frames - end_offset_seconds * sample_rate
    } else {
        0
    }
}

/// How many samples the window takes: end frame minus start frame, saturated
/// at zero.
pub open spec fn spec_window_len(
    start_offset_seconds: int,
    end_offset_seconds: int,
    sample_rate: int,
    total_frames: int,
) -> int {
    let s: int = spec_start_frame(start_offset_seconds, sample_rate);
    let e: int = spec_end_frame(end_offset_seconds, sample_rate, total_frames);
    if e - s >= 0 {
        e - s
    } else {
        0
    }
}

/// Computes the window of samples to read for one source, before any
/// connection is attempted. Fails with `OffsetOutOfRange` exactly when the
/// start offset, in frames, lies at or beyond the total frame count.
pub fn compute_window(source: &AudioSourceSpec, sample_rate: usize, total_frames: usize) -> (r:
    Result<FrameWindow, StreamError>)
    ensures
        r is Err <==> spec_start_frame(
            source.start_offset_seconds as int,
            sample_rate as int,
        ) >= total_frames,
        r is Err ==> r->Err_0 == StreamError::OffsetOutOfRange,
        r is Ok ==> r->Ok_0.start_frame == spec_start_frame(
            source.start_offset_seconds as int,
            sample_rate as int,
        ),
        r is Ok ==> r->Ok_0.frame_count == spec_window_len(
            source.start_offset_seconds as int,
            source.end_offset_seconds as int,
            sample_rate as int,
            total_frames as int,
        ),
{
    let start: usize = match source.start_offset_seconds.checked_mul(sample_rate) {
        Some(s) => s,
        None => {
            return Err(StreamError::OffsetOutOfRange);
        },
    };
    if start >= total_frames {
        return Err(StreamError::OffsetOutOfRange);
    }
    let trim: usize = match source.end_offset_seconds.checked_mul(sample_rate) {
        Some(t) => t,
        // The exact trim exceeds usize::MAX and hence the total frame count,
        // so the end frame saturates to zero either way.
        None => usize::MAX,
    };
    let end_frame: usize = if trim >= total_frames {
        0
    } else {
        total_frames - trim
    };
    let frame_count: usize = if end_frame >= start {
        end_frame - start
    } else {
        0
    };
    Ok(FrameWindow { start_frame: start, frame_count })
}

/// Division by two that truncates toward zero, as the executable downmix
/// does on its signed sums.
pub open spec fn div2_trunc(x: int) -> int {
    if x >= 0 {
        x / 2
    } else {
        -((-x) / 2)
    }
}

/// The downmixed value of one interleaved stereo pair: the average of the
/// two channels, truncated toward zero.
pub open spec fn avg_pair(a: int, b: int) -> int {
    div2_trunc(a + b)
}

/// Averaging a stereo pair does not depend on which channel is left and
/// which is right.
pub proof fn lemma_avg_pair_commutative(a: int, b: int)
    ensures
        avg_pair(a, b) == avg_pair(b, a),
{
}

/// Downmixes interleaved stereo samples to mono by averaging each pair,
/// truncating toward zero. A trailing unpaired sample is dropped silently.
pub fn downmix_stereo(samples: &Vec<i16>) -> (mono: Vec<i16>)
    ensures
        mono@.len() == samples@.len() / 2,
        forall|i: int|
            0 <= i < mono@.len() ==> mono@[i] == avg_pair(
                samples@[2 * i] as int,
                samples@[2 * i + 1] as int,
            ),
{
    let pairs: usize = samples.len() / 2;
    let mut mono: Vec<i16> = Vec::new();
    let mut i: usize = 0;
    while i < pairs
        invariant
            0 <= i <= pairs,
            pairs == samples@.len() / 2,
            samples@.len() <= usize::MAX,
            mono@.len() == i,
            forall|j: int|
                0 <= j < i ==> mono@[j] == avg_pair(
                    samples@[2 * j] as int,
                    samples@[2 * j + 1] as int,
                ),
        decreases pairs - i,
    {
        let a: i16 = samples[2 * i];
        let b: i16 = samples[2 * i + 1];
        let sum: i32 = a as i32 + b as i32;
        let avg: i16 = if sum >= 0 {
            ((sum as u32) / 2) as i16
        } else {
            (-((((-sum) as u32) / 2) as i32)) as i16
        };
        assert(avg == avg_pair(a as int, b as int));
        mono.push(avg);
        i = i + 1;
    }
    mono
}

/// Rounds `q / 16384` to the nearest integer, ties to even.
pub open spec fn round_half_even_div_16384(q: nat) -> nat {
    let b: nat = q / 16384;
    let r: nat = q % 16384;
    if r > 8192 || (r == 8192 && b % 2 == 1) {
        b + 1
    } else {
        b
    }
}

/// The normalized fixed-point value of sample `s` at volume `v` millionths:
/// the nearest unit count (ties to even) of
/// `s / 32768 * v / 1_000_000 * 10_000_000`, which reduces to
/// `s * v * 5 / 16384`.
pub open spec fn normalized_units(s: int, volume_millionths: int) -> int {
    let q: int = s * volume_millionths * 5;
    if q >= 0 {
        round_half_even_div_16384(q as nat) as int
    } else {
        -(round_half_even_div_16384((-q) as nat) as int)
    }
}

/// Normalizes one signed 16-bit sample to fixed-point units of
/// `1 / 10_000_000` of full scale, scaled by the volume multiplier.
pub fn normalize_sample(s: i16, volume_millionths: u32) -> (r: i64)
    ensures
        r == normalized_units(s as int, volume_millionths as int),
{
    let mag: u64 = if s >= 0 {
        s as u64
    } else {
        (-(s as i64)) as u64
    };
    assert(mag <= 32768);
    assert(mag * (volume_millionths as u64) * 5 <= 32768 * 0xffff_ffffu64 * 5)
        by (nonlinear_arith)
        requires
            mag <= 32768,
            volume_millionths <= 0xffff_ffffu32,
    ;
    let q: u64 = mag * (volume_millionths as u64) * 5;
    let b: u64 = q / 16384;
    let rem: u64 = q % 16384;
    let rounded: u64 = if rem > 8192 || (rem == 8192 && b % 2 == 1) {
        b + 1
    } else {
        b
    };
    proof {
        if s >= 0 {
            assert(s as int * volume_millionths as int * 5 == q as int);
        } else {
            assert(mag as int == -(s as int));
            assert((-(s as int)) * (volume_millionths as int) * 5 == q as int)
                by (nonlinear_arith)
                requires
                    mag as int == -(s as int),
                    q == mag * (volume_millionths as u64) * 5,
            ;
            assert(s as int * volume_millionths as int * 5 == -(q as int)) by (nonlinear_arith)
                requires
                    (-(s as int)) * (volume_millionths as int) * 5 == q as int,
            ;
        }
    }
    if s >= 0 {
        rounded as i64
    } else {
        -(rounded as i64)
    }
}

/// Normalization cannot reach the extreme `i64` values: its magnitude is
/// bounded by the largest sample magnitude times the largest volume,
/// times five, divided by 16384, plus one for rounding up.
pub proof fn lemma_normalized_units_bounds(s: int, v: int)
    requires
        -32768 <= s <= 32767,
        0 <= v <= 0xffff_ffff,
    ensures
        -43000000000 <= normalized_units(s, v) <= 43000000000,
{
    assert(-703687441612800 <= s * v * 5 <= 703687441612800) by (nonlinear_arith)
        requires
            -32768 <= s <= 32767,
            0 <= v <= 0xffff_ffff,
    ;
}

/// With a volume multiplier of exactly 1.0, every normalized sample lies in
/// `[-1.0, 1.0]`: its fixed-point magnitude never exceeds `UNITS_PER_ONE`.
pub proof fn lemma_unit_volume_in_range(s: int)
    requires
        -32768 <= s <= 32767,
    ensures
        -(UNITS_PER_ONE as int) <= normalized_units(s, DEFAULT_VOLUME_MILLIONTHS as int)
            <= UNITS_PER_ONE as int,
{
}

/// For any valid window (the start offset in frames lies before the total
/// frame count), a raw read of exactly the computed window's length yields
/// a mono buffer of that same length, or of half that length (rounded down,
/// dropping a trailing unpaired sample) when the source is stereo.
pub proof fn lemma_extraction_length(
    raw: Seq<i16>,
    start_offset_seconds: int,
    end_offset_seconds: int,
    sample_rate: int,
    total_frames: int,
    channel_count: int,
)
    requires
        spec_start_frame(start_offset_seconds, sample_rate) < total_frames,
        raw.len() == spec_window_len(
            start_offset_seconds,
            end_offset_seconds,
            sample_rate,
            total_frames,
        ),
    ensures
        channel_count == 2 ==> mono_buffer_len(raw.len() as int, channel_count)
            == spec_window_len(
            start_offset_seconds,
            end_offset_seconds,
            sample_rate,
            total_frames,
        ) / 2,
        channel_count != 2 ==> mono_buffer_len(raw.len() as int, channel_count)
            == spec_window_len(start_offset_seconds, end_offset_seconds, sample_rate, total_frames),
{
}

/// The mono source value at index `i` of raw interleaved samples with the
/// given channel count: the averaged pair for stereo, the sample itself for
/// any other channel count (treated as already mono).
pub open spec fn mono_source_value(raw: Seq<i16>, channel_count: int, i: int) -> int {
    if channel_count == 2 {
        avg_pair(raw[2 * i] as int, raw[2 * i + 1] as int)
    } else {
        raw[i] as int
    }
}

/// Length of the mono buffer built from raw samples: complete pairs for
/// stereo, every sample otherwise.
pub open spec fn mono_buffer_len(raw_len: int, channel_count: int) -> int {
    if channel_count == 2 {
        raw_len / 2
    } else {
        raw_len
    }
}

/// An immutable buffer of normalized mono samples in fixed-point units of
/// `1 / 10_000_000` of full scale, produced once per session.
pub struct MonoSampleBuffer {
    pub(crate) samples: Vec<i64>,
}

impl View for MonoSampleBuffer {
    type V = Seq<i64>;

    closed spec fn view(&self) -> Seq<i64> {
        self.samples@
    }
}

impl MonoSampleBuffer {
    /// Every sample's magnitude stays within what normalization can
    /// produce, so negation and decimal rendering never overflow.
    pub open spec fn wf(&self) -> bool {
        forall|i: int| 0 <= i < self@.len() ==> -43000000000 <= #[trigger] self@[i] <= 43000000000
    }

    /// How many mono samples the buffer holds.
    pub fn len(&self) -> (n: usize)
        ensures
            n == self@.len(),
    {
        self.samples.len()
    }

    /// The normalized sample at index `i`, in fixed-point units.
    pub fn sample_at(&self, i: usize) -> (s: i64)
        requires
            i < self@.len(),
        ensures
            s == self@[i as int],
    {
        self.samples[i]
    }
}

/// Builds the session's mono buffer from the raw interleaved samples of the
/// extraction window: stereo input is downmixed pairwise, any other channel
/// count is taken as already mono, and every value is normalized to
/// fixed-point units at the source's volume.
pub fn build_mono_buffer(raw: &Vec<i16>, channel_count: u16, volume_millionths: u32) -> (buf:
    MonoSampleBuffer)
    ensures
        buf.wf(),
        buf@.len() == mono_buffer_len(raw@.len() as int, channel_count as int),
        forall|i: int|
            0 <= i < buf@.len() ==> buf@[i] == normalized_units(
                mono_source_value(raw@, channel_count as int, i),
                volume_millionths as int,
            ),
{
    let mut out: Vec<i64> = Vec::new();
    if channel_count == 2 {
        let mono: Vec<i16> = downmix_stereo(raw);
        let n: usize = mono.len();
        let mut i: usize = 0;
        while i < n
            invariant
                0 <= i <= n,
                n == mono@.len(),
                mono@.len() == raw@.len() / 2,
                forall|j: int|
                    0 <= j < n ==> mono@[j] == avg_pair(
                        raw@[2 * j] as int,
                        raw@[2 * j + 1] as int,
                    ),
                out@.len() == i,
                forall|j: int|
                    0 <= j < i ==> out@[j] == normalized_units(
                        mono_source_value(raw@, 2, j),
                        volume_millionths as int,
                    ),
                forall|j: int| 0 <= j < i ==> -43000000000 <= #[trigger] out@[j] <= 43000000000,
            decreases n - i,
        {
            let v: i64 = normalize_sample(mono[i], volume_millionths);
            proof {
                lemma_normalized_units_bounds(mono@[i as int] as int, volume_millionths as int);
            }
            out.push(v);
            i = i + 1;
        }
    } else {
        let n: usize = raw.len();
        let mut i: usize = 0;
        while i < n
            invariant
                0 <= i <= n,
                n == raw@.len(),
                channel_count != 2,
                out@.len() == i,
                forall|j: int|
                    0 <= j < i ==> out@[j] == normalized_units(
                        mono_source_value(raw@, channel_count as int, j),
                        volume_millionths as int,
                    ),
                forall|j: int| 0 <= j < i ==> -43000000000 <= #[trigger] out@[j] <= 43000000000,
            decreases n - i,
        {
            let v: i64 = normalize_sample(raw[i], volume_millionths);
            proof {
                lemma_normalized_units_bounds(raw@[i as int] as int, volume_millionths as int);
            }
            out.push(v);
            i = i + 1;
        }
    }
    MonoSampleBuffer { samples: out }
}

} // verus!
