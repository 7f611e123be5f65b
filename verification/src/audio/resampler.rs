//! Sizing of the format conditioner.
//!
//! The conditioner brings device audio to 16 kHz mono: it averages the
//! channels of each frame and, where the device rate differs, resamples with a
//! windowed-sinc filter. The filter's arithmetic is the caller's; how many
//! frames go in, how large the output buffer must be and how the filter is
//! set up is decided here.

use vstd::prelude::*;

verus! {

/// Sample rate of conditioned audio.
pub const WHISPER_SAMPLE_RATE: u32 = 16_000;

/// Channels of conditioned audio.
pub const WHISPER_CHANNELS: u16 = 1;

/// Length of the sinc filter, in taps.
pub const SINC_LEN: usize = 256;

/// Oversampling factor of the sinc table.
pub const OVERSAMPLING_FACTOR: usize = 256;

/// Cutoff of the filter, in hundredths of the Nyquist frequency.
pub const CUTOFF_PERCENT: u32 = 95;

/// Samples by which the output buffer exceeds the expected output.
pub const OUTPUT_MARGIN: usize = 10;

/// Smallest input block handed to the filter, in frames.
pub const MIN_CHUNK_FRAMES: usize = 64;

/// Why the conditioner cannot be set up.
#[derive(Debug, Clone, Copy, PartialEq, Eq, Structural)]
pub enum FormatError {
    /// The device reports a sample rate of zero.
    ZeroSampleRate,
    /// The device reports no channels.
    NoChannels,
}

/// How the conditioner is set up for one device format.
#[derive(Debug, Clone, Copy, PartialEq, Eq, Structural)]
pub struct AudioResampler {
    input_sample_rate: u32,
    input_channels: u16,
}

/// Frames of `rate` in ten milliseconds, but `MIN_CHUNK_FRAMES` at least.
pub open spec fn spec_chunk_frames(rate: u32) -> nat {
    if rate / 100 < MIN_CHUNK_FRAMES {
        MIN_CHUNK_FRAMES as nat
    } else {
        (rate / 100) as nat
    }
}

/// Mono frames that `samples` interleaved samples of `channels` channels make;
/// a last frame that is not whole counts.
pub open spec fn spec_mono_frames(samples: nat, channels: u16) -> nat
    recommends
        channels > 0,
{
    (samples + channels - 1) as nat / (channels as nat)
}

/// The output of `frames` input frames at `rate`, rounded up.
pub open spec fn spec_expected_output(frames: nat, rate: u32) -> nat
    recommends
        rate > 0,
{
    (frames * (WHISPER_SAMPLE_RATE as nat) + rate - 1) as nat / (rate as nat)
}

/// Counts the mono frames that `samples` interleaved samples of `channels`
/// channels make; a last frame that is not whole counts.
pub fn count_mono_frames(samples: usize, channels: u16) -> (n: usize)
    requires
        channels > 0,
    ensures
        n == spec_mono_frames(samples as nat, channels),
        n <= samples,
{
    let width: usize = channels as usize;
    let whole: usize = samples / width;
    proof {
        vstd::arithmetic::div_mod::lemma_fundamental_div_mod(samples as int, width as int);
        assert(width * whole >= whole) by (nonlinear_arith)
            requires
                width >= 1,
                whole >= 0,
        ;
        lemma_round_up(samples as int, width as int);
    }
    if samples % width == 0 {
        whole
    } else {
        whole + 1
    }
}

impl AudioResampler {
    /// The device's sample rate.
    pub closed spec fn spec_input_sample_rate(&self) -> u32 {
        self.input_sample_rate
    }

    /// The device's channels.
    pub closed spec fn spec_input_channels(&self) -> u16 {
        self.input_channels
    }

    /// A conditioner is made for a positive rate and at least one channel.
    pub open spec fn wf(&self) -> bool {
        self.spec_input_sample_rate() > 0 && self.spec_input_channels() > 0
    }

    /// Sets up the conditioner for a device format.
    pub fn new(input_sample_rate: u32, input_channels: u16) -> (r: Result<Self, FormatError>)
        ensures
            input_sample_rate == 0 ==> r == Err::<Self, FormatError>(FormatError::ZeroSampleRate),
            input_sample_rate > 0 && input_channels == 0 ==> r == Err::<Self, FormatError>(
                FormatError::NoChannels,
            ),
            input_sample_rate > 0 && input_channels > 0 ==> r is Ok && r->Ok_0.wf()
                && r->Ok_0.spec_input_sample_rate() == input_sample_rate
                && r->Ok_0.spec_input_channels() == input_channels,
    {
        if input_sample_rate == 0 {
            Err(FormatError::ZeroSampleRate)
        } else if input_channels == 0 {
            Err(FormatError::NoChannels)
        } else {
            Ok(AudioResampler { input_sample_rate, input_channels })
        }
    }

    /// The device's sample rate.
    pub fn input_sample_rate(&self) -> (r: u32)
        ensures
            r == self.spec_input_sample_rate(),
    {
        self.input_sample_rate
    }

    /// The device's channels.
    pub fn input_channels(&self) -> (r: u16)
        ensures
            r == self.spec_input_channels(),
    {
        self.input_channels
    }

    /// True when the device rate differs from the target and the filter is
    /// needed.
    pub fn needs_resampling(&self) -> (r: bool)
        ensures
            r == (self.spec_input_sample_rate() != WHISPER_SAMPLE_RATE),
    {
        self.input_sample_rate != WHISPER_SAMPLE_RATE
    }

    /// True when frames hold more than one channel and have to be averaged.
    pub fn needs_downmix(&self) -> (r: bool)
        ensures
            r == (self.spec_input_channels() != WHISPER_CHANNELS),
    {
        self.input_channels != WHISPER_CHANNELS
    }

    /// The input block of the filter, in frames: ten milliseconds of device
    /// audio, but `MIN_CHUNK_FRAMES` at least.
    pub fn chunk_frames(&self) -> (n: usize)
        ensures
            n == spec_chunk_frames(self.spec_input_sample_rate()),
    {
        let per_block: u32 = self.input_sample_rate / 100;
        if per_block < MIN_CHUNK_FRAMES as u32 {
            MIN_CHUNK_FRAMES
        } else {
            per_block as usize
        }
    }

    /// The number of mono frames that `samples` interleaved samples make.
    pub fn mono_frames(&self, samples: usize) -> (n: usize)
        requires
            self.wf(),
        ensures
            n == spec_mono_frames(samples as nat, self.spec_input_channels()),
    {
        count_mono_frames(samples, self.input_channels)
    }

    /// The size of the output buffer for `frames` mono frames: the expected
    /// output, rounded up, and the margin. `None` when that does not fit.
    pub fn output_capacity(&self, frames: usize) -> (r: Option<usize>)
        requires
            self.wf(),
        ensures
            spec_expected_output(frames as nat, self.spec_input_sample_rate()) + OUTPUT_MARGIN
                <= usize::MAX ==> r == Some(
                (spec_expected_output(frames as nat, self.spec_input_sample_rate())
                    + OUTPUT_MARGIN) as usize,
            ),
            spec_expected_output(frames as nat, self.spec_input_sample_rate()) + OUTPUT_MARGIN
                > usize::MAX ==> r is None,
    {
        let rate: u128 = self.input_sample_rate as u128;
        let scaled: u128 = (frames as u128) * (WHISPER_SAMPLE_RATE as u128) + rate - 1;
        let expected: u128 = scaled / rate;
        let sized: u128 = expected + OUTPUT_MARGIN as u128;
        if sized > usize::MAX as u128 {
            None
        } else {
            Some(sized as usize)
        }
    }
}

/// Dividing after adding the divisor less one rounds the quotient up.
proof fn lemma_round_up(n: int, d: int)
    requires
        n >= 0,
        d > 0,
    ensures
        (n + d - 1) / d == if n % d == 0 {
            n / d
        } else {
            n / d + 1
        },
{
    vstd::arithmetic::div_mod::lemma_fundamental_div_mod(n, d);
    let q = n / d;
    let r = n % d;
    if r == 0 {
        assert(n + d - 1 == q * d + (d - 1)) by (nonlinear_arith)
            requires
                n == d * q,
        ;
        vstd::arithmetic::div_mod::lemma_fundamental_div_mod_converse(n + d - 1, d, q, d - 1);
    } else {
        assert(n + d - 1 == (q + 1) * d + (r - 1)) by (nonlinear_arith)
            requires
                n == d * q + r,
        ;
        vstd::arithmetic::div_mod::lemma_fundamental_div_mod_converse(n + d - 1, d, q + 1, r - 1);
    }
}

/// At the target rate the conditioner passes audio through: as many frames
/// come out as go in. At a higher device rate no more frames come out than go
/// in.
pub proof fn lemma_output_bounds(frames: nat, rate: u32)
    requires
        rate > 0,
    ensures
        rate == WHISPER_SAMPLE_RATE ==> spec_expected_output(frames, rate) == frames,
        rate >= WHISPER_SAMPLE_RATE ==> spec_expected_output(frames, rate) <= frames,
{
    let r = rate as int;
    let f = frames as int;
    if rate >= WHISPER_SAMPLE_RATE {
        assert(f * 16000 + r - 1 < (f + 1) * r) by (nonlinear_arith)
            requires
                r >= 16000,
                f >= 0,
        ;
        assert((f * 16000 + r - 1) / r <= f) by (nonlinear_arith)
            requires
                f * 16000 + r - 1 < (f + 1) * r,
                r > 0,
                f >= 0,
        ;
    }
    if rate == WHISPER_SAMPLE_RATE {
        vstd::arithmetic::div_mod::lemma_fundamental_div_mod_converse(
            f * 16000 + 16000 - 1,
            16000,
            f,
            15999,
        );
    }
}

} // verus!
