//! From a speech probability to a decision.
//!
//! A window of 512 samples at 16 kHz goes to the learned detector, which
//! returns a probability; a shorter window is judged by its energy alone. The
//! probability and the energy are computed by the caller; whether they amount
//! to speech is decided here, against the configured levels.

use crate::config::VadConfig;
use crate::level::{clamp_unit, exceeds, level_clamp_unit, level_exceeds, ZERO_BITS};
use vstd::prelude::*;

verus! {

/// Samples in a window of the learned detector: about 32 ms at
/// `DETECTOR_SAMPLE_RATE`.
pub const WINDOW_SAMPLES: usize = 512;

/// The sample rate of the audio that is judged, in samples per second.
pub const DETECTOR_SAMPLE_RATE: u32 = 16_000;

/// Bit pattern of the energy at which the fallback reports a probability of
/// one, `0.15`.
pub const ENERGY_FULL_SCALE_BITS: u32 = 0x3E19_999A;

/// How a decision was reached.
#[derive(Debug, Clone, Copy, PartialEq, Eq, Structural)]
pub enum VadMethod {
    /// By the learned detector.
    Silero,
    /// By the energy of the window.
    Energy,
}

/// A decision on one window.
#[derive(Debug, Clone, Copy, PartialEq, Eq, Structural)]
pub struct VadResult {
    /// Bit pattern of the speech probability.
    pub probability_bits: u32,
    /// Whether the window counts as speech.
    pub is_speech: bool,
    /// How the decision was reached.
    pub method: VadMethod,
}

/// Why no detector could be made.
#[derive(Debug, Clone, Copy, PartialEq, Eq, Structural)]
pub enum VadError {
    /// The windows are measured for audio at `DETECTOR_SAMPLE_RATE`; audio at
    /// another rate is refused.
    UnsupportedSampleRate,
}

/// True for the sample rate that the windows are measured for.
pub open spec fn supported_rate(sample_rate: u32) -> bool {
    sample_rate == DETECTOR_SAMPLE_RATE
}

/// The method by which a window of `len` samples is judged.
pub open spec fn spec_method_for(len: nat) -> VadMethod {
    if len < WINDOW_SAMPLES {
        VadMethod::Energy
    } else {
        VadMethod::Silero
    }
}

/// The decider.
#[derive(Debug, Clone, Copy, PartialEq, Eq, Structural)]
pub struct VadDetector {
    config: VadConfig,
}

impl VadDetector {
    /// The configuration as contracts see it.
    pub closed spec fn spec_config(&self) -> VadConfig {
        self.config
    }

    /// A decider for audio at `sample_rate` with the levels of `config`.
    pub fn new(sample_rate: u32, config: VadConfig) -> (r: Result<Self, VadError>)
        ensures
            supported_rate(sample_rate) ==> r is Ok && r->Ok_0.spec_config() == config,
            !supported_rate(sample_rate) ==> r == Err::<Self, VadError>(
                VadError::UnsupportedSampleRate,
            ),
    {
        if sample_rate == DETECTOR_SAMPLE_RATE {
            Ok(VadDetector { config })
        } else {
            Err(VadError::UnsupportedSampleRate)
        }
    }

    /// The method by which a window of `len` samples is judged.
    pub fn method_for(&self, len: usize) -> (m: VadMethod)
        ensures
            m == spec_method_for(len as nat),
    {
        if len < WINDOW_SAMPLES {
            VadMethod::Energy
        } else {
            VadMethod::Silero
        }
    }

    /// The decision on a window for which the learned detector returned
    /// `probability_bits`: speech when the probability exceeds the threshold.
    pub fn predict(&self, probability_bits: u32) -> (r: VadResult)
        ensures
            r == (VadResult {
                probability_bits,
                is_speech: exceeds(probability_bits, self.spec_config().threshold_bits),
                method: VadMethod::Silero,
            }),
    {
        VadResult {
            probability_bits,
            is_speech: level_exceeds(probability_bits, self.config.threshold_bits),
            method: VadMethod::Silero,
        }
    }

    /// The decision on a short window. `energy` is `None` for a window
    /// without samples, and else the bit patterns of the window's
    /// root-mean-square energy and of that energy over the full scale of 0.15.
    /// An empty window is silence; another is speech when its energy exceeds
    /// the fallback threshold, and its probability is the scaled energy
    /// limited to the unit interval.
    pub fn predict_energy(&self, energy: Option<(u32, u32)>) -> (r: VadResult)
        ensures
            r == match energy {
                None => VadResult {
                    probability_bits: ZERO_BITS,
                    is_speech: false,
                    method: VadMethod::Energy,
                },
                Some((rms_bits, scaled_bits)) => VadResult {
                    probability_bits: clamp_unit(scaled_bits),
                    is_speech: exceeds(
                        rms_bits,
                        self.spec_config().energy_fallback_threshold_bits,
                    ),
                    method: VadMethod::Energy,
                },
            },
    {
        match energy {
            None => VadResult {
                probability_bits: ZERO_BITS,
                is_speech: false,
                method: VadMethod::Energy,
            },
            Some((rms_bits, scaled_bits)) => VadResult {
                probability_bits: level_clamp_unit(scaled_bits),
                is_speech: level_exceeds(rms_bits, self.config.energy_fallback_threshold_bits),
                method: VadMethod::Energy,
            },
        }
    }

    /// The configuration.
    pub fn config(&self) -> (r: &VadConfig)
        ensures
            *r == self.spec_config(),
    {
        &self.config
    }

    /// Changes the threshold, limited to the unit interval.
    pub fn set_threshold(&mut self, threshold_bits: u32)
        ensures
            final(self).spec_config() == (VadConfig {
                threshold_bits: clamp_unit(threshold_bits),
                ..old(self).spec_config()
            }),
    {
        self.config.threshold_bits = level_clamp_unit(threshold_bits);
    }
}

} // verus!
