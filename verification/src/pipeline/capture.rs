//! One capture, from the first window of audio to the audio handed on.
//!
//! The capture worker receives conditioned audio window by window, together
//! with the detector's decision for each. The session keeps the pre-roll fed,
//! follows the segment detector, accumulates speech once a segment has been
//! confirmed, and says when the capture has to stop. Recording is ended by the
//! user, not by a pause: when the detector reports the end of a segment the
//! session goes on listening for the next one.

use crate::config::VadConfig;
use crate::pipeline::events::{EventView, PipelineEvent};
use crate::pipeline::orchestrator::{CaptureKind, PipelineConfig};
use crate::vad::buffer::{accepted, duration_ms_of, keep_last, samples_for, SpeechBufferModel};
use crate::vad::state_machine::{
    after_reset, capturing, forced_end, initial_model, step, VadEvent, VadModel,
};
use crate::vad::{SpeechBuffer, VadStateMachine};
use vstd::prelude::*;

verus! {

/// Sample rate of conditioned audio.
pub const TARGET_SAMPLE_RATE: u32 = 16_000;

/// How long the worker waits for a window before it looks at the cancel flag
/// again, in milliseconds.
pub const RECEIVE_TIMEOUT_MS: u64 = 100;

/// How far past the longest recording the worker lets the clock run, in
/// milliseconds.
pub const TIMEOUT_MARGIN_MS: u64 = 5_000;

/// What a capture hands on.
#[derive(Debug)]
pub enum CaptureResult {
    /// Speech was captured.
    Success { audio: Vec<u32>, duration_ms: u64 },
    /// The user stopped before any speech was confirmed.
    Cancelled,
    /// The capture ended by itself without speech.
    NoSpeech,
}

impl CaptureResult {
    /// The kind of the result, without the audio.
    pub fn kind(&self) -> (k: CaptureKind)
        ensures
            k == match *self {
                CaptureResult::Success { .. } => CaptureKind::Captured,
                CaptureResult::Cancelled => CaptureKind::Cancelled,
                CaptureResult::NoSpeech => CaptureKind::NoSpeech,
            },
    {
        match self {
            CaptureResult::Success { .. } => CaptureKind::Captured,
            CaptureResult::Cancelled => CaptureKind::Cancelled,
            CaptureResult::NoSpeech => CaptureKind::NoSpeech,
        }
    }
}

/// What one window of audio leads to.
#[derive(Debug)]
pub struct ChunkOutcome {
    /// The event to publish, if the detector confirmed a start or an end.
    pub event: Option<PipelineEvent>,
    /// True when the capture has to stop: the speech buffer is full.
    pub stop: bool,
}

/// The session as contracts see it.
pub struct CaptureModel {
    /// The segment detector.
    pub vad: VadModel,
    /// The pre-roll and the accumulated speech.
    pub buffer: SpeechBufferModel,
    /// Whether a segment was ever confirmed.
    pub speech_ever_detected: bool,
    /// Whether the last confirmed segment is still open.
    pub currently_speaking: bool,
    /// Longest recording, in milliseconds.
    pub max_recording_duration_ms: u64,
}

/// Duration in milliseconds of `len` conditioned samples.
pub open spec fn chunk_duration_ms(len: nat) -> u64 {
    duration_ms_of(len, TARGET_SAMPLE_RATE) as u64
}

/// The detector and the two flags after the event of a window.
pub open spec fn after_event(m: CaptureModel, vad: VadModel, event: VadEvent) -> (
    VadModel,
    bool,
    bool,
) {
    match event {
        VadEvent::SpeechStarted => (vad, true, true),
        VadEvent::SpeechEnded => (after_reset(vad), m.speech_ever_detected, false),
        _ => (vad, m.speech_ever_detected, m.currently_speaking),
    }
}

/// The session after one window of `samples` for which the detector decided
/// `is_speech`, the event to publish, and whether the capture has to stop.
///
/// The window always enters the pre-roll. The first confirmed start opens the
/// speech with the pre-roll, which by then holds the window itself, or with
/// its newest part where the whole is more than the cap. While a segment is
/// open the window is appended to the speech, up to the cap; a full buffer
/// ends the detector's segment and stops the capture.
pub open spec fn chunk_step(m: CaptureModel, samples: Seq<u32>, is_speech: bool) -> (
    CaptureModel,
    Option<EventView>,
    bool,
) {
    let pre_roll = keep_last(m.buffer.pre_roll + samples, m.buffer.pre_roll_capacity);
    let (vad1, event) = step(m.vad, is_speech, chunk_duration_ms(samples.len()));
    let (vad2, ever, speaking) = after_event(m, vad1, event);
    let opened = if event == VadEvent::SpeechStarted && !m.speech_ever_detected {
        keep_last(pre_roll, m.buffer.max_speech_samples)
    } else {
        m.buffer.speech
    };
    let published = match event {
        VadEvent::SpeechStarted => Some(EventView::SpeechStarted),
        VadEvent::SpeechEnded => Some(
            EventView::SpeechEnded {
                duration_ms: duration_ms_of(m.buffer.speech.len(), m.buffer.sample_rate) as u64,
            },
        ),
        _ => None,
    };
    let accumulate = ever && (capturing(vad2.state) || speaking);
    let speech = if accumulate {
        opened + accepted(opened.len(), m.buffer.max_speech_samples, samples)
    } else {
        opened
    };
    let stop = accumulate && speech.len() >= m.buffer.max_speech_samples;
    let vad3 = if stop {
        forced_end(vad2).0
    } else {
        vad2
    };
    (
        CaptureModel {
            vad: vad3,
            buffer: SpeechBufferModel { pre_roll, speech, ..m.buffer },
            speech_ever_detected: ever,
            currently_speaking: speaking,
            max_recording_duration_ms: m.max_recording_duration_ms,
        },
        published,
        stop,
    )
}

/// True when a recording that has run for `elapsed_ms` is past its longest
/// duration and the margin.
pub open spec fn past_deadline(max_recording_duration_ms: u64, elapsed_ms: u64) -> bool {
    elapsed_ms > max_recording_duration_ms + TIMEOUT_MARGIN_MS
}

/// The state of one capture.
pub struct CaptureSession {
    vad_state: VadStateMachine,
    speech_buffer: SpeechBuffer,
    speech_ever_detected: bool,
    currently_speaking: bool,
    max_recording_duration_ms: u64,
}

impl View for CaptureSession {
    type V = CaptureModel;

    closed spec fn view(&self) -> CaptureModel {
        CaptureModel {
            vad: self.vad_state@,
            buffer: self.speech_buffer@,
            speech_ever_detected: self.speech_ever_detected,
            currently_speaking: self.currently_speaking,
            max_recording_duration_ms: self.max_recording_duration_ms,
        }
    }
}

/// Duration in milliseconds of `len` conditioned samples.
fn duration_of(len: usize) -> (ms: u64)
    ensures
        ms == chunk_duration_ms(len as nat),
{
    let wide: u128 = (len as u128) * 1000 / (TARGET_SAMPLE_RATE as u128);
    if wide > u64::MAX as u128 {
        u64::MAX
    } else {
        wide as u64
    }
}

impl CaptureSession {
    /// The invariant that every method keeps.
    pub closed spec fn wf(&self) -> bool {
        &&& self.vad_state.wf()
        &&& self.speech_buffer.wf()
    }

    /// Tells whether a pre-roll of `speech_pad_ms` can be allocated.
    pub fn pre_roll_fits(speech_pad_ms: u64) -> (r: bool)
        ensures
            r == (samples_for(TARGET_SAMPLE_RATE, speech_pad_ms) <= isize::MAX / 8),
    {
        let wide: u128 = (TARGET_SAMPLE_RATE as u128) * (speech_pad_ms as u128) / 1000;
        wide <= (isize::MAX / 8) as u128
    }

    /// A session that has heard nothing yet: the detector idle, the buffers
    /// empty, the pre-roll sized for `speech_pad_ms` and the speech capped at
    /// the longest recording.
    pub fn new(config: &PipelineConfig) -> (r: Self)
        requires
            samples_for(TARGET_SAMPLE_RATE, config.app_config.vad.speech_pad_ms) <= isize::MAX / 8,
        ensures
            r.wf(),
            r@.vad == initial_model(config.app_config.vad),
            r@.buffer.pre_roll == Seq::<u32>::empty(),
            r@.buffer.speech == Seq::<u32>::empty(),
            r@.buffer.sample_rate == TARGET_SAMPLE_RATE,
            r@.buffer.pre_roll_capacity == if samples_for(
                TARGET_SAMPLE_RATE,
                config.app_config.vad.speech_pad_ms,
            ) == 0 {
                1
            } else {
                samples_for(TARGET_SAMPLE_RATE, config.app_config.vad.speech_pad_ms)
            },
            r@.buffer.max_speech_samples == crate::vad::buffer::saturated(
                samples_for(TARGET_SAMPLE_RATE, config.max_recording_duration_ms),
            ),
            !r@.speech_ever_detected,
            !r@.currently_speaking,
            r@.max_recording_duration_ms == config.max_recording_duration_ms,
    {
        let vad_config: VadConfig = config.app_config.vad;
        CaptureSession {
            vad_state: VadStateMachine::new(vad_config),
            speech_buffer: SpeechBuffer::new(
                TARGET_SAMPLE_RATE,
                vad_config.speech_pad_ms,
                config.max_recording_duration_ms,
            ),
            speech_ever_detected: false,
            currently_speaking: false,
            max_recording_duration_ms: config.max_recording_duration_ms,
        }
    }

    /// Tells whether a recording that has run for `elapsed_ms` must end.
    pub fn timed_out(&self, elapsed_ms: u64) -> (r: bool)
        ensures
            r == past_deadline(self@.max_recording_duration_ms, elapsed_ms),
    {
        if self.max_recording_duration_ms > u64::MAX - TIMEOUT_MARGIN_MS {
            false
        } else {
            elapsed_ms > self.max_recording_duration_ms + TIMEOUT_MARGIN_MS
        }
    }

    /// True when speech has been accumulated.
    pub fn has_speech(&self) -> (r: bool)
        ensures
            r == (self@.buffer.speech.len() > 0),
    {
        self.speech_buffer.has_speech()
    }

    /// Takes one window of conditioned audio and the detector's decision for
    /// it.
    pub fn on_chunk(&mut self, samples: &[u32], is_speech: bool) -> (outcome: ChunkOutcome)
        requires
            old(self).wf(),
        ensures
            final(self).wf(),
            final(self)@ == chunk_step(old(self)@, samples@, is_speech).0,
            match outcome.event {
                Some(e) => Some(e@),
                None => None::<EventView>,
            } == chunk_step(old(self)@, samples@, is_speech).1,
            outcome.stop == chunk_step(old(self)@, samples@, is_speech).2,
    {
        let chunk_ms: u64 = duration_of(samples.len());
        let ended_ms: u64 = self.speech_buffer.speech_duration_ms();
        self.speech_buffer.push_pre_speech(samples);
        let event: VadEvent = self.vad_state.process(is_speech, chunk_ms);
        let published: Option<PipelineEvent> = match event {
            VadEvent::SpeechStarted => {
                if !self.speech_ever_detected {
                    self.speech_buffer.start_speech();
                    self.speech_ever_detected = true;
                }
                self.currently_speaking = true;
                Some(PipelineEvent::SpeechStarted)
            },
            VadEvent::SpeechEnded => {
                self.currently_speaking = false;
                self.vad_state.reset();
                Some(PipelineEvent::SpeechEnded { duration_ms: ended_ms })
            },
            _ => None,
        };
        let mut stop: bool = false;
        if self.speech_ever_detected && (self.vad_state.is_capturing() || self.currently_speaking) {
            self.speech_buffer.push_speech(samples);
            if self.speech_buffer.is_at_capacity() {
                let _ = self.vad_state.force_end();
                stop = true;
            }
        }
        proof {
            assert(self@.buffer =~= chunk_step(old(self)@, samples@, is_speech).0.buffer);
        }
        ChunkOutcome { event: published, stop }
    }

    /// The user has stopped the recording: hands out the speech if there is
    /// any.
    pub fn on_cancel(&mut self) -> (result: CaptureResult)
        ensures
            old(self)@.buffer.speech.len() > 0 ==> result is Success && result->audio@
                == old(self)@.buffer.speech && result->duration_ms == chunk_duration_ms(
                old(self)@.buffer.speech.len(),
            ),
            old(self)@.buffer.speech.len() == 0 ==> result is Cancelled,
            final(self)@ == (CaptureModel {
                buffer: SpeechBufferModel { speech: Seq::<u32>::empty(), ..old(self)@.buffer },
                ..old(self)@
            }),
            old(self).wf() ==> final(self).wf(),
    {
        if self.speech_buffer.has_speech() {
            let audio: Vec<u32> = self.speech_buffer.end_speech();
            let duration_ms: u64 = duration_of(audio.len());
            CaptureResult::Success { audio, duration_ms }
        } else {
            proof {
                assert(self@.buffer.speech =~= Seq::<u32>::empty());
            }
            CaptureResult::Cancelled
        }
    }

    /// The capture has ended by itself: hands out the speech if there is any.
    pub fn finish(&mut self) -> (result: CaptureResult)
        ensures
            old(self)@.buffer.speech.len() > 0 ==> result is Success && result->audio@
                == old(self)@.buffer.speech && result->duration_ms == chunk_duration_ms(
                old(self)@.buffer.speech.len(),
            ),
            old(self)@.buffer.speech.len() == 0 ==> result is NoSpeech,
            final(self)@ == (CaptureModel {
                buffer: SpeechBufferModel { speech: Seq::<u32>::empty(), ..old(self)@.buffer },
                ..old(self)@
            }),
            old(self).wf() ==> final(self).wf(),
    {
        if self.speech_buffer.has_speech() {
            let audio: Vec<u32> = self.speech_buffer.end_speech();
            let duration_ms: u64 = duration_of(audio.len());
            CaptureResult::Success { audio, duration_ms }
        } else {
            proof {
                assert(self@.buffer.speech =~= Seq::<u32>::empty());
            }
            CaptureResult::NoSpeech
        }
    }
}

/// The speech never outgrows its cap, whatever the window brings and however
/// long the pre-roll is.
pub proof fn lemma_speech_stays_capped(m: CaptureModel, samples: Seq<u32>, is_speech: bool)
    requires
        m.buffer.speech.len() <= m.buffer.max_speech_samples,
    ensures
        chunk_step(m, samples, is_speech).0.buffer.speech.len() <= m.buffer.max_speech_samples,
        chunk_step(m, samples, is_speech).0.buffer.max_speech_samples
            == m.buffer.max_speech_samples,
        chunk_step(m, samples, is_speech).0.buffer.pre_roll.len() <= m.buffer.pre_roll_capacity,
{
}

/// Nothing is accumulated before a segment has been confirmed: windows that
/// bring no confirmed start leave the speech empty.
pub proof fn lemma_no_speech_before_start(m: CaptureModel, samples: Seq<u32>, is_speech: bool)
    requires
        !m.speech_ever_detected,
        m.buffer.speech.len() == 0,
        step(m.vad, is_speech, chunk_duration_ms(samples.len())).1 != VadEvent::SpeechStarted,
    ensures
        !chunk_step(m, samples, is_speech).0.speech_ever_detected,
        chunk_step(m, samples, is_speech).0.buffer.speech.len() == 0,
        !chunk_step(m, samples, is_speech).2 || m.buffer.max_speech_samples == 0,
{
}

/// The first confirmed start opens the speech with the pre-roll: what was
/// heard just before the start is kept at the front of the audio, all of it
/// where the cap allows and else its newest part.
pub proof fn lemma_start_keeps_pre_roll(m: CaptureModel, samples: Seq<u32>, is_speech: bool)
    requires
        !m.speech_ever_detected,
        step(m.vad, is_speech, chunk_duration_ms(samples.len())).1 == VadEvent::SpeechStarted,
    ensures
        ({
            let after = chunk_step(m, samples, is_speech).0;
            let pre_roll = keep_last(m.buffer.pre_roll + samples, m.buffer.pre_roll_capacity);
            let opened = keep_last(pre_roll, m.buffer.max_speech_samples);
            &&& after.speech_ever_detected
            &&& after.buffer.pre_roll == pre_roll
            &&& opened.len() <= after.buffer.speech.len()
            &&& after.buffer.speech.take(opened.len() as int) == opened
            &&& pre_roll.len() <= m.buffer.max_speech_samples ==> opened == pre_roll
        }),
{
    let pre_roll = keep_last(m.buffer.pre_roll + samples, m.buffer.pre_roll_capacity);
    let opened = keep_last(pre_roll, m.buffer.max_speech_samples);
    let after = chunk_step(m, samples, is_speech).0;
    assert(after.buffer.speech.take(opened.len() as int) =~= opened);
}

} // verus!
