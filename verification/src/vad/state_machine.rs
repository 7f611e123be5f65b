//! The debounced state machine that turns per-window speech decisions into
//! segment boundaries.
//!
//! A short burst of speech does not start a segment and a short pause does not
//! end one: a change is confirmed only after it has lasted for the configured
//! time, measured on a clock that advances by the duration of each window.
//!
//! The two confirmations start their count at different ends of the window
//! that opens them. A burst of speech counts from the beginning of its first
//! window: that window is speech already, so two windows of 50 ms and 60 ms
//! confirm a start that takes 100 ms. A pause counts from the end of its first
//! silent window, the clock reading at which the silence was noticed.

use crate::config::VadConfig;
use vstd::prelude::*;

verus! {

/// Where the machine stands.
#[derive(Debug, Clone, Copy, PartialEq, Eq, Structural)]
pub enum VadState {
    /// Waiting for speech.
    Idle,
    /// Speech was heard and is being confirmed.
    SpeechPending {
        /// Clock reading at the beginning of the first speech window.
        started_at_ms: u64,
    },
    /// Speech is confirmed.
    SpeechActive,
    /// Silence was heard inside a segment and is being confirmed.
    SilencePending {
        /// Clock reading at the end of the first silent window.
        started_at_ms: u64,
    },
}

impl Default for VadState {
    fn default() -> (r: Self)
        ensures
            r == VadState::Idle,
    {
        VadState::Idle
    }
}

/// What a step reports.
#[derive(Debug, Clone, Copy, PartialEq, Eq, Structural)]
pub enum VadEvent {
    /// Nothing to report.
    NoChange,
    /// A segment has started.
    SpeechStarted,
    /// A segment has ended.
    SpeechEnded,
    /// A segment was cut short from outside.
    MaxDurationReached,
}

/// The machine as contracts see it.
pub struct VadModel {
    /// Current state.
    pub state: VadState,
    /// Clock reading in milliseconds.
    pub now: u64,
    /// Confirmation time for speech.
    pub min_speech_ms: u64,
    /// Confirmation time for silence.
    pub min_silence_ms: u64,
}

/// True in the two states in which a segment is open.
pub open spec fn capturing(state: VadState) -> bool {
    state is SpeechActive || state is SilencePending
}

/// The clock after a window of `chunk_ms`: it stops at the largest reading.
pub open spec fn clock_after(now: u64, chunk_ms: u64) -> u64 {
    if now + chunk_ms > u64::MAX {
        u64::MAX
    } else {
        (now + chunk_ms) as u64
    }
}

/// A pending state never started after the current clock reading.
pub open spec fn model_wf(m: VadModel) -> bool {
    match m.state {
        VadState::SpeechPending { started_at_ms } => started_at_ms <= m.now,
        VadState::SilencePending { started_at_ms } => started_at_ms <= m.now,
        _ => true,
    }
}

/// The machine before its first window.
pub open spec fn initial_model(config: VadConfig) -> VadModel {
    VadModel {
        state: VadState::Idle,
        now: 0,
        min_speech_ms: config.min_speech_duration_ms,
        min_silence_ms: config.min_silence_duration_ms,
    }
}

/// State and event after one window, given the state before it, the clock
/// reading `began` at the beginning of the window and the reading `now` at its
/// end. Pending speech is stamped with `began`, pending silence with `now`.
pub open spec fn transition(
    state: VadState,
    began: u64,
    now: u64,
    is_speech: bool,
    min_speech_ms: u64,
    min_silence_ms: u64,
) -> (VadState, VadEvent) {
    match state {
        VadState::Idle => if is_speech {
            (VadState::SpeechPending { started_at_ms: began }, VadEvent::NoChange)
        } else {
            (VadState::Idle, VadEvent::NoChange)
        },
        VadState::SpeechPending { started_at_ms } => if is_speech {
            if now - started_at_ms >= min_speech_ms {
                (VadState::SpeechActive, VadEvent::SpeechStarted)
            } else {
                (VadState::SpeechPending { started_at_ms }, VadEvent::NoChange)
            }
        } else {
            (VadState::Idle, VadEvent::NoChange)
        },
        VadState::SpeechActive => if is_speech {
            (VadState::SpeechActive, VadEvent::NoChange)
        } else {
            (VadState::SilencePending { started_at_ms: now }, VadEvent::NoChange)
        },
        VadState::SilencePending { started_at_ms } => if is_speech {
            (VadState::SpeechActive, VadEvent::NoChange)
        } else if now - started_at_ms >= min_silence_ms {
            (VadState::Idle, VadEvent::SpeechEnded)
        } else {
            (VadState::SilencePending { started_at_ms }, VadEvent::NoChange)
        },
    }
}

/// The machine and the event after one window.
pub open spec fn step(m: VadModel, is_speech: bool, chunk_ms: u64) -> (VadModel, VadEvent) {
    let now = clock_after(m.now, chunk_ms);
    let (state, event) = transition(
        m.state,
        m.now,
        now,
        is_speech,
        m.min_speech_ms,
        m.min_silence_ms,
    );
    (VadModel { state, now, ..m }, event)
}

/// The machine after a forced end, and what that reports.
pub open spec fn forced_end(m: VadModel) -> (VadModel, VadEvent) {
    if capturing(m.state) {
        (VadModel { state: VadState::Idle, ..m }, VadEvent::MaxDurationReached)
    } else {
        (m, VadEvent::NoChange)
    }
}

/// The machine after a reset: idle, with the clock at zero.
pub open spec fn after_reset(m: VadModel) -> VadModel {
    VadModel { state: VadState::Idle, now: 0, ..m }
}

/// Debounced detector of speech segments.
pub struct VadStateMachine {
    state: VadState,
    config: VadConfig,
    current_time_ms: u64,
}

impl View for VadStateMachine {
    type V = VadModel;

    closed spec fn view(&self) -> VadModel {
        VadModel {
            state: self.state,
            now: self.current_time_ms,
            min_speech_ms: self.config.min_speech_duration_ms,
            min_silence_ms: self.config.min_silence_duration_ms,
        }
    }
}

impl VadStateMachine {
    /// The configuration the machine was made with.
    pub closed spec fn spec_config(&self) -> VadConfig {
        self.config
    }

    /// The invariant that every method keeps.
    pub open spec fn wf(&self) -> bool {
        &&& model_wf(self@)
        &&& self@.min_speech_ms == self.spec_config().min_speech_duration_ms
        &&& self@.min_silence_ms == self.spec_config().min_silence_duration_ms
    }

    /// A machine that waits for speech, with its clock at zero.
    pub fn new(config: VadConfig) -> (r: Self)
        ensures
            r@ == initial_model(config),
            r.spec_config() == config,
            r.wf(),
    {
        VadStateMachine { state: VadState::Idle, config, current_time_ms: 0 }
    }

    /// Advances the clock by `chunk_duration_ms` and takes one decision into
    /// account.
    pub fn process(&mut self, is_speech: bool, chunk_duration_ms: u64) -> (event: VadEvent)
        requires
            old(self).wf(),
        ensures
            (final(self)@, event) == step(old(self)@, is_speech, chunk_duration_ms),
            final(self).spec_config() == old(self).spec_config(),
            final(self).wf(),
    {
        let began: u64 = self.current_time_ms;
        let now: u64 = if chunk_duration_ms > u64::MAX - self.current_time_ms {
            u64::MAX
        } else {
            self.current_time_ms + chunk_duration_ms
        };
        self.current_time_ms = now;
        let (new_state, event) = match self.state {
            VadState::Idle => {
                if is_speech {
                    (VadState::SpeechPending { started_at_ms: began }, VadEvent::NoChange)
                } else {
                    (VadState::Idle, VadEvent::NoChange)
                }
            },
            VadState::SpeechPending { started_at_ms } => {
                if is_speech {
                    let elapsed: u64 = now - started_at_ms;
                    if elapsed >= self.config.min_speech_duration_ms {
                        (VadState::SpeechActive, VadEvent::SpeechStarted)
                    } else {
                        (VadState::SpeechPending { started_at_ms }, VadEvent::NoChange)
                    }
                } else {
                    (VadState::Idle, VadEvent::NoChange)
                }
            },
            VadState::SpeechActive => {
                if is_speech {
                    (VadState::SpeechActive, VadEvent::NoChange)
                } else {
                    (VadState::SilencePending { started_at_ms: now }, VadEvent::NoChange)
                }
            },
            VadState::SilencePending { started_at_ms } => {
                if is_speech {
                    (VadState::SpeechActive, VadEvent::NoChange)
                } else {
                    let elapsed: u64 = now - started_at_ms;
                    if elapsed >= self.config.min_silence_duration_ms {
                        (VadState::Idle, VadEvent::SpeechEnded)
                    } else {
                        (VadState::SilencePending { started_at_ms }, VadEvent::NoChange)
                    }
                }
            },
        };
        self.state = new_state;
        event
    }

    /// True while a segment is open.
    pub fn is_capturing(&self) -> (r: bool)
        ensures
            r == capturing(self@.state),
    {
        match self.state {
            VadState::SpeechActive => true,
            VadState::SilencePending { .. } => true,
            _ => false,
        }
    }

    /// The current state.
    pub fn state(&self) -> (r: VadState)
        ensures
            r == self@.state,
    {
        self.state
    }

    /// Back to waiting, with the clock at zero.
    pub fn reset(&mut self)
        ensures
            final(self)@ == after_reset(old(self)@),
            final(self).spec_config() == old(self).spec_config(),
            old(self).wf() ==> final(self).wf(),
    {
        self.state = VadState::Idle;
        self.current_time_ms = 0;
    }

    /// Ends an open segment at once; does nothing when none is open.
    pub fn force_end(&mut self) -> (event: VadEvent)
        ensures
            (final(self)@, event) == forced_end(old(self)@),
            final(self).spec_config() == old(self).spec_config(),
            old(self).wf() ==> final(self).wf(),
    {
        if self.is_capturing() {
            self.state = VadState::Idle;
            VadEvent::MaxDurationReached
        } else {
            VadEvent::NoChange
        }
    }

    /// The clock reading while a segment is open, `None` otherwise.
    pub fn speech_duration_ms(&self) -> (r: Option<u64>)
        ensures
            r == if capturing(self@.state) {
                Some(self@.now)
            } else {
                None::<u64>
            },
    {
        match self.state {
            VadState::SpeechActive => Some(self.current_time_ms),
            VadState::SilencePending { .. } => Some(self.current_time_ms),
            _ => None,
        }
    }
}

} // verus!
