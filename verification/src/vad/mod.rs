//! Voice-activity detection: the debounced state machine and the buffers
//! that keep what was said.

pub mod buffer;
pub mod detector;
pub mod runs;
pub mod segments;
pub mod state_machine;

pub use buffer::{SpeechBuffer, SpeechBufferModel};
pub use detector::{VadDetector, VadError, VadMethod, VadResult, WINDOW_SAMPLES};
pub use segments::{
    segments_from_decisions, select_segments, Aggressiveness, SampleRate, SegmentError,
    VoiceActivityDetector,
};
pub use state_machine::{VadEvent, VadModel, VadState, VadStateMachine};
