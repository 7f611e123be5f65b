//! The push-to-talk session: what a toggle does, how a capture proceeds, and
//! which events each phase publishes.

pub mod capture;
pub mod events;
pub mod orchestrator;

pub use capture::{
    CaptureModel, CaptureResult, CaptureSession, ChunkOutcome, RECEIVE_TIMEOUT_MS,
    TARGET_SAMPLE_RATE, TIMEOUT_MARGIN_MS,
};
pub use events::{event_views, EventView, PipelineEvent, StepOutput};
pub use orchestrator::{
    allowed_transition, decide, CaptureKind, ModelStep, Pipeline, PipelineConfig, PipelineError,
    PipelineModel, ToggleDecision, ToggleOutcome, DEBOUNCE_MS,
};
