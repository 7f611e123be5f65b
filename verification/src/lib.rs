//! Push-to-talk voice capture core.
//!
//! The crate holds the decision logic of a low-latency voice-to-text capture
//! engine: voice-activity segmentation, pre-roll and speech buffering, the
//! session lifecycle, the framed request/response protocol and the sizing
//! rules of the audio path. Every function carries a contract that is proved.
//!
//! Audio samples are 32-bit IEEE-754 values. Inside the library a sample or a
//! level is carried as its bit pattern in a `u32`, so that all arithmetic stays
//! in the integers; callers convert with `f32::to_bits` and `f32::from_bits`.

pub mod audio;
pub mod config;
pub mod ipc;
pub mod level;
pub mod output;
pub mod pipeline;
pub mod transcription;
pub mod tray;
pub mod vad;
