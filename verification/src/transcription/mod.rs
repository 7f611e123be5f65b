//! The model file and the text that comes back from the transcriber.

pub mod model;
pub mod whisper;

pub use model::{ModelDownloader, MIN_MODEL_SIZE, MODEL_NAME};
pub use whisper::{TranscriptionResult, WhisperTranscriber};
