//! Delivery of the transcribed text.

pub mod clipboard;

pub use clipboard::{copy_to_clipboard, ClipboardError, ClipboardManager, SinkState};
