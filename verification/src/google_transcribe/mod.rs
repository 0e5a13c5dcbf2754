//! Streaming transcription by Google.

pub mod class_tokens;
pub mod client;
pub mod laws;
pub mod params;
pub mod transcribe;
