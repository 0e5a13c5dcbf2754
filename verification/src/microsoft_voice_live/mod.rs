//! Realtime transcription by Microsoft's Voice Live.

pub mod client;
pub mod host;
pub mod laws;
pub mod transcription;
