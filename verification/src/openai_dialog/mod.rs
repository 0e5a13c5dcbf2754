//! Realtime audio dialogs with OpenAI models.

pub mod client;
pub mod dialog;
pub mod host;
pub mod laws;
pub mod prompts;
pub mod session;
pub mod transcription;
pub mod types;
