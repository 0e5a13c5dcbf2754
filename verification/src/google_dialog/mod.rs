//! Realtime audio dialogs with Gemini Live models.

pub mod client;
pub mod conversation_state;
pub mod laws;
pub mod model;
pub mod setup;
pub mod types;
