//! Speech synthesis and transcription by ElevenLabs.

pub mod laws;
pub mod synthesis_state;
pub mod synthesize;
pub mod transcribe;
