//! Playback of texts, files and remote audio.

pub mod laws;
pub mod method;
pub mod stream_reader;
