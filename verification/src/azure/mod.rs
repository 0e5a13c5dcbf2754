//! Speech services of Microsoft Azure.

pub mod host;
pub mod laws;
pub mod synthesize;
pub mod transcribe;
pub mod translate;
pub mod wav;
