//! Speech services of Aristech.

pub mod synthesize;
pub mod transcribe;
