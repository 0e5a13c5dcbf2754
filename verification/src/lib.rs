//! Real-time conversations over audio and text.

pub mod api;
pub mod aristech;
pub mod audio;
pub mod audio_tracer;
pub mod azure;
pub mod base64_codec;
pub mod context_switch;
pub mod conversation;
pub mod conversation_controller;
pub mod deepgram_transcribe;
pub mod elevenlabs;
pub mod error;
pub mod google_dialog;
pub mod google_transcribe;
pub mod input;
pub mod json;
pub mod language;
pub mod microsoft_voice_live;
pub mod modality;
pub mod openai_dialog;
pub mod output;
pub mod playback;
pub mod protocol;
pub mod registry;
pub mod table;
pub mod text;
pub mod urls;
