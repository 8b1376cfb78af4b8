//! The PrimeSpeech application.

pub mod voice_data;
