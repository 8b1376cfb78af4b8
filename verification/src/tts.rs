//! The text-to-speech application.

pub mod voice_data;
