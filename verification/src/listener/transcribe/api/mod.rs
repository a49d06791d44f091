//! Transcription by a remote service: keys, uploads, live sessions.

pub mod env;
pub mod openai;
pub mod realtime;
