//! Speech recognition: segmenting audio, scheduling inference, calling backends.

pub mod api;
pub mod engine;
pub mod live;
pub mod local_agreement;
pub mod models;
pub mod stream;
pub mod transcriber;
pub mod vad;
