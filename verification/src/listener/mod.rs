//! Audio capture and transcription for microphone and system output.

pub mod capture;
pub mod error;
pub mod sink;
pub mod stream;
pub mod transcribe;

pub use capture::discover::Devices;
pub use capture::record::{CaptureConfig, Recorder};
pub use error::ListenerError;
pub use sink::{AudioSink, InputSink, OutputSink};
