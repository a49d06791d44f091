//! What can go wrong while capturing and transcribing.

use vstd::prelude::*;

verus! {

/// A failure of capture or transcription.
#[derive(Debug, Clone)]
pub enum ListenerError {
    /// The sound server could not be queried.
    IntrospectionFailed(&'static str),
    /// A record stream could not be opened.
    ConnectFailed(&'static str),
    /// A record stream could not be read.
    CaptureFailed(&'static str),
    /// A file or thread could not be made or used.
    Io(String),
    /// The model could not be loaded.
    ModelUnavailable(String),
    /// The backend is not part of this build.
    BackendNotCompiled(&'static str),
    /// Inference failed.
    Transcription(String),
    /// A blocking task panicked.
    JoinError,
    /// Reserved for later.
    NotImplemented(&'static str),
}

} // verus!
