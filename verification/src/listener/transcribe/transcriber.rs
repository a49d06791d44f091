//! One transcriber, whether a local model or a remote service does the work.

use vstd::prelude::*;

use crate::listener::error::ListenerError;
use crate::listener::transcribe::api::openai::ApiError;

verus! {

/// A failed transcription.
#[derive(Debug, Clone)]
pub enum TranscribeError {
    /// The local model failed.
    Local(ListenerError),
    /// The remote service failed.
    Api(ApiError),
    /// The task of the local model panicked.
    Panicked,
}

/// What did the work, and what it came to.
#[derive(Debug)]
pub enum TranscribeOutcome {
    /// A local model on a task of its own; nothing came back where the task panicked.
    Local(Option<Result<String, ListenerError>>),
    /// The remote service.
    Api(Result<String, ApiError>),
}

/// The text of a transcription, whoever did the work.
pub fn transcribe(outcome: TranscribeOutcome) -> (text: Result<String, TranscribeError>)
    ensures
        text == (match outcome {
            TranscribeOutcome::Local(None) => Err::<String, TranscribeError>(
                TranscribeError::Panicked,
            ),
            TranscribeOutcome::Local(Some(Ok(t))) => Ok::<String, TranscribeError>(t),
            TranscribeOutcome::Local(Some(Err(e))) => Err::<String, TranscribeError>(
                TranscribeError::Local(e),
            ),
            TranscribeOutcome::Api(Ok(t)) => Ok::<String, TranscribeError>(t),
            TranscribeOutcome::Api(Err(e)) => Err::<String, TranscribeError>(
                TranscribeError::Api(e),
            ),
        }),
{
    match outcome {
        TranscribeOutcome::Local(None) => Err(TranscribeError::Panicked),
        TranscribeOutcome::Local(Some(Ok(t))) => Ok(t),
        TranscribeOutcome::Local(Some(Err(e))) => Err(TranscribeError::Local(e)),
        TranscribeOutcome::Api(Ok(t)) => Ok(t),
        TranscribeOutcome::Api(Err(e)) => Err(TranscribeError::Api(e)),
    }
}

/// The text of a capture that was transcribed on a blocking task.
pub fn joined_result(outcome: Option<Result<String, ListenerError>>) -> (text: Result<
    String,
    ListenerError,
>)
    ensures
        text == (match outcome {
            Some(result) => result,
            None => Err::<String, ListenerError>(ListenerError::JoinError),
        }),
{
    match outcome {
        Some(result) => result,
        None => Err(ListenerError::JoinError),
    }
}

} // verus!
