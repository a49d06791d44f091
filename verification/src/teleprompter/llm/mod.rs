//! Chat clients of the two providers.
//!
//! A conversation is sent whole each time: the stable system prompt, then every turn.

pub mod anthropic;
pub mod backend;
pub mod openai;
pub mod turn;

pub use anthropic::AnthropicClient;
pub use backend::{Backend, LlmBackendKind};
pub use openai::OpenAiClient;
pub use turn::{AudioPart, LlmError, Role, Turn};
