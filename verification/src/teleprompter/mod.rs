//! The teleprompter: windows of conversation in, suggestions out.

pub mod config;
pub mod daemon;
pub mod ipc;
pub mod layout;
pub mod llm;
pub mod output;
pub mod pipes;
pub mod theme;
pub mod ui;
pub mod window;

pub use config::{Config, ConfigError};
pub use ipc::{Command, IpcError};
pub use layout::{Geometry, Layout};
pub use llm::{AudioPart, Backend, LlmError, Role, Turn};
pub use pipes::{Labels, PipeContext, PipeError, PipeOutcome};
pub use ui::{CardInit, PipeId, Stage, UiEvent};
pub use window::{Source, Window, WindowManager};
