//! kitetsu: a live teleprompter.
//!
//! A daemon listens to the microphone and to what the system plays. On a trigger it
//! freezes what was said since the last one, asks a chat model what to answer, and shows
//! the suggestion on an overlay.
//!
//! This crate is the part that decides: how audio is cut into utterances, when
//! inference runs, what is sent and what a reply means, how commands are answered and
//! what the overlay shows. Sockets, sound, files, models and the screen are the
//! program's own; it hands values in and acts on what comes back.
//!
//! - [`listener`]: capture, segmenting, transcription.
//! - [`teleprompter`]: windows, pipes, chat clients, daemon, overlay.
//! - [`settings`]: which tools run, and where their configuration lies.

pub mod base64_text;
pub mod bytes;
pub mod json;
pub mod listener;
pub mod paths;
pub mod samples;
pub mod settings;
pub mod single;
pub mod teleprompter;
pub mod text;
