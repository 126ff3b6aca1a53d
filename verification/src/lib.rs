//! Core logic of the transcriber: configuration rules, history helpers, the
//! daemon's session state machine, the overlay's delivery rules, streaming
//! frame handling and WAV encoding.

pub mod api;
pub mod audio;
pub mod bus;
pub mod checks;
pub mod config;
pub mod connections;
pub mod coupling;
pub mod daemon;
pub mod history;
pub mod json;
pub mod overlay;
pub mod pipeline;
pub mod saver;
pub mod settings;
pub mod streaming;
pub mod text;
