//! Verified core of a microphone-to-Whisper transcription server and its web page.

pub mod chars;
pub mod escape;
pub mod body;
pub mod query;
pub mod catalog;
pub mod state;
pub mod json;
pub mod http;
pub mod server;
pub mod paths;
pub mod audio;
pub mod commands;
pub mod ui;
pub mod protocol;
pub mod rounding;
