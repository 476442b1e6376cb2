//! A chat client library for a hosted completion API: message and session
//! models, the server-sent-event stream decoder, configuration assembly, the
//! send-message protocol and the terminal key handling, each with its contract.

pub mod text;
pub mod models;
pub mod json;
pub mod stream;
pub mod error;
pub mod client;
pub mod config;
pub mod sessions;
pub mod api;
pub mod ui;
