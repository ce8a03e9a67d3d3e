//! Command dispatch and command registration for a small slash-command chat bot.
//!
//! The library turns a decoded command invocation into the text of the reply,
//! and a readiness signal into the list of command declarations to send.
//! Talking to the chat platform is left to the program that links it.

pub mod dispatch;
pub mod model;
pub mod registrar;
pub mod text;
pub mod timestamp;
