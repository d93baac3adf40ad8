//! Core of an interactive terminal client that drives a conversational
//! session with an assistant subprocess: the streaming-protocol decoder,
//! the orchestrator state machine with its busy-gating message queue,
//! the session-mailbox record parsing, and the input-line editing helpers.
//!
//! The crate holds only decision logic, stated and proved over mathematical
//! models; the surrounding process, terminal, audio and file plumbing lives
//! with the embedding program, which drives this state machine and performs
//! the actions it returns.

pub mod app;
pub mod input_utils;
pub mod json;
pub mod parser;
pub mod sessions;
pub mod strutil;
pub mod types;
