//! Core of an assistant that turns a task description into a shell command:
//! the text sanitizer, the safety gate, the prompt builder, the request and
//! response framing for the completion backend, the settings rules and the
//! bounded retry state machine.

pub mod text;
pub mod safety;
pub mod sanitize;
pub mod prompt;
pub mod config;
pub mod backend;
pub mod executor;
pub mod controller;
