//! Core logic of a chat relay: inbound gateway events are classified against a
//! command prefix, actionable messages are turned into completion requests, and
//! the generated text is wrapped and sent back to the originating channel.
//!
//! The transport work (the persistent gateway connection and the HTTP calls to
//! the completion endpoint) lives outside this crate; here stand the decisions:
//! the message classifier, the event-loop state machine, reply rendering, the
//! authorization-header rules, and the configuration and error types.

pub mod auth;
pub mod classify;
pub mod config;
pub mod error;
pub mod openai;
pub mod relay;
