//! A per-user conversational session registry.
//!
//! The library keeps one session per user: a fixed system preamble together
//! with a bounded, sliding window of recent dialogue turns. Sessions are
//! created lazily on a user's first message, can be cleared on request, and
//! are mutated only through the conversation service, which records the
//! user's message, hands out the context for the completion collaborator
//! (an external call that produces the assistant's reply), and records the
//! reply once it arrives.

pub mod errors;
pub mod history;
pub mod registry;
pub mod service;
pub mod session;
pub mod turn;
