//! Verified core of a single-session LLM-driven page server.
//!
//! The library covers the conversation-state / prompt-assembly /
//! response-extraction cycle: an append-only transcript of turns, a pure
//! prompt builder with fixed generation settings, a wire encoder for the
//! outbound request, an extractor that strips the code fence around a model
//! reply, and the classification of upstream failures. Process bootstrap,
//! HTTP routing and the network call itself live outside the library.

pub mod client;
pub mod encode;
pub mod extract;
pub mod handlers;
pub mod prompt;
pub mod transcript;
