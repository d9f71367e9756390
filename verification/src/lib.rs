//! Verified core of a tool-calling chat orchestrator.
//!
//! A chat model answers a user query, optionally by asking for tool calls
//! against an IP-lookup backend; the library holds the whole of the decision
//! logic — the two-turn conversation state machine, the payload extracted
//! from each tool call, the interchangeable execution backends with their
//! error taxonomy, the discovery fallback, and the descriptor of the one
//! function the model may call. The driver around it performs only the I/O
//! that the library's actions name.

pub mod config;
pub mod executor;
pub mod json;
pub mod payload;
pub mod run;
pub mod tooling;
