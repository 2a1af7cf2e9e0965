//! Adapters between a promise-driven host and a pollable byte stream.
//!
//! The host offers only asynchronous operations that settle later ("read this
//! byte range", "write this buffer"). A transfer engine wants a source and a
//! sink that it can poll. The types here hold the decisions of that
//! reconciliation: what to ask the host for, when to report that nothing is
//! ready yet, and how many bytes a completed operation accounts for. The host
//! calls themselves are made by the embedding program, which reports back how
//! each one stands.
pub mod error;
pub mod pending;
pub mod source;
pub mod sink;
pub mod signal;
pub mod config;
