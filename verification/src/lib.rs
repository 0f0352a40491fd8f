//! Client library for a conversational-completion service.
//!
//! The crate centres on the resilient streaming request pipeline: a retry
//! policy with exponential backoff, an executor that classifies transport
//! outcomes, an incremental decoder that reassembles newline-delimited
//! event frames from arbitrarily chunked byte input, and an in-memory
//! registry of sessions and collections with derived statistics.

pub mod chat;
pub mod collections;
pub mod config;
pub mod decoder;
pub mod error;
pub mod executor;
pub mod retry;
pub mod session;
pub mod strutil;
pub mod tools;

pub use chat::Model;
pub use error::GrokError;
