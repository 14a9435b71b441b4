//! A resilient HTTP request executor for a remote key-value service client.
//!
//! The heart of the crate is a retry engine: every attempt of a logical
//! request is classified as a success, a retryable failure (rate limiting,
//! server failure, or a transport timeout) or a terminal failure, and each
//! retryable class has an independent budget and a deterministic exponential
//! backoff schedule. The engine itself works on plain values — status codes,
//! body bytes, counters — so every decision it makes is verified; the
//! surrounding HTTP transport hands it one event per attempt.

pub mod backoff;
pub mod config;
pub mod error;
pub mod executor;
pub mod key_value_store;
pub mod laws;
pub mod payload;
pub mod request;
