//! Verified core of a presence scanner: for a given identifier, a set of
//! configured providers is probed over HTTP, each probe is retried with
//! exponential backoff, probes are admitted through a counting concurrency
//! limiter, and aggregate results are cached with a time-to-live.
//!
//! Everything that decides or computes lives here with a contract: status
//! classification, URL construction, the retry/backoff schedule, the cache,
//! the limiter, and the scan session state machine. The surrounding binary
//! performs the actual network calls, sleeps, and terminal rendering, and
//! feeds the observed events back into the verified state machine.

pub mod cache;
pub mod config;
pub mod engine;
pub mod error;
pub mod limiter;
pub mod recon;
pub mod session;
pub mod outcome;
pub mod text;
