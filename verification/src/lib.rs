//! Verified core of the headless inference harness runtime: configuration and
//! request checks, provider identities and their digests, the canonical JSON
//! documents that receipts bind, provider adapters, and the composition root.
pub mod cli;
pub mod config;
pub mod digest;
pub mod encoding;
pub mod endpoint;
pub mod error;
pub mod identity;
pub mod json;
pub mod laws;
pub mod provider;
pub mod runtime;
pub mod text;
