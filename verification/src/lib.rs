//! A caching layer in front of a chat-completion provider: the exact-match key of a
//! request, the path of a request through the exact and the semantic tier, the
//! counters, and the figures derived from them.
//!
//! The library decides and computes; it talks to no store and to no network. What
//! it takes from outside (the SHA-256 digest, Unicode lowercasing and white space, the
//! clock, random identifiers) stands behind a handful of declarations whose contracts
//! are stated and not proved; everything else carries a contract that Verus has proved.

pub mod admin;
pub mod binary32;
pub mod cache;
pub mod client;
pub mod digits;
pub mod key_laws;
pub mod metrics;
pub mod models;
pub mod options;
pub mod pipeline;
pub mod pipeline_laws;
pub mod pricing;
pub mod semantic;
pub mod text;
