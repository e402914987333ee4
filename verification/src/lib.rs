//! Client-side engine for a namespace-based remote configuration service.
//!
//! The heart of the crate is the change-notification watch engine: per-namespace
//! notification-id bookkeeping ([`conf::meta::Notification`]), classification of
//! one long-poll round trip ([`conf::watch`]), and the session state machine that
//! turns notification deltas into batches of namespaces to re-fetch. Around it
//! stand the deterministic request encoders (paths, query strings, the serialized
//! notification parameter) and the request-signing helper. All of it is verified;
//! the HTTP transport itself is left to the embedding application.

pub mod conf;
pub mod encode;
pub mod errors;
pub mod meta;
pub mod open;
pub mod sign;
pub mod urls;
pub mod utils;
