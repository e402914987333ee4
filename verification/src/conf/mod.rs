//! Configuration apis: notification bookkeeping, requests and the watch engine.

pub mod meta;
pub mod requests;
pub mod responses;
pub mod watch;
