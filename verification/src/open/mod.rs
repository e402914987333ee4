//! Open platform apis: administrative requests and their encoding.

pub mod errors;
pub mod meta;
pub mod requests;
pub mod responses;
