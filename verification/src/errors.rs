//! Crate level errors, carried as plain values so contracts can speak of them.

use vstd::prelude::*;

verus! {

/// Api response error: the server answered, but with a status outside the
/// success range. Carries the status and the response body (the error reason).
#[derive(Debug, Clone, PartialEq)]
pub struct ApolloResponseError {
    /// Http response status code.
    pub status: u16,
    /// Http response body, mainly the error reason.
    pub body: String,
}

impl ApolloResponseError {
    /// Classifies a received status: a success status passes, any other is
    /// wrapped together with the response body.
    pub fn from_status(status: u16, body: String) -> (r: Result<(), ApolloResponseError>)
        ensures
            200 <= status < 300 ==> r is Ok,
            !(200 <= status < 300) ==> (r matches Err(e) && e.status == status && e.body@ == body@),
    {
        if 200 <= status && status < 300 {
            Ok(())
        } else {
            Err(ApolloResponseError { status, body })
        }
    }
}

/// Crate level error.
#[derive(Debug, Clone, PartialEq)]
pub enum ApolloClientError {
    /// The server answered with a non-success status.
    ApolloResponse(ApolloResponseError),
    /// A success response whose body could not be read in the expected shape.
    MalformedBody,
    /// The transport failed before any response arrived; carries its message.
    Transport(String),
    /// A fetched configuration came back without any content.
    EmptyConfiguration,
    /// The configured server url cannot take path segments.
    UrlCannotBeABase,
}

} // verus!
