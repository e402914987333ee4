//! Open platform api errors.

use vstd::prelude::*;

verus! {

/// Open platform api response error, by the status the server answered with.
#[derive(Debug, Clone, PartialEq, Eq)]
pub enum OpenApiResponseError {
    BadRequest,
    Unauthorized,
    Forbidden,
    NotFound,
    MethodNotAllowed,
    InternalServerError,
    /// Any other non-ok status, carried along.
    Unknown(u16),
}

/// The error a status code denotes: nothing for an ok answer, the named error
/// for the statuses the platform documents, `Unknown` for the rest.
pub open spec fn spec_open_error_of_status(status: u16) -> Option<OpenApiResponseError> {
    if status == 200 {
        None
    } else if status == 400 {
        Some(OpenApiResponseError::BadRequest)
    } else if status == 401 {
        Some(OpenApiResponseError::Unauthorized)
    } else if status == 403 {
        Some(OpenApiResponseError::Forbidden)
    } else if status == 404 {
        Some(OpenApiResponseError::NotFound)
    } else if status == 405 {
        Some(OpenApiResponseError::MethodNotAllowed)
    } else if status == 500 {
        Some(OpenApiResponseError::InternalServerError)
    } else {
        Some(OpenApiResponseError::Unknown(status))
    }
}

impl OpenApiResponseError {
    /// Classifies a received status code.
    pub fn from_status_code(status: u16) -> (r: Option<Self>)
        ensures
            r == spec_open_error_of_status(status),
    {
        if status == 200 {
            None
        } else if status == 400 {
            Some(OpenApiResponseError::BadRequest)
        } else if status == 401 {
            Some(OpenApiResponseError::Unauthorized)
        } else if status == 403 {
            Some(OpenApiResponseError::Forbidden)
        } else if status == 404 {
            Some(OpenApiResponseError::NotFound)
        } else if status == 405 {
            Some(OpenApiResponseError::MethodNotAllowed)
        } else if status == 500 {
            Some(OpenApiResponseError::InternalServerError)
        } else {
            Some(OpenApiResponseError::Unknown(status))
        }
    }
}

} // verus!
