//! The body that the admin API sends back for a failed request.

use vstd::prelude::*;

verus! {

/// The error object inside an [`AdminErrorResponse`].
#[derive(Debug)]
pub struct AdminErrorDetail {
    /// Stable, machine-readable error type.
    pub error_type: String,
    /// Human-readable message.
    pub message: String,
}

/// Error response of the admin API: `{"error": {"type": ..., "message": ...}}`.
#[derive(Debug)]
pub struct AdminErrorResponse {
    pub error: AdminErrorDetail,
}

impl AdminErrorResponse {
    /// Builds a response from an error type and a message.
    pub fn new(error_type: &str, message: String) -> (r: AdminErrorResponse)
        ensures
            r.error.error_type@ == error_type@,
            r.error.message@ == message@,
    {
        AdminErrorResponse {
            error: AdminErrorDetail { error_type: String::from_str(error_type), message },
        }
    }
}

} // verus!
