//! Request and response shapes exchanged with the transport boundary,
//! and the uniform response envelope.

use vstd::prelude::*;

verus! {

/// A creation request: the long URL and an optional caller-chosen code.
pub struct CreateShortUrlRequest {
    pub url: String,
    pub short_code: Option<String>,
}

/// A successful creation: the fully-qualified short URL and its code.
pub struct CreateShortUrlResponse {
    pub url: String,
    pub short_code: String,
}

/// The structured error half of the envelope: a stable machine-readable
/// code and a human-readable message.
pub struct ApiErrorResponse {
    pub code: String,
    pub message: String,
}

/// The uniform envelope: exactly one of `data` and `error` is present,
/// and `success` says which.
pub struct ApiResponse<T> {
    pub success: bool,
    pub data: Option<T>,
    pub error: Option<ApiErrorResponse>,
}

impl<T> ApiResponse<T> {
    /// A success envelope carrying the payload and no error.
    pub fn success(data: Option<T>) -> (r: Self)
        ensures
            r.success,
            r.data == data,
            r.error is None,
    {
        Self { success: true, data, error: None }
    }

    /// An error envelope carrying the code and message and no payload.
    pub fn error(code: String, message: String) -> (r: Self)
        ensures
            !r.success,
            r.data is None,
            r.error matches Some(e) && e.code@ == code@ && e.message@ == message@,
    {
        Self { success: false, data: None, error: Some(ApiErrorResponse { code, message }) }
    }
}

} // verus!
