//! The closed error taxonomy shared by creation and resolution, and its
//! mapping to transport-level status, machine-readable code and
//! client-facing message. Store causes are carried internally but never
//! surface in a client message.

use vstd::prelude::*;
use crate::models::ApiErrorResponse;

verus! {

/// Everything the two operations can fail with.
#[derive(Debug)]
pub enum AppError {
    /// The submitted URL fails the syntactic check; carries the reason.
    Validation(String),
    /// No active link with the requested code (absent and inactive are
    /// deliberately indistinguishable).
    NotFound,
    /// The requested short code already exists.
    Conflict,
    /// The link existed but its expiry lies in the past.
    Gone,
    /// The store failed; carries the underlying cause for logging only.
    Database(String),
    /// Any other unexpected failure.
    Internal,
}

impl AppError {
    /// The HTTP status the boundary reports for this error.
    pub fn http_status(&self) -> (s: u16)
        ensures
            self is Validation ==> s == 400,
            self is NotFound ==> s == 404,
            self is Conflict ==> s == 409,
            self is Gone ==> s == 410,
            self is Database ==> s == 500,
            self is Internal ==> s == 500,
    {
        match self {
            AppError::Validation(_) => 400,
            AppError::NotFound => 404,
            AppError::Conflict => 409,
            AppError::Gone => 410,
            AppError::Database(_) => 500,
            AppError::Internal => 500,
        }
    }

    /// The stable machine-readable code for this error.
    pub fn code_label(&self) -> (c: &'static str)
        ensures
            c@ == self.code_label_spec(),
    {
        match self {
            AppError::Validation(_) => "VALIDATION_ERROR",
            AppError::NotFound => "NOT_FOUND",
            AppError::Conflict => "CONFLICT",
            AppError::Gone => "GONE",
            AppError::Database(_) => "INTERNAL_ERROR",
            AppError::Internal => "INTERNAL_ERROR",
        }
    }

    /// The human-readable message handed to the client. A store cause is
    /// reduced to an opaque message and never leaks.
    pub fn client_message(&self) -> (m: String)
        ensures
            m@ == self.client_message_spec(),
    {
        match self {
            AppError::Validation(reason) => reason.clone(),
            AppError::NotFound => String::from_str("not found"),
            AppError::Conflict => String::from_str("already exists"),
            AppError::Gone => String::from_str("link expired"),
            AppError::Database(_) => String::from_str("internal error"),
            AppError::Internal => String::from_str("internal error"),
        }
    }

    /// The structured error body for the response envelope: the stable
    /// code together with the client-facing message.
    pub fn api_body(&self) -> (b: ApiErrorResponse)
        ensures
            b.code@ == self.code_label_spec(),
            b.message@ == self.client_message_spec(),
    {
        ApiErrorResponse { code: String::from_str(self.code_label()), message: self.client_message() }
    }

    /// What `code_label` returns, as a sequence of characters.
    pub open spec fn code_label_spec(&self) -> Seq<char> {
        match self {
            AppError::Validation(_) => "VALIDATION_ERROR"@,
            AppError::NotFound => "NOT_FOUND"@,
            AppError::Conflict => "CONFLICT"@,
            AppError::Gone => "GONE"@,
            AppError::Database(_) => "INTERNAL_ERROR"@,
            AppError::Internal => "INTERNAL_ERROR"@,
        }
    }

    /// What `client_message` returns, as a sequence of characters.
    pub open spec fn client_message_spec(&self) -> Seq<char> {
        match self {
            AppError::Validation(reason) => reason@,
            AppError::NotFound => "not found"@,
            AppError::Conflict => "already exists"@,
            AppError::Gone => "link expired"@,
            AppError::Database(_) => "internal error"@,
            AppError::Internal => "internal error"@,
        }
    }
}

} // verus!
