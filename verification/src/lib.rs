//! Link-shortening core: short-code generation, link creation with
//! uniqueness-conflict handling, and resolution with expiry and
//! deactivation semantics, over an in-memory link store.

pub mod errors;
pub mod models;
pub mod service;
pub mod store;
pub mod text;

use vstd::prelude::*;

verus! {

/// The fixed length of a generated short code.
pub const CODE_LEN: usize = 8;

/// A character of the URL-safe code alphabet: letters, digits, `-` and `_`.
pub open spec fn is_code_char(c: char) -> bool {
    ('a' <= c && c <= 'z') || ('A' <= c && c <= 'Z') || ('0' <= c && c <= '9') || c == '-' || c
        == '_'
}

} // verus!
