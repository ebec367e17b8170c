//! Request and response shapes of the operation surface.

use vstd::prelude::*;

verus! {

/// Request body of the authenticate operation: an identity name and the
/// plaintext secret offered for it.
#[derive(Debug, Clone, PartialEq)]
pub struct LoginRequest {
    pub username: String,
    pub password: String,
}

/// Outcome of the authenticate and end-session operations: a success flag and
/// a human-readable message. There is no partial success.
#[derive(Debug, Clone, PartialEq)]
pub struct LoginResponse {
    pub success: bool,
    pub message: String,
}

/// Snapshot of the session slot as the query-session operation reports it:
/// the authenticated identity, or the empty string when no session is active.
#[derive(Debug, Clone, PartialEq)]
pub struct UserInfo {
    pub username: String,
    pub logged_in: bool,
}

} // verus!
