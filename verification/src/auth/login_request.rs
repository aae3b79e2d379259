//! What a client sends to log in or to sign up.

use vstd::prelude::*;

verus! {

/// Represents a log in request
#[derive(Clone, Debug, PartialEq, Eq)]
pub struct LoginRequest {
    pub username: String,
    pub password: String,
    pub stay_logged_in: bool,
}

} // verus!
