//! The outcomes that the access-control layer reports to the routing layer.

use vstd::prelude::*;

verus! {

/// A failure as the routing layer sees it.
#[derive(Clone, Copy, Debug, PartialEq, Eq, Structural)]
pub enum Status {
    /// A credential or token is missing, wrong or expired, or a role check failed.
    Unauthorized,
    /// The user that a request refers to is not in the store.
    NotFound,
    /// A signup names a username that is already taken.
    Conflict,
    /// The store could not be reached in time; the client may retry.
    ServiceUnavailable,
    /// Anything else.
    InternalServerError,
}

impl Status {
    /// The HTTP status code that stands for this outcome.
    pub open spec fn http_code(self) -> nat {
        match self {
            Status::Unauthorized => 401,
            Status::NotFound => 404,
            Status::Conflict => 409,
            Status::ServiceUnavailable => 503,
            Status::InternalServerError => 500,
        }
    }

    /// The HTTP status code that stands for this outcome.
    pub fn code(&self) -> (code: u16)
        ensures
            code == self.http_code(),
    {
        match self {
            Status::Unauthorized => 401,
            Status::NotFound => 404,
            Status::Conflict => 409,
            Status::ServiceUnavailable => 503,
            Status::InternalServerError => 500,
        }
    }
}

} // verus!
