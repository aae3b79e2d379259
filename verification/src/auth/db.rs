//! What the credential store answers, and what the access-control layer
//! makes of it.

use super::login_request::LoginRequest;
use super::password::{hash_password, password_matches, LONGEST_PASSWORD};
use super::roles::Roles;
use crate::status::Status;
use vstd::prelude::*;

verus! {

/// How talking to the store failed.
#[derive(Clone, Copy, Debug, PartialEq, Eq, Structural)]
pub enum IoFailure {
    /// The store did not answer in time.
    TimedOut,
    /// The store refused the connection.
    ConnectionRefused,
    /// The store reset the connection.
    ConnectionReset,
    /// The connection was aborted.
    ConnectionAborted,
    /// There is no connection to the store.
    NotConnected,
    /// The host of the store cannot be reached.
    HostUnreachable,
    /// The network of the store cannot be reached.
    NetworkUnreachable,
    /// Any other failure of input or output.
    Other,
}

impl IoFailure {
    /// Whether the failure means that the store cannot be reached for now,
    /// so that trying again later may help.
    pub open spec fn unreachable(self) -> bool {
        self != IoFailure::Other
    }

    /// Tells whether the store cannot be reached for now.
    pub fn is_unreachable(&self) -> (unreachable: bool)
        ensures
            unreachable == self.unreachable(),
    {
        match self {
            IoFailure::Other => false,
            _ => true,
        }
    }
}

/// A failure of the credential store, as far as the access-control layer
/// tells failures apart.
#[derive(Clone, Copy, Debug, PartialEq, Eq, Structural)]
pub enum StoreError {
    /// A query that expects a row found none.
    RowNotFound,
    /// Talking to the store failed.
    Io { failure: IoFailure },
    /// No connection became free in time.
    PoolTimedOut,
    /// The connection pool is closed.
    PoolClosed,
    /// The store refused the statement; `unique_violation` says whether it
    /// did so because a value that must be unique is already there.
    Database { unique_violation: bool },
    /// Any other failure.
    Other,
}

impl StoreError {
    /// The outcome that a failure of the store is reported as, one of three:
    /// a missing row is `NotFound`, a store that cannot be reached, or not
    /// in time, is `ServiceUnavailable`, and everything else is an internal
    /// error.
    pub open spec fn status(self) -> Status {
        match self {
            StoreError::RowNotFound => Status::NotFound,
            StoreError::Io { failure } => if failure.unreachable() {
                Status::ServiceUnavailable
            } else {
                Status::InternalServerError
            },
            StoreError::PoolTimedOut => Status::ServiceUnavailable,
            StoreError::PoolClosed => Status::ServiceUnavailable,
            StoreError::Database { unique_violation } => Status::InternalServerError,
            StoreError::Other => Status::InternalServerError,
        }
    }

    /// The outcome that a failure to store a new user is reported as: a
    /// username that is already taken is a `Conflict`, and every other
    /// failure is reported as a failure of the store is.
    pub open spec fn signup_status(self) -> Status {
        match self {
            StoreError::Database { unique_violation: true } => Status::Conflict,
            _ => self.status(),
        }
    }
}

/// Classifies a failure of the store.
pub fn map_db_err(e: StoreError) -> (status: Status)
    ensures
        status == e.status(),
{
    match e {
        // No matching row
        StoreError::RowNotFound => Status::NotFound,
        // Couldn't reach the store / pool timed out
        StoreError::Io { failure } => {
            if failure.is_unreachable() {
                Status::ServiceUnavailable
            } else {
                Status::InternalServerError
            }
        },
        StoreError::PoolTimedOut => Status::ServiceUnavailable,
        StoreError::PoolClosed => Status::ServiceUnavailable,
        // Anything else
        StoreError::Database { unique_violation: _ } => Status::InternalServerError,
        StoreError::Other => Status::InternalServerError,
    }
}

/// Classifies a failure to store a new user.
pub fn map_signup_err(e: StoreError) -> (status: Status)
    ensures
        status == e.signup_status(),
{
    match e {
        // The username is taken
        StoreError::Database { unique_violation: true } => Status::Conflict,
        _ => map_db_err(e),
    }
}

/// What `authorize_role` answers: a failed lookup is reported as the store's
/// failure; a role that was found is held against the required one.
pub open spec fn role_check(found: Result<Roles, StoreError>, access_level: Roles) -> Result<
    (),
    Status,
> {
    match found {
        Ok(role) => role.authorize_result(access_level),
        Err(e) => Err(e.status()),
    }
}

/// Decides whether a user may pass a check against `access_level`, given
/// what the store answered when asked for the user's current role. The role
/// is never taken from the token, so a change of role counts at once.
pub fn authorize_role(found: Result<Roles, StoreError>, access_level: Roles) -> (result: Result<
    (),
    Status,
>)
    ensures
        result == role_check(found, access_level),
{
    match found {
        Ok(role) => role.authorize(access_level),
        Err(e) => Err(map_db_err(e)),
    }
}

/// The record of a user who is about to be stored.
#[derive(Clone, Debug, PartialEq, Eq)]
pub struct NewUser {
    pub username: String,
    pub password_hash: String,
    pub role: Roles,
}

/// Prepares the record of a new user: the password is hashed before it goes
/// anywhere near the store, and the user starts with the role `User`. A
/// record is made of every password that Argon2 takes, which is every
/// password of up to `LONGEST_PASSWORD` characters.
pub fn create_user(req: &LoginRequest) -> (record: Result<NewUser, Status>)
    ensures
        req.password@.len() <= LONGEST_PASSWORD ==> record is Ok,
        record matches Ok(user) ==> {
            &&& user.username@ == req.username@
            &&& password_matches(user.password_hash@, req.password@)
            &&& user.role == Roles::User
        },
        record matches Err(status) ==> status == Status::InternalServerError,
{
    // Hash the password before adding it to the store
    let password_hash = hash_password(req.password.as_str())?;
    Ok(NewUser { username: req.username.clone(), password_hash, role: Roles::User })
}

} // verus!
