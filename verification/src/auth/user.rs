//! The user record and what of it is shown to the outside.

use super::roles::Roles;
use vstd::prelude::*;

verus! {

/// A user as the store holds it.
#[derive(Clone, Debug, PartialEq, Eq)]
pub struct User {
    pub id: i32,
    pub username: String,
    /// Never part of a response.
    pub password_hash: String,
    pub role: Roles,
    pub fullname: String,
    pub callby: String,
}

/// What a response tells of a user: the fields for display, and never the
/// password hash.
#[derive(Clone, Debug, PartialEq, Eq)]
pub struct Profile {
    pub username: String,
    pub fullname: String,
    pub callby: String,
}

impl User {
    /// What a response tells of this user.
    pub open spec fn shown(&self) -> Profile {
        Profile { username: self.username, fullname: self.fullname, callby: self.callby }
    }

    /// The part of the record that a response may carry.
    pub fn profile(&self) -> (profile: Profile)
        ensures
            profile == self.shown(),
    {
        Profile {
            username: self.username.clone(),
            fullname: self.fullname.clone(),
            callby: self.callby.clone(),
        }
    }
}

} // verus!
