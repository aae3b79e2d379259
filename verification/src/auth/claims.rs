//! The payload of an identity token.

use crate::status::Status;
use vstd::prelude::*;

verus! {

/// Represents JWT claims. The role of the user is not among them: it is
/// looked up in the store whenever a decision depends on it.
#[derive(Clone, Copy, Debug, PartialEq, Eq, Structural)]
pub struct Claims {
    /// User ID
    pub sub: i32,
    /// Expiration date of the token, in seconds since the Unix epoch
    pub exp: u64,
}

/// The `sub` and `exp` claims as they are read from a token, before anything
/// is known of their range.
#[derive(Clone, Copy, Debug, PartialEq, Eq, Structural)]
pub struct RawClaims {
    /// The `sub` claim, where the payload holds it as an integer.
    pub sub: Option<i64>,
    /// The `exp` claim, where the payload holds it as a non-negative integer.
    pub exp: Option<u64>,
}

impl RawClaims {
    /// The claims that raw claims stand for: both must be there, and the
    /// subject must be a user id.
    pub open spec fn claims(self) -> Option<Claims> {
        match (self.sub, self.exp) {
            (Some(sub), Some(exp)) => if i32::MIN <= sub <= i32::MAX {
                Some(Claims { sub: sub as i32, exp })
            } else {
                None
            },
            _ => None,
        }
    }

    /// Checks raw claims and narrows them to `Claims`.
    pub fn into_claims(self) -> (claims: Option<Claims>)
        ensures
            claims == self.claims(),
    {
        match (self.sub, self.exp) {
            (Some(sub), Some(exp)) => {
                if -2_147_483_648 <= sub && sub <= 2_147_483_647 {
                    Some(Claims { sub: sub as i32, exp })
                } else {
                    None
                }
            },
            _ => None,
        }
    }
}

impl Claims {
    /// Whether the token that carries these claims is still valid at `now`:
    /// its expiry must lie strictly after `now`.
    pub open spec fn valid_at(self, now: u64) -> bool {
        self.exp > now
    }

    /// The moment at which the token expires, in seconds since the Unix epoch.
    pub fn expires(&self) -> (expires: u64)
        ensures
            expires == self.exp,
    {
        self.exp
    }

    /// Rejects claims whose expiry is not strictly after `now`.
    pub fn check_expiry(self, now: u64) -> (result: Result<Claims, Status>)
        ensures
            result == (if self.valid_at(now) {
                Ok(self)
            } else {
                Err(Status::Unauthorized)
            }),
    {
        if self.exp > now {
            Ok(self)
        } else {
            Err(Status::Unauthorized)
        }
    }
}

} // verus!
