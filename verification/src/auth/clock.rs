//! The current time, in whole seconds since the Unix epoch.

use vstd::prelude::*;

verus! {

/// How long a token stays valid after it is issued: one week, in seconds.
pub const TOKEN_LIFETIME: u64 = 604_800;

/// Reads the machine's clock with `chrono::Utc::now` and takes its
/// `timestamp`. chrono stops with a panic when the clock stands before the
/// epoch, so what comes back is never negative; nothing else is known of it.
#[verifier::external_body]
fn utc_timestamp() -> (seconds: i64)
    ensures
        0 <= seconds,
{
    chrono::Utc::now().timestamp()
}

/// The current time. Whatever it is, a token lifetime can be added to it
/// without overflow.
pub fn now() -> (now: u64)
    ensures
        now + TOKEN_LIFETIME <= u64::MAX,
{
    let seconds: i64 = utc_timestamp();
    seconds as u64
}

/// The moment at which a token issued at `now` expires.
pub open spec fn expiry_after(now: u64) -> int {
    now + TOKEN_LIFETIME
}

/// The moment at which a token issued at `now` expires: one week later.
pub fn expiration(now: u64) -> (expires: u64)
    requires
        now + TOKEN_LIFETIME <= u64::MAX,
    ensures
        expires == expiry_after(now),
{
    now + TOKEN_LIFETIME
}

} // verus!
