//! The session cookie: what it carries, which attributes it always has, and
//! when it expires.

use super::claims::Claims;
use super::clock::now;
use super::token::{verification, TokenCodec};
use crate::status::Status;
use vstd::prelude::*;
use vstd::string::*;

verus! {

/// The range error of the `time` crate, carried through unread.
#[verifier::external_type_specification]
#[verifier::external_body]
pub struct ExComponentRange(time::error::ComponentRange);

/// The first second of the year -9999.
pub const FIRST_COMMON_SECOND: i64 = -377_705_116_800;

/// The last second of the year 9999.
pub const LAST_COMMON_SECOND: u64 = 253_402_300_799;

/// The first second that chrono has a date for.
pub const FIRST_CHRONO_SECOND: i64 = -8_334_601_228_800;

/// The last second that chrono has a date for.
pub const LAST_CHRONO_SECOND: i64 = 8_210_266_876_799;

/// Whether the `time` crate has a date and time for a Unix timestamp. Without
/// its feature for large dates, as it is used by this crate, it has one for
/// every second of the years -9999 to 9999.
pub open spec fn time_represents(seconds: i64) -> bool {
    FIRST_COMMON_SECOND <= seconds <= LAST_COMMON_SECOND
}

/// Whether chrono has a date and time for a Unix timestamp.
pub open spec fn chrono_represents(seconds: i64) -> bool {
    FIRST_CHRONO_SECOND <= seconds <= LAST_CHRONO_SECOND
}

/// Makes a date with `time::OffsetDateTime::from_unix_timestamp` and reads
/// it back with `unix_timestamp`. The crate refuses a timestamp outside its
/// range, and otherwise gives the date at just that second.
#[verifier::external_body]
fn offset_date_time(seconds: i64) -> (date: Result<i64, time::error::ComponentRange>)
    ensures
        date is Ok <==> time_represents(seconds),
        date matches Ok(second) ==> second == seconds,
{
    time::OffsetDateTime::from_unix_timestamp(seconds).map(|date| date.unix_timestamp())
}

/// Makes a date with `chrono::DateTime::from_timestamp`, at no nanoseconds,
/// and reads it back with `timestamp`. chrono has no date for a timestamp
/// outside its range, and otherwise gives the date at just that second.
#[verifier::external_body]
fn utc_date_time(seconds: i64) -> (date: Option<i64>)
    ensures
        date == (if chrono_represents(seconds) {
            Some(seconds)
        } else {
            None
        }),
{
    chrono::DateTime::from_timestamp(seconds, 0).map(|date| date.timestamp())
}

/// Whether a moment, in seconds since the epoch, can be the expiry date of a
/// cookie: whether the `time` crate has a date for it, which it has up to
/// the end of the year 9999.
pub open spec fn representable(date: u64) -> bool {
    date <= LAST_COMMON_SECOND
}

/// Converts between the moments that tokens speak of and the expiry dates
/// that cookies carry.
pub struct Expires;

impl Expires {
    /// What `set` answers.
    pub open spec fn set_result(date: i64) -> Result<i64, Status> {
        if time_represents(date) {
            Ok(date)
        } else {
            Err(Status::InternalServerError)
        }
    }

    /// Converts a moment, as chrono counts it, into the expiry date of a
    /// cookie. Every moment of the years -9999 to 9999 has one; a moment
    /// that has none is an internal error.
    pub fn set(date: i64) -> (expires: Result<i64, Status>)
        ensures
            expires == Self::set_result(date),
    {
        match offset_date_time(date) {
            Ok(second) => Ok(second),
            Err(_) => Err(Status::InternalServerError),
        }
    }

    /// Converts the expiry date of a cookie into a moment as chrono counts
    /// it, in seconds since the epoch and negative before it. Every date
    /// that a cookie can carry has one.
    pub fn get(date: i64) -> (moment: Option<i64>)
        ensures
            moment == (if chrono_represents(date) {
                Some(date)
            } else {
                None
            }),
            time_represents(date) ==> moment == Some(date),
    {
        utc_date_time(date)
    }
}

/// The same-site attribute of a cookie.
#[derive(Clone, Copy, Debug, PartialEq, Eq, Structural)]
pub enum SameSite {
    Strict,
    Lax,
    Unrestricted,
}

/// A session cookie as a plain value.
pub ghost struct CookieView {
    pub name: Seq<char>,
    pub value: Seq<char>,
    pub http_only: bool,
    pub secure: bool,
    pub same_site: SameSite,
    pub path: Seq<char>,
    pub expires: Option<i64>,
}

/// The cookie that carries `token`: named `token`, http-only, secure, strict
/// same-site, on the root path. With `expires` the browser discards it at
/// that second; without, when its session ends.
pub open spec fn session_cookie(token: Seq<char>, expires: Option<i64>) -> CookieView {
    CookieView {
        name: "token"@,
        value: token,
        http_only: true,
        secure: true,
        same_site: SameSite::Strict,
        path: "/"@,
        expires,
    }
}

/// When the cookie for a token that expires at `expiration` is discarded: at
/// that very moment where the user asked to stay logged in, and with the
/// browser session otherwise.
pub open spec fn cookie_expiry(expiration: u64, stay_logged_in: bool) -> Option<i64> {
    if stay_logged_in {
        Some(expiration as i64)
    } else {
        None
    }
}

/// The cookie that binds a token to a browser session. Its security
/// attributes are the same for every cookie and cannot be set.
#[derive(Debug, PartialEq, Eq)]
pub struct SessionCookie {
    name: String,
    value: String,
    http_only: bool,
    secure: bool,
    same_site: SameSite,
    path: String,
    expires: Option<i64>,
}

impl View for SessionCookie {
    type V = CookieView;

    closed spec fn view(&self) -> CookieView {
        CookieView {
            name: self.name@,
            value: self.value@,
            http_only: self.http_only,
            secure: self.secure,
            same_site: self.same_site,
            path: self.path@,
            expires: self.expires,
        }
    }
}

impl SessionCookie {
    #[verifier::type_invariant]
    spec fn well_formed(&self) -> bool {
        &&& self@ == session_cookie(self.value@, self.expires)
        &&& self.expires matches Some(second) ==> time_represents(second)
    }

    /// What `issue` answers.
    pub open spec fn issued(
        token: Seq<char>,
        expiration: u64,
        stay_logged_in: bool,
        answer: Result<SessionCookie, Status>,
    ) -> bool {
        match answer {
            Ok(cookie) => {
                &&& cookie@ == session_cookie(token, cookie_expiry(expiration, stay_logged_in))
                &&& stay_logged_in ==> representable(expiration)
            },
            Err(status) => {
                &&& status == Status::InternalServerError
                &&& stay_logged_in
                &&& !representable(expiration)
            },
        }
    }

    /// Makes the cookie for a freshly issued token that expires at
    /// `expiration`. It fails only where the user asked to stay logged in
    /// and the expiry is no date that a cookie can carry.
    pub fn issue(token: String, expiration: u64, stay_logged_in: bool) -> (answer: Result<
        SessionCookie,
        Status,
    >)
        ensures
            Self::issued(token@, expiration, stay_logged_in, answer),
    {
        let expires = if stay_logged_in {
            if expiration > 9_223_372_036_854_775_807 {
                return Err(Status::InternalServerError);
            }
            match Expires::set(expiration as i64) {
                Ok(second) => Some(second),
                Err(status) => {
                    return Err(status);
                },
            }
        } else {
            None
        };
        Ok(
            SessionCookie {
                name: String::from_str("token"),
                value: token,
                http_only: true,
                secure: true,
                same_site: SameSite::Strict,
                path: String::from_str("/"),
                expires,
            },
        )
    }

    /// The name of the cookie: always `token`.
    pub fn name(&self) -> (name: &str)
        ensures
            name@ == self@.name,
            name@ == "token"@,
    {
        proof {
            use_type_invariant(self);
        }
        self.name.as_str()
    }

    /// The token that the cookie carries.
    pub fn value(&self) -> (value: &str)
        ensures
            value@ == self@.value,
    {
        self.value.as_str()
    }

    /// Whether scripts are kept from reading the cookie: always.
    pub fn http_only(&self) -> (http_only: bool)
        ensures
            http_only,
            http_only == self@.http_only,
    {
        proof {
            use_type_invariant(self);
        }
        self.http_only
    }

    /// Whether the cookie travels over encrypted connections only: always.
    pub fn secure(&self) -> (secure: bool)
        ensures
            secure,
            secure == self@.secure,
    {
        proof {
            use_type_invariant(self);
        }
        self.secure
    }

    /// The same-site attribute: always strict.
    pub fn same_site(&self) -> (same_site: SameSite)
        ensures
            same_site == SameSite::Strict,
            same_site == self@.same_site,
    {
        proof {
            use_type_invariant(self);
        }
        self.same_site
    }

    /// The path that the cookie is sent on: always the root.
    pub fn path(&self) -> (path: &str)
        ensures
            path@ == self@.path,
            path@ == "/"@,
    {
        proof {
            use_type_invariant(self);
        }
        self.path.as_str()
    }

    /// The second at which the browser discards the cookie, or `None` for a
    /// cookie that lasts as long as the browser session. The second lies in
    /// the years up to 9999, so the `time` crate has a date for it.
    pub fn expires(&self) -> (expires: Option<i64>)
        ensures
            expires == self@.expires,
            expires matches Some(second) ==> time_represents(second),
    {
        proof {
            use_type_invariant(self);
        }
        self.expires
    }
}

/// The cookie named `token` as a request presents it.
#[derive(Clone, Debug, PartialEq, Eq)]
pub struct PresentedCookie {
    /// The token.
    pub value: String,
    /// The expiry date that came with the cookie, if any.
    pub expires: Option<i64>,
}

/// Who a request comes from, where a missing cookie is no error.
#[derive(Clone, Copy, Debug, PartialEq, Eq, Structural)]
pub enum Session {
    /// The request presents no cookie.
    Anonymous,
    /// The request presents a valid token.
    Identified {
        /// The claims of the token.
        claims: Claims,
        /// The expiry date of the cookie that carried it.
        expires: Option<i64>,
    },
}

/// What reading the cookie of a request may answer at `now`: a request
/// without a cookie is anonymous; one with a cookie is identified by the
/// claims of its token where the token verifies, and unauthorized where it
/// does not. A cookie that is there and invalid never counts as none.
pub open spec fn session_answer(
    cookie: Option<&PresentedCookie>,
    secret: Seq<u8>,
    now: u64,
    answer: Result<Session, Status>,
) -> bool {
    match cookie {
        None => answer == Ok::<Session, Status>(Session::Anonymous),
        Some(presented) => match answer {
            Ok(Session::Identified { claims, expires }) => {
                &&& verification(presented.value@, secret, now, Ok(claims))
                &&& expires == presented.expires
            },
            Ok(Session::Anonymous) => false,
            Err(status) => status == Status::Unauthorized,
        },
    }
}

/// Reads the user's claims from the cookie of a request, as they stand at `now`.
pub fn get_user_claims_at(cookie: Option<&PresentedCookie>, codec: &TokenCodec, now: u64) -> (answer:
    Result<Session, Status>)
    ensures
        session_answer(cookie, codec.secret(), now, answer),
{
    match cookie {
        None => Ok(Session::Anonymous),
        Some(presented) => match codec.get_claims_at(presented.value.as_str(), now) {
            Ok(claims) => Ok(Session::Identified { claims, expires: presented.expires }),
            Err(_) => Err(Status::Unauthorized),
        },
    }
}

/// Reads the user's claims from the cookie of a request, at the current time.
pub fn get_user_claims(cookie: Option<&PresentedCookie>, codec: &TokenCodec) -> (answer: Result<
    Session,
    Status,
>)
    ensures
        exists|now: u64| session_answer(cookie, codec.secret(), now, answer),
{
    let now = now();
    let answer = get_user_claims_at(cookie, codec, now);
    assert(session_answer(cookie, codec.secret(), now, answer));
    answer
}

} // verus!
