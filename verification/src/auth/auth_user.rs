//! The request guards: from a presented token to an authenticated user.

use super::claims::Claims;
use super::clock::now;
use super::token::{signed_claims, well_signed, TokenCodec};
use crate::status::Status;
use vstd::prelude::*;
use vstd::string::*;

verus! {

/// A user who was authorized for an endpoint request; holds the user id and
/// nothing else. The role is looked up only by what needs it.
#[derive(Clone, Copy, Debug, PartialEq, Eq, Structural)]
pub struct AuthUser(pub i32);

/// The token that an `Authorization` header carries: what follows the
/// prefix `Bearer `, where the header starts with it.
pub open spec fn bearer_of(header: Seq<char>) -> Option<Seq<char>> {
    if header.len() >= 7 && header.subrange(0, 7) == "Bearer "@ {
        Some(header.skip(7))
    } else {
        None
    }
}

/// Takes the token out of an `Authorization` header.
pub fn bearer_token(header: &str) -> (token: Option<&str>)
    ensures
        match token {
            Some(token) => bearer_of(header@) == Some(token@),
            None => bearer_of(header@).is_none(),
        },
{
    let prefix = "Bearer ";
    proof {
        reveal_strlit("Bearer ");
    }
    let len = header.unicode_len();
    if len < 7 {
        return None;
    }
    let mut i: usize = 0;
    while i < 7
        invariant
            i <= 7,
            len == header@.len(),
            len >= 7,
            prefix@ == "Bearer "@,
            prefix@.len() == 7,
            forall|j: int| 0 <= j < i ==> header@[j] == prefix@[j],
        decreases 7 - i,
    {
        if header.get_char(i) != prefix.get_char(i) {
            assert(header@.subrange(0, 7)[i as int] != prefix@[i as int]);
            return None;
        }
        i += 1;
    }
    assert(header@.subrange(0, 7) =~= prefix@);
    Some(header.substring_char(7, len))
}

impl AuthUser {
    /// What a guard makes at `now` of what the codec answered: claims that
    /// the codec accepted let their subject in exactly when their expiry lies
    /// strictly after `now`, and nothing else lets anybody in.
    pub open spec fn admission(decoded: Result<Claims, Status>, now: u64) -> Result<
        AuthUser,
        Status,
    > {
        match decoded {
            Ok(claims) => if claims.valid_at(now) {
                Ok(AuthUser(claims.sub))
            } else {
                Err(Status::Unauthorized)
            },
            Err(_) => Err(Status::Unauthorized),
        }
    }

    /// Decides at `now` who is let in, given what the codec answered when it
    /// was shown the token of the request. The user carries the subject id
    /// of the claims and nothing else.
    pub fn from_claims(decoded: Result<Claims, Status>, now: u64) -> (answer: Result<AuthUser, Status>)
        ensures
            answer == Self::admission(decoded, now),
    {
        if let Ok(claims) = decoded {
            if claims.expires() > now {
                return Ok(AuthUser(claims.sub));
            }
        }
        Err(Status::Unauthorized)
    }

    /// What a guard may answer at `now` when it is shown `token`: a user
    /// only where there is a token, the token is well signed and carries
    /// claims under the secret, the claims name that user, and their expiry
    /// lies strictly after `now`. Every other request is unauthorized.
    pub open spec fn admitted(
        token: Option<Seq<char>>,
        secret: Seq<u8>,
        now: u64,
        answer: Result<AuthUser, Status>,
    ) -> bool {
        match answer {
            Ok(user) => {
                &&& token matches Some(token)
                &&& well_signed(token, secret)
                &&& signed_claims(token, secret) matches Some(claims)
                &&& claims.sub == user.0
                &&& claims.valid_at(now)
            },
            Err(status) => status == Status::Unauthorized,
        }
    }

    /// The token that a cookie presents, if there is a cookie.
    pub open spec fn cookie_token(cookie: Option<&str>) -> Option<Seq<char>> {
        match cookie {
            Some(token) => Some(token@),
            None => None,
        }
    }

    /// The token that an `Authorization` header presents, if there is a
    /// header and it is a bearer header.
    pub open spec fn header_token(authorization: Option<&str>) -> Option<Seq<char>> {
        match authorization {
            Some(header) => bearer_of(header@),
            None => None,
        }
    }

    /// The cookie guard, at `now`: `cookie` is the value of the cookie named
    /// `token`, if the request has one.
    pub fn from_request_at(cookie: Option<&str>, codec: &TokenCodec, now: u64) -> (answer: Result<
        AuthUser,
        Status,
    >)
        ensures
            Self::admitted(Self::cookie_token(cookie), codec.secret(), now, answer),
    {
        match cookie {
            Some(token) => Self::from_claims(codec.decode(token), now),
            None => Err(Status::Unauthorized),
        }
    }

    /// The cookie guard, at the current time.
    pub fn from_request(cookie: Option<&str>, codec: &TokenCodec) -> (answer: Result<
        AuthUser,
        Status,
    >)
        ensures
            exists|now: u64|
                Self::admitted(Self::cookie_token(cookie), codec.secret(), now, answer),
    {
        let now = now();
        let answer = Self::from_request_at(cookie, codec, now);
        assert(Self::admitted(Self::cookie_token(cookie), codec.secret(), now, answer));
        answer
    }

    /// The bearer guard, at `now`: `authorization` is the value of the
    /// `Authorization` header, if the request has one. A request without a
    /// bearer token is refused like one with an invalid token.
    pub fn from_bearer_at(authorization: Option<&str>, codec: &TokenCodec, now: u64) -> (answer:
        Result<AuthUser, Status>)
        ensures
            Self::admitted(Self::header_token(authorization), codec.secret(), now, answer),
    {
        let token = match authorization {
            Some(header) => bearer_token(header),
            None => None,
        };
        match token {
            Some(token) => Self::from_claims(codec.decode(token), now),
            None => Err(Status::Unauthorized),
        }
    }

    /// The bearer guard, at the current time.
    pub fn from_bearer(authorization: Option<&str>, codec: &TokenCodec) -> (answer: Result<
        AuthUser,
        Status,
    >)
        ensures
            exists|now: u64|
                Self::admitted(Self::header_token(authorization), codec.secret(), now, answer),
    {
        let now = now();
        let answer = Self::from_bearer_at(authorization, codec, now);
        assert(Self::admitted(Self::header_token(authorization), codec.secret(), now, answer));
        answer
    }
}

/// A guard that is shown an expired token answers `Unauthorized`, and
/// nothing else: a token is accepted only while its expiry lies strictly
/// after the current time.
pub proof fn lemma_expired_token_is_unauthorized(
    token: Seq<char>,
    secret: Seq<u8>,
    now: u64,
    answer: Result<AuthUser, Status>,
)
    requires
        AuthUser::admitted(Some(token), secret, now, answer),
        signed_claims(token, secret) matches Some(claims) ==> claims.exp <= now,
    ensures
        answer == Err::<AuthUser, Status>(Status::Unauthorized),
{
}

/// A guard admits a user only under a token that carries that user's id.
pub proof fn lemma_admitted_user_is_the_subject(
    token: Seq<char>,
    secret: Seq<u8>,
    sub: i32,
    exp: u64,
    now: u64,
    answer: Result<AuthUser, Status>,
)
    requires
        AuthUser::admitted(Some(token), secret, now, answer),
        signed_claims(token, secret) == Some(super::claims::Claims { sub, exp }),
    ensures
        answer matches Ok(user) ==> user.0 == sub && now < exp,
{
}

/// Where the codec accepts a token, the guard admits the subject of its
/// claims at every moment before their expiry, and nobody from then on.
pub proof fn lemma_accepted_token_is_admitted(claims: Claims, now: u64)
    ensures
        now < claims.exp ==> AuthUser::admission(Ok(claims), now) == Ok::<AuthUser, Status>(
            AuthUser(claims.sub),
        ),
        now >= claims.exp ==> AuthUser::admission(Ok(claims), now) == Err::<AuthUser, Status>(
            Status::Unauthorized,
        ),
{
}

} // verus!
