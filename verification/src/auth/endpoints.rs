//! The operations that the routing layer calls. Each takes what the request
//! and the store supplied as plain values and answers with what to respond.

use super::claims::Claims;
use super::clock::{expiration, expiry_after, now, TOKEN_LIFETIME};
use super::cookie::{
    cookie_expiry, get_user_claims_at, representable, session_cookie, PresentedCookie, Session,
    SessionCookie, LAST_COMMON_SECOND,
};
use super::db::{map_db_err, map_signup_err, StoreError};
use super::login_request::LoginRequest;
use super::password::{password_matches, verify_password};
use super::roles::Roles;
use super::token::{signed_claims, verification, well_signed, TokenCodec};
use super::user::{Profile, User};
use crate::status::Status;
use vstd::prelude::*;
use vstd::string::*;

verus! {

/// Whether `cookie` opens a session for user `user_id` at `now`: it carries a
/// token for that user which expires one week after `now`, it has the fixed
/// security attributes, and it expires with the token where the user asked
/// to stay logged in, and with the browser session where not.
pub open spec fn session_started(
    user_id: i32,
    stay_logged_in: bool,
    secret: Seq<u8>,
    now: u64,
    cookie: SessionCookie,
) -> bool {
    let expires = expiry_after(now) as u64;
    &&& signed_claims(cookie@.value, secret) == Some(Claims { sub: user_id, exp: expires })
    &&& cookie@ == session_cookie(cookie@.value, cookie_expiry(expires, stay_logged_in))
    &&& stay_logged_in ==> representable(expires)
}

/// Whether `status` is the failure to open a session at `now`: an internal
/// error, which arises only where the user asked to stay logged in and the
/// expiry, one week after `now`, is no date that a cookie can carry.
pub open spec fn session_refused(stay_logged_in: bool, now: u64, status: Status) -> bool {
    &&& status == Status::InternalServerError
    &&& stay_logged_in
    &&& !representable(expiry_after(now) as u64)
}

/// Issues a token for user `user_id` that is valid for one week from `now`,
/// and the cookie that carries it. It fails, with an internal error, exactly
/// where the user asked to stay logged in and the expiry is no date that a
/// cookie can carry.
pub fn start_session(user_id: i32, stay_logged_in: bool, codec: &TokenCodec, now: u64) -> (answer:
    Result<SessionCookie, Status>)
    requires
        now + TOKEN_LIFETIME <= u64::MAX,
    ensures
        match answer {
            Ok(cookie) => session_started(user_id, stay_logged_in, codec.secret(), now, cookie),
            Err(status) => session_refused(stay_logged_in, now, status),
        },
{
    let expiration = expiration(now);
    let token = codec.create_jwt(user_id, expiration)?;
    // Save the token as a cookie
    SessionCookie::issue(token, expiration, stay_logged_in)
}

/// What a login answers at `now`, given the request and what the store
/// found under the username. A failed lookup is reported as the store's
/// failure, a password that does not match as `Unauthorized`. Otherwise the
/// answer is the user's profile with a cookie that opens a session, unless
/// no session can be opened.
pub open spec fn login_answer(
    req: &LoginRequest,
    found: Result<User, StoreError>,
    secret: Seq<u8>,
    now: u64,
    answer: Result<(Profile, SessionCookie), Status>,
) -> bool {
    match found {
        Err(e) => answer == Err::<(Profile, SessionCookie), Status>(e.status()),
        Ok(user) => if !password_matches(user.password_hash@, req.password@) {
            answer == Err::<(Profile, SessionCookie), Status>(Status::Unauthorized)
        } else {
            match answer {
                Ok((profile, cookie)) => {
                    &&& profile == user.shown()
                    &&& session_started(user.id, req.stay_logged_in, secret, now, cookie)
                },
                Err(status) => session_refused(req.stay_logged_in, now, status),
            }
        },
    }
}

/// Logs in a user at `now`, given username and password and what the store
/// found under the username.
pub fn login_at(
    req: &LoginRequest,
    found: Result<User, StoreError>,
    codec: &TokenCodec,
    now: u64,
) -> (answer: Result<(Profile, SessionCookie), Status>)
    requires
        now + TOKEN_LIFETIME <= u64::MAX,
    ensures
        login_answer(req, found, codec.secret(), now, answer),
{
    let user = match found {
        Ok(user) => user,
        Err(e) => {
            return Err(map_db_err(e));
        },
    };
    verify_password(user.password_hash.as_str(), req.password.as_str())?;
    // Password ok, continue login
    let cookie = start_session(user.id, req.stay_logged_in, codec, now)?;
    Ok((user.profile(), cookie))
}

/// Logs in a user given username and password and what the store found
/// under the username. The token goes out in a cookie.
pub fn login(req: &LoginRequest, found: Result<User, StoreError>, codec: &TokenCodec) -> (answer:
    Result<(Profile, SessionCookie), Status>)
    ensures
        exists|now: u64|
            now + TOKEN_LIFETIME <= u64::MAX && #[trigger] login_answer(
                req,
                found,
                codec.secret(),
                now,
                answer,
            ),
{
    let now = now();
    let answer = login_at(req, found, codec, now);
    assert(now + TOKEN_LIFETIME <= u64::MAX && login_answer(
        req,
        found,
        codec.secret(),
        now,
        answer,
    ));
    answer
}

/// What logging out asks of the client.
#[derive(Clone, Debug, PartialEq, Eq)]
pub struct Logout {
    /// The name of the cookie that the client is told to discard.
    pub remove: String,
    /// The body of the response.
    pub body: String,
}

/// Logs out the current user by removing the token cookie. Nothing is
/// revoked: a token that is presented again stays valid until it expires.
pub fn logout() -> (answer: Logout)
    ensures
        answer.remove@ == "token"@,
        answer.body@ == "ok"@,
{
    Logout { remove: String::from_str("token"), body: String::from_str("ok") }
}

/// What a signup answers once the store was asked to insert the new user.
pub open spec fn signup_answer(inserted: Result<i32, StoreError>) -> Result<(), Status> {
    match inserted {
        Ok(_) => Ok(()),
        Err(e) => Err(e.signup_status()),
    }
}

/// Concludes a signup, given what the store answered to the insertion of the
/// record that `create_user` prepared: a username that is taken is a
/// `Conflict`.
pub fn signup(inserted: Result<i32, StoreError>) -> (answer: Result<(), Status>)
    ensures
        answer == signup_answer(inserted),
{
    match inserted {
        Ok(_) => Ok(()),
        Err(e) => Err(map_signup_err(e)),
    }
}

/// A change of role that the store is asked to make.
#[derive(Clone, Copy, Debug, PartialEq, Eq, Structural)]
pub struct RoleChange {
    pub id: i32,
    pub role: Roles,
}

/// What `create_admin` answers once the store was asked to insert the new user.
pub open spec fn admin_creation(inserted: Result<i32, StoreError>) -> Result<RoleChange, Status> {
    match inserted {
        Ok(id) => Ok(RoleChange { id, role: Roles::Admin }),
        Err(e) => Err(e.signup_status()),
    }
}

/// Creates an admin user account: once the new user is stored, its role is
/// to be set to `Admin`. A username that is taken is a `Conflict`. For
/// development only.
pub fn create_admin(inserted: Result<i32, StoreError>) -> (answer: Result<RoleChange, Status>)
    ensures
        answer == admin_creation(inserted),
{
    // Create a new user
    let id = match inserted {
        Ok(id) => id,
        Err(e) => {
            return Err(map_signup_err(e));
        },
    };
    // Set the role to admin
    Ok(RoleChange { id, role: Roles::Admin })
}

/// What a refresh does with a request before the store is asked anything.
#[derive(Clone, Copy, Debug, PartialEq, Eq, Structural)]
pub enum Refresh {
    /// The request has no cookie: the answer is OK and empty, no cookie is
    /// set and the store is not asked.
    PassThrough,
    /// The request has a valid token: the store is to be asked for the user
    /// of the claims, and `me` concludes with what it finds.
    FindUser {
        /// The claims of the token.
        claims: Claims,
        /// The expiry date of the cookie that carried it.
        expires: Option<i64>,
    },
}

/// What the first step of a refresh may answer at `now`: a request without a
/// cookie passes through; one whose token verifies goes on to the store; one
/// whose token does not verify, because it is forged or has expired, is
/// unauthorized, and the store is never asked.
pub open spec fn refresh_request(
    cookie: Option<&PresentedCookie>,
    secret: Seq<u8>,
    now: u64,
    answer: Result<Refresh, Status>,
) -> bool {
    match cookie {
        None => answer == Ok::<Refresh, Status>(Refresh::PassThrough),
        Some(presented) => match answer {
            Ok(Refresh::FindUser { claims, expires }) => {
                &&& verification(presented.value@, secret, now, Ok(claims))
                &&& expires == presented.expires
            },
            Ok(Refresh::PassThrough) => false,
            Err(status) => status == Status::Unauthorized,
        },
    }
}

/// The first step of a refresh, at `now`: decides from the cookie of the
/// request whether to pass through, to go on to the store, or to refuse.
pub fn me_request_at(cookie: Option<&PresentedCookie>, codec: &TokenCodec, now: u64) -> (answer:
    Result<Refresh, Status>)
    ensures
        refresh_request(cookie, codec.secret(), now, answer),
{
    // Get the user token from the cookie, if it exists
    match get_user_claims_at(cookie, codec, now)? {
        Session::Anonymous => Ok(Refresh::PassThrough),
        Session::Identified { claims, expires } => Ok(Refresh::FindUser { claims, expires }),
    }
}

/// The first step of a refresh, at the current time.
pub fn me_request(cookie: Option<&PresentedCookie>, codec: &TokenCodec) -> (answer: Result<
    Refresh,
    Status,
>)
    ensures
        exists|now: u64| refresh_request(cookie, codec.secret(), now, answer),
{
    let now = now();
    let answer = me_request_at(cookie, codec, now);
    assert(refresh_request(cookie, codec.secret(), now, answer));
    answer
}

/// What a refresh answers at `now`: a failed lookup is reported as the
/// store's failure. Otherwise the answer is the user's profile with a cookie
/// that opens a new session, one week from `now`, which outlives the browser
/// session exactly if the old cookie did, unless no session can be opened.
pub open spec fn refresh_answer(
    claims: Claims,
    expires: Option<i64>,
    found: Result<Profile, StoreError>,
    secret: Seq<u8>,
    now: u64,
    answer: Result<(Profile, SessionCookie), Status>,
) -> bool {
    match found {
        Err(e) => answer == Err::<(Profile, SessionCookie), Status>(e.status()),
        Ok(user) => match answer {
            Ok((profile, cookie)) => {
                &&& profile == user
                &&& session_started(claims.sub, expires.is_some(), secret, now, cookie)
            },
            Err(status) => session_refused(expires.is_some(), now, status),
        },
    }
}

/// The second step of a refresh, at `now`: `claims` and `expires` are what
/// the first step read from the request, `found` is what the store holds of
/// the user.
pub fn me_at(
    claims: &Claims,
    expires: Option<i64>,
    found: Result<Profile, StoreError>,
    codec: &TokenCodec,
    now: u64,
) -> (answer: Result<(Profile, SessionCookie), Status>)
    requires
        now + TOKEN_LIFETIME <= u64::MAX,
    ensures
        refresh_answer(*claims, expires, found, codec.secret(), now, answer),
{
    // Get the user data
    let profile = match found {
        Ok(profile) => profile,
        Err(e) => {
            return Err(map_db_err(e));
        },
    };
    // Regenerate the token and save the cookie with the new information
    let cookie = start_session(claims.sub, expires.is_some(), codec, now)?;
    Ok((profile, cookie))
}

/// Refreshes the session of a logged in user and returns the user's data.
pub fn me(
    claims: &Claims,
    expires: Option<i64>,
    found: Result<Profile, StoreError>,
    codec: &TokenCodec,
) -> (answer: Result<(Profile, SessionCookie), Status>)
    ensures
        exists|now: u64|
            now + TOKEN_LIFETIME <= u64::MAX && #[trigger] refresh_answer(
                *claims,
                expires,
                found,
                codec.secret(),
                now,
                answer,
            ),
{
    let now = now();
    let answer = me_at(claims, expires, found, codec, now);
    assert(now + TOKEN_LIFETIME <= u64::MAX && refresh_answer(
        *claims,
        expires,
        found,
        codec.secret(),
        now,
        answer,
    ));
    answer
}

/// Whose links a request is shown.
#[derive(Clone, Copy, Debug, PartialEq, Eq, Structural)]
pub enum LinkScope {
    /// The links that everybody may see.
    Guest,
    /// The links of the user with this id.
    User(i32),
}

/// What `links` may answer at `now`: a request without a cookie sees the
/// guest links; one with a valid token sees the links of the token's user;
/// one with an invalid token is unauthorized.
pub open spec fn links_answer(
    cookie: Option<&PresentedCookie>,
    secret: Seq<u8>,
    now: u64,
    answer: Result<LinkScope, Status>,
) -> bool {
    match cookie {
        None => answer == Ok::<LinkScope, Status>(LinkScope::Guest),
        Some(presented) => match answer {
            Ok(LinkScope::User(id)) => {
                &&& well_signed(presented.value@, secret)
                &&& signed_claims(presented.value@, secret) matches Some(claims)
                &&& claims.sub == id
                &&& claims.valid_at(now)
            },
            Ok(LinkScope::Guest) => false,
            Err(status) => status == Status::Unauthorized,
        },
    }
}

/// Decides at `now` whose links a request is shown.
pub fn links_at(cookie: Option<&PresentedCookie>, codec: &TokenCodec, now: u64) -> (answer: Result<
    LinkScope,
    Status,
>)
    ensures
        links_answer(cookie, codec.secret(), now, answer),
{
    // It's fine if the cookie doesn't exist, but not if it's invalid.
    match get_user_claims_at(cookie, codec, now)? {
        Session::Anonymous => Ok(LinkScope::Guest),
        Session::Identified { claims, expires: _ } => Ok(LinkScope::User(claims.sub)),
    }
}

/// Decides whose links a request is shown.
pub fn links(cookie: Option<&PresentedCookie>, codec: &TokenCodec) -> (answer: Result<
    LinkScope,
    Status,
>)
    ensures
        exists|now: u64| links_answer(cookie, codec.secret(), now, answer),
{
    let now = now();
    let answer = links_at(cookie, codec, now);
    assert(links_answer(cookie, codec.secret(), now, answer));
    answer
}

/// What `admin` answers.
pub open spec fn admin_answer(found: Result<bool, StoreError>) -> Result<bool, Status> {
    match found {
        Ok(is_admin) => Ok(is_admin),
        Err(e) => Err(e.status()),
    }
}

/// Tells whether the authorized user is an admin, given what the store said.
pub fn admin(found: Result<bool, StoreError>) -> (answer: Result<bool, Status>)
    ensures
        answer == admin_answer(found),
{
    match found {
        Ok(is_admin) => Ok(is_admin),
        Err(e) => Err(map_db_err(e)),
    }
}

/// Renewal slides: the session that a refresh opens runs one week from the
/// time of the refresh, whatever expiry the old token had.
pub proof fn lemma_refresh_slides(
    claims: Claims,
    other_exp: u64,
    expires: Option<i64>,
    found: Result<Profile, StoreError>,
    secret: Seq<u8>,
    now: u64,
    answer: Result<(Profile, SessionCookie), Status>,
)
    requires
        now + TOKEN_LIFETIME <= u64::MAX,
        refresh_answer(claims, expires, found, secret, now, answer),
    ensures
        refresh_answer(
            Claims { sub: claims.sub, exp: other_exp },
            expires,
            found,
            secret,
            now,
            answer,
        ),
        answer matches Ok((_, cookie)) ==> (signed_claims(cookie@.value, secret) matches Some(
            renewed,
        ) && renewed.sub == claims.sub && renewed.exp == expiry_after(now)),
{
}

/// The cookie of a session that was opened at `now` carries a token that
/// verifies as its user's at every moment before one week has passed, and at
/// none from then on.
pub proof fn lemma_session_token_lifetime(
    user_id: i32,
    stay_logged_in: bool,
    secret: Seq<u8>,
    now: u64,
    cookie: SessionCookie,
    later: u64,
    answer: Result<Claims, Status>,
)
    requires
        now + TOKEN_LIFETIME <= u64::MAX,
        session_started(user_id, stay_logged_in, secret, now, cookie),
        verification(cookie@.value, secret, later, answer),
    ensures
        answer matches Ok(claims) ==> claims.sub == user_id && later < expiry_after(now),
        later >= expiry_after(now) ==> answer is Err,
        stay_logged_in ==> (cookie@.expires matches Some(second) && second == expiry_after(now)),
        !stay_logged_in ==> cookie@.expires.is_none(),
{
}

/// A refresh that is shown an expired token answers `Unauthorized` at its
/// first step: the store is not asked and no cookie is set.
pub proof fn lemma_refresh_refuses_expired_token(
    cookie: PresentedCookie,
    secret: Seq<u8>,
    now: u64,
    answer: Result<Refresh, Status>,
)
    requires
        refresh_request(Some(&cookie), secret, now, answer),
        signed_claims(cookie.value@, secret) matches Some(claims) ==> claims.exp <= now,
    ensures
        answer == Err::<Refresh, Status>(Status::Unauthorized),
{
}

/// A login with the right password that does not ask to stay logged in
/// always succeeds, and so does one that asks for it at any time before the
/// last week of the year 9999.
pub proof fn lemma_login_succeeds(
    req: &LoginRequest,
    user: User,
    secret: Seq<u8>,
    now: u64,
    answer: Result<(Profile, SessionCookie), Status>,
)
    requires
        now + TOKEN_LIFETIME <= u64::MAX,
        login_answer(req, Ok(user), secret, now, answer),
        password_matches(user.password_hash@, req.password@),
        !req.stay_logged_in || expiry_after(now) <= LAST_COMMON_SECOND,
    ensures
        answer matches Ok((profile, cookie)) && profile == user.shown() && session_started(
            user.id,
            req.stay_logged_in,
            secret,
            now,
            cookie,
        ),
{
}

/// A refresh for a user whom the store holds renews the session, under the
/// same condition on the time.
pub proof fn lemma_refresh_succeeds(
    claims: Claims,
    expires: Option<i64>,
    user: Profile,
    secret: Seq<u8>,
    now: u64,
    answer: Result<(Profile, SessionCookie), Status>,
)
    requires
        now + TOKEN_LIFETIME <= u64::MAX,
        refresh_answer(claims, expires, Ok(user), secret, now, answer),
        expires.is_none() || expiry_after(now) <= LAST_COMMON_SECOND,
    ensures
        answer matches Ok((profile, cookie)) && profile == user && session_started(
            claims.sub,
            expires.is_some(),
            secret,
            now,
            cookie,
        ),
{
}

} // verus!
