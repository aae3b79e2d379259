//! Signing and verifying identity tokens.

use super::claims::{Claims, RawClaims};
use super::clock::now;
use crate::status::Status;
use vstd::prelude::*;

verus! {

/// The error type of the `jsonwebtoken` crate, carried through unread.
#[verifier::external_type_specification]
#[verifier::external_body]
pub struct ExTokenError(jsonwebtoken::errors::Error);

/// What `jsonwebtoken::decode` reads from a token under an HMAC secret, the
/// clock left aside: `None` where it refuses the token at any time (the
/// token is malformed, or its signature is not the HS256 signature of its
/// first two sections under the secret), else the `sub` claim as a signed and
/// the `exp` claim as an unsigned integer, each `None` where the payload has
/// no such integer.
pub uninterp spec fn hs256_claims(token: Seq<char>, secret: Seq<u8>) -> Option<
    (Option<i64>, Option<u64>),
>;

/// The signature of a message under an HMAC secret as
/// `jsonwebtoken::crypto::sign` computes it for HS256: the MAC of the
/// message, in the URL-safe Base64 alphabet without padding.
pub uninterp spec fn hs256_signature(message: Seq<char>, secret: Seq<u8>) -> Seq<char>;

/// The length of an HS256 signature: 32 bytes in Base64 without padding.
pub const SIGNATURE_LENGTH: usize = 43;

/// The index of the last dot of a token, or -1 for a token without a dot.
pub open spec fn last_dot(token: Seq<char>) -> int
    decreases token.len(),
{
    if token.len() == 0 {
        -1
    } else if token.last() == '.' {
        token.len() - 1
    } else {
        last_dot(token.drop_last())
    }
}

/// What the signature of a token covers: all that stands before its last dot.
pub open spec fn signed_part(token: Seq<char>) -> Seq<char> {
    token.take(last_dot(token))
}

/// The signature section of a token: all that stands after its last dot.
pub open spec fn signature_part(token: Seq<char>) -> Seq<char> {
    token.skip(last_dot(token) + 1)
}

/// Whether a token ends in the HS256 signature, under `secret`, of what
/// stands before its last dot.
pub open spec fn well_signed(token: Seq<char>, secret: Seq<u8>) -> bool {
    &&& last_dot(token) >= 0
    &&& signature_part(token) == hs256_signature(signed_part(token), secret)
    &&& signature_part(token).len() == SIGNATURE_LENGTH
}

/// Signs the claims `{"sub": .., "exp": ..}` with `jsonwebtoken::encode`,
/// under the default header (HS256) and the secret as an HMAC key. With that
/// header and such a key the crate has nothing to refuse: it serialises two
/// numbers and computes a MAC. The token that comes back is one that
/// `decode` reads, under the same secret, as exactly these claims.
#[verifier::external_body]
fn encode_hs256(sub: i32, exp: u64, secret: &[u8]) -> (encoded: Result<
    String,
    jsonwebtoken::errors::Error,
>)
    ensures
        encoded is Ok,
        encoded matches Ok(token) ==> hs256_claims(token@, secret@) == Some(
            (Some(sub as i64), Some(exp)),
        ),
{
    let mut claims = serde_json::Map::new();
    claims.insert("sub".to_owned(), serde_json::Value::from(sub));
    claims.insert("exp".to_owned(), serde_json::Value::from(exp));
    jsonwebtoken::encode(
        &jsonwebtoken::Header::default(),
        &claims,
        &jsonwebtoken::EncodingKey::from_secret(secret),
    )
}

/// Verifies with `jsonwebtoken::decode` under `Validation::default()`: the
/// signature must be HS256 under the secret, and `exp` must be present and,
/// by the crate's own reading of the machine's clock, not more than a minute
/// past. Whether it succeeds therefore depends on the time; where it does,
/// the claims are those that the token holds, and the token is well signed:
/// the crate splits it at its last dot, signs what stands before, and
/// compares the result, character by character, with what stands after.
#[verifier::external_body]
fn decode_hs256(token: &str, secret: &[u8]) -> (decoded: Result<
    RawClaims,
    jsonwebtoken::errors::Error,
>)
    ensures
        decoded matches Ok(raw) ==> hs256_claims(token@, secret@) == Some((raw.sub, raw.exp)),
        decoded is Ok ==> {
            &&& last_dot(token@) >= 0
            &&& signature_part(token@) == hs256_signature(signed_part(token@), secret@)
            &&& signature_part(token@).len() == SIGNATURE_LENGTH
        },
{
    let data = jsonwebtoken::decode::<serde_json::Value>(
        token,
        &jsonwebtoken::DecodingKey::from_secret(secret),
        &jsonwebtoken::Validation::default(),
    )?;
    Ok(
        RawClaims {
            sub: data.claims.get("sub").and_then(|sub| sub.as_i64()),
            exp: data.claims.get("exp").and_then(|exp| exp.as_u64()),
        },
    )
}

/// The claims that a token carries under a secret: those that the codec
/// reads from it, where both are there and in range.
pub open spec fn signed_claims(token: Seq<char>, secret: Seq<u8>) -> Option<Claims> {
    match hs256_claims(token, secret) {
        Some((sub, exp)) => (RawClaims { sub, exp }).claims(),
        None => None,
    }
}

/// What the verification of a token may answer at `now`: claims only where
/// the token is well signed, carries them, and they have not expired, and no
/// failure other than `Unauthorized`. A token that is not well signed, or
/// carries no claims, or whose expiry is not strictly after `now`, is
/// refused.
pub open spec fn verification(
    token: Seq<char>,
    secret: Seq<u8>,
    now: u64,
    answer: Result<Claims, Status>,
) -> bool {
    match answer {
        Ok(claims) => {
            &&& well_signed(token, secret)
            &&& signed_claims(token, secret) == Some(claims)
            &&& claims.valid_at(now)
        },
        Err(status) => status == Status::Unauthorized,
    }
}

/// The second layer of verification, for every outcome of the first: claims
/// that the codec accepted pass exactly when their expiry is strictly after
/// `now`, and a refusal stays a refusal.
pub open spec fn recheck(decoded: Result<Claims, Status>, now: u64) -> Result<Claims, Status> {
    match decoded {
        Ok(claims) => if claims.valid_at(now) {
            Ok(claims)
        } else {
            Err(Status::Unauthorized)
        },
        Err(_) => Err(Status::Unauthorized),
    }
}

/// Checks the expiry of decoded claims against `now`, on top of whatever the
/// codec checked itself.
pub fn check_decoded(decoded: Result<Claims, Status>, now: u64) -> (answer: Result<
    Claims,
    Status,
>)
    ensures
        answer == recheck(decoded, now),
{
    match decoded {
        Ok(claims) => claims.check_expiry(now),
        Err(_) => Err(Status::Unauthorized),
    }
}

/// Signs and verifies tokens under one secret, which is handed over once and
/// never changes.
pub struct TokenCodec {
    secret: Vec<u8>,
}

impl TokenCodec {
    /// The secret that this codec signs with.
    pub closed spec fn secret(&self) -> Seq<u8> {
        self.secret@
    }

    /// The claims that a token carries under this codec's secret.
    pub open spec fn claims_of(&self, token: Seq<char>) -> Option<Claims> {
        signed_claims(token, self.secret())
    }

    /// A codec for the given secret.
    pub fn new(secret: Vec<u8>) -> (codec: TokenCodec)
        ensures
            codec.secret() == secret@,
    {
        TokenCodec { secret }
    }

    /// Creates a JWT token for user `user_id` that expires at `expires`. It
    /// always succeeds, and the token carries exactly these two claims.
    pub fn create_jwt(&self, user_id: i32, expires: u64) -> (issued: Result<String, Status>)
        ensures
            issued matches Ok(token) && self.claims_of(token@) == Some(
                Claims { sub: user_id, exp: expires },
            ),
    {
        match encode_hs256(user_id, expires, self.secret.as_slice()) {
            Ok(token) => Ok(token),
            Err(_) => Err(Status::InternalServerError),
        }
    }

    /// The first layer of verification: the codec's own. It checks the
    /// signature and, against the machine's clock, the expiry.
    pub fn decode(&self, token: &str) -> (decoded: Result<Claims, Status>)
        ensures
            decoded matches Ok(claims) ==> self.claims_of(token@) == Some(claims),
            decoded is Ok ==> well_signed(token@, self.secret()),
            decoded matches Err(status) ==> status == Status::Unauthorized,
    {
        match decode_hs256(token, self.secret.as_slice()) {
            Ok(raw) => match raw.into_claims() {
                Some(claims) => Ok(claims),
                None => Err(Status::Unauthorized),
            },
            Err(_) => Err(Status::Unauthorized),
        }
    }

    /// Returns the claims encoded in the JWT, as they stand at `now`: both
    /// layers of verification, the second against the given time.
    pub fn get_claims_at(&self, token: &str, now: u64) -> (answer: Result<Claims, Status>)
        ensures
            verification(token@, self.secret(), now, answer),
    {
        check_decoded(self.decode(token), now)
    }

    /// Returns the claims encoded in the JWT, verified against the current time.
    pub fn get_claims(&self, token: &str) -> (answer: Result<Claims, Status>)
        ensures
            exists|now: u64| verification(token@, self.secret(), now, answer),
    {
        let now = now();
        let answer = self.get_claims_at(token, now);
        assert(verification(token@, self.secret(), now, answer));
        answer
    }
}

/// A token that was issued for `sub` with expiry `exp` is accepted only as
/// that subject's, and only while `now` is before `exp`: from `exp` on,
/// verification fails.
pub proof fn lemma_issued_token(
    token: Seq<char>,
    secret: Seq<u8>,
    sub: i32,
    exp: u64,
    now: u64,
    answer: Result<Claims, Status>,
)
    requires
        signed_claims(token, secret) == Some(Claims { sub, exp }),
        verification(token, secret, now, answer),
    ensures
        answer matches Ok(claims) ==> claims.sub == sub && claims.exp == exp && now < exp,
        now >= exp ==> answer == Err::<Claims, Status>(Status::Unauthorized),
{
}

/// Where the codec itself accepts a token's claims, the token verifies
/// exactly while `now` is before its expiry.
pub proof fn lemma_recheck_is_strict(claims: Claims, now: u64)
    ensures
        now < claims.exp ==> recheck(Ok(claims), now) == Ok::<Claims, Status>(claims),
        now >= claims.exp ==> recheck(Ok(claims), now) == Err::<Claims, Status>(
            Status::Unauthorized,
        ),
{
}

/// The last dot of a token is a dot with no dot after it, and a token has
/// none exactly where no character of it is a dot.
pub proof fn lemma_last_dot(token: Seq<char>)
    ensures
        -1 <= last_dot(token) < token.len(),
        last_dot(token) >= 0 ==> token[last_dot(token)] == '.',
        forall|i: int| last_dot(token) < i < token.len() ==> token[i] != '.',
    decreases token.len(),
{
    if token.len() > 0 && token.last() != '.' {
        let shorter = token.drop_last();
        lemma_last_dot(shorter);
        assert forall|i: int| last_dot(token) < i < token.len() implies token[i] != '.' by {
            if i < shorter.len() {
                assert(token[i] == shorter[i]);
            }
        }
    }
}

/// A dot with no dot after it is the last dot.
pub proof fn lemma_last_dot_is_unique(token: Seq<char>, at: int)
    requires
        0 <= at < token.len(),
        token[at] == '.',
        forall|i: int| at < i < token.len() ==> token[i] != '.',
    ensures
        last_dot(token) == at,
    decreases token.len(),
{
    if token.last() != '.' {
        lemma_last_dot_is_unique(token.drop_last(), at);
    }
}

/// Whether `tampered` is `token` with the one character at index `at`, in
/// its signature section, replaced by another.
pub open spec fn tampered_signature(token: Seq<char>, tampered: Seq<char>, at: int) -> bool {
    &&& last_dot(token) < at < token.len()
    &&& tampered.len() == token.len()
    &&& tampered[at] != token[at]
    &&& forall|i: int| 0 <= i < token.len() && i != at ==> tampered[i] == token[i]
}

/// A well-signed token with one character of its signature section replaced
/// is no longer well signed.
pub proof fn lemma_tampering_breaks_the_signature(
    token: Seq<char>,
    tampered: Seq<char>,
    at: int,
    secret: Seq<u8>,
)
    requires
        well_signed(token, secret),
        tampered_signature(token, tampered, at),
    ensures
        !well_signed(tampered, secret),
{
    lemma_last_dot(token);
    let dot = last_dot(token);
    if tampered[at] == '.' {
        // the signature section now starts later, and is too short
        lemma_last_dot_is_unique(tampered, at);
    } else {
        // the sections are where they were, and the signature differs
        lemma_last_dot_is_unique(tampered, dot);
        assert(signed_part(tampered) =~= signed_part(token));
        assert(signature_part(tampered)[at - dot - 1] != signature_part(token)[at - dot - 1]);
    }
}

/// Tampering with a single character of the signature section of a valid
/// token makes verification fail.
pub proof fn lemma_tampered_token_is_refused(
    token: Seq<char>,
    tampered: Seq<char>,
    at: int,
    secret: Seq<u8>,
    now: u64,
    valid: Result<Claims, Status>,
    answer: Result<Claims, Status>,
)
    requires
        verification(token, secret, now, valid),
        valid is Ok,
        tampered_signature(token, tampered, at),
        verification(tampered, secret, now, answer),
    ensures
        answer == Err::<Claims, Status>(Status::Unauthorized),
{
    lemma_tampering_breaks_the_signature(token, tampered, at, secret);
}

} // verus!
