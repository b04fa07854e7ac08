//! Signed session credentials: HS256 JSON Web Tokens that carry the subject,
//! the expiry and the user id.

use crate::clock;
use crate::views::option_view;
use vstd::prelude::*;
use vstd::string::*;

verus! {

/// The claims a session token carries.
#[derive(Debug)]
pub struct Claims {
    /// Subject: the account's email.
    pub sub: String,
    /// Expiry, in seconds since the epoch.
    pub exp: usize,
    pub user_id: i32,
}

pub struct ClaimsView {
    pub sub: Seq<char>,
    pub exp: usize,
    pub user_id: i32,
}

impl View for Claims {
    type V = ClaimsView;

    open spec fn view(&self) -> ClaimsView {
        ClaimsView { sub: self.sub@, exp: self.exp, user_id: self.user_id }
    }
}

impl Clone for Claims {
    fn clone(&self) -> (copy: Self)
        ensures
            copy@ == self@,
    {
        Claims { sub: self.sub.clone(), exp: self.exp, user_id: self.user_id }
    }
}

/// Why a session token could not be issued or accepted.
#[derive(Debug, Clone, Copy, PartialEq, Eq, Structural)]
pub enum JwtError {
    /// The token could not be signed.
    Encoding,
    /// The token is malformed, carries a bad signature, lacks a claim or has
    /// expired.
    InvalidCredential,
}

/// Seconds of clock skew tolerated past a token's expiry.
pub const LEEWAY_SECS: i64 = 60;

/// The error of the `jsonwebtoken` crate (`errors::Error`). It is carried
/// from the two calls below to the code that maps it, and never looked into.
#[verifier::external_type_specification]
#[verifier::external_body]
pub struct ExJwtFailure(jsonwebtoken::errors::Error);

/// Name of the payload member that holds the subject.
pub const SUBJECT_CLAIM: &'static str = "sub";

/// Name of the payload member that holds the expiry.
pub const EXPIRY_CLAIM: &'static str = "exp";

/// Name of the payload member that holds the user id.
pub const USER_ID_CLAIM: &'static str = "user_id";

/// The compact HS256 token under `secret` whose payload holds three members
/// with the given names, in this order: a string, an unsigned integer and a
/// signed integer. `None` where the encoder reports a failure.
pub uninterp spec fn hs256_token(
    text_name: Seq<char>,
    text: Seq<char>,
    unsigned_name: Seq<char>,
    unsigned: usize,
    signed_name: Seq<char>,
    signed: i32,
    secret: Seq<u8>,
) -> Option<Seq<char>>;

/// Puts the three values into a JSON object under the given names, in the
/// order of the arguments, and signs it with `jsonwebtoken::encode` under the
/// default header (HS256) and `EncodingKey::from_secret`. Trusted: the outcome
/// depends on the arguments alone.
#[verifier::external_body]
fn sign_hs256(
    text_name: &str,
    text: &str,
    unsigned_name: &str,
    unsigned: usize,
    signed_name: &str,
    signed: i32,
    secret: &[u8],
) -> (token: Result<String, jsonwebtoken::errors::Error>)
    ensures
        match token {
            Ok(t) => hs256_token(
                text_name@,
                text@,
                unsigned_name@,
                unsigned,
                signed_name@,
                signed,
                secret@,
            ) == Some(t@),
            Err(_) => hs256_token(
                text_name@,
                text@,
                unsigned_name@,
                unsigned,
                signed_name@,
                signed,
                secret@,
            ) is None,
        },
{
    let mut payload = serde_json::Map::new();
    payload.insert(text_name.to_string(), serde_json::Value::from(text));
    payload.insert(unsigned_name.to_string(), serde_json::Value::from(unsigned));
    payload.insert(signed_name.to_string(), serde_json::Value::from(signed));
    let key = jsonwebtoken::EncodingKey::from_secret(secret);
    jsonwebtoken::encode(&jsonwebtoken::Header::default(), &payload, &key)
}

/// The members of a token's payload that a session reads, each present only
/// where the payload holds it with the right JSON type.
pub struct RawClaims {
    /// `sub`, where it is a string.
    pub sub: Option<String>,
    /// `exp`, where it is a non-negative integer.
    pub exp: Option<u64>,
    /// `user_id`, where it is an integer.
    pub user_id: Option<i64>,
}

/// What a token yields under `secret` when its expiry is left unexamined:
/// `None` where the decoder rejects it, else the three members of its payload
/// with the given names, each present only where the payload holds it as a
/// string, as a non-negative integer and as an integer.
pub uninterp spec fn hs256_claims(
    token: Seq<char>,
    secret: Seq<u8>,
    text_name: Seq<char>,
    unsigned_name: Seq<char>,
    signed_name: Seq<char>,
) -> Option<(Option<Seq<char>>, Option<u64>, Option<i64>)>;

/// Checks `token` with `jsonwebtoken::decode` under `DecodingKey::from_secret`
/// and the default validation (HS256) with the expiry check switched off, and
/// picks the three members with the given names out of the JSON payload.
/// Trusted: the outcome depends on the arguments alone.
#[verifier::external_body]
fn open_hs256(
    token: &str,
    secret: &[u8],
    text_name: &str,
    unsigned_name: &str,
    signed_name: &str,
) -> (opened: Result<RawClaims, jsonwebtoken::errors::Error>)
    ensures
        match opened {
            Ok(raw) => hs256_claims(token@, secret@, text_name@, unsigned_name@, signed_name@)
                == Some((option_view(raw.sub), raw.exp, raw.user_id)),
            Err(_) => hs256_claims(token@, secret@, text_name@, unsigned_name@, signed_name@)
                is None,
        },
{
    let mut validation = jsonwebtoken::Validation::default();
    validation.validate_exp = false;
    let key = jsonwebtoken::DecodingKey::from_secret(secret);
    let payload = jsonwebtoken::decode::<serde_json::Value>(token, &key, &validation)?.claims;
    Ok(RawClaims {
        sub: payload.get(text_name).and_then(|v| v.as_str()).map(|s| s.to_string()),
        exp: payload.get(unsigned_name).and_then(|v| v.as_u64()),
        user_id: payload.get(signed_name).and_then(|v| v.as_i64()),
    })
}

/// The token that `claims` encode to under `secret`, where encoding succeeds.
pub open spec fn spec_encode_jwt(claims: ClaimsView, secret: Seq<u8>) -> Option<Seq<char>> {
    hs256_token(
        SUBJECT_CLAIM@,
        claims.sub,
        EXPIRY_CLAIM@,
        claims.exp,
        USER_ID_CLAIM@,
        claims.user_id,
        secret,
    )
}

/// Encodes and signs `claims` under `secret`.
pub fn encode_jwt(claims: Claims, secret: &[u8]) -> (token: Result<String, JwtError>)
    ensures
        match token {
            Ok(t) => spec_encode_jwt(claims@, secret@) == Some(t@),
            Err(e) => e == JwtError::Encoding && spec_encode_jwt(claims@, secret@) is None,
        },
{
    match sign_hs256(
        SUBJECT_CLAIM,
        claims.sub.as_str(),
        EXPIRY_CLAIM,
        claims.exp,
        USER_ID_CLAIM,
        claims.user_id,
        secret,
    ) {
        Ok(token) => Ok(token),
        Err(_) => Err(JwtError::Encoding),
    }
}

/// Whether a token that expires at `exp` is past its expiry at `now`, the
/// leeway granted.
pub open spec fn session_expired(exp: usize, now: i64) -> bool {
    exp + LEEWAY_SECS < now
}

/// The claims that payload members make, where all three are present and fit
/// their types and the expiry has not passed at `now`.
pub open spec fn spec_accept_claims(
    sub: Option<Seq<char>>,
    exp: Option<u64>,
    user_id: Option<i64>,
    now: i64,
) -> Option<ClaimsView> {
    if sub is Some && exp is Some && user_id is Some && exp->0 <= usize::MAX && i32::MIN
        <= user_id->0 <= i32::MAX && !session_expired(exp->0 as usize, now) {
        Some(ClaimsView { sub: sub->0, exp: exp->0 as usize, user_id: user_id->0 as i32 })
    } else {
        None
    }
}

/// Turns the members picked out of a verified payload into claims, and
/// rejects them where one is missing or out of range or the session has
/// expired at `now`.
pub fn accept_claims(raw: RawClaims, now: i64) -> (claims: Result<Claims, JwtError>)
    ensures
        match claims {
            Ok(c) => spec_accept_claims(option_view(raw.sub), raw.exp, raw.user_id, now) == Some(
                c@,
            ),
            Err(e) => e == JwtError::InvalidCredential && spec_accept_claims(
                option_view(raw.sub),
                raw.exp,
                raw.user_id,
                now,
            ) is None,
        },
{
    let sub = match raw.sub {
        Some(s) => s,
        None => { return Err(JwtError::InvalidCredential); },
    };
    let exp = match raw.exp {
        Some(e) => e,
        None => { return Err(JwtError::InvalidCredential); },
    };
    let user_id = match raw.user_id {
        Some(id) => id,
        None => { return Err(JwtError::InvalidCredential); },
    };
    if exp > usize::MAX as u64 || user_id < i32::MIN as i64 || user_id > i32::MAX as i64 {
        return Err(JwtError::InvalidCredential);
    }
    if now >= 0 && exp < now as u64 && now as u64 - exp > LEEWAY_SECS as u64 {
        return Err(JwtError::InvalidCredential);
    }
    Ok(Claims { sub, exp: exp as usize, user_id: user_id as i32 })
}

/// The claims that `token` carries under `secret` at `now`, where it is
/// well-formed, correctly signed, complete and not expired.
pub open spec fn spec_decode_jwt(token: Seq<char>, secret: Seq<u8>, now: i64) -> Option<
    ClaimsView,
> {
    match hs256_claims(token, secret, SUBJECT_CLAIM@, EXPIRY_CLAIM@, USER_ID_CLAIM@) {
        Some((sub, exp, user_id)) => spec_accept_claims(sub, exp, user_id, now),
        None => None,
    }
}

/// Verifies `token` under `secret` and returns its claims as they stand at
/// the instant `now`.
pub fn decode_jwt_at(token: &str, secret: &[u8], now: i64) -> (claims: Result<Claims, JwtError>)
    ensures
        match claims {
            Ok(c) => spec_decode_jwt(token@, secret@, now) == Some(c@),
            Err(e) => e == JwtError::InvalidCredential && spec_decode_jwt(token@, secret@, now)
                is None,
        },
{
    match open_hs256(token, secret, SUBJECT_CLAIM, EXPIRY_CLAIM, USER_ID_CLAIM) {
        Ok(raw) => accept_claims(raw, now),
        Err(_) => Err(JwtError::InvalidCredential),
    }
}

/// Verifies `token` under `secret` against the current time.
pub fn decode_jwt(token: &str, secret: &[u8]) -> (claims: Result<Claims, JwtError>)
    ensures
        exists|now: i64|
            match claims {
                Ok(c) => #[trigger] spec_decode_jwt(token@, secret@, now) == Some(c@),
                Err(e) => e == JwtError::InvalidCredential && spec_decode_jwt(
                    token@,
                    secret@,
                    now,
                ) is None,
            },
{
    let now = clock::now();
    decode_jwt_at(token, secret, now)
}

} // verus!
