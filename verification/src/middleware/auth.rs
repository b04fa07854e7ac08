//! Bearer authentication: from the authorization header to the claims of a
//! valid session.

use crate::clock;
use crate::text::strip_prefix;
use crate::utils::error::{AppError, AppErrorView, UNAUTHORIZED};
use crate::utils::jwt::{decode_jwt_at, spec_decode_jwt, Claims, ClaimsView};
use crate::views::result_view;
use vstd::prelude::*;
use vstd::string::*;

verus! {

/// What stands before the session token in an authorization header.
pub const BEARER_PREFIX: &'static str = "Bearer ";

pub const HEADER_MISSING: &'static str = "Authorization header missing";

pub const HEADER_UNREADABLE: &'static str = "Invalid authorization header";

pub const HEADER_NOT_BEARER: &'static str = "Invalid authorization format";

pub const TOKEN_REJECTED: &'static str = "Invalid token";

/// The authorization header of a request, as the transport found it.
#[derive(Debug)]
pub enum AuthorizationHeader {
    /// The request has no such header.
    Missing,
    /// The header's value is not text.
    Unreadable,
    /// The header's value.
    Value(String),
}

pub enum AuthorizationHeaderView {
    Missing,
    Unreadable,
    Value(Seq<char>),
}

impl View for AuthorizationHeader {
    type V = AuthorizationHeaderView;

    open spec fn view(&self) -> AuthorizationHeaderView {
        match self {
            AuthorizationHeader::Missing => AuthorizationHeaderView::Missing,
            AuthorizationHeader::Unreadable => AuthorizationHeaderView::Unreadable,
            AuthorizationHeader::Value(v) => AuthorizationHeaderView::Value(v@),
        }
    }
}

/// The failure of authentication with the given explanation.
pub open spec fn unauthorized(message: Seq<char>) -> AppErrorView {
    AppErrorView { status_code: UNAUTHORIZED, message }
}

/// The session token that a header presents: what follows `Bearer ` in its
/// value.
pub open spec fn spec_bearer_token(header: AuthorizationHeaderView) -> Result<
    Seq<char>,
    AppErrorView,
> {
    match header {
        AuthorizationHeaderView::Missing => Err(unauthorized(HEADER_MISSING@)),
        AuthorizationHeaderView::Unreadable => Err(unauthorized(HEADER_UNREADABLE@)),
        AuthorizationHeaderView::Value(value) => match crate::text::spec_strip_prefix(
            value,
            BEARER_PREFIX@,
        ) {
            Some(token) => Ok(token),
            None => Err(unauthorized(HEADER_NOT_BEARER@)),
        },
    }
}

/// The claims that a header authenticates at `now` under `secret`. Every
/// failure is reported as unauthorized.
pub open spec fn spec_auth_middleware(
    header: AuthorizationHeaderView,
    secret: Seq<u8>,
    now: i64,
) -> Result<ClaimsView, AppErrorView> {
    match spec_bearer_token(header) {
        Err(e) => Err(e),
        Ok(token) => match spec_decode_jwt(token, secret, now) {
            Some(claims) => Ok(claims),
            None => Err(unauthorized(TOKEN_REJECTED@)),
        },
    }
}

/// Picks the session token out of the authorization header.
pub fn bearer_token<'a>(header: &'a AuthorizationHeader) -> (token: Result<&'a str, AppError>)
    ensures
        match token {
            Ok(t) => spec_bearer_token(header@) == Ok::<Seq<char>, AppErrorView>(t@),
            Err(e) => spec_bearer_token(header@) == Err::<Seq<char>, AppErrorView>(e@),
        },
{
    match header {
        AuthorizationHeader::Missing => Err(AppError::unauthorized(HEADER_MISSING)),
        AuthorizationHeader::Unreadable => Err(AppError::unauthorized(HEADER_UNREADABLE)),
        AuthorizationHeader::Value(value) => match strip_prefix(value.as_str(), BEARER_PREFIX) {
            Some(token) => Ok(token),
            None => Err(AppError::unauthorized(HEADER_NOT_BEARER)),
        },
    }
}

/// Authenticates a request at the instant `now`.
pub fn auth_middleware_at(header: &AuthorizationHeader, secret: &[u8], now: i64) -> (claims: Result<
    Claims,
    AppError,
>)
    ensures
        result_view(claims) == spec_auth_middleware(header@, secret@, now),
{
    let token = match bearer_token(header) {
        Ok(token) => token,
        Err(e) => {
            return Err(e);
        },
    };
    match decode_jwt_at(token, secret, now) {
        Ok(claims) => Ok(claims),
        Err(_) => Err(AppError::unauthorized(TOKEN_REJECTED)),
    }
}

/// Authenticates a request against the current time. Whatever the clock
/// read, the outcome is that of `auth_middleware_at` with it.
pub fn auth_middleware(header: &AuthorizationHeader, secret: &[u8]) -> (claims: Result<
    Claims,
    AppError,
>)
    ensures
        exists|now: i64| result_view(claims) == #[trigger] spec_auth_middleware(
            header@,
            secret@,
            now,
        ),
{
    let now = clock::now();
    auth_middleware_at(header, secret, now)
}

} // verus!
