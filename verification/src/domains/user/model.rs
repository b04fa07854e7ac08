//! The records of the identity core and the payloads of its operations.

use crate::utils::{
    contains_digit, contains_letter, has_digit, has_letter, is_valid_email, password_rule,
    spec_password_rule, validate_email, ValidationError,
};
use vstd::prelude::*;
use vstd::string::*;

verus! {

/// The one category of verification token there is.
pub const EMAIL_VERIFICATION: &'static str = "email_verification";

/// A registered account. `password` holds the hashed credential, never the
/// plaintext.
#[derive(Debug)]
pub struct User {
    pub id: i32,
    pub email: String,
    pub display_name: String,
    pub password: String,
    pub email_verified: bool,
    /// Creation time, in seconds since the epoch.
    pub created_at: Option<i64>,
}

pub struct UserView {
    pub id: i32,
    pub email: Seq<char>,
    pub display_name: Seq<char>,
    pub password: Seq<char>,
    pub email_verified: bool,
    pub created_at: Option<i64>,
}

impl View for User {
    type V = UserView;

    open spec fn view(&self) -> UserView {
        UserView {
            id: self.id,
            email: self.email@,
            display_name: self.display_name@,
            password: self.password@,
            email_verified: self.email_verified,
            created_at: self.created_at,
        }
    }
}

impl Clone for User {
    fn clone(&self) -> (copy: Self)
        ensures
            copy@ == self@,
    {
        User {
            id: self.id,
            email: self.email.clone(),
            display_name: self.display_name.clone(),
            password: self.password.clone(),
            email_verified: self.email_verified,
            created_at: self.created_at,
        }
    }
}

impl UserView {
    /// This account with its email confirmed.
    pub open spec fn verified(self) -> UserView {
        UserView { email_verified: true, ..self }
    }
}

/// A single-use, time-boxed secret that proves control of an email address.
#[derive(Debug)]
pub struct VerificationToken {
    pub id: i32,
    pub user_id: i32,
    /// The secret itself: the key by which the token is found.
    pub token: String,
    pub token_type: String,
    /// Seconds since the epoch.
    pub expires_at: i64,
    /// When the token was redeemed, if it was.
    pub used_at: Option<i64>,
    pub created_at: Option<i64>,
}

pub struct VerificationTokenView {
    pub id: i32,
    pub user_id: i32,
    pub token: Seq<char>,
    pub token_type: Seq<char>,
    pub expires_at: i64,
    pub used_at: Option<i64>,
    pub created_at: Option<i64>,
}

impl View for VerificationToken {
    type V = VerificationTokenView;

    open spec fn view(&self) -> VerificationTokenView {
        VerificationTokenView {
            id: self.id,
            user_id: self.user_id,
            token: self.token@,
            token_type: self.token_type@,
            expires_at: self.expires_at,
            used_at: self.used_at,
            created_at: self.created_at,
        }
    }
}

impl Clone for VerificationToken {
    fn clone(&self) -> (copy: Self)
        ensures
            copy@ == self@,
    {
        VerificationToken {
            id: self.id,
            user_id: self.user_id,
            token: self.token.clone(),
            token_type: self.token_type.clone(),
            expires_at: self.expires_at,
            used_at: self.used_at,
            created_at: self.created_at,
        }
    }
}

impl VerificationTokenView {
    /// Whether the expiry lies before `now`.
    pub open spec fn is_expired(self, now: i64) -> bool {
        self.expires_at < now
    }

    /// Whether the token has been redeemed.
    pub open spec fn is_used(self) -> bool {
        self.used_at is Some
    }

    /// Whether the token can be redeemed at `now`: never used and not expired.
    pub open spec fn is_redeemable(self, now: i64) -> bool {
        !self.is_used() && !self.is_expired(now)
    }

    /// This token as redeemed at `now`.
    pub open spec fn used(self, now: i64) -> VerificationTokenView {
        VerificationTokenView { used_at: Some(now), ..self }
    }
}

impl VerificationToken {
    /// Whether the expiry lies before `now`.
    pub fn is_expired(&self, now: i64) -> (expired: bool)
        ensures
            expired == self@.is_expired(now),
    {
        self.expires_at < now
    }

    /// Whether the token has been redeemed.
    pub fn is_used(&self) -> (used: bool)
        ensures
            used == self@.is_used(),
    {
        self.used_at.is_some()
    }

    /// Whether the token can be redeemed at `now`.
    pub fn is_redeemable(&self, now: i64) -> (live: bool)
        ensures
            live == self@.is_redeemable(now),
    {
        !self.is_used() && !self.is_expired(now)
    }
}

/// What a caller sends to open an account.
#[derive(Debug)]
pub struct CreateUserRequest {
    pub email: String,
    pub display_name: String,
    pub password: String,
}

pub struct CreateUserRequestView {
    pub email: Seq<char>,
    pub display_name: Seq<char>,
    pub password: Seq<char>,
}

impl View for CreateUserRequest {
    type V = CreateUserRequestView;

    open spec fn view(&self) -> CreateUserRequestView {
        CreateUserRequestView {
            email: self.email@,
            display_name: self.display_name@,
            password: self.password@,
        }
    }
}

impl Clone for CreateUserRequest {
    fn clone(&self) -> (copy: Self)
        ensures
            copy@ == self@,
    {
        CreateUserRequest {
            email: self.email.clone(),
            display_name: self.display_name.clone(),
            password: self.password.clone(),
        }
    }
}

/// Code of the error for an email that has not the shape of an address.
pub const INVALID_EMAIL: &'static str = "メールアドレスが無効です";

/// Code of the error for an empty display name.
pub const DISPLAY_NAME_REQUIRED: &'static str = "表示名が必要です";

/// Code of the error for a password that is too short.
pub const PASSWORD_TOO_SHORT: &'static str = "パスワードは8文字以上である必要があります";

/// The least number of characters a password may have.
pub const MIN_PASSWORD_CHARS: usize = 8;

/// The code of the first rule that a request breaks, given what was found out
/// about its fields: whether the email has the shape of an address, how many
/// characters the display name and the password have, and whether the password
/// holds a letter and a digit. The rules are examined in the order email,
/// display name, password length, password composition; `None` where none is
/// broken.
pub open spec fn spec_field_rules(
    email_valid: bool,
    display_name_chars: nat,
    password_chars: nat,
    letter: bool,
    digit: bool,
) -> Option<Seq<char>> {
    if !email_valid {
        Some(INVALID_EMAIL@)
    } else if display_name_chars < 1 {
        Some(DISPLAY_NAME_REQUIRED@)
    } else if password_chars < MIN_PASSWORD_CHARS {
        Some(PASSWORD_TOO_SHORT@)
    } else {
        spec_password_rule(letter, digit)
    }
}

/// Applies the rules of account creation to what was found out about the
/// fields of a request.
pub fn field_rules(
    email_valid: bool,
    display_name_chars: usize,
    password_chars: usize,
    letter: bool,
    digit: bool,
) -> (verdict: Result<(), ValidationError>)
    ensures
        match verdict {
            Ok(_) => spec_field_rules(
                email_valid,
                display_name_chars as nat,
                password_chars as nat,
                letter,
                digit,
            ) is None,
            Err(e) => spec_field_rules(
                email_valid,
                display_name_chars as nat,
                password_chars as nat,
                letter,
                digit,
            ) == Some(e.code@),
        },
{
    if !email_valid {
        return Err(ValidationError::new(INVALID_EMAIL));
    }
    if display_name_chars < 1 {
        return Err(ValidationError::new(DISPLAY_NAME_REQUIRED));
    }
    if password_chars < MIN_PASSWORD_CHARS {
        return Err(ValidationError::new(PASSWORD_TOO_SHORT));
    }
    password_rule(letter, digit)
}

impl CreateUserRequestView {
    /// The code of the first rule the request breaks, in the order email,
    /// display name, password length, password composition; `None` where it
    /// breaks none.
    pub open spec fn broken_rule(self) -> Option<Seq<char>> {
        spec_field_rules(
            is_valid_email(self.email),
            self.display_name.len(),
            self.password.len(),
            has_letter(self.password),
            has_digit(self.password),
        )
    }

    /// Whether the request has the shape that account creation asks for.
    pub open spec fn is_valid(self) -> bool {
        self.broken_rule() is None
    }
}

impl CreateUserRequest {
    /// Checks the shape of the fields: an email address, a display name of at
    /// least one character, a password of at least eight characters with a
    /// letter and a digit.
    pub fn validate(&self) -> (verdict: Result<(), ValidationError>)
        ensures
            match verdict {
                Ok(_) => self@.broken_rule() is None,
                Err(e) => self@.broken_rule() == Some(e.code@),
            },
    {
        field_rules(
            validate_email(self.email.as_str()),
            self.display_name.as_str().unicode_len(),
            self.password.as_str().unicode_len(),
            contains_letter(self.password.as_str()),
            contains_digit(self.password.as_str()),
        )
    }
}

/// What a caller sends to log in.
#[derive(Debug)]
pub struct LoginRequest {
    pub email: String,
    pub password: String,
}

pub struct LoginRequestView {
    pub email: Seq<char>,
    pub password: Seq<char>,
}

impl View for LoginRequest {
    type V = LoginRequestView;

    open spec fn view(&self) -> LoginRequestView {
        LoginRequestView { email: self.email@, password: self.password@ }
    }
}

impl Clone for LoginRequest {
    fn clone(&self) -> (copy: Self)
        ensures
            copy@ == self@,
    {
        LoginRequest { email: self.email.clone(), password: self.password.clone() }
    }
}

/// A session token with the public profile of the account it was issued to.
#[derive(Debug)]
pub struct LoginResponse {
    pub token: String,
    pub user_id: i32,
    pub email: String,
    pub display_name: String,
}

pub struct LoginResponseView {
    pub token: Seq<char>,
    pub user_id: i32,
    pub email: Seq<char>,
    pub display_name: Seq<char>,
}

impl View for LoginResponse {
    type V = LoginResponseView;

    open spec fn view(&self) -> LoginResponseView {
        LoginResponseView {
            token: self.token@,
            user_id: self.user_id,
            email: self.email@,
            display_name: self.display_name@,
        }
    }
}

impl Clone for LoginResponse {
    fn clone(&self) -> (copy: Self)
        ensures
            copy@ == self@,
    {
        LoginResponse {
            token: self.token.clone(),
            user_id: self.user_id,
            email: self.email.clone(),
            display_name: self.display_name.clone(),
        }
    }
}

/// What a successful redemption returns: the account is logged in as well.
#[derive(Debug)]
pub struct VerifyEmailResponse {
    pub token: String,
    pub user_id: i32,
    pub email: String,
    pub display_name: String,
}

impl View for VerifyEmailResponse {
    type V = LoginResponseView;

    open spec fn view(&self) -> LoginResponseView {
        LoginResponseView {
            token: self.token@,
            user_id: self.user_id,
            email: self.email@,
            display_name: self.display_name@,
        }
    }
}

impl Clone for VerifyEmailResponse {
    fn clone(&self) -> (copy: Self)
        ensures
            copy@ == self@,
    {
        VerifyEmailResponse {
            token: self.token.clone(),
            user_id: self.user_id,
            email: self.email.clone(),
            display_name: self.display_name.clone(),
        }
    }
}

} // verus!
