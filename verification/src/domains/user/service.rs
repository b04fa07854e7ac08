//! The identity service: account creation, login, verification emails and
//! token redemption over the two stores and the notifier.
//!
//! Every operation is first written down as a function on views
//! (`UserServiceView`), from the state before to the state after and the
//! outcome. The executable operations are proved to compute exactly that, and
//! the laws of the sibling module `laws` are proved of those functions.

use crate::clock;
use crate::domains::user::model::{
    CreateUserRequest, CreateUserRequestView, LoginRequest, LoginRequestView, LoginResponse,
    LoginResponseView, User, UserView, VerificationToken, VerificationTokenView,
    VerifyEmailResponse, EMAIL_VERIFICATION,
};
use crate::domains::user::repository::{
    random_token, RepositoryError, RepositoryErrorView, TokenRepositoryView, UserRepository,
    UserRepositoryView, VerificationTokenRepository, NO_SUCH_USER,
};
use crate::email::service::{spec_verification_email, EmailService, EmailServiceView};
use crate::email::types::EmailMessage;
use crate::text::str_eq;
use crate::utils::jwt::{encode_jwt, spec_encode_jwt, Claims, ClaimsView, JwtError};
use crate::utils::{hash_password, spec_hash_password};
use crate::views::{option_view, result_view, unit_result_view};
use vstd::prelude::*;
use vstd::string::*;

verus! {

/// Why the identity service refused a request. The variant is the kind of the
/// failure; the text explains it.
#[derive(Debug)]
pub enum UserServiceError {
    Unauthorized(String),
    ValidationError(String),
    InternalServerError(String),
    InvalidToken(String),
    TokenExpired(String),
    TokenAlreadyUsed(String),
    UserNotFound(String),
}

pub enum UserServiceErrorView {
    Unauthorized(Seq<char>),
    ValidationError(Seq<char>),
    InternalServerError(Seq<char>),
    InvalidToken(Seq<char>),
    TokenExpired(Seq<char>),
    TokenAlreadyUsed(Seq<char>),
    UserNotFound(Seq<char>),
}

impl View for UserServiceError {
    type V = UserServiceErrorView;

    open spec fn view(&self) -> UserServiceErrorView {
        match self {
            UserServiceError::Unauthorized(m) => UserServiceErrorView::Unauthorized(m@),
            UserServiceError::ValidationError(m) => UserServiceErrorView::ValidationError(m@),
            UserServiceError::InternalServerError(m) => UserServiceErrorView::InternalServerError(
                m@,
            ),
            UserServiceError::InvalidToken(m) => UserServiceErrorView::InvalidToken(m@),
            UserServiceError::TokenExpired(m) => UserServiceErrorView::TokenExpired(m@),
            UserServiceError::TokenAlreadyUsed(m) => UserServiceErrorView::TokenAlreadyUsed(m@),
            UserServiceError::UserNotFound(m) => UserServiceErrorView::UserNotFound(m@),
        }
    }
}

pub const INVALID_CREDENTIALS: &'static str = "Invalid credentials";

pub const EMAIL_NOT_VERIFIED: &'static str = "Email not verified";

pub const EXPIRATION_FAILED: &'static str = "Failed to calculate expiration time";

pub const JWT_ENCODING_FAILED: &'static str = "JWT encoding failed";

pub const INVALID_VERIFICATION_TOKEN: &'static str = "Invalid verification token";

pub const VERIFICATION_TOKEN_EXPIRED: &'static str = "Verification token has expired";

pub const VERIFICATION_TOKEN_USED: &'static str = "Verification token has already been used";

pub const VALIDATION_FAILED: &'static str = "Validation failed: ";

pub const DATABASE_ERROR: &'static str = "Database error: ";

/// How a store's refusal reads as a service error: a missing record is
/// `UserNotFound`, everything else is internal.
pub open spec fn spec_from_repository(error: RepositoryErrorView) -> UserServiceErrorView {
    match error {
        RepositoryErrorView::DatabaseError(m) => UserServiceErrorView::InternalServerError(
            DATABASE_ERROR@ + m,
        ),
        RepositoryErrorView::NotFound(m) => UserServiceErrorView::UserNotFound(m),
        RepositoryErrorView::Conflict(m) => UserServiceErrorView::InternalServerError(m),
    }
}

impl UserServiceError {
    /// Reads a store's refusal as a service error.
    pub fn from_repository(error: RepositoryError) -> (mapped: Self)
        ensures
            mapped@ == spec_from_repository(error@),
    {
        match error {
            RepositoryError::DatabaseError(m) => UserServiceError::InternalServerError(
                String::from_str(DATABASE_ERROR).concat(m.as_str()),
            ),
            RepositoryError::NotFound(m) => UserServiceError::UserNotFound(m),
            RepositoryError::Conflict(m) => UserServiceError::InternalServerError(m),
        }
    }

    /// The error as one line of text: its kind, a colon, its explanation.
    pub fn to_string(&self) -> (line: String)
        ensures
            line@ == match self@ {
                UserServiceErrorView::Unauthorized(m) => "Unauthorized: "@ + m,
                UserServiceErrorView::ValidationError(m) => "Validation Error: "@ + m,
                UserServiceErrorView::InternalServerError(m) => "Internal Server Error: "@ + m,
                UserServiceErrorView::InvalidToken(m) => "Invalid Token: "@ + m,
                UserServiceErrorView::TokenExpired(m) => "Token Expired: "@ + m,
                UserServiceErrorView::TokenAlreadyUsed(m) => "Token Already Used: "@ + m,
                UserServiceErrorView::UserNotFound(m) => "User Not Found: "@ + m,
            },
    {
        match self {
            UserServiceError::Unauthorized(m) => String::from_str("Unauthorized: ").concat(
                m.as_str(),
            ),
            UserServiceError::ValidationError(m) => String::from_str("Validation Error: ").concat(
                m.as_str(),
            ),
            UserServiceError::InternalServerError(m) => String::from_str(
                "Internal Server Error: ",
            ).concat(m.as_str()),
            UserServiceError::InvalidToken(m) => String::from_str("Invalid Token: ").concat(
                m.as_str(),
            ),
            UserServiceError::TokenExpired(m) => String::from_str("Token Expired: ").concat(
                m.as_str(),
            ),
            UserServiceError::TokenAlreadyUsed(m) => String::from_str(
                "Token Already Used: ",
            ).concat(m.as_str()),
            UserServiceError::UserNotFound(m) => String::from_str("User Not Found: ").concat(
                m.as_str(),
            ),
        }
    }
}

/// The claims of a session issued to `user` at `now`: subject and user id are
/// the account's, the expiry lies one validity window ahead. `None` where that
/// instant cannot be written as a claim.
pub open spec fn spec_session_claims(user: UserView, now: i64) -> Option<ClaimsView> {
    match clock::spec_expiry_after(now) {
        Some(expiry) => if 0 <= expiry <= usize::MAX {
            Some(ClaimsView { sub: user.email, exp: expiry as usize, user_id: user.id })
        } else {
            None
        },
        None => None,
    }
}

/// The session that `user` receives, given what signing its claims came to:
/// the token with the account's public profile, or an internal failure.
pub open spec fn spec_session_response(user: UserView, signed: Option<Seq<char>>) -> Result<
    LoginResponseView,
    UserServiceErrorView,
> {
    match signed {
        None => Err(UserServiceErrorView::InternalServerError(JWT_ENCODING_FAILED@)),
        Some(token) => Ok(
            LoginResponseView {
                token,
                user_id: user.id,
                email: user.email,
                display_name: user.display_name,
            },
        ),
    }
}

/// The outcome of issuing a session to `user` at `now` under `secret`.
pub open spec fn spec_issue_session(user: UserView, now: i64, secret: Seq<u8>) -> Result<
    LoginResponseView,
    UserServiceErrorView,
> {
    match spec_session_claims(user, now) {
        None => Err(UserServiceErrorView::InternalServerError(EXPIRATION_FAILED@)),
        Some(claims) => spec_session_response(user, spec_encode_jwt(claims, secret)),
    }
}

/// The outcome of a login attempt that presents a password whose hash is
/// `credential`, against what the account store holds under the email: the
/// account itself where the attempt is good. An absent account, an unverified
/// one and a credential that is not the stored one are all `Unauthorized`.
pub open spec fn spec_check_credentials(found: Option<UserView>, credential: Seq<char>) -> Result<
    UserView,
    UserServiceErrorView,
> {
    match found {
        None => Err(UserServiceErrorView::Unauthorized(INVALID_CREDENTIALS@)),
        Some(user) => if !user.email_verified {
            Err(UserServiceErrorView::Unauthorized(EMAIL_NOT_VERIFIED@))
        } else if user.password != credential {
            Err(UserServiceErrorView::Unauthorized(INVALID_CREDENTIALS@))
        } else {
            Ok(user)
        },
    }
}

/// The outcome of a login attempt with `password` against what the account
/// store holds under the email: the stored credential is compared with the
/// hash of the password, never with the password itself.
pub open spec fn spec_authenticate(found: Option<UserView>, password: Seq<char>) -> Result<
    UserView,
    UserServiceErrorView,
> {
    spec_check_credentials(found, spec_hash_password(password))
}

/// The outcome of presenting a token string at `now`, given what the token
/// store holds under it: the token itself where it can be redeemed. Expiry is
/// examined before use.
pub open spec fn spec_check_redeemable(found: Option<VerificationTokenView>, now: i64) -> Result<
    VerificationTokenView,
    UserServiceErrorView,
> {
    match found {
        None => Err(UserServiceErrorView::InvalidToken(INVALID_VERIFICATION_TOKEN@)),
        Some(token) => if token.is_expired(now) {
            Err(UserServiceErrorView::TokenExpired(VERIFICATION_TOKEN_EXPIRED@))
        } else if token.is_used() {
            Err(UserServiceErrorView::TokenAlreadyUsed(VERIFICATION_TOKEN_USED@))
        } else {
            Ok(token)
        },
    }
}

/// The account to which a verification email is to be sent again, given what
/// the account store holds under the email: an account that exists and is not
/// verified yet.
pub open spec fn spec_needs_verification(found: Option<UserView>) -> Option<UserView> {
    match found {
        Some(user) => if user.email_verified {
            None
        } else {
            Some(user)
        },
        None => None,
    }
}

/// The outcome of checking the shape of a creation request.
pub open spec fn spec_check_request(request: CreateUserRequestView) -> Result<
    (),
    UserServiceErrorView,
> {
    match request.broken_rule() {
        Some(code) => Err(UserServiceErrorView::ValidationError(VALIDATION_FAILED@ + code)),
        None => Ok(()),
    }
}

/// The expiry of a verification token issued at `now`, or the failure to
/// compute it.
pub open spec fn spec_token_expiry(now: i64) -> Result<i64, UserServiceErrorView> {
    match clock::spec_expiry_after(now) {
        Some(expiry) => Ok(expiry),
        None => Err(UserServiceErrorView::InternalServerError(EXPIRATION_FAILED@)),
    }
}

/// Checks the shape of a creation request.
pub fn check_request(request: &CreateUserRequest) -> (verdict: Result<(), UserServiceError>)
    ensures
        unit_result_view(verdict) == spec_check_request(request@),
{
    match request.validate() {
        Ok(_) => Ok(()),
        Err(e) => Err(
            UserServiceError::ValidationError(
                String::from_str(VALIDATION_FAILED).concat(e.code.as_str()),
            ),
        ),
    }
}

/// The expiry of a verification token issued at `now`.
pub fn token_expiry(now: i64) -> (expiry: Result<i64, UserServiceError>)
    ensures
        match expiry {
            Ok(at) => spec_token_expiry(now) == Ok::<i64, UserServiceErrorView>(at),
            Err(e) => spec_token_expiry(now) == Err::<i64, UserServiceErrorView>(e@),
        },
{
    match clock::expiry_after(now) {
        Some(expiry) => Ok(expiry),
        None => Err(UserServiceError::InternalServerError(String::from_str(EXPIRATION_FAILED))),
    }
}

/// The account that a lookup by id found, or `UserNotFound`.
pub open spec fn spec_require_user(found: Option<UserView>) -> Result<
    UserView,
    UserServiceErrorView,
> {
    match found {
        Some(user) => Ok(user),
        None => Err(UserServiceErrorView::UserNotFound(NO_SUCH_USER@)),
    }
}

/// Turns the absence of an account into `UserNotFound`.
pub fn require_user(found: Option<User>) -> (outcome: Result<User, UserServiceError>)
    ensures
        result_view(outcome) == spec_require_user(option_view(found)),
{
    match found {
        Some(user) => Ok(user),
        None => Err(UserServiceError::UserNotFound(String::from_str(NO_SUCH_USER))),
    }
}

/// Decides a login attempt from what the account store returned and the hash
/// of the password presented.
pub fn check_credentials(found: Option<User>, credential: &str) -> (outcome: Result<
    User,
    UserServiceError,
>)
    ensures
        result_view(outcome) == spec_check_credentials(option_view(found), credential@),
{
    let user = match found {
        Some(user) => user,
        None => {
            return Err(UserServiceError::Unauthorized(String::from_str(INVALID_CREDENTIALS)));
        },
    };
    if !user.email_verified {
        return Err(UserServiceError::Unauthorized(String::from_str(EMAIL_NOT_VERIFIED)));
    }
    if !str_eq(user.password.as_str(), credential) {
        return Err(UserServiceError::Unauthorized(String::from_str(INVALID_CREDENTIALS)));
    }
    Ok(user)
}

/// Decides a login attempt from what the account store returned.
pub fn authenticate(found: Option<User>, password: &str) -> (outcome: Result<
    User,
    UserServiceError,
>)
    ensures
        result_view(outcome) == spec_authenticate(option_view(found), password@),
{
    let credential = hash_password(password);
    check_credentials(found, credential.as_str())
}

/// The claims of a session issued to `user` at `now`.
pub fn session_claims(user: &User, now: i64) -> (claims: Option<Claims>)
    ensures
        option_view(claims) == spec_session_claims(user@, now),
{
    let expiry = match clock::expiry_after(now) {
        Some(expiry) => expiry,
        None => {
            return None;
        },
    };
    if expiry < 0 || expiry as u64 > usize::MAX as u64 {
        return None;
    }
    Some(Claims { sub: user.email.clone(), exp: expiry as usize, user_id: user.id })
}

/// Issues a session to `user` at `now`: a token signed under `secret` with the
/// account's public profile.
pub fn issue_session(user: &User, now: i64, secret: &[u8]) -> (outcome: Result<
    LoginResponse,
    UserServiceError,
>)
    ensures
        result_view(outcome) == spec_issue_session(user@, now, secret@),
{
    let claims = match session_claims(user, now) {
        Some(claims) => claims,
        None => {
            return Err(UserServiceError::InternalServerError(String::from_str(EXPIRATION_FAILED)));
        },
    };
    session_response(user, encode_jwt(claims, secret))
}

/// Makes the session that `user` receives of what signing its claims came
/// to.
pub fn session_response(user: &User, signed: Result<String, JwtError>) -> (outcome: Result<
    LoginResponse,
    UserServiceError,
>)
    ensures
        result_view(outcome) == spec_session_response(
            user@,
            match signed {
                Ok(token) => Some(token@),
                Err(_) => None,
            },
        ),
{
    match signed {
        Ok(token) => Ok(
            LoginResponse {
                token,
                user_id: user.id,
                email: user.email.clone(),
                display_name: user.display_name.clone(),
            },
        ),
        Err(_) => Err(
            UserServiceError::InternalServerError(String::from_str(JWT_ENCODING_FAILED)),
        ),
    }
}

/// Decides a redemption attempt at `now` from what the token store returned.
pub fn check_redeemable(found: Option<VerificationToken>, now: i64) -> (outcome: Result<
    VerificationToken,
    UserServiceError,
>)
    ensures
        result_view(outcome) == spec_check_redeemable(option_view(found), now),
{
    let token = match found {
        Some(token) => token,
        None => {
            return Err(
                UserServiceError::InvalidToken(String::from_str(INVALID_VERIFICATION_TOKEN)),
            );
        },
    };
    if token.is_expired(now) {
        return Err(UserServiceError::TokenExpired(String::from_str(VERIFICATION_TOKEN_EXPIRED)));
    }
    if token.is_used() {
        return Err(UserServiceError::TokenAlreadyUsed(String::from_str(VERIFICATION_TOKEN_USED)));
    }
    Ok(token)
}

/// Decides from what the account store returned whether a verification email
/// is to be sent again, and to which account.
pub fn needs_verification(found: Option<User>) -> (target: Option<User>)
    ensures
        option_view(target) == spec_needs_verification(option_view(found)),
{
    match found {
        Some(user) => if user.email_verified {
            None
        } else {
            Some(user)
        },
        None => None,
    }
}

/// The state of the identity service: the two stores, the notifier, and the
/// secret under which sessions are signed.
pub struct UserServiceView {
    pub users: UserRepositoryView,
    pub tokens: TokenRepositoryView,
    pub email: EmailServiceView,
    pub jwt_secret: Seq<u8>,
}

impl UserServiceView {
    /// Both stores are well-formed.
    pub open spec fn wf(self) -> bool {
        self.users.wf() && self.tokens.wf()
    }

    /// This state with a verification email for `token` queued to `recipient`.
    pub open spec fn notified(self, recipient: Seq<char>, token: Seq<char>) -> UserServiceView {
        UserServiceView {
            email: EmailServiceView {
                outbox: self.email.outbox.push(
                    spec_verification_email(recipient, self.email.frontend_url, token),
                ),
                ..self.email
            },
            ..self
        }
    }

    /// Account creation at `now` with `token` as the fresh token string: the
    /// state after, and the outcome. A request that breaks a rule is a
    /// `ValidationError`; a refusal of either store is internal. On every
    /// failure the state stays as it is. On success the account and one token
    /// for it are stored together and the token is mailed to the account.
    pub open spec fn create_user(self, request: CreateUserRequestView, now: i64, token: Seq<char>)
        -> (UserServiceView, Result<UserView, UserServiceErrorView>) {
        if spec_check_request(request) is Err {
            (self, Err(spec_check_request(request)->Err_0))
        } else if spec_token_expiry(now) is Err {
            (self, Err(spec_token_expiry(now)->Err_0))
        } else if self.users.rejection(request.email) is Some {
            (self, Err(spec_from_repository(self.users.rejection(request.email)->0)))
        } else if self.tokens.rejection(token) is Some {
            (self, Err(spec_from_repository(self.tokens.rejection(token)->0)))
        } else {
            let user = self.users.new_account(
                request.email,
                request.display_name,
                request.password,
                now,
            );
            let issued = self.tokens.new_token(
                user.id,
                token,
                EMAIL_VERIFICATION@,
                spec_token_expiry(now)->Ok_0,
                now,
            );
            (
                UserServiceView {
                    users: self.users.with_account(user),
                    tokens: self.tokens.with_token(issued),
                    ..self
                }.notified(user.email, token),
                Ok(user),
            )
        }
    }

    /// Login at `now`: a read of the account store, then the decision, then
    /// the session.
    pub open spec fn login(self, request: LoginRequestView, now: i64) -> Result<
        LoginResponseView,
        UserServiceErrorView,
    > {
        match spec_authenticate(self.users.by_email(request.email), request.password) {
            Err(e) => Err(e),
            Ok(user) => spec_issue_session(user, now, self.jwt_secret),
        }
    }

    /// Sending a verification email to the account `user_id` at `now` with
    /// `token` as the fresh token string. The token is stored first, whatever
    /// tokens the account has; only then is the account looked up, and where
    /// there is none the outcome is `UserNotFound` with the token left stored.
    pub open spec fn send_verification_email(self, user_id: i32, now: i64, token: Seq<char>) -> (
        UserServiceView,
        Result<(), UserServiceErrorView>,
    ) {
        if spec_token_expiry(now) is Err {
            (self, Err(spec_token_expiry(now)->Err_0))
        } else if self.tokens.rejection(token) is Some {
            (self, Err(spec_from_repository(self.tokens.rejection(token)->0)))
        } else {
            let issued = self.tokens.new_token(
                user_id,
                token,
                EMAIL_VERIFICATION@,
                spec_token_expiry(now)->Ok_0,
                now,
            );
            let stored = UserServiceView { tokens: self.tokens.with_token(issued), ..self };
            match self.users.by_id(user_id) {
                None => (stored, Err(UserServiceErrorView::UserNotFound(NO_SUCH_USER@))),
                Some(user) => (stored.notified(user.email, token), Ok(())),
            }
        }
    }

    /// Sending a verification email again to whoever registered `email`:
    /// nothing happens, and nothing is said, where nobody did or the account is
    /// verified already.
    pub open spec fn send_verification_email_by_email(
        self,
        email: Seq<char>,
        now: i64,
        token: Seq<char>,
    ) -> (UserServiceView, Result<(), UserServiceErrorView>) {
        match spec_needs_verification(self.users.by_email(email)) {
            Some(user) => self.send_verification_email(user.id, now, token),
            None => (self, Ok(())),
        }
    }

    /// Whether presenting `token` at `now` redeems it: the token is stored,
    /// not expired, not used, and its account exists.
    pub open spec fn redeems(self, token: Seq<char>, now: i64) -> bool {
        &&& spec_check_redeemable(self.tokens.by_value(token), now) is Ok
        &&& self.users.by_id(self.tokens.by_value(token)->0.user_id) is Some
    }

    /// The state after `token` was redeemed at `now`: its account is verified
    /// and the token is marked as used, both or neither.
    pub open spec fn redeemed(self, token: Seq<char>, now: i64) -> UserServiceView {
        if self.redeems(token, now) {
            UserServiceView {
                users: self.users.with_verified(self.tokens.by_value(token)->0.user_id),
                tokens: self.tokens.with_used(self.tokens.by_value(token)->0.id, now),
                ..self
            }
        } else {
            self
        }
    }

    /// Redemption of `token` at `now`: the state after, and the outcome. The
    /// session is issued after the two writes, so a failure to issue it leaves
    /// the token redeemed.
    pub open spec fn verify_email(self, token: Seq<char>, now: i64) -> (
        UserServiceView,
        Result<LoginResponseView, UserServiceErrorView>,
    ) {
        match spec_check_redeemable(self.tokens.by_value(token), now) {
            Err(e) => (self, Err(e)),
            Ok(found) => match self.users.by_id(found.user_id) {
                None => (self, Err(UserServiceErrorView::UserNotFound(NO_SUCH_USER@))),
                Some(user) => (
                    self.redeemed(token, now),
                    spec_issue_session(user.verified(), now, self.jwt_secret),
                ),
            },
        }
    }

    /// The account `user_id`, or `UserNotFound`.
    pub open spec fn get_user_by_id(self, user_id: i32) -> Result<UserView, UserServiceErrorView> {
        spec_require_user(self.users.by_id(user_id))
    }
}

/// The identity service. It alone writes to the two stores.
pub struct UserServiceImpl {
    user_repository: UserRepository,
    verification_token_repository: VerificationTokenRepository,
    email_service: EmailService,
    jwt_secret: Vec<u8>,
}

impl View for UserServiceImpl {
    type V = UserServiceView;

    closed spec fn view(&self) -> UserServiceView {
        UserServiceView {
            users: self.user_repository@,
            tokens: self.verification_token_repository@,
            email: self.email_service@,
            jwt_secret: self.jwt_secret@,
        }
    }
}

impl UserServiceImpl {
    /// A service over the given stores and notifier that signs sessions under
    /// `jwt_secret`.
    pub fn new(
        user_repository: UserRepository,
        verification_token_repository: VerificationTokenRepository,
        email_service: EmailService,
        jwt_secret: Vec<u8>,
    ) -> (service: Self)
        ensures
            service@ == (UserServiceView {
                users: user_repository@,
                tokens: verification_token_repository@,
                email: email_service@,
                jwt_secret: jwt_secret@,
            }),
    {
        UserServiceImpl {
            user_repository,
            verification_token_repository,
            email_service,
            jwt_secret,
        }
    }

    /// The account store, for reading.
    pub fn user_repository(&self) -> (store: &UserRepository)
        ensures
            store@ == self@.users,
            store@.wf(),
    {
        proof {
            use_type_invariant(&self.user_repository);
        }
        &self.user_repository
    }

    /// The token store, for reading.
    pub fn verification_token_repository(&self) -> (store: &VerificationTokenRepository)
        ensures
            store@ == self@.tokens,
            store@.wf(),
    {
        proof {
            use_type_invariant(&self.verification_token_repository);
        }
        &self.verification_token_repository
    }

    /// Hands over the messages queued for delivery, oldest first, and empties
    /// the queue.
    pub fn take_outbox(&mut self) -> (messages: Vec<EmailMessage>)
        ensures
            messages@.map_values(|m: EmailMessage| m@) == old(self)@.email.outbox,
            final(self)@ == (UserServiceView {
                email: EmailServiceView { outbox: Seq::empty(), ..old(self)@.email },
                ..old(self)@
            }),
    {
        self.email_service.take_outbox()
    }

    fn send_verification_email_to_user(&mut self, user: &User, verification_token: &str)
        ensures
            final(self)@ == old(self)@.notified(user@.email, verification_token@),
    {
        let message = EmailService::verification_email(
            user.email.as_str(),
            self.email_service.frontend_url(),
            verification_token,
        );
        self.email_service.send_email(&message);
    }

    /// Creates an account at `now`, with `token` as the string of its
    /// verification token.
    pub fn create_user_with(&mut self, req: CreateUserRequest, now: i64, token: String) -> (created:
        Result<User, UserServiceError>)
        ensures
            final(self)@ == old(self)@.create_user(req@, now, token@).0,
            result_view(created) == old(self)@.create_user(req@, now, token@).1,
            final(self)@.wf(),
    {
        proof {
            use_type_invariant(&self.user_repository);
            use_type_invariant(&self.verification_token_repository);
        }
        if let Err(e) = check_request(&req) {
            return Err(e);
        }
        let expires_at = match token_expiry(now) {
            Ok(expires_at) => expires_at,
            Err(e) => {
                return Err(e);
            },
        };
        if let Err(e) = self.user_repository.check_can_create(req.email.as_str()) {
            return Err(UserServiceError::from_repository(e));
        }
        if let Err(e) = self.verification_token_repository.check_can_insert(token.as_str()) {
            return Err(UserServiceError::from_repository(e));
        }
        let ghost value = token@;
        let user = match self.user_repository.create(
            req.email.as_str(),
            req.display_name.as_str(),
            req.password.as_str(),
            now,
        ) {
            Ok(user) => user,
            Err(e) => {
                return Err(UserServiceError::from_repository(e));
            },
        };
        match self.verification_token_repository.insert(
            user.id,
            token,
            EMAIL_VERIFICATION,
            expires_at,
            now,
        ) {
            Ok(issued) => {
                self.send_verification_email_to_user(&user, issued.token.as_str());
                Ok(user)
            },
            Err(e) => Err(UserServiceError::from_repository(e)),
        }
    }

    /// Creates an account now, under a freshly drawn token string. Whatever
    /// the clock read and whatever string was drawn, the outcome is that of
    /// `create_user_with` with them.
    pub fn create_user(&mut self, req: CreateUserRequest) -> (created: Result<
        User,
        UserServiceError,
    >)
        ensures
            exists|now: i64, token: Seq<char>|
                {
                    &&& final(self)@ == (#[trigger] old(self)@.create_user(req@, now, token)).0
                    &&& result_view(created) == old(self)@.create_user(req@, now, token).1
                },
            final(self)@.wf(),
    {
        let now = clock::now();
        let token = random_token();
        self.create_user_with(req, now, token)
    }

    /// Logs in at `now`.
    pub fn login_at(&self, req: LoginRequest, now: i64) -> (outcome: Result<
        LoginResponse,
        UserServiceError,
    >)
        ensures
            result_view(outcome) == self@.login(req@, now),
    {
        let found = match self.user_repository.find_by_email(req.email.as_str()) {
            Ok(found) => found,
            Err(e) => {
                return Err(UserServiceError::from_repository(e));
            },
        };
        let user = match authenticate(found, req.password.as_str()) {
            Ok(user) => user,
            Err(e) => {
                return Err(e);
            },
        };
        issue_session(&user, now, self.jwt_secret.as_slice())
    }

    /// Logs in now. Whatever the clock read, the outcome is that of `login_at`
    /// with it.
    pub fn login(&self, req: LoginRequest) -> (outcome: Result<LoginResponse, UserServiceError>)
        ensures
            exists|now: i64| result_view(outcome) == #[trigger] self@.login(req@, now),
    {
        let now = clock::now();
        self.login_at(req, now)
    }

    /// Sends a verification email to the account `user_id` at `now`, with
    /// `token` as the string of the new token.
    pub fn send_verification_email_with(&mut self, user_id: i32, now: i64, token: String) -> (sent:
        Result<(), UserServiceError>)
        ensures
            final(self)@ == old(self)@.send_verification_email(user_id, now, token@).0,
            unit_result_view(sent) == old(self)@.send_verification_email(user_id, now, token@).1,
            final(self)@.wf(),
    {
        proof {
            use_type_invariant(&self.user_repository);
            use_type_invariant(&self.verification_token_repository);
        }
        let expires_at = match token_expiry(now) {
            Ok(expires_at) => expires_at,
            Err(e) => {
                return Err(e);
            },
        };
        let issued = match self.verification_token_repository.insert(
            user_id,
            token,
            EMAIL_VERIFICATION,
            expires_at,
            now,
        ) {
            Ok(issued) => issued,
            Err(e) => {
                return Err(UserServiceError::from_repository(e));
            },
        };
        let found = match self.user_repository.find_by_id(user_id) {
            Ok(found) => found,
            Err(e) => {
                return Err(UserServiceError::from_repository(e));
            },
        };
        match found {
            Some(user) => {
                self.send_verification_email_to_user(&user, issued.token.as_str());
                Ok(())
            },
            None => Err(UserServiceError::UserNotFound(String::from_str(NO_SUCH_USER))),
        }
    }

    /// Sends a verification email to the account `user_id` now, under a
    /// freshly drawn token string.
    pub fn send_verification_email(&mut self, user_id: i32) -> (sent: Result<(), UserServiceError>)
        ensures
            exists|now: i64, token: Seq<char>|
                {
                    &&& final(self)@ == (#[trigger] old(self)@.send_verification_email(
                        user_id,
                        now,
                        token,
                    )).0
                    &&& unit_result_view(sent) == old(self)@.send_verification_email(
                        user_id,
                        now,
                        token,
                    ).1
                },
            final(self)@.wf(),
    {
        let now = clock::now();
        let token = random_token();
        self.send_verification_email_with(user_id, now, token)
    }

    /// Sends a verification email again to whoever registered `email`, at
    /// `now` and with `token` as the string of the new token.
    pub fn send_verification_email_by_email_with(&mut self, email: String, now: i64, token: String)
        -> (sent: Result<(), UserServiceError>)
        ensures
            final(self)@ == old(self)@.send_verification_email_by_email(email@, now, token@).0,
            unit_result_view(sent) == old(self)@.send_verification_email_by_email(
                email@,
                now,
                token@,
            ).1,
            final(self)@.wf(),
    {
        proof {
            use_type_invariant(&self.user_repository);
            use_type_invariant(&self.verification_token_repository);
        }
        let found = match self.user_repository.find_by_email(email.as_str()) {
            Ok(found) => found,
            Err(e) => {
                return Err(UserServiceError::from_repository(e));
            },
        };
        match needs_verification(found) {
            Some(user) => self.send_verification_email_with(user.id, now, token),
            None => Ok(()),
        }
    }

    /// Sends a verification email again to whoever registered `email`, now and
    /// under a freshly drawn token string.
    pub fn send_verification_email_by_email(&mut self, email: String) -> (sent: Result<
        (),
        UserServiceError,
    >)
        ensures
            exists|now: i64, token: Seq<char>|
                {
                    &&& final(self)@ == (#[trigger] old(self)@.send_verification_email_by_email(
                        email@,
                        now,
                        token,
                    )).0
                    &&& unit_result_view(sent) == old(self)@.send_verification_email_by_email(
                        email@,
                        now,
                        token,
                    ).1
                },
            final(self)@.wf(),
    {
        let now = clock::now();
        let token = random_token();
        self.send_verification_email_by_email_with(email, now, token)
    }

    /// Redeems `token` at `now`.
    pub fn verify_email_at(&mut self, token: String, now: i64) -> (outcome: Result<
        VerifyEmailResponse,
        UserServiceError,
    >)
        ensures
            final(self)@ == old(self)@.verify_email(token@, now).0,
            result_view(outcome) == old(self)@.verify_email(token@, now).1,
            final(self)@.wf(),
    {
        proof {
            use_type_invariant(&self.user_repository);
        }
        let found = match self.verification_token_repository.find_token_by_value_for_update(
            token.as_str(),
        ) {
            Ok(found) => found,
            Err(e) => {
                return Err(UserServiceError::from_repository(e));
            },
        };
        let verification_token = match check_redeemable(found, now) {
            Ok(verification_token) => verification_token,
            Err(e) => {
                return Err(e);
            },
        };
        let user = match self.user_repository.mark_verified(verification_token.user_id) {
            Ok(user) => user,
            Err(e) => {
                return Err(UserServiceError::from_repository(e));
            },
        };
        proof {
            let tokens = old(self)@.tokens;
            tokens.lemma_id_position(verification_token.id, tokens.index_of_value(token@));
        }
        if let Err(e) = self.verification_token_repository.mark_token_as_used(
            verification_token.id,
            now,
        ) {
            return Err(UserServiceError::from_repository(e));
        }
        match issue_session(&user, now, self.jwt_secret.as_slice()) {
            Ok(session) => Ok(
                VerifyEmailResponse {
                    token: session.token,
                    user_id: session.user_id,
                    email: session.email,
                    display_name: session.display_name,
                },
            ),
            Err(e) => Err(e),
        }
    }

    /// Redeems `token` now. Whatever the clock read, the outcome is that of
    /// `verify_email_at` with it.
    pub fn verify_email(&mut self, token: String) -> (outcome: Result<
        VerifyEmailResponse,
        UserServiceError,
    >)
        ensures
            exists|now: i64|
                {
                    &&& final(self)@ == (#[trigger] old(self)@.verify_email(token@, now)).0
                    &&& result_view(outcome) == old(self)@.verify_email(token@, now).1
                },
            final(self)@.wf(),
    {
        let now = clock::now();
        self.verify_email_at(token, now)
    }

    /// The account `user_id`. A pure read.
    pub fn get_user_by_id(&self, user_id: i32) -> (found: Result<User, UserServiceError>)
        ensures
            result_view(found) == self@.get_user_by_id(user_id),
    {
        let found = match self.user_repository.find_by_id(user_id) {
            Ok(found) => found,
            Err(e) => {
                return Err(UserServiceError::from_repository(e));
            },
        };
        require_user(found)
    }
}

} // verus!
