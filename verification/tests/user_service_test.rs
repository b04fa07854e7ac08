use koko_pic_api::domains::user::model::{
    CreateUserRequest, LoginRequest, User, EMAIL_VERIFICATION,
};
use koko_pic_api::domains::user::repository::{UserRepository, VerificationTokenRepository};
use koko_pic_api::domains::user::service::{
    authenticate, check_credentials, check_redeemable, check_request, issue_session,
    needs_verification, require_user, session_claims, session_response, token_expiry,
    UserServiceError, UserServiceImpl,
};
use koko_pic_api::email::{EmailService, SmtpConfig};
use koko_pic_api::utils::error::AppError;
use koko_pic_api::utils::hash_password;
use koko_pic_api::utils::jwt::{decode_jwt_at, JwtError};

const SECRET: &[u8] = b"test-secret";
const DAY: i64 = 86400;
const T0: i64 = 1_700_000_000;

fn create_test_email_service() -> EmailService {
    let smtp_config = SmtpConfig {
        host: "localhost".to_string(),
        port: 1025,
        username: "test".to_string(),
        password: "test".to_string(),
        from_email: "noreply@test.com".to_string(),
    };
    EmailService::new(smtp_config)
}

fn service_over(users: UserRepository, tokens: VerificationTokenRepository) -> UserServiceImpl {
    UserServiceImpl::new(users, tokens, create_test_email_service(), SECRET.to_vec())
}

fn new_service() -> UserServiceImpl {
    service_over(UserRepository::new(), VerificationTokenRepository::new())
}

fn create_request(email: &str, display_name: &str, password: &str) -> CreateUserRequest {
    CreateUserRequest {
        email: email.to_string(),
        display_name: display_name.to_string(),
        password: password.to_string(),
    }
}

fn login_request(email: &str, password: &str) -> LoginRequest {
    LoginRequest { email: email.to_string(), password: password.to_string() }
}

fn unix_now() -> i64 {
    std::time::SystemTime::now()
        .duration_since(std::time::UNIX_EPOCH)
        .expect("the clock is past the epoch")
        .as_secs() as i64
}

fn account(service: &UserServiceImpl, id: i32) -> User {
    service.user_repository().find_by_id(id).unwrap().unwrap()
}

/// The token string that the latest queued email carries.
fn mailed_token(service: &mut UserServiceImpl) -> String {
    let messages = service.take_outbox();
    let body = &messages.last().expect("an email was queued").body;
    let marker = "/verify-email/";
    let start = body.find(marker).expect("the body holds a link") + marker.len();
    let rest = &body[start..];
    let end = rest.find('\n').expect("text follows the link");
    rest[..end].to_string()
}

#[test]
fn test_create_user_with_verification() {
    let mut service = new_service();

    let req = create_request("test@example.com", "Test User", "password123");

    let user = service.create_user(req).unwrap();

    assert_eq!(user.email, "test@example.com");
    assert!(!user.email_verified);
}

#[test]
fn test_verify_email() {
    let mut users = UserRepository::new();
    let mut tokens = VerificationTokenRepository::new();
    let now = unix_now();
    let user = users.create("verify@example.com", "Verify Test", "password123", now).unwrap();
    assert!(!user.email_verified);

    let verification_token =
        tokens.create_verification_token(user.id, "email_verification", now + DAY, now).unwrap();

    let mut service = service_over(users, tokens);

    let verify_response = service.verify_email(verification_token.token).unwrap();

    assert_eq!(verify_response.user_id, user.id);
    assert_eq!(verify_response.email, user.email);
    assert_eq!(verify_response.display_name, user.display_name);
    assert!(!verify_response.token.is_empty());

    let updated_user = account(&service, user.id);
    assert!(updated_user.email_verified);
}

#[test]
fn test_login_fails_for_unverified_email() {
    let mut users = UserRepository::new();
    let user = users.create("unverified@example.com", "Unverified User", "password123", T0).unwrap();
    assert!(!user.email_verified);

    let service = service_over(users, VerificationTokenRepository::new());

    let login_req = login_request("unverified@example.com", "password123");

    let result = service.login(login_req);
    assert!(matches!(result, Err(UserServiceError::Unauthorized(_))));
}

#[test]
fn test_create_user_success() {
    let mut service = new_service();
    let req = create_request("test@example.com", "Test User", "password123");

    let result = service.create_user(req);
    assert!(result.is_ok());
    let user = result.unwrap();
    assert_eq!(user.email, "test@example.com");
    assert_eq!(user.display_name, "Test User");
}

#[test]
fn tests_test_login_success() {
    let mut users = UserRepository::new();
    let user = users.create("test@example.com", "Test User", "password123", T0).unwrap();
    users.mark_verified(user.id).unwrap();
    let service = service_over(users, VerificationTokenRepository::new());
    let req = login_request("test@example.com", "password123");

    let result = service.login(req);
    assert!(result.is_ok());
    let response = result.unwrap();
    assert_eq!(response.email, "test@example.com");
    assert_eq!(response.display_name, "Test User");
}

#[test]
fn test_login_invalid_credentials() {
    let service = new_service();
    let req = login_request("nonexistent@example.com", "wrongpassword");

    let result = service.login(req);
    assert!(result.is_err());
    match result.err().unwrap() {
        UserServiceError::Unauthorized(_) => (),
        _ => panic!("Expected Unauthorized error"),
    }
}

#[test]
fn test_login_wrong_password() {
    let mut users = UserRepository::new();
    let user = users.create("test@example.com", "Test User", "correctpassword", T0).unwrap();
    users.mark_verified(user.id).unwrap();
    let service = service_over(users, VerificationTokenRepository::new());
    let req = login_request("test@example.com", "wrongpassword");

    let result = service.login(req);
    assert!(result.is_err());
    match result.err().unwrap() {
        UserServiceError::Unauthorized(_) => (),
        _ => panic!("Expected Unauthorized error"),
    }
}

#[test]
fn test_create_user() {
    let mut service = new_service();

    let email = "create-user-test@example.com".to_string();

    let payload = create_request(&email, "Test User", "securepassword123");

    let result = service.create_user(payload);
    assert!(result.is_ok());

    let user = result.unwrap();
    assert!(user.id > 0);
    assert_eq!(user.email, email);
    assert_eq!(user.display_name, "Test User");
}

#[test]
fn test_create_user_duplicate_email() {
    let mut service = new_service();

    let email = "duplicate-test@example.com".to_string();

    let payload1 = create_request(&email, "First User", "password1");

    let result1 = service.create_user(payload1);
    assert!(result1.is_ok());

    let payload2 = create_request(&email, "Second User", "password2");

    let result2 = service.create_user(payload2);
    assert!(matches!(result2, Err(UserServiceError::InternalServerError(_))));
    assert_eq!(AppError::from_user_service_error(result2.unwrap_err()).status_code, 500);
}

#[test]
fn users_api_test_test_login_success() {
    let mut users = UserRepository::new();

    let email = "login-success@example.com".to_string();
    let password = "securepassword123".to_string();

    let user = users.create(&email, "Login Test User", &password, T0).unwrap();
    users.mark_verified(user.id).unwrap();
    let service = service_over(users, VerificationTokenRepository::new());

    let payload = LoginRequest { email: email.clone(), password };

    let result = service.login(payload);
    assert!(result.is_ok());

    let response = result.unwrap();
    assert!(!response.token.is_empty());
    assert_eq!(response.email, email);
    assert_eq!(response.display_name, "Login Test User");
}

#[test]
fn test_login_invalid_password() {
    let mut users = UserRepository::new();

    let email = "login-invalid-pw@example.com".to_string();

    let user = users.create(&email, "Test User", "correctpassword", T0).unwrap();
    users.mark_verified(user.id).unwrap();
    let service = service_over(users, VerificationTokenRepository::new());

    let payload = LoginRequest { email, password: "wrongpassword".to_string() };

    let result = service.login(payload);
    assert_eq!(AppError::from_user_service_error(result.unwrap_err()).status_code, 401);
}

#[test]
fn test_login_user_not_found() {
    let service = new_service();

    let payload = login_request("nonexistent@example.com", "anypassword");

    let result = service.login(payload);
    assert_eq!(AppError::from_user_service_error(result.unwrap_err()).status_code, 401);
}

#[test]
fn scenario_creation_then_verification() {
    let mut service = new_service();
    let user = service
        .create_user_with(
            create_request("a@example.com", "A", "password123"),
            T0,
            "token-a".to_string(),
        )
        .unwrap();
    assert_eq!(user.id, 1);
    assert!(!user.email_verified);
    assert_eq!(mailed_token(&mut service), "token-a");

    let session = service.verify_email_at("token-a".to_string(), T0 + 10).unwrap();
    assert_eq!(session.user_id, 1);
    assert_eq!(session.email, "a@example.com");
    assert_eq!(session.display_name, "A");
    assert!(!session.token.is_empty());
    assert!(account(&service, 1).email_verified);

    let again = service.verify_email_at("token-a".to_string(), T0 + 20);
    assert!(matches!(again, Err(UserServiceError::TokenAlreadyUsed(_))));
    assert!(account(&service, 1).email_verified);
}

#[test]
fn scenario_creation_then_verification_with_drawn_token() {
    let mut service = new_service();
    let user = service.create_user(create_request("a@example.com", "A", "password123")).unwrap();
    let token = mailed_token(&mut service);
    assert_eq!(token.len(), 36);
    let stored = service
        .verification_token_repository()
        .find_token_by_value(&token)
        .unwrap()
        .expect("the mailed token is stored");
    let now = unix_now();
    assert!(now - 5 <= stored.created_at.unwrap() && stored.created_at.unwrap() <= now);
    assert_eq!(stored.user_id, user.id);
    assert_eq!(stored.token_type, EMAIL_VERIFICATION);
    assert!(stored.used_at.is_none());
    assert_eq!(stored.expires_at, stored.created_at.unwrap() + DAY);

    let session = service.verify_email(token.clone()).unwrap();
    assert_eq!(session.user_id, user.id);
    assert!(account(&service, user.id).email_verified);
    let again = service.verify_email(token);
    assert!(matches!(again, Err(UserServiceError::TokenAlreadyUsed(_))));
}

#[test]
fn scenario_login_gating() {
    let mut service = new_service();
    let user = service
        .create_user_with(
            create_request("gate@example.com", "Gate", "password123"),
            T0,
            "token-gate".to_string(),
        )
        .unwrap();

    let before = service.login_at(login_request("gate@example.com", "password123"), T0 + 1);
    match before {
        Err(UserServiceError::Unauthorized(message)) => assert_eq!(message, "Email not verified"),
        other => panic!("expected Unauthorized, got {:?}", other),
    }

    service.verify_email_at("token-gate".to_string(), T0 + 2).unwrap();

    let after = service.login_at(login_request("gate@example.com", "password123"), T0 + 3).unwrap();
    assert_eq!(after.user_id, user.id);
    assert_eq!(after.email, "gate@example.com");
    assert_eq!(after.display_name, "Gate");
    let claims = decode_jwt_at(&after.token, SECRET, T0 + 3).unwrap();
    assert_eq!(claims.sub, "gate@example.com");
    assert_eq!(claims.user_id, user.id);
    assert_eq!(claims.exp as i64, T0 + 3 + DAY);
}

#[test]
fn scenario_wrong_password() {
    let mut service = new_service();
    service
        .create_user_with(
            create_request("pw@example.com", "Pw", "password123"),
            T0,
            "token-pw".to_string(),
        )
        .unwrap();
    service.verify_email_at("token-pw".to_string(), T0 + 1).unwrap();
    let before = format!("{:?}", account(&service, 1));

    let result = service.login_at(login_request("pw@example.com", "password124"), T0 + 2);
    match result {
        Err(UserServiceError::Unauthorized(message)) => assert_eq!(message, "Invalid credentials"),
        other => panic!("expected Unauthorized, got {:?}", other),
    }
    assert_eq!(format!("{:?}", account(&service, 1)), before);
}

#[test]
fn scenario_expired_token() {
    let mut users = UserRepository::new();
    let mut tokens = VerificationTokenRepository::new();
    let user = users.create("late@example.com", "Late", "password123", T0).unwrap();
    tokens
        .insert(user.id, "token-late".to_string(), EMAIL_VERIFICATION, T0 - 1, T0 - DAY - 1)
        .unwrap();
    let mut service = service_over(users, tokens);

    let result = service.verify_email_at("token-late".to_string(), T0);
    match result {
        Err(UserServiceError::TokenExpired(message)) => {
            assert_eq!(message, "Verification token has expired")
        },
        other => panic!("expected TokenExpired, got {:?}", other),
    }
    assert!(!account(&service, user.id).email_verified);
    let stored =
        service.verification_token_repository().find_token_by_value("token-late").unwrap().unwrap();
    assert!(stored.used_at.is_none());
}

#[test]
fn token_expiry_boundary() {
    let mut service = new_service();
    service
        .create_user_with(
            create_request("edge@example.com", "Edge", "password123"),
            T0,
            "token-edge".to_string(),
        )
        .unwrap();
    // One second past the expiry the token is gone.
    let late = service.verify_email_at("token-edge".to_string(), T0 + DAY + 1);
    assert!(matches!(late, Err(UserServiceError::TokenExpired(_))));
    // At the very instant of expiry it can still be redeemed.
    let on_time = service.verify_email_at("token-edge".to_string(), T0 + DAY);
    assert!(on_time.is_ok());
}

#[test]
fn expired_and_used_token_reports_expiry() {
    let mut service = new_service();
    service
        .create_user_with(
            create_request("both@example.com", "Both", "password123"),
            T0,
            "token-both".to_string(),
        )
        .unwrap();
    service.verify_email_at("token-both".to_string(), T0 + 1).unwrap();
    let late = service.verify_email_at("token-both".to_string(), T0 + DAY + 1);
    assert!(matches!(late, Err(UserServiceError::TokenExpired(_))));
}

#[test]
fn create_user_issues_exactly_one_redeemable_token() {
    let mut service = new_service();
    service
        .create_user_with(
            create_request("first@example.com", "First", "password123"),
            T0,
            "token-1".to_string(),
        )
        .unwrap();
    let user = service
        .create_user_with(
            create_request("second@example.com", "Second", "password456"),
            T0 + 5,
            "token-2".to_string(),
        )
        .unwrap();
    assert_eq!(user.id, 2);
    assert_eq!(user.password, hash_password("password456"));
    assert_eq!(user.created_at, Some(T0 + 5));

    let tokens = service.verification_token_repository();
    let issued = tokens.find_token_by_value("token-2").unwrap().unwrap();
    assert_eq!(issued.id, 2);
    assert_eq!(issued.user_id, 2);
    assert_eq!(issued.token_type, "email_verification");
    assert_eq!(issued.expires_at, T0 + 5 + DAY);
    assert_eq!(issued.used_at, None);
    assert_eq!(issued.created_at, Some(T0 + 5));
    assert!(issued.is_redeemable(T0 + 5));
    // The other account's token is not this account's.
    assert_eq!(tokens.find_token_by_value("token-1").unwrap().unwrap().user_id, 1);

    // The email goes to the new account and carries the token.
    let messages = service.take_outbox();
    assert_eq!(messages.len(), 2);
    assert_eq!(messages[1].to, vec!["second@example.com".to_string()]);
    assert_eq!(messages[1].subject, "メールアドレスを確認してください");
    assert_eq!(
        messages[1].body,
        "こんにちは、\n\n以下のリンクをクリックしてメールアドレスを確認してください:\n\nhttp://localhost:1420/verify-email/token-2\n\nこのリンクは24時間有効です。\n\nよろしくお願いします。"
    );
    assert!(service.take_outbox().is_empty());
}

#[test]
fn create_user_rejects_invalid_requests() {
    let mut service = new_service();
    let cases = vec![
        (create_request("invalid-email", "Test User", "password123"), "メールアドレスが無効です"),
        (create_request("a@example.com", "", "password123"), "表示名が必要です"),
        (
            create_request("a@example.com", "A", "pass123"),
            "パスワードは8文字以上である必要があります",
        ),
        (
            create_request("a@example.com", "A", "12345678"),
            "パスワードには英字を含める必要があります",
        ),
        (
            create_request("a@example.com", "A", "abcdefgh"),
            "パスワードには数字を含める必要があります",
        ),
    ];
    for (request, reason) in cases {
        match service.create_user_with(request, T0, "token".to_string()) {
            Err(UserServiceError::ValidationError(message)) => {
                assert_eq!(message, format!("Validation failed: {}", reason))
            },
            other => panic!("expected ValidationError, got {:?}", other),
        }
    }
    assert!(service.user_repository().find_by_email("a@example.com").unwrap().is_none());
    assert!(service.verification_token_repository().find_token_by_value("token").unwrap().is_none());
    assert!(service.take_outbox().is_empty());
}

#[test]
fn create_user_counts_characters_not_bytes() {
    let mut service = new_service();
    // Seven characters, though more than eight bytes.
    let short = service.create_user_with(
        create_request("a@example.com", "A", "パスワードa1"),
        T0,
        "token".to_string(),
    );
    assert!(matches!(short, Err(UserServiceError::ValidationError(_))));
    // Eight characters.
    let long = service.create_user_with(
        create_request("a@example.com", "A", "パスワードab1"),
        T0,
        "token".to_string(),
    );
    assert!(long.is_ok());
}

#[test]
fn create_user_is_all_or_nothing() {
    let mut service = new_service();
    service
        .create_user_with(
            create_request("one@example.com", "One", "password123"),
            T0,
            "token-1".to_string(),
        )
        .unwrap();
    service.take_outbox();

    // The token string is taken: neither the account nor a token is stored.
    let clash = service.create_user_with(
        create_request("two@example.com", "Two", "password123"),
        T0,
        "token-1".to_string(),
    );
    match clash {
        Err(UserServiceError::InternalServerError(message)) => {
            assert_eq!(message, "token is already stored")
        },
        other => panic!("expected InternalServerError, got {:?}", other),
    }
    assert!(service.user_repository().find_by_email("two@example.com").unwrap().is_none());
    assert!(service.user_repository().find_by_id(2).unwrap().is_none());

    // The email is taken: no second token is stored.
    let duplicate = service.create_user_with(
        create_request("one@example.com", "Again", "password123"),
        T0,
        "token-2".to_string(),
    );
    match duplicate {
        Err(UserServiceError::InternalServerError(message)) => {
            assert_eq!(message, "email is already registered")
        },
        other => panic!("expected InternalServerError, got {:?}", other),
    }
    assert!(service.verification_token_repository().find_token_by_value("token-2").unwrap().is_none());

    // The expiry cannot be computed.
    let overflow = service.create_user_with(
        create_request("three@example.com", "Three", "password123"),
        i64::MAX,
        "token-3".to_string(),
    );
    match overflow {
        Err(UserServiceError::InternalServerError(message)) => {
            assert_eq!(message, "Failed to calculate expiration time")
        },
        other => panic!("expected InternalServerError, got {:?}", other),
    }
    assert!(service.user_repository().find_by_email("three@example.com").unwrap().is_none());
    assert!(service.take_outbox().is_empty());

    // The next account still gets the next id.
    let next = service
        .create_user_with(
            create_request("two@example.com", "Two", "password123"),
            T0,
            "token-2".to_string(),
        )
        .unwrap();
    assert_eq!(next.id, 2);
}

#[test]
fn login_never_succeeds_for_an_unverified_account() {
    let mut service = new_service();
    service
        .create_user_with(
            create_request("u@example.com", "U", "password123"),
            T0,
            "token-u".to_string(),
        )
        .unwrap();
    for password in ["password123", "wrong", ""] {
        let result = service.login_at(login_request("u@example.com", password), T0);
        assert!(matches!(result, Err(UserServiceError::Unauthorized(_))));
    }
}

#[test]
fn login_fails_where_the_expiry_cannot_be_written() {
    let mut users = UserRepository::new();
    let user = users.create("x@example.com", "X", "password123", T0).unwrap();
    users.mark_verified(user.id).unwrap();
    let service = service_over(users, VerificationTokenRepository::new());
    for now in [i64::MAX, i64::MAX - DAY + 1, -DAY - 1, i64::MIN] {
        match service.login_at(login_request("x@example.com", "password123"), now) {
            Err(UserServiceError::InternalServerError(message)) => {
                assert_eq!(message, "Failed to calculate expiration time")
            },
            other => panic!("expected InternalServerError, got {:?}", other),
        }
    }
    // The earliest instant at which a session can be issued.
    let earliest = service.login_at(login_request("x@example.com", "password123"), -DAY).unwrap();
    assert_eq!(decode_jwt_at(&earliest.token, SECRET, -DAY).unwrap().exp, 0);
}

#[test]
fn login_is_case_sensitive_on_the_email() {
    let mut users = UserRepository::new();
    let user = users.create("Case@example.com", "C", "password123", T0).unwrap();
    users.mark_verified(user.id).unwrap();
    let service = service_over(users, VerificationTokenRepository::new());
    assert!(service.login_at(login_request("Case@example.com", "password123"), T0).is_ok());
    assert!(matches!(
        service.login_at(login_request("case@example.com", "password123"), T0),
        Err(UserServiceError::Unauthorized(_))
    ));
}

#[test]
fn verify_email_unknown_token_is_invalid() {
    let mut service = new_service();
    match service.verify_email_at("nothing".to_string(), T0) {
        Err(UserServiceError::InvalidToken(message)) => {
            assert_eq!(message, "Invalid verification token")
        },
        other => panic!("expected InvalidToken, got {:?}", other),
    }
    assert!(matches!(
        service.verify_email("nothing".to_string()),
        Err(UserServiceError::InvalidToken(_))
    ));
}

#[test]
fn verify_email_token_without_account() {
    let mut tokens = VerificationTokenRepository::new();
    tokens.insert(42, "orphan".to_string(), EMAIL_VERIFICATION, T0 + DAY, T0).unwrap();
    let mut service = service_over(UserRepository::new(), tokens);
    match service.verify_email_at("orphan".to_string(), T0) {
        Err(UserServiceError::UserNotFound(message)) => assert_eq!(message, "User not found"),
        other => panic!("expected UserNotFound, got {:?}", other),
    }
    // Nothing was written: the token is still unused.
    let stored =
        service.verification_token_repository().find_token_by_value("orphan").unwrap().unwrap();
    assert!(stored.used_at.is_none());
}

#[test]
fn verify_email_marks_the_token_with_the_time_of_use() {
    let mut service = new_service();
    service
        .create_user_with(
            create_request("t@example.com", "T", "password123"),
            T0,
            "token-t".to_string(),
        )
        .unwrap();
    service.verify_email_at("token-t".to_string(), T0 + 77).unwrap();
    let stored =
        service.verification_token_repository().find_token_by_value("token-t").unwrap().unwrap();
    assert_eq!(stored.used_at, Some(T0 + 77));
    assert_eq!(stored.expires_at, T0 + DAY);
    assert_eq!(stored.id, 1);
}

#[test]
fn verify_email_leaves_the_token_used_when_no_session_can_be_issued() {
    let mut users = UserRepository::new();
    let mut tokens = VerificationTokenRepository::new();
    let user = users.create("far@example.com", "Far", "password123", T0).unwrap();
    tokens.insert(user.id, "far".to_string(), EMAIL_VERIFICATION, i64::MAX, T0).unwrap();
    let mut service = service_over(users, tokens);
    let result = service.verify_email_at("far".to_string(), i64::MAX);
    assert!(matches!(result, Err(UserServiceError::InternalServerError(_))));
    assert!(account(&service, user.id).email_verified);
    let again = service.verify_email_at("far".to_string(), i64::MAX);
    assert!(matches!(again, Err(UserServiceError::TokenAlreadyUsed(_))));
}

#[test]
fn of_two_redemptions_exactly_one_succeeds() {
    for (first, second) in [(T0 + 1, T0 + 2), (T0 + 2, T0 + 1), (T0 + 1, T0 + 1)] {
        let mut service = new_service();
        service
            .create_user_with(
                create_request("race@example.com", "Race", "password123"),
                T0,
                "token-race".to_string(),
            )
            .unwrap();
        let one = service.verify_email_at("token-race".to_string(), first);
        let two = service.verify_email_at("token-race".to_string(), second);
        assert!(one.is_ok());
        assert!(matches!(two, Err(UserServiceError::TokenAlreadyUsed(_))));
    }
}

#[test]
fn reads_are_repeatable() {
    let mut service = new_service();
    service
        .create_user_with(
            create_request("r@example.com", "R", "password123"),
            T0,
            "token-r".to_string(),
        )
        .unwrap();
    let first = format!("{:?}", service.get_user_by_id(1));
    let second = format!("{:?}", service.get_user_by_id(1));
    assert_eq!(first, second);
    let by_email_1 = format!("{:?}", service.user_repository().find_by_email("r@example.com"));
    let by_email_2 = format!("{:?}", service.user_repository().find_by_email("r@example.com"));
    assert_eq!(by_email_1, by_email_2);
    let missing_1 = format!("{:?}", service.get_user_by_id(9));
    let missing_2 = format!("{:?}", service.get_user_by_id(9));
    assert_eq!(missing_1, missing_2);
    // Nothing was queued or stored by reading.
    assert_eq!(service.take_outbox().len(), 1);
    assert!(service.user_repository().find_by_id(2).unwrap().is_none());
}

#[test]
fn get_user_by_id_finds_or_reports() {
    let mut service = new_service();
    let created = service
        .create_user_with(
            create_request("g@example.com", "G", "password123"),
            T0,
            "token-g".to_string(),
        )
        .unwrap();
    let found = service.get_user_by_id(created.id).unwrap();
    assert_eq!(found.id, created.id);
    assert_eq!(found.email, "g@example.com");
    assert_eq!(found.display_name, "G");
    assert_eq!(found.password, hash_password("password123"));
    match service.get_user_by_id(99) {
        Err(UserServiceError::UserNotFound(message)) => assert_eq!(message, "User not found"),
        other => panic!("expected UserNotFound, got {:?}", other),
    }
}

#[test]
fn send_verification_email_adds_a_token_beside_the_old_one() {
    let mut service = new_service();
    service
        .create_user_with(
            create_request("s@example.com", "S", "password123"),
            T0,
            "token-old".to_string(),
        )
        .unwrap();
    service.take_outbox();
    service.send_verification_email_with(1, T0 + 100, "token-new".to_string()).unwrap();

    let tokens = service.verification_token_repository();
    let old = tokens.find_token_by_value("token-old").unwrap().unwrap();
    let new = tokens.find_token_by_value("token-new").unwrap().unwrap();
    assert!(old.is_redeemable(T0 + 100));
    assert!(new.is_redeemable(T0 + 100));
    assert_eq!(new.user_id, 1);
    assert_eq!(new.expires_at, T0 + 100 + DAY);

    let messages = service.take_outbox();
    assert_eq!(messages.len(), 1);
    assert_eq!(messages[0].to, vec!["s@example.com".to_string()]);
    assert!(messages[0].body.contains("/verify-email/token-new\n"));

    // Either token verifies the account; the other one stays unused.
    service.verify_email_at("token-new".to_string(), T0 + 200).unwrap();
    assert!(account(&service, 1).email_verified);
    let old = service.verification_token_repository().find_token_by_value("token-old").unwrap().unwrap();
    assert!(old.used_at.is_none());
}

#[test]
fn send_verification_email_to_unknown_account() {
    let mut service = new_service();
    match service.send_verification_email_with(5, T0, "token-5".to_string()) {
        Err(UserServiceError::UserNotFound(message)) => assert_eq!(message, "User not found"),
        other => panic!("expected UserNotFound, got {:?}", other),
    }
    // The token was stored before the account was looked up.
    let stored =
        service.verification_token_repository().find_token_by_value("token-5").unwrap().unwrap();
    assert_eq!(stored.user_id, 5);
    assert!(service.take_outbox().is_empty());
    assert!(matches!(
        service.send_verification_email(6),
        Err(UserServiceError::UserNotFound(_))
    ));
}

#[test]
fn send_verification_email_failures_change_nothing() {
    let mut service = new_service();
    service
        .create_user_with(
            create_request("s@example.com", "S", "password123"),
            T0,
            "token-s".to_string(),
        )
        .unwrap();
    service.take_outbox();
    assert!(matches!(
        service.send_verification_email_with(1, T0, "token-s".to_string()),
        Err(UserServiceError::InternalServerError(_))
    ));
    assert!(matches!(
        service.send_verification_email_with(1, i64::MAX, "token-x".to_string()),
        Err(UserServiceError::InternalServerError(_))
    ));
    assert!(service.verification_token_repository().find_token_by_value("token-x").unwrap().is_none());
    assert!(service.take_outbox().is_empty());
}

#[test]
fn send_verification_email_with_drawn_token() {
    let mut service = new_service();
    service.create_user(create_request("d@example.com", "D", "password123")).unwrap();
    let first = mailed_token(&mut service);
    service.send_verification_email(1).unwrap();
    let second = mailed_token(&mut service);
    assert_ne!(first, second);
    assert_eq!(second.len(), 36);
    assert!(service.verify_email(second).is_ok());
}

#[test]
fn resend_by_email_is_silent_about_who_is_registered() {
    let mut service = new_service();
    service
        .create_user_with(
            create_request("known@example.com", "K", "password123"),
            T0,
            "token-k".to_string(),
        )
        .unwrap();
    service.take_outbox();

    // Unknown email: success, and nothing happens.
    assert!(service
        .send_verification_email_by_email_with("unknown@example.com".to_string(), T0, "t1".to_string())
        .is_ok());
    assert!(service.verification_token_repository().find_token_by_value("t1").unwrap().is_none());
    assert!(service.take_outbox().is_empty());

    // Known and unverified: a new token is mailed.
    assert!(service
        .send_verification_email_by_email_with("known@example.com".to_string(), T0, "t2".to_string())
        .is_ok());
    assert_eq!(mailed_token(&mut service), "t2");

    // Known and verified: success, and nothing happens.
    service.verify_email_at("t2".to_string(), T0).unwrap();
    assert!(service
        .send_verification_email_by_email_with("known@example.com".to_string(), T0, "t3".to_string())
        .is_ok());
    assert!(service.verification_token_repository().find_token_by_value("t3").unwrap().is_none());
    assert!(service.take_outbox().is_empty());
    assert!(service.send_verification_email_by_email("known@example.com".to_string()).is_ok());
    assert!(service.send_verification_email_by_email("nobody@example.com".to_string()).is_ok());
    assert!(service.take_outbox().is_empty());
}

#[test]
fn verified_accounts_stay_verified() {
    let mut service = new_service();
    service
        .create_user_with(
            create_request("v@example.com", "V", "password123"),
            T0,
            "token-v".to_string(),
        )
        .unwrap();
    service.verify_email_at("token-v".to_string(), T0).unwrap();
    let _ = service.create_user_with(
        create_request("w@example.com", "W", "password123"),
        T0,
        "token-w".to_string(),
    );
    let _ = service.send_verification_email_with(1, T0, "token-v2".to_string());
    let _ = service.verify_email_at("token-v".to_string(), T0);
    let _ = service.verify_email_at("token-v2".to_string(), T0);
    let _ = service.login_at(login_request("v@example.com", "nope"), T0);
    assert!(account(&service, 1).email_verified);
    assert!(!account(&service, 2).email_verified);
}

#[test]
fn authenticate_decides_from_the_lookup() {
    let user = |verified: bool| User {
        id: 3,
        email: "a@example.com".to_string(),
        display_name: "A".to_string(),
        password: hash_password("password123"),
        email_verified: verified,
        created_at: None,
    };
    assert_eq!(authenticate(Some(user(true)), "password123").unwrap().id, 3);
    match authenticate(None, "password123") {
        Err(UserServiceError::Unauthorized(m)) => assert_eq!(m, "Invalid credentials"),
        other => panic!("unexpected {:?}", other),
    }
    match authenticate(Some(user(false)), "password123") {
        Err(UserServiceError::Unauthorized(m)) => assert_eq!(m, "Email not verified"),
        other => panic!("unexpected {:?}", other),
    }
    match authenticate(Some(user(true)), "Password123") {
        Err(UserServiceError::Unauthorized(m)) => assert_eq!(m, "Invalid credentials"),
        other => panic!("unexpected {:?}", other),
    }
    // The stored credential is compared with the hash, never with the plaintext.
    let plaintext_stored = User { password: "password123".to_string(), ..user(true) };
    assert!(authenticate(Some(plaintext_stored), "password123").is_err());
}

#[test]
fn check_redeemable_decides_from_the_lookup() {
    let mut tokens = VerificationTokenRepository::new();
    let fresh = tokens.insert(1, "a".to_string(), EMAIL_VERIFICATION, 100, 0).unwrap();
    assert_eq!(check_redeemable(Some(fresh.clone()), 100).unwrap().id, fresh.id);
    assert!(matches!(
        check_redeemable(Some(fresh.clone()), 101),
        Err(UserServiceError::TokenExpired(_))
    ));
    let used = tokens.mark_token_as_used(fresh.id, 50).unwrap();
    assert!(matches!(
        check_redeemable(Some(used.clone()), 100),
        Err(UserServiceError::TokenAlreadyUsed(_))
    ));
    assert!(matches!(check_redeemable(Some(used), 101), Err(UserServiceError::TokenExpired(_))));
    assert!(matches!(check_redeemable(None, 0), Err(UserServiceError::InvalidToken(_))));
}

#[test]
fn needs_verification_picks_unverified_accounts() {
    let user = |verified: bool| User {
        id: 3,
        email: "a@example.com".to_string(),
        display_name: "A".to_string(),
        password: String::new(),
        email_verified: verified,
        created_at: None,
    };
    assert_eq!(needs_verification(Some(user(false))).unwrap().id, 3);
    assert!(needs_verification(Some(user(true))).is_none());
    assert!(needs_verification(None).is_none());
}

#[test]
fn session_claims_expire_a_day_later() {
    let user = User {
        id: 9,
        email: "c@example.com".to_string(),
        display_name: "C".to_string(),
        password: String::new(),
        email_verified: true,
        created_at: None,
    };
    let claims = session_claims(&user, T0).unwrap();
    assert_eq!(claims.sub, "c@example.com");
    assert_eq!(claims.user_id, 9);
    assert_eq!(claims.exp, (T0 + DAY) as usize);
    assert!(session_claims(&user, i64::MAX).is_none());
    assert!(session_claims(&user, -DAY - 1).is_none());
    assert_eq!(session_claims(&user, -DAY).unwrap().exp, 0);

    let session = issue_session(&user, T0, SECRET).unwrap();
    assert_eq!(session.user_id, 9);
    assert_eq!(session.email, "c@example.com");
    assert_eq!(session.display_name, "C");
    let decoded = decode_jwt_at(&session.token, SECRET, T0).unwrap();
    assert_eq!(decoded.exp, (T0 + DAY) as usize);
    assert!(matches!(
        issue_session(&user, i64::MAX, SECRET),
        Err(UserServiceError::InternalServerError(_))
    ));
}

#[test]
fn user_service_error_to_string() {
    let m = || "why".to_string();
    assert_eq!(UserServiceError::Unauthorized(m()).to_string(), "Unauthorized: why");
    assert_eq!(UserServiceError::ValidationError(m()).to_string(), "Validation Error: why");
    assert_eq!(
        UserServiceError::InternalServerError(m()).to_string(),
        "Internal Server Error: why"
    );
    assert_eq!(UserServiceError::InvalidToken(m()).to_string(), "Invalid Token: why");
    assert_eq!(UserServiceError::TokenExpired(m()).to_string(), "Token Expired: why");
    assert_eq!(UserServiceError::TokenAlreadyUsed(m()).to_string(), "Token Already Used: why");
    assert_eq!(UserServiceError::UserNotFound(m()).to_string(), "User Not Found: why");
}

#[test]
fn check_credentials_compares_digests() {
    let user = |verified: bool| User {
        id: 3,
        email: "a@example.com".to_string(),
        display_name: "A".to_string(),
        password: "stored-digest".to_string(),
        email_verified: verified,
        created_at: None,
    };
    assert_eq!(check_credentials(Some(user(true)), "stored-digest").unwrap().id, 3);
    match check_credentials(Some(user(true)), "other-digest") {
        Err(UserServiceError::Unauthorized(m)) => assert_eq!(m, "Invalid credentials"),
        other => panic!("unexpected {:?}", other),
    }
    match check_credentials(Some(user(false)), "stored-digest") {
        Err(UserServiceError::Unauthorized(m)) => assert_eq!(m, "Email not verified"),
        other => panic!("unexpected {:?}", other),
    }
    match check_credentials(None, "stored-digest") {
        Err(UserServiceError::Unauthorized(m)) => assert_eq!(m, "Invalid credentials"),
        other => panic!("unexpected {:?}", other),
    }
}

#[test]
fn session_response_wraps_the_signed_token() {
    let user = User {
        id: 9,
        email: "c@example.com".to_string(),
        display_name: "C".to_string(),
        password: String::new(),
        email_verified: true,
        created_at: None,
    };
    let session = session_response(&user, Ok("signed".to_string())).unwrap();
    assert_eq!(session.token, "signed");
    assert_eq!(session.user_id, 9);
    assert_eq!(session.email, "c@example.com");
    assert_eq!(session.display_name, "C");
    match session_response(&user, Err(JwtError::Encoding)) {
        Err(UserServiceError::InternalServerError(m)) => assert_eq!(m, "JWT encoding failed"),
        other => panic!("unexpected {:?}", other),
    }
}

#[test]
fn check_request_and_token_expiry() {
    assert!(check_request(&create_request("a@example.com", "A", "password123")).is_ok());
    match check_request(&create_request("a@example.com", "A", "short1")) {
        Err(UserServiceError::ValidationError(m)) => {
            assert_eq!(m, "Validation failed: パスワードは8文字以上である必要があります")
        },
        other => panic!("unexpected {:?}", other),
    }
    assert_eq!(token_expiry(T0).unwrap(), T0 + DAY);
    assert_eq!(token_expiry(-DAY).unwrap(), 0);
    assert_eq!(token_expiry(i64::MAX - DAY).unwrap(), i64::MAX);
    match token_expiry(i64::MAX - DAY + 1) {
        Err(UserServiceError::InternalServerError(m)) => {
            assert_eq!(m, "Failed to calculate expiration time")
        },
        other => panic!("unexpected {:?}", other),
    }
}

#[test]
fn require_user_reports_absence() {
    let user = User {
        id: 9,
        email: "c@example.com".to_string(),
        display_name: "C".to_string(),
        password: String::new(),
        email_verified: true,
        created_at: None,
    };
    assert_eq!(require_user(Some(user)).unwrap().id, 9);
    match require_user(None) {
        Err(UserServiceError::UserNotFound(m)) => assert_eq!(m, "User not found"),
        other => panic!("unexpected {:?}", other),
    }
}

#[test]
fn token_issued_ahead_of_an_account_becomes_its_second_token() {
    let mut service = new_service();
    // A verification email is asked for an id that no account has yet.
    assert!(matches!(
        service.send_verification_email_with(1, T0, "early".to_string()),
        Err(UserServiceError::UserNotFound(_))
    ));
    let user = service
        .create_user_with(
            create_request("a@example.com", "A", "password123"),
            T0,
            "own".to_string(),
        )
        .unwrap();
    assert_eq!(user.id, 1);
    let tokens = service.verification_token_repository();
    let early = tokens.find_token_by_value("early").unwrap().unwrap();
    let own = tokens.find_token_by_value("own").unwrap().unwrap();
    assert_eq!(early.user_id, 1);
    assert_eq!(own.user_id, 1);
    assert!(early.is_redeemable(T0) && own.is_redeemable(T0));
}
