use koko_pic_api::domains::user::model::EMAIL_VERIFICATION;
use koko_pic_api::domains::user::repository::{
    RepositoryError, UserRepository, VerificationTokenRepository,
};
use koko_pic_api::utils::hash_password;

#[test]
fn create_and_find_user() {
    let mut users = UserRepository::new();
    let created = users.create("db-test@example.com", "DB Test", "password123", 1000).unwrap();
    let found = users.find_by_email("db-test@example.com").unwrap();
    let found = found.expect("user should exist");
    assert_eq!(created.id, found.id);
    assert_eq!(created.email, found.email);
    assert_eq!(created.email_verified, found.email_verified);
}

#[test]
fn find_user_returns_none() {
    let users = UserRepository::new();
    let found = users.find_by_email("missing@example.com").unwrap();
    assert!(found.is_none());
}

#[test]
fn verify_user_email() {
    let mut users = UserRepository::new();
    let created = users.create("verify-test@example.com", "Verify Test", "password123", 1000).unwrap();
    assert!(!created.email_verified);

    let verified = users.mark_verified(created.id).unwrap();
    assert!(verified.email_verified);
}

#[test]
fn user_repository_create_fills_the_record() {
    let mut users = UserRepository::new();
    let first = users.create("a@example.com", "A", "password123", 1000).unwrap();
    assert_eq!(first.id, 1);
    assert_eq!(first.email, "a@example.com");
    assert_eq!(first.display_name, "A");
    assert_eq!(first.password, hash_password("password123"));
    assert_ne!(first.password, "password123");
    assert!(!first.email_verified);
    assert_eq!(first.created_at, Some(1000));
    let second = users.create("b@example.com", "B", "password123", 2000).unwrap();
    assert_eq!(second.id, 2);
    assert_eq!(users.find_by_id(2).unwrap().unwrap().email, "b@example.com");
    assert_eq!(users.find_by_id(1).unwrap().unwrap().email, "a@example.com");
    assert!(users.find_by_id(3).unwrap().is_none());
    assert!(users.find_by_id(0).unwrap().is_none());
    assert!(users.find_by_id(-1).unwrap().is_none());
}

#[test]
fn user_repository_rejects_a_taken_email() {
    let mut users = UserRepository::new();
    users.create("a@example.com", "A", "password123", 1000).unwrap();
    assert!(users.check_can_create("b@example.com").is_ok());
    match users.check_can_create("a@example.com") {
        Err(RepositoryError::Conflict(message)) => assert_eq!(message, "email is already registered"),
        other => panic!("expected Conflict, got {:?}", other),
    }
    match users.create("a@example.com", "Other", "password456", 2000) {
        Err(RepositoryError::Conflict(message)) => assert_eq!(message, "email is already registered"),
        other => panic!("expected Conflict, got {:?}", other),
    }
    // The first account is untouched and the id was not spent.
    let kept = users.find_by_email("a@example.com").unwrap().unwrap();
    assert_eq!(kept.display_name, "A");
    assert_eq!(users.create("b@example.com", "B", "password123", 3000).unwrap().id, 2);
    // Emails are compared as stored.
    assert!(users.create("A@example.com", "Upper", "password123", 4000).is_ok());
}

#[test]
fn user_repository_mark_verified() {
    let mut users = UserRepository::new();
    users.create("a@example.com", "A", "password123", 1000).unwrap();
    users.create("b@example.com", "B", "password123", 1000).unwrap();
    let marked = users.mark_verified(2).unwrap();
    assert_eq!(marked.id, 2);
    assert!(marked.email_verified);
    assert!(users.find_by_id(2).unwrap().unwrap().email_verified);
    assert!(!users.find_by_id(1).unwrap().unwrap().email_verified);
    // Marking again changes nothing.
    let again = users.mark_verified(2).unwrap();
    assert!(again.email_verified);
    assert_eq!(again.email, "b@example.com");
    match users.mark_verified(7) {
        Err(RepositoryError::NotFound(message)) => assert_eq!(message, "User not found"),
        other => panic!("expected NotFound, got {:?}", other),
    }
}

#[test]
fn token_repository_insert_and_find() {
    let mut tokens = VerificationTokenRepository::new();
    let first = tokens.insert(4, "abc".to_string(), EMAIL_VERIFICATION, 5000, 1000).unwrap();
    assert_eq!(first.id, 1);
    assert_eq!(first.user_id, 4);
    assert_eq!(first.token, "abc");
    assert_eq!(first.token_type, "email_verification");
    assert_eq!(first.expires_at, 5000);
    assert_eq!(first.used_at, None);
    assert_eq!(first.created_at, Some(1000));
    let second = tokens.insert(4, "def".to_string(), EMAIL_VERIFICATION, 6000, 2000).unwrap();
    assert_eq!(second.id, 2);
    assert_eq!(tokens.find_token_by_value("abc").unwrap().unwrap().id, 1);
    assert_eq!(tokens.find_token_by_value("def").unwrap().unwrap().id, 2);
    assert!(tokens.find_token_by_value("ab").unwrap().is_none());
    assert!(tokens.find_token_by_value("").unwrap().is_none());
    assert_eq!(tokens.find_token_by_value_for_update("def").unwrap().unwrap().expires_at, 6000);
    assert!(tokens.find_token_by_value_for_update("xyz").unwrap().is_none());
}

#[test]
fn token_repository_rejects_a_stored_string() {
    let mut tokens = VerificationTokenRepository::new();
    tokens.insert(4, "abc".to_string(), EMAIL_VERIFICATION, 5000, 1000).unwrap();
    assert!(tokens.check_can_insert("abd").is_ok());
    assert!(matches!(tokens.check_can_insert("abc"), Err(RepositoryError::Conflict(_))));
    match tokens.insert(5, "abc".to_string(), EMAIL_VERIFICATION, 9000, 2000) {
        Err(RepositoryError::Conflict(message)) => assert_eq!(message, "token is already stored"),
        other => panic!("expected Conflict, got {:?}", other),
    }
    assert_eq!(tokens.find_token_by_value("abc").unwrap().unwrap().user_id, 4);
    assert_eq!(tokens.insert(5, "abd".to_string(), EMAIL_VERIFICATION, 9000, 2000).unwrap().id, 2);
}

#[test]
fn token_repository_mark_token_as_used() {
    let mut tokens = VerificationTokenRepository::new();
    tokens.insert(4, "abc".to_string(), EMAIL_VERIFICATION, 5000, 1000).unwrap();
    tokens.insert(4, "def".to_string(), EMAIL_VERIFICATION, 5000, 1000).unwrap();
    let used = tokens.mark_token_as_used(1, 1234).unwrap();
    assert_eq!(used.id, 1);
    assert_eq!(used.token, "abc");
    assert_eq!(used.used_at, Some(1234));
    assert!(used.is_used());
    assert!(!used.is_redeemable(1234));
    assert_eq!(tokens.find_token_by_value("abc").unwrap().unwrap().used_at, Some(1234));
    assert_eq!(tokens.find_token_by_value("def").unwrap().unwrap().used_at, None);
    match tokens.mark_token_as_used(3, 1234) {
        Err(RepositoryError::NotFound(message)) => {
            assert_eq!(message, "Verification token not found")
        },
        other => panic!("expected NotFound, got {:?}", other),
    }
}

#[test]
fn token_repository_draws_distinct_strings() {
    let mut tokens = VerificationTokenRepository::new();
    let first = tokens.create_verification_token(1, EMAIL_VERIFICATION, 5000, 1000).unwrap();
    let second = tokens.create_verification_token(1, EMAIL_VERIFICATION, 5000, 1000).unwrap();
    assert_ne!(first.token, second.token);
    assert_eq!(first.token.len(), 36);
    assert_eq!(first.user_id, 1);
    assert_eq!(first.expires_at, 5000);
    assert_eq!(second.id, first.id + 1);
    assert_eq!(tokens.find_token_by_value(&first.token).unwrap().unwrap().id, first.id);
}

#[test]
fn token_liveness() {
    let mut tokens = VerificationTokenRepository::new();
    let token = tokens.insert(1, "abc".to_string(), EMAIL_VERIFICATION, 5000, 1000).unwrap();
    assert!(!token.is_expired(4999));
    assert!(!token.is_expired(5000));
    assert!(token.is_expired(5001));
    assert!(!token.is_used());
    assert!(token.is_redeemable(5000));
    assert!(!token.is_redeemable(5001));
}

#[test]
fn repository_error_to_string() {
    assert_eq!(
        RepositoryError::DatabaseError("down".to_string()).to_string(),
        "Database error: down"
    );
    assert_eq!(RepositoryError::NotFound("x".to_string()).to_string(), "Not found: x");
    assert_eq!(RepositoryError::Conflict("y".to_string()).to_string(), "Conflict: y");
}

#[test]
fn user_repository_insert_stores_the_credential_as_given() {
    let mut users = UserRepository::new();
    let user = users.insert("a@example.com", "A", "digest".to_string(), 1000).unwrap();
    assert_eq!(user.id, 1);
    assert_eq!(user.password, "digest");
    assert!(!user.email_verified);
    assert_eq!(user.created_at, Some(1000));
    assert!(matches!(
        users.insert("a@example.com", "B", "other".to_string(), 2000),
        Err(RepositoryError::Conflict(_))
    ));
    assert_eq!(users.find_by_email("a@example.com").unwrap().unwrap().password, "digest");
}
