use koko_pic_api::domains::user::model::{field_rules, CreateUserRequest};
use koko_pic_api::utils::{
    contains_digit, contains_letter, hash_password, password_rule, to_hex_lower, validate_email,
    validate_password, PASSWORD_NEEDS_DIGIT, PASSWORD_NEEDS_LETTER,
};

#[test]
fn test_validate_password_valid() {
    assert!(validate_password("password123").is_ok());
    assert!(validate_password("Test123").is_ok());
    assert!(validate_password("abc123def").is_ok());
    assert!(validate_password("A1").is_ok());
}

#[test]
fn test_validate_password_missing_letter() {
    let result = validate_password("12345678");
    assert!(result.is_err());
    let err = result.unwrap_err();
    assert!(format!("{:?}", err).contains("パスワードには英字を含める必要があります"));
}

#[test]
fn test_validate_password_missing_digit() {
    let result = validate_password("abcdefghijk");
    assert!(result.is_err());
    let err = result.unwrap_err();
    assert!(format!("{:?}", err).contains("パスワードには数字を含める必要があります"));
}

#[test]
fn test_validate_password_empty() {
    let result = validate_password("");
    assert!(result.is_err());
    let err = result.unwrap_err();
    assert!(format!("{:?}", err).contains("パスワードには英字を含める必要があります"));
}

#[test]
fn test_validate_password_only_special_chars() {
    let result = validate_password("!@#$%^&*()");
    assert!(result.is_err());
    let err = result.unwrap_err();
    assert!(format!("{:?}", err).contains("パスワードには英字を含める必要があります"));
}

#[test]
fn validate_password_reports_exact_codes() {
    assert_eq!(validate_password("12345678").unwrap_err().code, PASSWORD_NEEDS_LETTER);
    assert_eq!(validate_password("abcdefgh").unwrap_err().code, PASSWORD_NEEDS_DIGIT);
    assert_eq!(validate_password("").unwrap_err().code, PASSWORD_NEEDS_LETTER);
}

#[test]
fn validate_password_letters_outside_latin_do_not_count() {
    // A Japanese letter is no match for the letter pattern.
    assert_eq!(validate_password("パスワード1").unwrap_err().code, PASSWORD_NEEDS_LETTER);
}

#[test]
fn validate_password_accepts_non_ascii_digits() {
    // The digit pattern matches any decimal digit, here an Arabic-Indic one.
    assert!(validate_password("a\u{0663}").is_ok());
}

#[test]
fn password_rule_table() {
    assert!(password_rule(true, true).is_ok());
    assert_eq!(password_rule(false, true).unwrap_err().code, PASSWORD_NEEDS_LETTER);
    assert_eq!(password_rule(false, false).unwrap_err().code, PASSWORD_NEEDS_LETTER);
    assert_eq!(password_rule(true, false).unwrap_err().code, PASSWORD_NEEDS_DIGIT);
}

#[test]
fn hash_password_known_digests() {
    assert_eq!(
        hash_password("password123"),
        "ef92b778bafe771e89245b89ecbc08a44a4e166c06659911881f383d4473e94f"
    );
    assert_eq!(
        hash_password(""),
        "e3b0c44298fc1c149afbf4c8996fb92427ae41e4649b934ca495991b7852b855"
    );
    assert_eq!(
        hash_password("パスワード1"),
        "d7086e860b4c3da14bfec760dc56830024c8f81c28510b131194137eabeb7f5b"
    );
}

#[test]
fn hash_password_is_deterministic_and_not_the_plaintext() {
    let first = hash_password("correct horse");
    let second = hash_password("correct horse");
    assert_eq!(first, second);
    assert_ne!(first, "correct horse");
    assert_eq!(first.len(), 64);
    assert_ne!(first, hash_password("correct horsf"));
}

#[test]
fn to_hex_lower_writes_two_digits_per_byte() {
    assert_eq!(to_hex_lower(&[]), "");
    assert_eq!(to_hex_lower(&[0x00]), "00");
    assert_eq!(to_hex_lower(&[0x0f, 0xf0, 0xab, 0x09, 0xff]), "0ff0ab09ff");
    assert_eq!(to_hex_lower(&[0xde, 0xad, 0xbe, 0xef]), "deadbeef");
}

#[test]
fn validate_email_shapes() {
    assert!(validate_email("a@example.com"));
    assert!(validate_email("weirder-email@here.and.there.com"));
    assert!(!validate_email("invalid-email"));
    assert!(!validate_email(""));
    assert!(!validate_email("a@"));
}

#[test]
fn contains_letter_and_digit() {
    assert!(contains_letter("abc"));
    assert!(contains_letter("123Z"));
    assert!(!contains_letter("123!"));
    assert!(!contains_letter(""));
    assert!(contains_digit("a1"));
    assert!(!contains_digit("abc"));
    assert!(!contains_digit(""));
}

#[test]
fn field_rules_are_examined_in_order() {
    assert!(field_rules(true, 1, 8, true, true).is_ok());
    assert_eq!(field_rules(false, 0, 0, false, false).unwrap_err().code, "メールアドレスが無効です");
    assert_eq!(field_rules(true, 0, 0, false, false).unwrap_err().code, "表示名が必要です");
    assert_eq!(
        field_rules(true, 1, 7, false, false).unwrap_err().code,
        "パスワードは8文字以上である必要があります"
    );
    assert_eq!(field_rules(true, 1, 8, false, false).unwrap_err().code, PASSWORD_NEEDS_LETTER);
    assert_eq!(field_rules(true, 1, 8, true, false).unwrap_err().code, PASSWORD_NEEDS_DIGIT);
    assert!(field_rules(true, usize::MAX, usize::MAX, true, true).is_ok());
}

#[test]
fn create_user_request_validate() {
    let request = |email: &str, display_name: &str, password: &str| CreateUserRequest {
        email: email.to_string(),
        display_name: display_name.to_string(),
        password: password.to_string(),
    };
    assert!(request("api-create@example.com", "API Create", "password123").validate().is_ok());
    assert_eq!(
        request("invalid-email", "Test User", "password123").validate().unwrap_err().code,
        "メールアドレスが無効です"
    );
    assert_eq!(
        request("a@example.com", "", "password123").validate().unwrap_err().code,
        "表示名が必要です"
    );
    assert_eq!(
        request("a@example.com", "A", "a1").validate().unwrap_err().code,
        "パスワードは8文字以上である必要があります"
    );
}
