use koko_pic_api::email::service::{DEFAULT_FRONTEND_URL, VERIFICATION_SUBJECT};
use koko_pic_api::email::{EmailMessage, EmailService, SmtpConfig};

fn config(host: &str, port: u16) -> SmtpConfig {
    SmtpConfig {
        host: host.to_string(),
        port,
        username: "test_user".to_string(),
        password: "test_password".to_string(),
        from_email: "test@example.com".to_string(),
    }
}

#[test]
fn test_build_verification_email_body() {
    let token = "abc123";
    let expected_body = "こんにちは、\n\n以下のリンクをクリックしてメールアドレスを確認してください:\n\nhttps://example.com/verify-email/abc123\n\nこのリンクは24時間有効です。\n\nよろしくお願いします。";

    let actual_body = EmailService::build_verification_email_body("https://example.com", token);
    assert_eq!(actual_body, expected_body);
}

#[test]
fn test_build_verification_email_body_default_url() {
    let token = "def456";
    let expected_body = "こんにちは、\n\n以下のリンクをクリックしてメールアドレスを確認してください:\n\nhttp://localhost:1420/verify-email/def456\n\nこのリンクは24時間有効です。\n\nよろしくお願いします。";

    let actual_body = EmailService::build_verification_email_body(DEFAULT_FRONTEND_URL, token);
    assert_eq!(actual_body, expected_body);
}

#[test]
fn test_email_service_new_with_localhost_smtp() {
    let email_service = EmailService::new(config("localhost", 1025));
    assert_eq!(email_service.smtp_config().host, "localhost");
    assert_eq!(email_service.smtp_config().port, 1025);
    assert!(email_service.uses_local_relay());
}

#[test]
fn test_email_service_new_with_remote_smtp() {
    let email_service = EmailService::new(config("smtp.example.com", 587));
    assert_eq!(email_service.smtp_config().host, "smtp.example.com");
    assert_eq!(email_service.smtp_config().port, 587);
    assert!(!email_service.uses_local_relay());
}

#[test]
fn email_service_local_relays() {
    assert!(EmailService::new(config("mailhog", 1025)).uses_local_relay());
    assert!(!EmailService::new(config("localhost.example.com", 25)).uses_local_relay());
    assert!(!EmailService::new(config("", 25)).uses_local_relay());
}

#[test]
fn email_service_queues_in_order() {
    let mut service = EmailService::new(config("localhost", 1025));
    assert_eq!(service.frontend_url(), "http://localhost:1420");
    let message = EmailMessage::new(
        vec!["a@example.com".to_string(), "b@example.com".to_string()],
        "Test Subject".to_string(),
        "Test Body".to_string(),
    );
    service.send_email(&message);
    service.send_simple_text_email("c@example.com", "Simple Test Subject", "Simple Test Body");
    let queued = service.take_outbox();
    assert_eq!(queued.len(), 2);
    assert_eq!(queued[0].to, vec!["a@example.com".to_string(), "b@example.com".to_string()]);
    assert_eq!(queued[0].subject, "Test Subject");
    assert_eq!(queued[0].body, "Test Body");
    assert_eq!(queued[1].to, vec!["c@example.com".to_string()]);
    assert_eq!(queued[1].subject, "Simple Test Subject");
    assert_eq!(queued[1].body, "Simple Test Body");
    assert!(service.take_outbox().is_empty());
}

#[test]
fn email_service_with_frontend_url() {
    let service =
        EmailService::new(config("localhost", 1025)).with_frontend_url("https://example.com".to_string());
    assert_eq!(service.frontend_url(), "https://example.com");
    assert_eq!(service.smtp_config().from_email, "test@example.com");
}

#[test]
fn email_message_new_keeps_its_parts() {
    let message = EmailMessage::new(vec![], "s".to_string(), "b".to_string());
    assert!(message.to.is_empty());
    assert_eq!(message.subject, "s");
    assert_eq!(message.body, "b");
    let copy = message.clone();
    assert_eq!(copy.subject, "s");
    let many = EmailMessage::new(
        vec!["x".to_string(), "y".to_string(), "z".to_string()],
        String::new(),
        String::new(),
    );
    assert_eq!(many.clone().to, vec!["x".to_string(), "y".to_string(), "z".to_string()]);
}

#[test]
fn smtp_config_with_credentials_uses_the_default_relay() {
    let config = SmtpConfig::with_credentials(
        "user".to_string(),
        "secret".to_string(),
        "from@example.com".to_string(),
    );
    assert_eq!(config.host, "smtp.gmail.com");
    assert_eq!(config.port, 587);
    assert_eq!(config.username, "user");
    assert_eq!(config.password, "secret");
    assert_eq!(config.from_email, "from@example.com");
    assert_eq!(VERIFICATION_SUBJECT, "メールアドレスを確認してください");
}
