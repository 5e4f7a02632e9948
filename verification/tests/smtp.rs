use marketplace_core::config::SmtpConfig;
use marketplace_core::smtp::{
    SmtpService, VERIFICATION_MAIL_HEAD, VERIFICATION_MAIL_SUBJECT, VERIFICATION_MAIL_TAIL,
};

fn create_test_config() -> SmtpConfig {
    SmtpConfig {
        enabled: true,
        host: "smtp.gmail.com".to_string(),
        port: 587,
        username: "test@example.com".to_string(),
        password: "test_password".to_string(),
        from_address: "noreply@geektools.dev".to_string(),
        from_name: "GeekTools Test".to_string(),
        use_tls: true,
    }
}

#[test]
fn test_smtp_service_creation() {
    let config = create_test_config();
    let service = SmtpService::new(config);
    assert!(service.is_enabled());
}

#[test]
fn test_disabled_smtp() {
    let mut config = create_test_config();
    config.enabled = false;
    let service = SmtpService::new(config);
    assert!(!service.is_enabled());
}

#[test]
fn test_verification_email_body() {
    let config = create_test_config();
    let service = SmtpService::new(config);
    let body = service.create_verification_email_body("123456");

    assert!(body.contains("123456"));
    assert!(body.contains("GeekTools"));
    assert!(body.contains("验证码"));
}

#[test]
fn verification_mail_holds_the_code_once_in_its_place() {
    let service = SmtpService::new(create_test_config());
    let body = service.create_verification_email_body("987654");
    assert_eq!(body.matches("987654").count(), 1);
    assert!(body.contains("<div class=\"verification-code\">987654</div>"));
    assert!(body.starts_with("\n<!DOCTYPE html>\n<html lang=\"zh-CN\">\n<head>\n    <meta charset=\"UTF-8\">"));
    assert!(body.contains("        body {\n            font-family: -apple-system"));
    assert!(body.trim_end().ends_with("</html>"));
    assert_eq!(body, format!("{}987654{}", VERIFICATION_MAIL_HEAD, VERIFICATION_MAIL_TAIL));
    assert_eq!(VERIFICATION_MAIL_SUBJECT, "GeekTools 插件市场 - 邮箱验证码");
}

#[test]
fn mail_needs_both_credentials() {
    let mut config = create_test_config();
    config.username = String::new();
    let service = SmtpService::new(config);
    assert!(!service.is_enabled());
    assert_eq!(service.send_refusal(), Some("SMTP credentials are not configured"));
    let mut config = create_test_config();
    config.password = String::new();
    let mut service = SmtpService::new(config);
    assert!(!service.is_enabled());
    assert_eq!(service.send_refusal(), Some("SMTP credentials are not configured"));
    service.update_config(create_test_config());
    assert!(service.is_enabled());
    assert_eq!(service.send_refusal(), None);
    let mut config = create_test_config();
    config.enabled = false;
    config.username = String::new();
    service.update_config(config);
    assert_eq!(service.send_refusal(), Some("SMTP is not enabled"));
}
