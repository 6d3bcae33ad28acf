use std::str::FromStr;

use rext_core::email::{EmailConfig, EmailContentType, EmailResult, EmailService, EmailServiceType, EmailSettings};

fn settings() -> EmailSettings {
    EmailSettings {
        smtp_host: Some("smtp.example.org".to_string()),
        smtp_username: Some("user".to_string()),
        smtp_password: Some("SECRET-REDACTED".to_string()),
        from_email: Some("noreply@example.org".to_string()),
        ..EmailSettings::default()
    }
}

#[test]
fn variables_are_replaced_in_order() {
    let vars = Some(vec![
        ("user_name".to_string(), "Ada".to_string()),
        ("app_name".to_string(), "Blog".to_string()),
    ]);
    let out = EmailService::process_template_variables("Hi {{user_name}}, welcome to {{app_name}}! {{other}}", &vars);
    assert_eq!(out, "Hi Ada, welcome to Blog! {{other}}");
    assert_eq!(EmailService::process_template_variables("{{x}}", &None), "{{x}}");
    let chained = Some(vec![("a".to_string(), "{{b}}".to_string()), ("b".to_string(), "B".to_string())]);
    assert_eq!(EmailService::process_template_variables("{{a}}", &chained), "B");
}

#[test]
fn predefined_templates() {
    let t = EmailService::get_email_template("welcome").unwrap();
    assert_eq!(t.subject, "Welcome to {{app_name}}!");
    assert!(t.body.starts_with("Hello {{user_name}},"));
    assert_eq!(t.content_type, EmailContentType::Text);
    let n = EmailService::get_email_template("notification").unwrap();
    assert_eq!((n.subject.as_str(), n.body.as_str()), ("{{subject}}", "{{message}}"));
    assert!(EmailService::get_email_template("password_reset").unwrap().body.contains("{{reset_link}}"));
    assert!(EmailService::get_email_template("verification").unwrap().body.contains("{{verification_link}}"));
    assert_eq!(EmailService::get_email_template("nope").unwrap_err(), "Unknown email template: nope");
}

#[test]
fn email_config_from_settings() {
    let c = EmailConfig::from_settings(&settings()).unwrap();
    assert_eq!(c.smtp_port, 587);
    assert_eq!(c.from_name, "Rext Application");
    assert_eq!(c.service_type, EmailServiceType::SMTP);
    let mut s = settings();
    s.smtp_port = Some("2525".to_string());
    s.from_name = Some("Blog".to_string());
    let c = EmailConfig::from_settings(&s).unwrap();
    assert_eq!((c.smtp_port, c.from_name.as_str()), (2525, "Blog"));
    s.smtp_port = Some("smtp".to_string());
    assert_eq!(EmailConfig::from_settings(&s).unwrap_err(), "EMAIL_SMTP_PORT must be a valid port number");
    let mut s = settings();
    s.smtp_host = None;
    assert_eq!(EmailConfig::from_settings(&s).unwrap_err(), "EMAIL_SMTP_HOST environment variable is required");
    let mut s = settings();
    s.from_email = None;
    assert_eq!(EmailConfig::from_settings(&s).unwrap_err(), "EMAIL_FROM_ADDRESS environment variable is required");
}

#[test]
fn service_type_reads_any_text() {
    assert_eq!(EmailServiceType::from_str("smtp"), Ok(EmailServiceType::SMTP));
    assert_eq!(EmailServiceType::SMTP.name(), "SMTP");
    assert!(matches!(EmailResult::Failed("x".to_string()), EmailResult::Failed(_)));
    assert!(matches!(EmailResult::Success, EmailResult::Success));
}
