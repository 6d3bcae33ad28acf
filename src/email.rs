//! Email templates and settings of the generated backend.
use vstd::prelude::*;

use crate::server_config::{parse_port, parse_port_spec};
use crate::text::{owned, push_str, replace_all, replace_text};

verus! {

/// Represents all supported email services
#[derive(Debug, Clone, Copy, PartialEq, Eq, Structural)]
pub enum EmailServiceType {
    SMTP,
}

impl std::str::FromStr for EmailServiceType {
    type Err = String;

    fn from_str(_s: &str) -> Result<Self, String> {
        Ok(EmailServiceType::SMTP)
    }
}

impl EmailServiceType {
    /// The name of the service type.
    pub fn name(&self) -> (r: &'static str)
        ensures
            r@ == "SMTP"@,
    {
        "SMTP"
    }
}

/// Email service configuration
#[derive(Debug, Clone)]
pub struct EmailConfig {
    /// SMTP service provider (currently only "smtp" is supported)
    pub service_type: EmailServiceType,
    /// SMTP server hostname
    pub smtp_host: String,
    /// SMTP server port
    pub smtp_port: u16,
    /// SMTP username
    pub smtp_username: String,
    /// SMTP password
    pub smtp_password: String,
    /// From email address
    pub from_email: String,
    /// From name (display name)
    pub from_name: String,
    /// Reply-to email address (optional)
    pub reply_to_email: Option<String>,
    /// Reply-to name (optional)
    pub reply_to_name: Option<String>,
}

/// The settings that the email configuration is read from, each when given.
#[derive(Debug, Clone, Default)]
pub struct EmailSettings {
    pub service_type: Option<String>,
    pub smtp_host: Option<String>,
    pub smtp_port: Option<String>,
    pub smtp_username: Option<String>,
    pub smtp_password: Option<String>,
    pub from_email: Option<String>,
    pub from_name: Option<String>,
    pub reply_to_email: Option<String>,
    pub reply_to_name: Option<String>,
}

/// The message for a required setting that is missing, or `None` when every
/// required setting is given and the port, when given, is a valid port.
pub open spec fn email_settings_problem(s: EmailSettings) -> Option<Seq<char>> {
    if s.smtp_host is None {
        Some("EMAIL_SMTP_HOST environment variable is required"@)
    } else if s.smtp_port matches Some(p) && parse_port_spec(p@) is None {
        Some("EMAIL_SMTP_PORT must be a valid port number"@)
    } else if s.smtp_username is None {
        Some("EMAIL_SMTP_USERNAME environment variable is required"@)
    } else if s.smtp_password is None {
        Some("EMAIL_SMTP_PASSWORD environment variable is required"@)
    } else if s.from_email is None {
        Some("EMAIL_FROM_ADDRESS environment variable is required"@)
    } else {
        None
    }
}

fn required(v: &Option<String>, message: &str) -> (r: Result<String, String>)
    ensures
        match v {
            Some(s) => r matches Ok(x) && x@ == s@,
            None => r matches Err(e) && e@ == message@,
        },
{
    match v {
        Some(s) => Ok(s.clone()),
        None => Err(owned(message)),
    }
}

impl EmailConfig {
    /// Builds the email configuration from its settings. The host, username,
    /// password and sender address are required; the port defaults to 587 and
    /// must be a valid port, and the sender name defaults to `Rext Application`.
    pub fn from_settings(s: &EmailSettings) -> (r: Result<EmailConfig, String>)
        ensures
            match email_settings_problem(*s) {
                Some(m) => r matches Err(e) && e@ == m,
                None => r matches Ok(c) && {
                    &&& c.smtp_host@ == s.smtp_host->0@
                    &&& c.smtp_port == match s.smtp_port {
                        Some(p) => parse_port_spec(p@)->0,
                        None => 587u16,
                    }
                    &&& c.smtp_username@ == s.smtp_username->0@
                    &&& c.smtp_password@ == s.smtp_password->0@
                    &&& c.from_email@ == s.from_email->0@
                    &&& c.from_name@ == match s.from_name {
                        Some(n) => n@,
                        None => "Rext Application"@,
                    }
                    &&& c.reply_to_email == s.reply_to_email
                    &&& c.reply_to_name == s.reply_to_name
                },
            },
    {
        let smtp_host = match required(&s.smtp_host, "EMAIL_SMTP_HOST environment variable is required") {
            Ok(x) => x,
            Err(e) => return Err(e),
        };
        let smtp_port: u16 = match &s.smtp_port {
            Some(p) => match parse_port(p.as_str()) {
                Some(n) => n,
                None => return Err(owned("EMAIL_SMTP_PORT must be a valid port number")),
            },
            None => 587,
        };
        let smtp_username = match required(&s.smtp_username, "EMAIL_SMTP_USERNAME environment variable is required") {
            Ok(x) => x,
            Err(e) => return Err(e),
        };
        let smtp_password = match required(&s.smtp_password, "EMAIL_SMTP_PASSWORD environment variable is required") {
            Ok(x) => x,
            Err(e) => return Err(e),
        };
        let from_email = match required(&s.from_email, "EMAIL_FROM_ADDRESS environment variable is required") {
            Ok(x) => x,
            Err(e) => return Err(e),
        };
        let from_name = match &s.from_name {
            Some(n) => n.clone(),
            None => owned("Rext Application"),
        };
        Ok(EmailConfig {
            service_type: EmailServiceType::SMTP,
            smtp_host,
            smtp_port,
            smtp_username,
            smtp_password,
            from_email,
            from_name,
            reply_to_email: s.reply_to_email.clone(),
            reply_to_name: s.reply_to_name.clone(),
        })
    }
}

/// Content type for emails
#[derive(Debug, Clone, Copy, PartialEq, Eq, Structural)]
pub enum EmailContentType {
    Text,
    Html,
}

/// Email template for sending
#[derive(Debug, Clone)]
pub struct EmailTemplate {
    pub subject: String,
    pub body: String,
    pub content_type: EmailContentType,
}

/// Email sending result
#[derive(Debug)]
pub enum EmailResult {
    Success,
    Failed(String),
}

/// Email service: the template work that needs no mail transport.
pub struct EmailService;

/// The placeholder for a template variable: its name in double braces.
pub open spec fn placeholder(key: Seq<char>) -> Seq<char> {
    "{{"@ + key + "}}"@
}

/// `content` with each variable's placeholder replaced by its value, one
/// variable after another in the given order.
pub open spec fn apply_variables(content: Seq<char>, vars: Seq<(String, String)>) -> Seq<char>
    decreases vars.len(),
{
    if vars.len() == 0 {
        content
    } else {
        replace_all(apply_variables(content, vars.drop_last()), placeholder(vars.last().0@), vars.last().1@)
    }
}

/// The subject and body of a predefined template, by name.
pub open spec fn template_text(name: Seq<char>) -> Option<(Seq<char>, Seq<char>)> {
    if name == "welcome"@ {
        Some(
            (
                "Welcome to {{app_name}}!"@,
                "Hello {{user_name}},\n\nWelcome to {{app_name}}! We're excited to have you on board.\n\nBest regards,\nThe {{app_name}} Team"@,
            ),
        )
    } else if name == "password_reset"@ {
        Some(
            (
                "Password Reset Request"@,
                "Hello {{user_name}},\n\nYou have requested a password reset. Click the link below to reset your password:\n\n{{reset_link}}\n\nIf you didn't request this, please ignore this email.\n\nBest regards,\nThe {{app_name}} Team"@,
            ),
        )
    } else if name == "verification"@ {
        Some(
            (
                "Please verify your email address"@,
                "Hello {{user_name}},\n\nPlease click the link below to verify your email address:\n\n{{verification_link}}\n\nBest regards,\nThe {{app_name}} Team"@,
            ),
        )
    } else if name == "notification"@ {
        Some(("{{subject}}"@, "{{message}}"@))
    } else {
        None
    }
}

fn text_template(subject: &str, body: &str) -> (r: EmailTemplate)
    ensures
        r.subject@ == subject@,
        r.body@ == body@,
        r.content_type == EmailContentType::Text,
{
    EmailTemplate { subject: owned(subject), body: owned(body), content_type: EmailContentType::Text }
}

impl EmailService {
    /// Replaces each variable's placeholder `{{name}}` in `content` by its
    /// value, one variable after another in the given order.
    pub fn process_template_variables(content: &str, variables: &Option<Vec<(String, String)>>) -> (r: String)
        ensures
            r@ == match variables {
                Some(vars) => apply_variables(content@, vars@),
                None => content@,
            },
    {
        match variables {
            None => owned(content),
            Some(vars) => {
                let mut processed = owned(content);
                for i in 0..vars.len()
                    invariant
                        processed@ == apply_variables(content@, vars@.take(i as int)),
                {
                    let mut key = owned("{{");
                    push_str(&mut key, vars[i].0.as_str());
                    push_str(&mut key, "}}");
                    let next = replace_text(processed.as_str(), key.as_str(), vars[i].1.as_str());
                    assert(vars@.take(i + 1).drop_last() =~= vars@.take(i as int));
                    processed = next;
                }
                assert(vars@.take(vars.len() as int) =~= vars@);
                processed
            },
        }
    }

    /// Get a predefined email template by name
    pub fn get_email_template(template_name: &str) -> (r: Result<EmailTemplate, String>)
        ensures
            match template_text(template_name@) {
                Some((subject, body)) => r matches Ok(t) && t.subject@ == subject && t.body@ == body
                    && t.content_type == EmailContentType::Text,
                None => r matches Err(e) && e@ == "Unknown email template: "@ + template_name@,
            },
    {
        let name = owned(template_name);
        if name == owned("welcome") {
            Ok(text_template(
                "Welcome to {{app_name}}!",
                "Hello {{user_name}},\n\nWelcome to {{app_name}}! We're excited to have you on board.\n\nBest regards,\nThe {{app_name}} Team",
            ))
        } else if name == owned("password_reset") {
            Ok(text_template(
                "Password Reset Request",
                "Hello {{user_name}},\n\nYou have requested a password reset. Click the link below to reset your password:\n\n{{reset_link}}\n\nIf you didn't request this, please ignore this email.\n\nBest regards,\nThe {{app_name}} Team",
            ))
        } else if name == owned("verification") {
            Ok(text_template(
                "Please verify your email address",
                "Hello {{user_name}},\n\nPlease click the link below to verify your email address:\n\n{{verification_link}}\n\nBest regards,\nThe {{app_name}} Team",
            ))
        } else if name == owned("notification") {
            Ok(text_template("{{subject}}", "{{message}}"))
        } else {
            let mut m = owned("Unknown email template: ");
            push_str(&mut m, template_name);
            Err(m)
        }
    }
}

} // verus!
