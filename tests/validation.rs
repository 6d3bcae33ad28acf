use rext_core::user::{UserLogin, UserRegistration};
use rext_core::validation::{
    validate_email, validate_login_input, validate_password, validate_registration_input, BAD_REQUEST,
};

#[test]
fn email_rules() {
    assert!(validate_email("a@b.c").is_ok());
    let e = validate_email("").unwrap_err();
    assert_eq!(e.message, "Email is required");
    assert_eq!(e.status_code, BAD_REQUEST);
    assert_eq!(validate_email("ab.c").unwrap_err().message, "Invalid email format");
    assert_eq!(validate_email("a@bc").unwrap_err().message, "Invalid email format");
}

#[test]
fn password_rules() {
    assert!(validate_password("secret").is_ok());
    assert_eq!(validate_password("").unwrap_err().message, "Password is required");
    assert_eq!(validate_password("12345").unwrap_err().message, "Password must be at least 6 characters");
    // Length counts bytes: three two-byte characters are long enough.
    assert!(validate_password("ééé").is_ok());
}

#[test]
fn credentials_report_email_first() {
    assert_eq!(validate_registration_input("", "").unwrap_err().message, "Email is required");
    assert_eq!(validate_login_input("a@b.c", "x").unwrap_err().message, "Password must be at least 6 characters");
    assert!(validate_login_input("a@b.c", "longenough").is_ok());
    assert!(validate_registration_input("a@b.c", "longenough").is_ok());
}

#[test]
fn user_inputs_keep_their_fields() {
    let r = UserRegistration::new("a@b.c".to_string(), "pw".to_string());
    assert_eq!((r.email.as_str(), r.password.as_str()), ("a@b.c", "pw"));
    let l = UserLogin::new("x@y.z".to_string(), "secret".to_string());
    assert_eq!((l.email.as_str(), l.password.as_str()), ("x@y.z", "secret"));
}
