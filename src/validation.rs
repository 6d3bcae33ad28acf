//! Input validation of the generated backend's registration and login.
use vstd::prelude::*;


use crate::text::{chars_of, owned};

verus! {

/// The status code of a request that the server rejects as malformed.
pub const BAD_REQUEST: u16 = 400;

/// An error to be returned to a client: its message and HTTP status code.
#[derive(Debug, Clone, PartialEq, Eq)]
pub struct AppError {
    pub message: String,
    pub status_code: u16,
}

/// What is wrong with an email address, if anything: it must be present, and
/// hold an `@` and a `.`.
pub open spec fn email_problem(email: Seq<char>) -> Option<Seq<char>> {
    if email.len() == 0 {
        Some("Email is required"@)
    } else if !email.contains('@') || !email.contains('.') {
        Some("Invalid email format"@)
    } else {
        None
    }
}

/// What is wrong with a password, if anything: it must be present, and at
/// least 6 bytes long.
pub open spec fn password_problem(password: &str) -> Option<Seq<char>> {
    if password@.len() == 0 {
        Some("Password is required"@)
    } else if password.len() < 6 {
        Some("Password must be at least 6 characters"@)
    } else {
        None
    }
}

/// What is wrong with an email and password pair: the email's problem first.
pub open spec fn credentials_problem(email: &str, password: &str) -> Option<Seq<char>> {
    match email_problem(email@) {
        Some(m) => Some(m),
        None => password_problem(password),
    }
}

/// `r` reports `problem` as a bad request, or succeeds when there is none.
pub open spec fn reports(r: Result<(), AppError>, problem: Option<Seq<char>>) -> bool {
    match problem {
        Some(m) => r matches Err(e) && e.message@ == m && e.status_code == BAD_REQUEST,
        None => r is Ok,
    }
}

fn has_char(v: &Vec<char>, c: char) -> (r: bool)
    ensures
        r == v@.contains(c),
{
    for i in 0..v.len()
        invariant
            forall|j: int| 0 <= j < i ==> v@[j] != c,
    {
        if v[i] == c {
            return true;
        }
    }
    false
}

fn bad_request(message: &str) -> (r: AppError)
    ensures
        r.message@ == message@,
        r.status_code == BAD_REQUEST,
{
    AppError { message: owned(message), status_code: BAD_REQUEST }
}

/// Validates email format
pub fn validate_email(email: &str) -> (r: Result<(), AppError>)
    ensures
        reports(r, email_problem(email@)),
{
    if email.is_empty() {
        return Err(bad_request("Email is required"));
    }
    let v = chars_of(email);
    if !has_char(&v, '@') || !has_char(&v, '.') {
        return Err(bad_request("Invalid email format"));
    }
    Ok(())
}

/// Validates password strength
pub fn validate_password(password: &str) -> (r: Result<(), AppError>)
    ensures
        reports(r, password_problem(password)),
{
    if password.is_empty() {
        return Err(bad_request("Password is required"));
    }
    if password.len() < 6 {
        return Err(bad_request("Password must be at least 6 characters"));
    }
    Ok(())
}

/// Validates registration input
pub fn validate_registration_input(email: &str, password: &str) -> (r: Result<(), AppError>)
    ensures
        reports(r, credentials_problem(email, password)),
{
    match validate_email(email) {
        Err(e) => return Err(e),
        Ok(()) => {},
    }
    validate_password(password)
}

/// Validates login input
pub fn validate_login_input(email: &str, password: &str) -> (r: Result<(), AppError>)
    ensures
        reports(r, credentials_problem(email, password)),
{
    match validate_email(email) {
        Err(e) => return Err(e),
        Ok(()) => {},
    }
    validate_password(password)
}

} // verus!
