//! Domain inputs of the generated backend's user handling.
use vstd::prelude::*;

verus! {

/// Domain model for user registration
#[derive(Debug)]
pub struct UserRegistration {
    pub email: String,
    pub password: String,
}

impl UserRegistration {
    pub fn new(email: String, password: String) -> (r: Self)
        ensures
            r.email == email,
            r.password == password,
    {
        Self { email, password }
    }
}

/// Domain model for user login
#[derive(Debug)]
pub struct UserLogin {
    pub email: String,
    pub password: String,
}

impl UserLogin {
    pub fn new(email: String, password: String) -> (r: Self)
        ensures
            r.email == email,
            r.password == password,
    {
        Self { email, password }
    }
}

} // verus!
