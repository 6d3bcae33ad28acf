//! Reading the bearer token of the generated backend's requests.
use vstd::prelude::*;

use crate::text::{chars_of, owned, starts_with, starts_with_chars, string_of};
use crate::validation::AppError;

verus! {

/// The status code of a request that lacks valid credentials.
pub const UNAUTHORIZED: u16 = 401;

/// Token service
pub struct TokenService;

/// What a session token asserts.
#[derive(Debug, Clone)]
pub struct Claims {
    /// subject (user id)
    pub sub: String,
    /// expiration time, in seconds since the Unix epoch
    pub exp: usize,
    /// session UUID for tracking
    pub session_id: String,
}

/// The token that an `Authorization` header value carries: what follows the
/// `Bearer ` prefix, if the value has it.
pub open spec fn bearer_token(header: Seq<char>) -> Option<Seq<char>> {
    if starts_with(header, "Bearer "@) {
        Some(header.skip(7))
    } else {
        None
    }
}

impl TokenService {
    /// Extracts the token from the value of the `Authorization` header, if the
    /// request has one that is readable text. No validation is performed.
    pub fn extract_token_from_header(authorization: Option<&str>) -> (r: Result<String, AppError>)
        ensures
            match authorization {
                None => r matches Err(e) && e.status_code == UNAUTHORIZED && e.message@
                    == "Missing Authorization header"@,
                Some(h) => match bearer_token(h@) {
                    Some(t) => r matches Ok(s) && s@ == t,
                    None => r matches Err(e) && e.status_code == UNAUTHORIZED && e.message@
                        == "Invalid Authorization header format"@,
                },
            },
    {
        let header = match authorization {
            Some(h) => h,
            None => {
                return Err(AppError { message: owned("Missing Authorization header"), status_code: UNAUTHORIZED });
            },
        };
        let v = chars_of(header);
        let prefix = chars_of("Bearer ");
        proof {
            reveal_strlit("Bearer ");
        }
        if !starts_with_chars(&v, &prefix) {
            return Err(AppError { message: owned("Invalid Authorization header format"), status_code: UNAUTHORIZED });
        }
        let mut rest: Vec<char> = Vec::new();
        let mut i: usize = 7;
        while i < v.len()
            invariant
                7 <= i <= v.len(),
                rest@ == v@.subrange(7, i as int),
            decreases v.len() - i,
        {
            rest.push(v[i]);
            i = i + 1;
            assert(rest@ =~= v@.subrange(7, i as int));
        }
        assert(rest@ =~= v@.skip(7));
        Ok(string_of(&rest))
    }

    /// Accepts decoded claims at time `now` (seconds since the Unix epoch)
    /// unless they expired before it.
    pub fn check_expiry(claims: Claims, now: usize) -> (r: Result<Claims, AppError>)
        ensures
            claims.exp < now ==> (r matches Err(e) && e.status_code == UNAUTHORIZED && e.message@
                == "Token expired"@),
            claims.exp >= now ==> r == Ok::<Claims, AppError>(claims),
    {
        if claims.exp < now {
            return Err(AppError { message: owned("Token expired"), status_code: UNAUTHORIZED });
        }
        Ok(claims)
    }
}

} // verus!
