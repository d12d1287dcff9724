use crate::errors::literal;
use vstd::prelude::*;

verus! {

/// The credentials that a user logs in with.
#[derive(Debug)]
pub struct LoginRequest {
    pub username: String,
    pub password: String,
}

/// The messages of the rules that a login request breaks, in field order.
pub open spec fn login_request_errors(username: Seq<char>, password: Seq<char>) -> Seq<Seq<char>> {
    let a: Seq<Seq<char>> = if username.len() < 1 { seq!["Username is required"@] } else { seq![] };
    let b: Seq<Seq<char>> = if password.len() < 1 { seq!["Password is required"@] } else { seq![] };
    a + b
}

impl LoginRequest {
    /// Checks that both the username and the password hold at least one character.
    pub fn validate(&self) -> (r: Result<(), Vec<String>>)
        ensures
            match r {
                Ok(()) => login_request_errors(self.username@, self.password@).len() == 0,
                Err(es) => login_request_errors(self.username@, self.password@).len() > 0
                    && es@.map_values(|e: String| e@) == login_request_errors(
                    self.username@,
                    self.password@,
                ),
            },
    {
        let mut errors: Vec<String> = Vec::new();
        if self.username.as_str().unicode_len() < 1 {
            errors.push(literal("Username is required"));
        }
        let ghost after_first = errors@;
        if self.password.as_str().unicode_len() < 1 {
            errors.push(literal("Password is required"));
        }
        assert(errors@.map_values(|e: String| e@) =~= login_request_errors(
            self.username@,
            self.password@,
        ));
        if errors.len() == 0 {
            Ok(())
        } else {
            Err(errors)
        }
    }
}

} // verus!
