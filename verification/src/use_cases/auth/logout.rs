use crate::errors::{literal, ApplicationError, ErrorKind, refusal_of};
use vstd::prelude::*;

verus! {

/// Signs users out by keeping their token on a list of revoked tokens until it would expire.
#[derive(Debug)]
pub struct LogoutUseCase {
    token_expiration_seconds: u64,
}

/// A token to keep on the list of revoked tokens: the user, the action that marks it revoked,
/// the token itself, and for how many seconds from now it is kept.
#[derive(Debug, Clone)]
pub struct TokenRevocation {
    pub user_id: i32,
    pub action: String,
    pub value: String,
    pub valid_for_seconds: i64,
}

/// The action under which revoked tokens are kept.
pub open spec fn blacklist_action() -> Seq<char> {
    "blacklist"@
}

impl LogoutUseCase {
    pub fn new(token_expiration_seconds: u64) -> (u: Self)
        ensures
            u.token_expiration() == token_expiration_seconds,
    {
        LogoutUseCase { token_expiration_seconds }
    }

    /// How long tokens live, in seconds.
    pub closed spec fn token_expiration(&self) -> u64 {
        self.token_expiration_seconds
    }

    /// The error for a token that is not valid.
    pub fn invalid_token_error(&self) -> (e: ApplicationError)
        ensures
            refusal_of::<()>(Err(e)) == Some((ErrorKind::Unauthorized, "Invalid token"@)),
    {
        ApplicationError::Unauthorized(literal("Invalid token"))
    }

    /// The record that revokes the user's token: kept under the blacklist action for as long
    /// as tokens live.
    pub fn revocation(&self, token: &str, user_id: i32) -> (r: TokenRevocation)
        ensures
            r.user_id == user_id,
            r.action@ == blacklist_action(),
            r.value@ == token@,
            r.valid_for_seconds == self.token_expiration() as i64,
    {
        TokenRevocation {
            user_id,
            action: literal("blacklist"),
            value: literal(token),
            valid_for_seconds: self.revocation_seconds(),
        }
    }

    /// The record that revokes the token, for a token that was found valid; a token that was
    /// not is refused, and nothing is to be kept.
    pub fn revocation_for(&self, token_valid: bool, token: &str, user_id: i32) -> (r: Result<
        TokenRevocation,
        ApplicationError,
    >)
        ensures
            !token_valid ==> refusal_of(r) == Some((ErrorKind::Unauthorized, "Invalid token"@)),
            token_valid ==> (r matches Ok(t) && {
                &&& t.user_id == user_id
                &&& t.action@ == blacklist_action()
                &&& t.value@ == token@
                &&& t.valid_for_seconds == self.token_expiration() as i64
            }),
    {
        if token_valid {
            Ok(self.revocation(token, user_id))
        } else {
            Err(self.invalid_token_error())
        }
    }

    /// For how many seconds from now the revoked token is kept, as a signed number of seconds.
    pub fn revocation_seconds(&self) -> (s: i64)
        ensures
            s == self.token_expiration() as i64,
    {
        self.token_expiration_seconds as i64
    }
}

} // verus!
