use crate::domain::{User, USER_STATUS_ACTIVE, USER_STATUS_LOCKED};
use crate::dto::LoginRequest;
use crate::errors::{literal, ApplicationError, ErrorKind, Refusal, refusal_of};
use crate::text::{trim, trim_chars};
use crate::use_cases::flow::{check_after, follows, proceed, Decision, Next};
use vstd::prelude::*;

verus! {

/// The response to a successful login.
#[derive(Debug, Clone)]
pub struct LoginResponse {
    pub token: String,
    pub user: UserSummary,
}

/// What a login shows of the user.
#[derive(Debug, Clone)]
pub struct UserSummary {
    pub id: i32,
    pub login: String,
    pub firstname: String,
    pub lastname: String,
    pub admin: bool,
}

impl From<User> for UserSummary {
    fn from(user: User) -> (r: Self) {
        UserSummary {
            id: user.id,
            login: user.login,
            firstname: user.firstname,
            lastname: user.lastname,
            admin: user.admin,
        }
    }
}

impl vstd::std_specs::convert::FromSpecImpl<User> for UserSummary {
    open spec fn obeys_from_spec() -> bool {
        true
    }

    open spec fn from_spec(user: User) -> Self {
        UserSummary {
            id: user.id,
            login: user.login,
            firstname: user.firstname,
            lastname: user.lastname,
            admin: user.admin,
        }
    }
}

/// Signs users in by login and password.
#[derive(Debug)]
pub struct LoginUseCase {}

/// The refusal for an unknown login or a wrong password.
pub open spec fn bad_credentials() -> Refusal {
    (ErrorKind::Unauthorized, "Invalid username or password"@)
}

/// The refusal of an account, if it is refused before its password is looked at: an unknown
/// login, a locked account, an account that is not active.
pub open spec fn account_refusal(found: Option<User>) -> Option<Refusal> {
    match found {
        None => Some(bad_credentials()),
        Some(u) => if u.status == USER_STATUS_LOCKED {
            Some((ErrorKind::Forbidden, "Account is locked"@))
        } else if u.status != USER_STATUS_ACTIVE {
            Some((ErrorKind::Forbidden, "Account is not active"@))
        } else {
            None
        },
    }
}

/// The refusal of a login attempt, if it is refused: the account's refusal comes first,
/// then a wrong password.
pub open spec fn login_refusal(found: Option<User>, password_ok: bool) -> Option<Refusal> {
    if account_refusal(found) is Some {
        account_refusal(found)
    } else if !password_ok {
        Some(bad_credentials())
    } else {
        None
    }
}

/// What a login looks up, in the order it is needed.
#[derive(Debug, Clone, Copy, PartialEq, Eq, Structural)]
pub enum LoginLookup {
    /// The account, by its login name (`login_name`).
    Account,
    /// Whether the password matches the account's (`password_material`).
    PasswordCheck,
}

/// What has been looked up for a login: `None` where nothing is known yet.
#[derive(Debug)]
pub struct LoginFacts {
    pub account: Option<Option<User>>,
    pub password_ok: Option<bool>,
}

/// The refusal of a wrong password.
pub open spec fn password_refusal(password_ok: bool) -> Option<Refusal> {
    if password_ok {
        None
    } else {
        Some(bad_credentials())
    }
}

/// How a login is decided: the account, then the password. The first check that fails
/// answers, and a check waits for what it reads to be looked up; a token is made only after
/// both passed.
pub open spec fn login_decision(f: LoginFacts) -> Decision<LoginLookup> {
    check_after(
        f.account is Some,
        LoginLookup::Account,
        account_refusal(f.account.unwrap()),
        check_after(
            f.password_ok is Some,
            LoginLookup::PasswordCheck,
            password_refusal(f.password_ok.unwrap()),
            proceed(),
        ),
    )
}

/// Once both the account and the password are known, the decision refuses exactly where
/// `login_refusal` does.
pub proof fn login_decision_matches_refusal(account: Option<User>, password_ok: bool)
    ensures
        login_decision(LoginFacts { account: Some(account), password_ok: Some(password_ok) })
            == match login_refusal(account, password_ok) {
            Some(r) => Err::<Option<LoginLookup>, Refusal>(r),
            None => proceed(),
        },
{
}

impl LoginFacts {
    /// Nothing looked up yet.
    pub fn new() -> (f: Self)
        ensures
            f.account is None,
            f.password_ok is None,
    {
        LoginFacts { account: None, password_ok: None }
    }
}

/// The refusal of an account, if it is refused.
fn account_error(found: &Option<User>) -> (r: Result<(), ApplicationError>)
    ensures
        refusal_of(r) == account_refusal(*found),
{
    match found {
        None => Err(ApplicationError::Unauthorized(literal("Invalid username or password"))),
        Some(u) => {
            if u.status == USER_STATUS_LOCKED {
                Err(ApplicationError::Forbidden(literal("Account is locked")))
            } else if u.status != USER_STATUS_ACTIVE {
                Err(ApplicationError::Forbidden(literal("Account is not active")))
            } else {
                Ok(())
            }
        },
    }
}

impl LoginUseCase {
    pub fn new() -> (u: Self) {
        LoginUseCase {  }
    }

    /// What comes next in a login: what to look up, the refusal, or leave to make the token.
    pub fn next_step(&self, facts: &LoginFacts) -> (n: Next<LoginLookup>)
        ensures
            follows(n, login_decision(*facts)),
    {
        match &facts.account {
            None => return Next::Fetch(LoginLookup::Account),
            Some(found) => if let Err(e) = account_error(found) {
                return Next::Refuse(e);
            },
        }
        match facts.password_ok {
            None => Next::Fetch(LoginLookup::PasswordCheck),
            Some(ok) => match self.check_password(ok) {
                Err(e) => Next::Refuse(e),
                Ok(()) => Next::Proceed,
            },
        }
    }

    /// The login to look up: the username without leading or trailing white space.
    pub fn login_name(&self, dto: &LoginRequest) -> (s: String)
        ensures
            s@ == trim_chars(dto.username@),
    {
        trim(dto.username.as_str())
    }

    /// Accepts an account that exists and is active; refuses unknown logins, locked accounts
    /// and accounts that are not active.
    pub fn check_account(&self, found: Option<User>) -> (r: Result<User, ApplicationError>)
        ensures
            refusal_of(r) == account_refusal(found),
            r matches Ok(u) ==> found == Some(u),
    {
        match found {
            None => Err(ApplicationError::Unauthorized(literal("Invalid username or password"))),
            Some(u) => {
                if u.status == USER_STATUS_LOCKED {
                    Err(ApplicationError::Forbidden(literal("Account is locked")))
                } else if u.status != USER_STATUS_ACTIVE {
                    Err(ApplicationError::Forbidden(literal("Account is not active")))
                } else {
                    Ok(u)
                }
            },
        }
    }

    /// The salt and the hash to check the password against; empty when not recorded.
    pub fn password_material<'a>(&self, user: &'a User) -> (r: (&'a str, &'a str))
        ensures
            r.0@ == match user.salt {
                Some(s) => s@,
                None => ""@,
            },
            r.1@ == match user.hashed_password {
                Some(h) => h@,
                None => ""@,
            },
    {
        let salt = match &user.salt {
            Some(s) => s.as_str(),
            None => "",
        };
        let hash = match &user.hashed_password {
            Some(h) => h.as_str(),
            None => "",
        };
        (salt, hash)
    }

    /// Refuses a wrong password.
    pub fn check_password(&self, password_ok: bool) -> (r: Result<(), ApplicationError>)
        ensures
            refusal_of(r) == (if password_ok {
                None
            } else {
                Some(bad_credentials())
            }),
    {
        if password_ok {
            Ok(())
        } else {
            Err(ApplicationError::Unauthorized(literal("Invalid username or password")))
        }
    }

    /// The error for a token that could not be made.
    pub fn token_error(&self) -> (e: ApplicationError)
        ensures
            refusal_of::<()>(Err(e)) == Some((ErrorKind::Internal, "Failed to generate token"@)),
    {
        ApplicationError::Internal(literal("Failed to generate token"))
    }

    /// The response to a successful login.
    pub fn build_response(&self, token: String, user: User) -> (r: LoginResponse)
        ensures
            r.token == token,
            r.user.id == user.id,
            r.user.login == user.login,
            r.user.firstname == user.firstname,
            r.user.lastname == user.lastname,
            r.user.admin == user.admin,
    {
        LoginResponse { token, user: UserSummary::from(user) }
    }
}

/// A locked account is refused as locked, whatever password is given.
pub proof fn lemma_locked_account_refused(user: User, password_ok: bool)
    requires
        user.status == USER_STATUS_LOCKED,
    ensures
        login_refusal(Some(user), password_ok) == Some(
            (ErrorKind::Forbidden, "Account is locked"@),
        ),
{
}

/// A login succeeds exactly for an existing active account with the right password.
pub proof fn lemma_login_succeeds_iff(found: Option<User>, password_ok: bool)
    ensures
        login_refusal(found, password_ok) is None <==> (found matches Some(u) && u.status
            == USER_STATUS_ACTIVE && password_ok),
{
}

/// A token is made only for an account that exists, is active, and whose password matched.
pub proof fn token_made_only_for_active_account_with_matching_password(f: LoginFacts)
    requires
        login_decision(f) == Ok::<Option<LoginLookup>, Refusal>(None),
    ensures
        f.account matches Some(Some(u)) && u.status == USER_STATUS_ACTIVE,
        f.password_ok == Some(true),
{
}

/// Which accounts may sign in: an unknown login and a wrong password get the same answer, a
/// locked account and one that is not active are refused as forbidden, and an active account
/// with the right password is let in.
pub proof fn login_rule(found: Option<User>, password_ok: bool)
    ensures
        login_refusal(found, password_ok) is None <==> (found matches Some(u) && u.status
            == USER_STATUS_ACTIVE && password_ok),
        found is None ==> login_refusal(found, password_ok) == Some(
            (ErrorKind::Unauthorized, "Invalid username or password"@),
        ),
        (found matches Some(u) && u.status == USER_STATUS_ACTIVE) && !password_ok ==> login_refusal(
            found,
            password_ok,
        ) == Some((ErrorKind::Unauthorized, "Invalid username or password"@)),
        (found matches Some(u) && u.status == USER_STATUS_LOCKED) ==> login_refusal(
            found,
            password_ok,
        ) == Some((ErrorKind::Forbidden, "Account is locked"@)),
{
}

} // verus!
