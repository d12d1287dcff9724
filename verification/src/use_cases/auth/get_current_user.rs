use crate::domain::{EmailAddress, User};
use crate::errors::{literal, ApplicationError, ErrorKind, refusal_of};
use vstd::prelude::*;

verus! {

/// The response that describes the signed-in user.
#[derive(Debug, Clone)]
pub struct CurrentUserResponse {
    pub user: UserDetail,
}

/// What is shown of a user account. Times are RFC 3339 text.
#[derive(Debug, Clone)]
pub struct UserDetail {
    pub id: i32,
    pub login: String,
    pub admin: bool,
    pub firstname: String,
    pub lastname: String,
    /// The default e-mail address; empty when there is none.
    pub mail: String,
    pub created_on: Option<String>,
    pub updated_on: Option<String>,
    pub last_login_on: Option<String>,
    pub passwd_changed_on: Option<String>,
    pub twofa_scheme: Option<String>,
    pub api_key: Option<String>,
    pub status: i32,
}

/// Whether a detail shows the user, the address and the key.
pub open spec fn detail_shows(
    d: UserDetail,
    user: User,
    email: Option<EmailAddress>,
    api_key: Option<String>,
) -> bool {
    &&& d.id == user.id
    &&& d.login == user.login
    &&& d.admin == user.admin
    &&& d.firstname == user.firstname
    &&& d.lastname == user.lastname
    &&& d.mail@ == match email {
        Some(e) => e.address@,
        None => Seq::<char>::empty(),
    }
    &&& d.created_on == user.created_on
    &&& d.updated_on == user.updated_on
    &&& d.last_login_on == user.last_login_on
    &&& d.passwd_changed_on == user.passwd_changed_on
    &&& d.twofa_scheme == user.twofa_scheme
    &&& d.api_key == api_key
    &&& d.status == user.status
}

impl UserDetail {
    /// What is shown of the user, with its default e-mail address and API key.
    pub fn from_user(user: &User, email: Option<EmailAddress>, api_key: Option<String>) -> (d:
        Self)
        ensures
            detail_shows(d, *user, email, api_key),
    {
        let mail = match email {
            Some(e) => e.address,
            None => String::new(),
        };
        UserDetail {
            id: user.id,
            login: user.login.clone(),
            admin: user.admin,
            firstname: user.firstname.clone(),
            lastname: user.lastname.clone(),
            mail,
            created_on: clone_opt(&user.created_on),
            updated_on: clone_opt(&user.updated_on),
            last_login_on: clone_opt(&user.last_login_on),
            passwd_changed_on: clone_opt(&user.passwd_changed_on),
            twofa_scheme: clone_opt(&user.twofa_scheme),
            api_key,
            status: user.status,
        }
    }
}

/// A copy of an optional string.
pub fn clone_opt(s: &Option<String>) -> (r: Option<String>)
    ensures
        r == *s,
{
    match s {
        Some(t) => Some(t.clone()),
        None => None,
    }
}

/// Describes the signed-in user.
#[derive(Debug)]
pub struct GetCurrentUserUseCase {}

impl GetCurrentUserUseCase {
    pub fn new() -> (u: Self) {
        GetCurrentUserUseCase {  }
    }

    /// The user that was looked up, or the error for one that does not exist.
    pub fn require_user(&self, found: Option<User>) -> (r: Result<User, ApplicationError>)
        ensures
            match found {
                Some(u) => r == Ok::<User, ApplicationError>(u),
                None => refusal_of(r) == Some((ErrorKind::NotFound, "User not found"@)),
            },
    {
        match found {
            Some(u) => Ok(u),
            None => Err(ApplicationError::NotFound(literal("User not found"))),
        }
    }

    /// The response that describes the user.
    pub fn build_response(&self, user: &User, email: Option<EmailAddress>, api_key: Option<String>) -> (r:
        CurrentUserResponse)
        ensures
            detail_shows(r.user, *user, email, api_key),
    {
        CurrentUserResponse { user: UserDetail::from_user(user, email, api_key) }
    }
}

} // verus!
