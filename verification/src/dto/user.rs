use crate::errors::literal;
use crate::text::{byte_len, byte_len_exceeds, contains_char, is_blank, is_blank_chars, trim, trim_chars};
use vstd::prelude::*;

verus! {

/// The request body that creates a user.
#[derive(Debug)]
pub struct CreateUserRequest {
    pub user: CreateUserDto,
}

/// The fields of a new user.
#[derive(Debug)]
pub struct CreateUserDto {
    pub login: String,
    pub firstname: String,
    pub lastname: String,
    pub mail: String,
    pub password: Option<String>,
    pub password_confirmation: Option<String>,
    pub admin: bool,
    /// 1 active, 2 registered, 3 locked.
    pub status: i32,
    pub language: String,
    /// Whether a random password is made instead of the given one.
    pub generate_password: bool,
    pub send_information: bool,
}

/// A new user is active unless the request says otherwise.
pub fn default_status() -> (s: i32)
    ensures
        s == 1,
{
    1
}

/// A new user speaks English unless the request says otherwise.
pub fn default_language() -> (s: String)
    ensures
        s@ == "en"@,
{
    literal("en")
}

/// What is wrong with a password and its confirmation, if anything.
pub open spec fn password_confirmation_problem(
    generate_password: bool,
    password: Option<String>,
    confirmation: Option<String>,
) -> Option<Seq<char>> {
    if generate_password {
        None
    } else {
        match (password, confirmation) {
            (Some(p), Some(c)) => if p@ == c@ {
                None
            } else {
                Some("Password confirmation doesn't match"@)
            },
            (Some(_), None) => Some("Password confirmation is required"@),
            (None, _) => Some("Password is required when generate_password is false"@),
        }
    }
}

/// The first of the required fields that is blank, by its message.
pub open spec fn required_fields_problem(dto: CreateUserDto) -> Option<Seq<char>> {
    if is_blank_chars(dto.login@) {
        Some("Login cannot be blank"@)
    } else if is_blank_chars(dto.firstname@) {
        Some("First name cannot be blank"@)
    } else if is_blank_chars(dto.lastname@) {
        Some("Last name cannot be blank"@)
    } else if is_blank_chars(dto.mail@) {
        Some("Email cannot be blank"@)
    } else {
        None
    }
}

/// What is wrong with an e-mail address: the trimmed text must hold an `@` and a `.`.
pub open spec fn email_problem(mail: Seq<char>) -> Option<Seq<char>> {
    if !trim_chars(mail).contains('@') || !trim_chars(mail).contains('.') {
        Some("Email is invalid"@)
    } else {
        None
    }
}

/// What is wrong with a user status: it must be 1, 2 or 3.
pub open spec fn status_problem(status: i32) -> Option<Seq<char>> {
    if 1 <= status <= 3 {
        None
    } else {
        Some("Status must be 1 (active), 2 (registered), or 3 (locked)"@)
    }
}

/// What is wrong with the length of a password: it must have at least 8 bytes.
pub open spec fn password_length_problem(generate_password: bool, password: Option<String>) -> Option<
    Seq<char>,
> {
    if generate_password {
        None
    } else {
        match password {
            Some(p) => if byte_len(p@) < 8 {
                Some("Password is too short (minimum is 8 characters)"@)
            } else {
                None
            },
            None => None,
        }
    }
}

/// The first problem of a new user, the checks taken in their order.
pub open spec fn create_user_problem(dto: CreateUserDto) -> Option<Seq<char>> {
    if required_fields_problem(dto) is Some {
        required_fields_problem(dto)
    } else if email_problem(dto.mail@) is Some {
        email_problem(dto.mail@)
    } else if status_problem(dto.status) is Some {
        status_problem(dto.status)
    } else if password_confirmation_problem(
        dto.generate_password,
        dto.password,
        dto.password_confirmation,
    ) is Some {
        password_confirmation_problem(
            dto.generate_password,
            dto.password,
            dto.password_confirmation,
        )
    } else {
        password_length_problem(dto.generate_password, dto.password)
    }
}

/// Checks a password against its confirmation.
fn check_password_confirmation(password: &Option<String>, confirmation: &Option<String>) -> (r:
    Result<(), String>)
    ensures
        match r {
            Ok(()) => password_confirmation_problem(false, *password, *confirmation) is None,
            Err(m) => password_confirmation_problem(false, *password, *confirmation) == Some(m@),
        },
{
    match (password, confirmation) {
        (Some(p), Some(c)) => if crate::text::str_eq(p.as_str(), c.as_str()) {
            Ok(())
        } else {
            Err(literal("Password confirmation doesn't match"))
        },
        (Some(_), None) => Err(literal("Password confirmation is required")),
        (None, _) => Err(literal("Password is required when generate_password is false")),
    }
}

impl CreateUserDto {
    /// Whether a password must be given: unless one is to be made.
    pub fn needs_password(&self) -> (b: bool)
        ensures
            b == !self.generate_password,
    {
        !self.generate_password
    }

    /// Checks that the password is given and matches its confirmation, unless one is to be made.
    pub fn validate_password_confirmation(&self) -> (r: Result<(), String>)
        ensures
            match r {
                Ok(()) => password_confirmation_problem(
                    self.generate_password,
                    self.password,
                    self.password_confirmation,
                ) is None,
                Err(m) => password_confirmation_problem(
                    self.generate_password,
                    self.password,
                    self.password_confirmation,
                ) == Some(m@),
            },
    {
        if self.generate_password {
            return Ok(());
        }
        check_password_confirmation(&self.password, &self.password_confirmation)
    }

    /// Checks that login, first name, last name and e-mail are not blank, in that order.
    pub fn validate_required_fields(&self) -> (r: Result<(), String>)
        ensures
            match r {
                Ok(()) => required_fields_problem(*self) is None,
                Err(m) => required_fields_problem(*self) == Some(m@),
            },
    {
        if is_blank(self.login.as_str()) {
            return Err(literal("Login cannot be blank"));
        }
        if is_blank(self.firstname.as_str()) {
            return Err(literal("First name cannot be blank"));
        }
        if is_blank(self.lastname.as_str()) {
            return Err(literal("Last name cannot be blank"));
        }
        if is_blank(self.mail.as_str()) {
            return Err(literal("Email cannot be blank"));
        }
        Ok(())
    }

    /// Checks that the trimmed e-mail address holds an `@` and a `.`.
    pub fn validate_email(&self) -> (r: Result<(), String>)
        ensures
            match r {
                Ok(()) => email_problem(self.mail@) is None,
                Err(m) => email_problem(self.mail@) == Some(m@),
            },
    {
        let mail = trim(self.mail.as_str());
        if !contains_char(mail.as_str(), '@') || !contains_char(mail.as_str(), '.') {
            return Err(literal("Email is invalid"));
        }
        Ok(())
    }

    /// Checks that the status is 1, 2 or 3.
    pub fn validate_status(&self) -> (r: Result<(), String>)
        ensures
            match r {
                Ok(()) => status_problem(self.status) is None,
                Err(m) => status_problem(self.status) == Some(m@),
            },
    {
        if 1 <= self.status && self.status <= 3 {
            Ok(())
        } else {
            Err(literal("Status must be 1 (active), 2 (registered), or 3 (locked)"))
        }
    }

    /// Checks that a given password has at least 8 bytes, unless one is to be made.
    pub fn validate_password_length(&self) -> (r: Result<(), String>)
        ensures
            match r {
                Ok(()) => password_length_problem(self.generate_password, self.password) is None,
                Err(m) => password_length_problem(self.generate_password, self.password) == Some(
                    m@,
                ),
            },
    {
        if self.generate_password {
            return Ok(());
        }
        match &self.password {
            Some(p) => if !byte_len_exceeds(p.as_str(), 7) {
                Err(literal("Password is too short (minimum is 8 characters)"))
            } else {
                Ok(())
            },
            None => Ok(()),
        }
    }

    /// Runs every check in order and reports the first that fails.
    pub fn validate(&self) -> (r: Result<(), String>)
        ensures
            match r {
                Ok(()) => create_user_problem(*self) is None,
                Err(m) => create_user_problem(*self) == Some(m@),
            },
    {
        self.validate_required_fields()?;
        self.validate_email()?;
        self.validate_status()?;
        self.validate_password_confirmation()?;
        self.validate_password_length()?;
        Ok(())
    }

    /// The login without leading or trailing white space.
    pub fn trimmed_login(&self) -> (s: String)
        ensures
            s@ == trim_chars(self.login@),
    {
        trim(self.login.as_str())
    }

    /// The e-mail address without leading or trailing white space.
    pub fn trimmed_mail(&self) -> (s: String)
        ensures
            s@ == trim_chars(self.mail@),
    {
        trim(self.mail.as_str())
    }

    /// The first name without leading or trailing white space.
    pub fn trimmed_firstname(&self) -> (s: String)
        ensures
            s@ == trim_chars(self.firstname@),
    {
        trim(self.firstname.as_str())
    }

    /// The last name without leading or trailing white space.
    pub fn trimmed_lastname(&self) -> (s: String)
        ensures
            s@ == trim_chars(self.lastname@),
    {
        trim(self.lastname.as_str())
    }
}

/// The request body that updates a user.
#[derive(Debug)]
pub struct UpdateUserRequest {
    pub user: UpdateUserDto,
}

/// The fields of a user to change; `None` leaves a field as it is.
#[derive(Debug)]
pub struct UpdateUserDto {
    pub login: Option<String>,
    pub firstname: Option<String>,
    pub lastname: Option<String>,
    pub mail: Option<String>,
    pub language: Option<String>,
    pub password: Option<String>,
    pub password_confirmation: Option<String>,
    pub admin: Option<bool>,
    pub status: Option<i32>,
}

impl UpdateUserDto {
    /// Whether a new password is given.
    pub fn has_password_update(&self) -> (b: bool)
        ensures
            b == self.password is Some,
    {
        self.password.is_some()
    }

    /// Checks that a new password matches its confirmation; no password, no check.
    pub fn validate_password_confirmation(&self) -> (r: Result<(), String>)
        ensures
            match r {
                Ok(()) => self.password is None || password_confirmation_problem(
                    false,
                    self.password,
                    self.password_confirmation,
                ) is None,
                Err(m) => self.password is Some && password_confirmation_problem(
                    false,
                    self.password,
                    self.password_confirmation,
                ) == Some(m@),
            },
    {
        if self.password.is_none() {
            return Ok(());
        }
        check_password_confirmation(&self.password, &self.password_confirmation)
    }
}

} // verus!
