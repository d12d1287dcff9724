use vstd::prelude::*;

verus! {

/// The errors that the application layer reports to its callers.
#[derive(Debug, Clone)]
pub enum ApplicationError {
    NotFound(String),
    Validation(String),
    PermissionDenied(String),
    AlreadyExists(String),
    Authentication(String),
    Unauthorized(String),
    Forbidden(String),
    Internal(String),
}

/// The kinds of error, without their messages.
#[derive(PartialEq, Eq, Structural, Debug, Clone, Copy)]
pub enum ErrorKind {
    NotFound,
    Validation,
    PermissionDenied,
    AlreadyExists,
    Authentication,
    Unauthorized,
    Forbidden,
    Internal,
}

/// The kind of an error.
pub open spec fn kind_of(e: ApplicationError) -> ErrorKind {
    match e {
        ApplicationError::NotFound(_) => ErrorKind::NotFound,
        ApplicationError::Validation(_) => ErrorKind::Validation,
        ApplicationError::PermissionDenied(_) => ErrorKind::PermissionDenied,
        ApplicationError::AlreadyExists(_) => ErrorKind::AlreadyExists,
        ApplicationError::Authentication(_) => ErrorKind::Authentication,
        ApplicationError::Unauthorized(_) => ErrorKind::Unauthorized,
        ApplicationError::Forbidden(_) => ErrorKind::Forbidden,
        ApplicationError::Internal(_) => ErrorKind::Internal,
    }
}

/// A refusal: the kind of error and its message.
pub type Refusal = (ErrorKind, Seq<char>);

/// The refusal that an outcome carries, if it is an error.
pub open spec fn refusal_of<T>(r: Result<T, ApplicationError>) -> Option<Refusal> {
    match r {
        Ok(_) => None,
        Err(e) => Some((kind_of(e), error_message(e))),
    }
}

/// The prefix that the display text of each kind of error starts with.
pub open spec fn error_prefix(e: ApplicationError) -> Seq<char> {
    match e {
        ApplicationError::NotFound(_) => "Entity not found: "@,
        ApplicationError::Validation(_) => "Validation failed: "@,
        ApplicationError::PermissionDenied(_) => "Permission denied: "@,
        ApplicationError::AlreadyExists(_) => "Entity already exists: "@,
        ApplicationError::Authentication(_) => "Authentication failed: "@,
        ApplicationError::Unauthorized(_) => "Unauthorized: "@,
        ApplicationError::Forbidden(_) => "Forbidden: "@,
        ApplicationError::Internal(_) => "Internal error: "@,
    }
}

/// The message that an error carries.
pub open spec fn error_message(e: ApplicationError) -> Seq<char> {
    match e {
        ApplicationError::NotFound(m) => m@,
        ApplicationError::Validation(m) => m@,
        ApplicationError::PermissionDenied(m) => m@,
        ApplicationError::AlreadyExists(m) => m@,
        ApplicationError::Authentication(m) => m@,
        ApplicationError::Unauthorized(m) => m@,
        ApplicationError::Forbidden(m) => m@,
        ApplicationError::Internal(m) => m@,
    }
}

impl ApplicationError {
    /// The text that describes the error: its kind, a colon, and its message.
    pub fn to_string(&self) -> (s: String)
        ensures
            s@ == error_prefix(*self) + error_message(*self),
    {
        let (prefix, msg): (&str, &String) = match self {
            ApplicationError::NotFound(m) => ("Entity not found: ", m),
            ApplicationError::Validation(m) => ("Validation failed: ", m),
            ApplicationError::PermissionDenied(m) => ("Permission denied: ", m),
            ApplicationError::AlreadyExists(m) => ("Entity already exists: ", m),
            ApplicationError::Authentication(m) => ("Authentication failed: ", m),
            ApplicationError::Unauthorized(m) => ("Unauthorized: ", m),
            ApplicationError::Forbidden(m) => ("Forbidden: ", m),
            ApplicationError::Internal(m) => ("Internal error: ", m),
        };
        let mut s = String::from_str(prefix);
        s.append(msg.as_str());
        s
    }

    /// The message that the error carries.
    pub fn message(&self) -> (m: &String)
        ensures
            m@ == error_message(*self),
    {
        match self {
            ApplicationError::NotFound(m) => m,
            ApplicationError::Validation(m) => m,
            ApplicationError::PermissionDenied(m) => m,
            ApplicationError::AlreadyExists(m) => m,
            ApplicationError::Authentication(m) => m,
            ApplicationError::Unauthorized(m) => m,
            ApplicationError::Forbidden(m) => m,
            ApplicationError::Internal(m) => m,
        }
    }
}

/// A message made of a literal beginning, a text and a literal end.
pub fn framed(head: &str, middle: &str, tail: &str) -> (s: String)
    ensures
        s@ == head@ + middle@ + tail@,
{
    let mut s = String::from_str(head);
    s.append(middle);
    s.append(tail);
    s
}

/// A message made of a literal beginning, the decimal notation of a number and a literal end.
pub fn framed_number(head: &str, n: i32, tail: &str) -> (s: String)
    ensures
        s@ == head@ + crate::text::decimal(n as int) + tail@,
{
    let d = crate::text::i32_to_string(n);
    framed(head, d.as_str(), tail)
}

/// A literal beginning followed by a text.
pub fn prefixed(head: &str, text: &str) -> (s: String)
    ensures
        s@ == head@ + text@,
{
    let mut s = String::from_str(head);
    s.append(text);
    s
}

/// A literal beginning followed by the decimal notation of a number.
pub fn prefixed_number(head: &str, n: i32) -> (s: String)
    ensures
        s@ == head@ + crate::text::decimal(n as int),
{
    let d = crate::text::i32_to_string(n);
    let mut s = String::from_str(head);
    s.append(d.as_str());
    s
}

/// A message given by a literal.
pub fn literal(text: &str) -> (s: String)
    ensures
        s@ == text@,
{
    String::from_str(text)
}

} // verus!
