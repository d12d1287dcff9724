use crate::dto::issue::{message_list, string_views};
use crate::errors::literal;
use crate::text::{byte_len, byte_len_exceeds, chars_of, trim, trim_chars};
use vstd::prelude::*;

verus! {

/// The request body that creates a project.
#[derive(Debug)]
pub struct CreateProjectRequest {
    pub project: CreateProjectDto,
}

/// The fields of a new project.
#[derive(Debug)]
pub struct CreateProjectDto {
    pub name: String,
    /// Identifier used in URLs.
    pub identifier: String,
    pub description: Option<String>,
    pub homepage: Option<String>,
    /// Whether the project is public (true when absent from the request).
    pub is_public: bool,
    pub parent_id: Option<i32>,
    pub inherit_members: bool,
    pub tracker_ids: Option<Vec<i32>>,
}

/// A project is public unless the request says otherwise.
pub fn default_is_public() -> (b: bool)
    ensures
        b,
{
    true
}

/// The characters that an identifier may hold.
pub open spec fn identifier_char_ok(c: char) -> bool {
    ('a' <= c && c <= 'z') || ('0' <= c && c <= '9') || c == '-' || c == '_'
}

/// What is wrong with a project identifier, if anything; the rules apply to the trimmed text.
pub open spec fn identifier_problem(s: Seq<char>) -> Option<Seq<char>> {
    let t = trim_chars(s);
    if t.len() == 0 {
        Some("Identifier cannot be blank"@)
    } else if byte_len(t) > 100 {
        Some("Identifier is too long (max 100 characters)"@)
    } else if !(forall|k: int| 0 <= k < t.len() ==> identifier_char_ok(#[trigger] t[k])) {
        Some("Identifier must contain only lowercase letters, digits, hyphens and underscores"@)
    } else if ('0' <= t[0] && t[0] <= '9') || t[0] == '-' {
        Some("Identifier cannot start with a digit or hyphen"@)
    } else {
        None
    }
}

/// What is wrong with a project name, if anything; the rules apply to the trimmed text.
pub open spec fn project_name_problem(s: Seq<char>) -> Option<Seq<char>> {
    let t = trim_chars(s);
    if t.len() == 0 {
        Some("Name cannot be blank"@)
    } else if byte_len(t) > 255 {
        Some("Name is too long (max 255 characters)"@)
    } else {
        None
    }
}

/// Checks a project identifier.
pub fn check_identifier(identifier: &str) -> (r: Result<(), String>)
    ensures
        match r {
            Ok(()) => identifier_problem(identifier@) is None,
            Err(m) => identifier_problem(identifier@) == Some(m@),
        },
{
    let t = trim(identifier);
    let v = chars_of(t.as_str());
    if v.len() == 0 {
        return Err(literal("Identifier cannot be blank"));
    }
    if byte_len_exceeds(t.as_str(), 100) {
        return Err(literal("Identifier is too long (max 100 characters)"));
    }
    let mut i: usize = 0;
    while i < v.len()
        invariant
            v@ == t@,
            t@ == trim_chars(identifier@),
            v@.len() > 0,
            byte_len(t@) <= 100,
            i <= v@.len(),
            forall|k: int| 0 <= k < i ==> identifier_char_ok(#[trigger] v@[k]),
        decreases v.len() - i,
    {
        let c = v[i];
        if !(('a' <= c && c <= 'z') || ('0' <= c && c <= '9') || c == '-' || c == '_') {
            assert(!identifier_char_ok(t@[i as int]));
            return Err(
                literal(
                    "Identifier must contain only lowercase letters, digits, hyphens and underscores",
                ),
            );
        }
        i = i + 1;
    }
    let first = v[0];
    if ('0' <= first && first <= '9') || first == '-' {
        return Err(literal("Identifier cannot start with a digit or hyphen"));
    }
    Ok(())
}

/// Checks a project name.
pub fn check_project_name(name: &str) -> (r: Result<(), String>)
    ensures
        match r {
            Ok(()) => project_name_problem(name@) is None,
            Err(m) => project_name_problem(name@) == Some(m@),
        },
{
    let t = trim(name);
    if t.as_str().unicode_len() == 0 {
        return Err(literal("Name cannot be blank"));
    }
    if byte_len_exceeds(t.as_str(), 255) {
        return Err(literal("Name is too long (max 255 characters)"));
    }
    Ok(())
}

impl CreateProjectDto {
    /// Checks the identifier: not blank, at most 100 bytes, made of lower-case letters,
    /// digits, hyphens and underscores, not starting with a digit or a hyphen.
    pub fn validate_identifier(&self) -> (r: Result<(), String>)
        ensures
            match r {
                Ok(()) => identifier_problem(self.identifier@) is None,
                Err(m) => identifier_problem(self.identifier@) == Some(m@),
            },
    {
        check_identifier(self.identifier.as_str())
    }

    /// Checks the name: not blank and at most 255 bytes.
    pub fn validate_name(&self) -> (r: Result<(), String>)
        ensures
            match r {
                Ok(()) => project_name_problem(self.name@) is None,
                Err(m) => project_name_problem(self.name@) == Some(m@),
            },
    {
        check_project_name(self.name.as_str())
    }

    /// Checks the name, then the identifier; the error lists each message.
    pub fn validate(&self) -> (r: Result<(), Vec<String>>)
        ensures
            ({
                let problems = message_list(project_name_problem(self.name@)) + message_list(
                    identifier_problem(self.identifier@),
                );
                match r {
                    Ok(()) => problems.len() == 0,
                    Err(es) => problems.len() > 0 && string_views(es@) == problems,
                }
            }),
    {
        let mut errors: Vec<String> = Vec::new();
        match self.validate_name() {
            Err(e) => errors.push(e),
            Ok(()) => {},
        }
        assert(string_views(errors@) =~= message_list(project_name_problem(self.name@)));
        let ghost first = errors@;
        match self.validate_identifier() {
            Err(e) => errors.push(e),
            Ok(()) => {},
        }
        assert(string_views(errors@) =~= message_list(project_name_problem(self.name@))
            + message_list(identifier_problem(self.identifier@)));
        if errors.len() == 0 {
            Ok(())
        } else {
            Err(errors)
        }
    }
}

/// The request body that updates a project.
#[derive(Debug)]
pub struct UpdateProjectRequest {
    pub project: UpdateProjectDto,
}

/// The fields of a project to change; `None` leaves a field as it is.
#[derive(Debug)]
pub struct UpdateProjectDto {
    pub name: Option<String>,
    pub identifier: Option<String>,
    pub description: Option<String>,
    pub homepage: Option<String>,
    pub is_public: Option<bool>,
    pub parent_id: Option<i32>,
    pub inherit_members: Option<bool>,
    /// 1 active, 5 closed, 9 archived.
    pub status: Option<i32>,
    pub tracker_ids: Option<Vec<i32>>,
}

impl UpdateProjectDto {
    /// Checks an identifier by the rules of a new project's identifier.
    pub fn validate_identifier(identifier: &str) -> (r: Result<(), String>)
        ensures
            match r {
                Ok(()) => identifier_problem(identifier@) is None,
                Err(m) => identifier_problem(identifier@) == Some(m@),
            },
    {
        check_identifier(identifier)
    }

    /// Checks a name by the rules of a new project's name.
    pub fn validate_name(name: &str) -> (r: Result<(), String>)
        ensures
            match r {
                Ok(()) => project_name_problem(name@) is None,
                Err(m) => project_name_problem(name@) == Some(m@),
            },
    {
        check_project_name(name)
    }
}

} // verus!
