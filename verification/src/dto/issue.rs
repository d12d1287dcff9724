use crate::errors::literal;
use crate::text::{byte_len, is_blank_chars, trim, trim_chars};
use vstd::prelude::*;

verus! {

/// The request body that creates an issue.
#[derive(Debug)]
pub struct CreateIssueRequest {
    pub issue: CreateIssueDto,
}

/// The fields of a new issue.
///
/// Dates are held as their `YYYY-MM-DD` text. The estimated hours, a
/// floating-point number, travel beside this value and are not held here.
#[derive(Debug)]
pub struct CreateIssueDto {
    pub project_id: i32,
    pub tracker_id: i32,
    /// Subject (1 to 255 bytes once trimmed).
    pub subject: String,
    pub description: Option<String>,
    /// Status; the tracker's default status when absent.
    pub status_id: Option<i32>,
    /// Priority; the default priority when absent.
    pub priority_id: Option<i32>,
    pub assigned_to_id: Option<i32>,
    pub category_id: Option<i32>,
    /// Parent issue, for subtasks.
    pub parent_id: Option<i32>,
    pub start_date: Option<String>,
    pub due_date: Option<String>,
    pub is_private: bool,
    /// Tokens of files uploaded beforehand.
    pub uploads: Option<Vec<CreateUploadToken>>,
}

/// A token of an uploaded file, given when an issue is created.
#[derive(Debug)]
pub struct CreateUploadToken {
    pub token: String,
    pub filename: String,
    pub content_type: Option<String>,
    pub description: Option<String>,
}

/// What is wrong with a subject, if anything: it is blank, or longer than 255 bytes once trimmed.
pub open spec fn subject_problem(s: Seq<char>) -> Option<Seq<char>> {
    if is_blank_chars(s) {
        Some("Subject cannot be blank"@)
    } else if byte_len(trim_chars(s)) > 255 {
        Some("Subject is too long (maximum 255 characters)"@)
    } else {
        None
    }
}

/// The list that holds the message, if there is one.
pub open spec fn message_list(m: Option<Seq<char>>) -> Seq<Seq<char>> {
    match m {
        Some(t) => seq![t],
        None => seq![],
    }
}

/// The views of a list of strings.
pub open spec fn string_views(v: Seq<String>) -> Seq<Seq<char>> {
    v.map_values(|e: String| e@)
}

/// Checks a subject: not blank and at most 255 bytes once trimmed.
pub fn check_subject(subject: &str) -> (r: Result<(), String>)
    ensures
        match r {
            Ok(()) => subject_problem(subject@) is None,
            Err(m) => subject_problem(subject@) == Some(m@),
        },
{
    let t = trim(subject);
    if t.as_str().unicode_len() == 0 {
        return Err(literal("Subject cannot be blank"));
    }
    if crate::text::byte_len_exceeds(t.as_str(), 255) {
        return Err(literal("Subject is too long (maximum 255 characters)"));
    }
    Ok(())
}

impl CreateIssueDto {
    /// Checks the subject.
    pub fn validate_subject(&self) -> (r: Result<(), String>)
        ensures
            match r {
                Ok(()) => subject_problem(self.subject@) is None,
                Err(m) => subject_problem(self.subject@) == Some(m@),
            },
    {
        check_subject(self.subject.as_str())
    }

    /// Checks every field; the error lists each message.
    pub fn validate(&self) -> (r: Result<(), Vec<String>>)
        ensures
            match r {
                Ok(()) => subject_problem(self.subject@) is None,
                Err(es) => subject_problem(self.subject@) is Some && string_views(es@)
                    == message_list(subject_problem(self.subject@)),
            },
    {
        let mut errors: Vec<String> = Vec::new();
        match self.validate_subject() {
            Err(e) => errors.push(e),
            Ok(()) => {},
        }
        assert(string_views(errors@) =~= message_list(subject_problem(self.subject@)));
        if errors.len() == 0 {
            Ok(())
        } else {
            Err(errors)
        }
    }
}

/// The request body that updates an issue.
#[derive(Debug)]
pub struct UpdateIssueRequest {
    pub issue: UpdateIssueDto,
}

/// The fields of an issue to change; `None` leaves a field as it is.
///
/// Dates are held as their `YYYY-MM-DD` text. The estimated hours, a
/// floating-point number, travel beside this value; whether they were
/// given is held here.
#[derive(Debug)]
pub struct UpdateIssueDto {
    pub subject: Option<String>,
    pub description: Option<String>,
    pub status_id: Option<i32>,
    pub priority_id: Option<i32>,
    pub tracker_id: Option<i32>,
    /// New assignee; zero or less clears it.
    pub assigned_to_id: Option<i32>,
    pub category_id: Option<i32>,
    pub parent_id: Option<i32>,
    pub start_date: Option<String>,
    pub due_date: Option<String>,
    /// Whether new estimated hours were given.
    pub estimated_hours_given: bool,
    /// Completion ratio (0 to 100).
    pub done_ratio: Option<i32>,
    pub is_private: Option<bool>,
    /// Notes to add to the history.
    pub notes: Option<String>,
    pub private_notes: bool,
    pub uploads: Option<Vec<UploadToken>>,
}

/// A token of an uploaded file, given when an issue is updated.
#[derive(Debug)]
pub struct UploadToken {
    pub token: String,
    pub filename: String,
    pub content_type: Option<String>,
    pub description: Option<String>,
}

/// What is wrong with an optional subject, if anything.
pub open spec fn optional_subject_problem(s: Option<String>) -> Option<Seq<char>> {
    match s {
        Some(t) => subject_problem(t@),
        None => None,
    }
}

/// What is wrong with an optional completion ratio, if anything.
pub open spec fn done_ratio_problem(r: Option<i32>) -> Option<Seq<char>> {
    match r {
        Some(v) => if 0 <= v <= 100 {
            None
        } else {
            Some("Done ratio must be between 0 and 100"@)
        },
        None => None,
    }
}

/// The messages of every rule that an update breaks, in order.
pub open spec fn update_issue_problems(dto: UpdateIssueDto) -> Seq<Seq<char>> {
    message_list(optional_subject_problem(dto.subject)) + message_list(
        done_ratio_problem(dto.done_ratio),
    )
}

/// Whether notes hold more than white space.
pub open spec fn has_notes(notes: Option<String>) -> bool {
    notes matches Some(n) && !is_blank_chars(n@)
}

/// Whether an update changes anything.
pub open spec fn update_has_changes(dto: UpdateIssueDto) -> bool {
    ||| dto.subject is Some
    ||| dto.description is Some
    ||| dto.status_id is Some
    ||| dto.priority_id is Some
    ||| dto.tracker_id is Some
    ||| dto.assigned_to_id is Some
    ||| dto.category_id is Some
    ||| dto.parent_id is Some
    ||| dto.start_date is Some
    ||| dto.due_date is Some
    ||| dto.estimated_hours_given
    ||| dto.done_ratio is Some
    ||| dto.is_private is Some
    ||| has_notes(dto.notes)
    ||| (dto.uploads matches Some(u) && u@.len() > 0)
}

impl UpdateIssueDto {
    /// Checks the subject when one is given.
    pub fn validate_subject(&self) -> (r: Result<(), String>)
        ensures
            match r {
                Ok(()) => optional_subject_problem(self.subject) is None,
                Err(m) => optional_subject_problem(self.subject) == Some(m@),
            },
    {
        match &self.subject {
            Some(s) => check_subject(s.as_str()),
            None => Ok(()),
        }
    }

    /// Checks that a given completion ratio lies between 0 and 100.
    pub fn validate_done_ratio(&self) -> (r: Result<(), String>)
        ensures
            match r {
                Ok(()) => done_ratio_problem(self.done_ratio) is None,
                Err(m) => done_ratio_problem(self.done_ratio) == Some(m@),
            },
    {
        match self.done_ratio {
            Some(v) => if 0 <= v && v <= 100 {
                Ok(())
            } else {
                Err(literal("Done ratio must be between 0 and 100"))
            },
            None => Ok(()),
        }
    }

    /// Checks every field; the error lists each message.
    pub fn validate(&self) -> (r: Result<(), Vec<String>>)
        ensures
            match r {
                Ok(()) => update_issue_problems(*self).len() == 0,
                Err(es) => update_issue_problems(*self).len() > 0 && string_views(es@)
                    == update_issue_problems(*self),
            },
    {
        let mut errors: Vec<String> = Vec::new();
        match self.validate_subject() {
            Err(e) => errors.push(e),
            Ok(()) => {},
        }
        assert(string_views(errors@) =~= message_list(optional_subject_problem(self.subject)));
        let ghost first = errors@;
        match self.validate_done_ratio() {
            Err(e) => errors.push(e),
            Ok(()) => {},
        }
        assert(string_views(errors@) =~= update_issue_problems(*self));
        if errors.len() == 0 {
            Ok(())
        } else {
            Err(errors)
        }
    }

    /// Whether the update changes anything: a field, non-blank notes or uploaded files.
    pub fn has_changes(&self) -> (b: bool)
        ensures
            b == update_has_changes(*self),
    {
        let notes = match &self.notes {
            Some(n) => !crate::text::is_blank(n.as_str()),
            None => false,
        };
        let uploads = match &self.uploads {
            Some(u) => u.len() > 0,
            None => false,
        };
        self.subject.is_some() || self.description.is_some() || self.status_id.is_some()
            || self.priority_id.is_some() || self.tracker_id.is_some()
            || self.assigned_to_id.is_some() || self.category_id.is_some()
            || self.parent_id.is_some() || self.start_date.is_some() || self.due_date.is_some()
            || self.estimated_hours_given || self.done_ratio.is_some() || self.is_private.is_some()
            || notes || uploads
    }
}

} // verus!
