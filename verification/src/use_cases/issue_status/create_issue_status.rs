use crate::domain::{IssueStatus, NewIssueStatus};
use crate::errors::{framed, literal, ApplicationError, ErrorKind, Refusal, refusal_of};
use crate::text::{is_blank, is_blank_chars};
use crate::use_cases::issue_status::list_issue_statuses::{shows_status, IssueStatusItem};
use vstd::prelude::*;

verus! {

/// The response that shows a new issue status.
#[derive(Debug, Clone)]
pub struct CreateIssueStatusResponse {
    pub issue_status: IssueStatusItem,
}

/// Creates issue statuses with names not in use; a new default status stops the old one
/// from being the default.
#[derive(Debug)]
pub struct CreateIssueStatusUseCase {}

/// The refusal of a status name that is blank, if it is.
pub open spec fn blank_status_name_refusal(name: Seq<char>) -> Option<Refusal> {
    if is_blank_chars(name) {
        Some((ErrorKind::Validation, "Issue status name cannot be empty"@))
    } else {
        None
    }
}

/// The refusal of a status name that is in use, if it is.
pub open spec fn taken_status_name_refusal(name: Seq<char>, taken: bool) -> Option<Refusal> {
    if taken {
        Some(
            (
                ErrorKind::AlreadyExists,
                "Issue status with name '"@ + name + "' already exists"@,
            ),
        )
    } else {
        None
    }
}

/// Refuses a blank status name.
pub fn check_status_name(name: &str) -> (r: Result<(), ApplicationError>)
    ensures
        refusal_of(r) == blank_status_name_refusal(name@),
{
    if is_blank(name) {
        Err(ApplicationError::Validation(literal("Issue status name cannot be empty")))
    } else {
        Ok(())
    }
}

/// Refuses a status name that another status has.
pub fn check_status_name_available(name: &str, taken: bool) -> (r: Result<(), ApplicationError>)
    ensures
        refusal_of(r) == taken_status_name_refusal(name@, taken),
{
    if taken {
        Err(ApplicationError::AlreadyExists(framed("Issue status with name '", name, "' already exists")))
    } else {
        Ok(())
    }
}

impl CreateIssueStatusUseCase {
    pub fn new() -> (u: Self) {
        CreateIssueStatusUseCase {  }
    }

    /// Refuses a blank name.
    pub fn check_name(&self, new_status: &NewIssueStatus) -> (r: Result<(), ApplicationError>)
        ensures
            refusal_of(r) == blank_status_name_refusal(new_status.name@),
    {
        check_status_name(new_status.name.as_str())
    }

    /// Refuses a name that another status has.
    pub fn check_name_available(&self, new_status: &NewIssueStatus, taken: bool) -> (r: Result<
        (),
        ApplicationError,
    >)
        ensures
            refusal_of(r) == taken_status_name_refusal(new_status.name@, taken),
    {
        check_status_name_available(new_status.name.as_str(), taken)
    }

    /// Whether the other statuses stop being the default before this one is stored.
    pub fn clears_default(&self, new_status: &NewIssueStatus) -> (b: bool)
        ensures
            b == new_status.is_default,
    {
        new_status.is_default
    }

    /// The response that shows the new status.
    pub fn build_response(&self, status: &IssueStatus) -> (r: CreateIssueStatusResponse)
        ensures
            shows_status(r.issue_status, *status),
    {
        CreateIssueStatusResponse { issue_status: IssueStatusItem::from_ref(status) }
    }
}

/// A status name is refused when it is blank, and when another status has it.
pub proof fn status_name_rules(name: Seq<char>, taken: bool)
    ensures
        blank_status_name_refusal(name) is Some <==> is_blank_chars(name),
        taken_status_name_refusal(name, taken) is Some <==> taken,
        taken ==> taken_status_name_refusal(name, taken) == Some(
            (ErrorKind::AlreadyExists, "Issue status with name '"@ + name + "' already exists"@),
        ),
{
}

} // verus!
