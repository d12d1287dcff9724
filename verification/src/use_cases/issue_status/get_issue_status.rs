use crate::domain::IssueStatus;
use crate::errors::{framed_number, ApplicationError, ErrorKind, Refusal, refusal_of};
use crate::text::decimal;
use crate::use_cases::issue_status::list_issue_statuses::{shows_status, IssueStatusItem};
use vstd::prelude::*;

verus! {

/// The response that shows one issue status.
#[derive(Debug, Clone)]
pub struct GetIssueStatusResponse {
    pub issue_status: IssueStatusItem,
}

/// Shows an issue status to any signed-in user.
#[derive(Debug)]
pub struct GetIssueStatusUseCase {}

/// The refusal for a status that does not exist.
pub open spec fn status_not_found(id: i32) -> Refusal {
    (ErrorKind::NotFound, "Issue status with id "@ + decimal(id as int) + " not found"@)
}

/// The status that was looked up, or the error for one that does not exist.
pub fn require_status(id: i32, found: Option<IssueStatus>) -> (r: Result<IssueStatus, ApplicationError>)
    ensures
        match found {
            Some(s) => r == Ok::<IssueStatus, ApplicationError>(s),
            None => refusal_of(r) == Some(status_not_found(id)),
        },
{
    match found {
        Some(s) => Ok(s),
        None => Err(
            ApplicationError::NotFound(framed_number("Issue status with id ", id, " not found")),
        ),
    }
}

impl GetIssueStatusUseCase {
    pub fn new() -> (u: Self) {
        GetIssueStatusUseCase {  }
    }

    /// The status that was looked up, or the error for one that does not exist.
    pub fn require_status(&self, id: i32, found: Option<IssueStatus>) -> (r: Result<
        IssueStatus,
        ApplicationError,
    >)
        ensures
            match found {
                Some(s) => r == Ok::<IssueStatus, ApplicationError>(s),
                None => refusal_of(r) == Some(status_not_found(id)),
            },
    {
        require_status(id, found)
    }

    /// The response that shows the status.
    pub fn build_response(&self, status: &IssueStatus) -> (r: GetIssueStatusResponse)
        ensures
            shows_status(r.issue_status, *status),
    {
        GetIssueStatusResponse { issue_status: IssueStatusItem::from_ref(status) }
    }
}

} // verus!
