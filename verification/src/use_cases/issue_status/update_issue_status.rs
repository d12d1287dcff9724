use crate::domain::IssueStatus;
use crate::errors::{ApplicationError, Refusal, refusal_of};
use crate::text::{is_blank_chars, trim, trim_chars};
use crate::use_cases::issue_status::create_issue_status::{
    blank_status_name_refusal, check_status_name, check_status_name_available,
    taken_status_name_refusal,
};
use crate::use_cases::issue_status::get_issue_status::{require_status, status_not_found};
use crate::use_cases::issue_status::list_issue_statuses::{shows_status, IssueStatusItem};
use vstd::prelude::*;

verus! {

/// The fields of an issue status to change; `None` leaves a field as it is.
#[derive(Debug, Clone)]
pub struct UpdateIssueStatusRequest {
    pub name: Option<String>,
    pub is_closed: Option<bool>,
    pub is_default: Option<bool>,
    pub default_done_ratio: Option<i32>,
}

/// The response that shows the changed issue status.
#[derive(Debug, Clone)]
pub struct UpdateIssueStatusResponse {
    pub issue_status: IssueStatusItem,
}

/// Changes issue statuses; a name must not be blank or in use by another status, and a
/// status made the default stops the old one from being the default.
#[derive(Debug)]
pub struct UpdateIssueStatusUseCase {}

/// The refusal of a new name, if it is refused: first when blank, then when in use.
pub open spec fn new_name_refusal(name: Option<String>, taken: bool) -> Option<Refusal> {
    match name {
        None => None,
        Some(n) => if blank_status_name_refusal(n@) is Some {
            blank_status_name_refusal(n@)
        } else {
            taken_status_name_refusal(n@, taken)
        },
    }
}

/// Whether `updated` is `status` with the request's changes made: a new name is trimmed.
pub open spec fn status_updated(status: IssueStatus, request: UpdateIssueStatusRequest, updated: IssueStatus) -> bool {
    &&& updated.id == status.id
    &&& updated.position == status.position
    &&& updated.name@ == match request.name {
        Some(n) => trim_chars(n@),
        None => status.name@,
    }
    &&& updated.is_closed == match request.is_closed {
        Some(b) => b,
        None => status.is_closed,
    }
    &&& updated.is_default == match request.is_default {
        Some(b) => b,
        None => status.is_default,
    }
    &&& updated.default_done_ratio == match request.default_done_ratio {
        Some(r) => Some(r),
        None => status.default_done_ratio,
    }
}

impl UpdateIssueStatusUseCase {
    pub fn new() -> (u: Self) {
        UpdateIssueStatusUseCase {  }
    }

    /// The status that was looked up, or the error for one that does not exist.
    pub fn require_status(&self, id: i32, found: Option<IssueStatus>) -> (r: Result<
        IssueStatus,
        ApplicationError,
    >)
        ensures
            match found {
                Some(s) => r == Ok::<IssueStatus, ApplicationError>(s),
                None => refusal_of(r) == Some(status_not_found(id)),
            },
    {
        require_status(id, found)
    }

    /// Whether another status must be searched for the new name: when a name is given and
    /// it is not blank.
    pub fn needs_name_check(&self, request: &UpdateIssueStatusRequest) -> (b: bool)
        ensures
            b == (request.name matches Some(n) && blank_status_name_refusal(n@) is None),
    {
        match &request.name {
            Some(n) => check_status_name(n.as_str()).is_ok(),
            None => false,
        }
    }

    /// Whether the other statuses stop being the default before the change is stored.
    pub fn clears_default(&self, request: &UpdateIssueStatusRequest) -> (b: bool)
        ensures
            b == (request.is_default == Some(true)),
    {
        match request.is_default {
            Some(b) => b,
            None => false,
        }
    }

    /// The status with the request's changes made, or the refusal of its new name. `name_taken`
    /// tells whether another status has the new name.
    pub fn apply(&self, status: &IssueStatus, request: &UpdateIssueStatusRequest, name_taken: bool) -> (r:
        Result<IssueStatus, ApplicationError>)
        ensures
            refusal_of(r) == new_name_refusal(request.name, name_taken),
            r matches Ok(updated) ==> status_updated(*status, *request, updated),
    {
        let name = match &request.name {
            Some(n) => {
                check_status_name(n.as_str())?;
                check_status_name_available(n.as_str(), name_taken)?;
                trim(n.as_str())
            },
            None => status.name.clone(),
        };
        let is_closed = match request.is_closed {
            Some(b) => b,
            None => status.is_closed,
        };
        let is_default = match request.is_default {
            Some(b) => b,
            None => status.is_default,
        };
        let default_done_ratio = match request.default_done_ratio {
            Some(v) => Some(v),
            None => status.default_done_ratio,
        };
        Ok(
            IssueStatus {
                id: status.id,
                name,
                position: status.position,
                is_closed,
                is_default,
                default_done_ratio,
            },
        )
    }

    /// The response that shows the stored status.
    pub fn build_response(&self, status: &IssueStatus) -> (r: UpdateIssueStatusResponse)
        ensures
            shows_status(r.issue_status, *status),
    {
        UpdateIssueStatusResponse { issue_status: IssueStatusItem::from_ref(status) }
    }
}

/// A new status name is refused when it is blank or another status has it; keeping the name
/// needs no check.
pub proof fn new_status_name_rule(name: Option<String>, taken: bool)
    ensures
        name is None ==> new_name_refusal(name, taken) is None,
        name matches Some(n) ==> (new_name_refusal(name, taken) is None <==> (!is_blank_chars(n@)
            && !taken)),
{
}

} // verus!
