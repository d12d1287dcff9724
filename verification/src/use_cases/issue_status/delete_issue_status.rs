use crate::domain::{CurrentUser, IssueStatus};
use crate::errors::{framed_number, literal, ApplicationError, ErrorKind, Refusal, refusal_of};
use crate::text::{decimal, u64_to_string};
use crate::use_cases::issue_status::get_issue_status::{require_status, status_not_found};
use vstd::prelude::*;

verus! {

/// Deletes issue statuses. The issues in a status move to another status, which the request
/// must name when there are any.
#[derive(Debug)]
pub struct DeleteIssueStatusUseCase {}

/// What happens to the issues in a status about to be deleted: nothing when there are none;
/// they move to the named status; or the request is refused for naming none or the status itself.
pub open spec fn status_issue_handling(
    status: IssueStatus,
    issue_count: u64,
    reassign_to_id: Option<i32>,
) -> Result<Option<i32>, Refusal> {
    if issue_count == 0 {
        Ok(None)
    } else {
        match reassign_to_id {
            None => Err(
                (
                    ErrorKind::Validation,
                    "Cannot delete issue status '"@ + status.name@ + "' because it is used by "@
                        + decimal(issue_count as int)
                        + " issue(s). Please provide reassign_to_id."@,
                ),
            ),
            Some(t) => if t == status.id {
                Err(
                    (ErrorKind::Validation, "Cannot reassign issues to the status being deleted"@),
                )
            } else {
                Ok(Some(t))
            },
        }
    }
}

/// The refusal for a target status that does not exist: the request names a status to move
/// issues to that is not there, a validation error.
pub open spec fn target_status_not_found(id: i32) -> Refusal {
    (ErrorKind::Validation, "Target issue status with id "@ + decimal(id as int) + " not found"@)
}

impl DeleteIssueStatusUseCase {
    pub fn new() -> (u: Self) {
        DeleteIssueStatusUseCase {  }
    }

    /// The status that was looked up, or the error for one that does not exist.
    pub fn require_status(&self, id: i32, found: Option<IssueStatus>) -> (r: Result<
        IssueStatus,
        ApplicationError,
    >)
        ensures
            match found {
                Some(s) => r == Ok::<IssueStatus, ApplicationError>(s),
                None => refusal_of(r) == Some(status_not_found(id)),
            },
    {
        require_status(id, found)
    }

    /// What happens to the issues in the status: `Ok(None)` none to move, `Ok(Some(to))`
    /// they move to `to`. Any signed-in caller is accepted here; administrators only reach it.
    pub fn plan_reassignment(
        &self,
        status: &IssueStatus,
        issue_count: u64,
        reassign_to_id: Option<i32>,
        _current_user: &CurrentUser,
    ) -> (r: Result<Option<i32>, ApplicationError>)
        ensures
            match status_issue_handling(*status, issue_count, reassign_to_id) {
                Ok(x) => r == Ok::<Option<i32>, ApplicationError>(x),
                Err(f) => refusal_of(r) == Some(f),
            },
    {
        if issue_count == 0 {
            return Ok(None);
        }
        match reassign_to_id {
            None => {
                let n = u64_to_string(issue_count);
                let mut m = String::from_str("Cannot delete issue status '");
                m.append(status.name.as_str());
                m.append("' because it is used by ");
                m.append(n.as_str());
                m.append(" issue(s). Please provide reassign_to_id.");
                Err(ApplicationError::Validation(m))
            },
            Some(t) => if t == status.id {
                Err(
                    ApplicationError::Validation(
                        literal("Cannot reassign issues to the status being deleted"),
                    ),
                )
            } else {
                Ok(Some(t))
            },
        }
    }

    /// The status that issues move to, or the error for one that does not exist.
    pub fn require_target(&self, target_id: i32, found: Option<IssueStatus>) -> (r: Result<
        IssueStatus,
        ApplicationError,
    >)
        ensures
            match found {
                Some(s) => r == Ok::<IssueStatus, ApplicationError>(s),
                None => refusal_of(r) == Some(target_status_not_found(target_id)),
            },
    {
        match found {
            Some(s) => Ok(s),
            None => Err(
                ApplicationError::Validation(
                    framed_number("Target issue status with id ", target_id, " not found"),
                ),
            ),
        }
    }
}

/// Issues never move to the status being deleted.
pub proof fn lemma_no_reassignment_to_itself(
    status: IssueStatus,
    issue_count: u64,
    reassign_to_id: Option<i32>,
)
    ensures
        status_issue_handling(status, issue_count, reassign_to_id) matches Ok(Some(t)) ==> t
            != status.id,
{
}

/// A status that issues use is deleted only when another status to move them to is given; a
/// status no issue uses needs none.
pub proof fn status_in_use_needs_another_target(
    status: IssueStatus,
    issue_count: u64,
    reassign_to_id: Option<i32>,
)
    ensures
        issue_count == 0 ==> status_issue_handling(status, issue_count, reassign_to_id) == Ok::<
            Option<i32>,
            Refusal,
        >(None),
        issue_count > 0 ==> (status_issue_handling(status, issue_count, reassign_to_id) is Ok
            <==> (reassign_to_id matches Some(t) && t != status.id)),
        issue_count > 0 && (reassign_to_id matches Some(t) && t != status.id)
            ==> status_issue_handling(status, issue_count, reassign_to_id) == Ok::<
            Option<i32>,
            Refusal,
        >(reassign_to_id),
        issue_count > 0 && reassign_to_id == Some(status.id) ==> status_issue_handling(
            status,
            issue_count,
            reassign_to_id,
        ) == Err::<Option<i32>, Refusal>(
            (ErrorKind::Validation, "Cannot reassign issues to the status being deleted"@),
        ),
{
}

} // verus!
