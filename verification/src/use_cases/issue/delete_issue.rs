use crate::domain::{CurrentUser, Issue};
use crate::errors::{literal, ApplicationError, ErrorKind, Refusal, refusal_of};
use crate::use_cases::flow::{check_after, check_when, follows, found_refusal, proceed, Decision, Next};
use vstd::prelude::*;

verus! {

/// Deletes issues that have no subtasks, with their relations, history and attachments.
#[derive(Debug)]
pub struct DeleteIssueUseCase {}

/// What is deleted with an issue, in the order it is deleted.
#[derive(Debug, Clone, Copy, PartialEq, Eq, Structural)]
pub enum DeletionStep {
    /// The relations from and to the issue.
    Relations,
    /// The issue's history.
    Journals,
    /// The files attached to the issue.
    Attachments,
    /// The issue itself.
    Issue,
}

/// The refusal of a user who may not delete the issue: one who is neither an administrator
/// nor a member of the issue's project.
pub open spec fn delete_issue_refusal(admin: bool, is_member: bool) -> Option<Refusal> {
    if admin || is_member {
        None
    } else {
        Some((ErrorKind::Forbidden, "You don't have permission to delete this issue"@))
    }
}

/// What deleting an issue looks up, in the order it is needed.
#[derive(Debug, Clone, Copy, PartialEq, Eq, Structural)]
pub enum DeleteIssueLookup {
    /// The issue, by its id.
    Issue,
    /// Whether the requester is a member of the issue's project.
    RequesterMembership,
    /// The issue's subtasks.
    Children,
}

/// What has been looked up to delete an issue: `None` where nothing is known yet.
#[derive(Debug)]
pub struct DeleteIssueFacts {
    pub issue: Option<Option<Issue>>,
    pub requester_is_member: Option<bool>,
    pub children: Option<Vec<Issue>>,
}

/// The refusal to delete an issue that has subtasks.
pub open spec fn subtasks_refusal(children: Seq<Issue>) -> Option<Refusal> {
    if children.len() == 0 {
        None
    } else {
        Some((ErrorKind::Validation, "Cannot delete an issue with subtasks. Delete subtasks first."@))
    }
}

/// How a request to delete an issue is decided, check by check: the issue; for a requester
/// who is not an administrator, their membership in the issue's project; that the issue has
/// no subtasks. The first check that fails answers, and a check waits for what it reads to be
/// looked up.
pub open spec fn delete_issue_decision(admin: bool, f: DeleteIssueFacts) -> Decision<
    DeleteIssueLookup,
> {
    check_after(
        f.issue is Some,
        DeleteIssueLookup::Issue,
        found_refusal(f.issue.unwrap(), (ErrorKind::NotFound, "Issue not found"@)),
        check_when(
            !admin,
            f.requester_is_member is Some,
            DeleteIssueLookup::RequesterMembership,
            delete_issue_refusal(admin, f.requester_is_member.unwrap()),
            check_after(
                f.children is Some,
                DeleteIssueLookup::Children,
                subtasks_refusal(f.children.unwrap()@),
                proceed(),
            ),
        ),
    )
}

impl DeleteIssueFacts {
    /// Nothing looked up yet.
    pub fn new() -> (f: Self)
        ensures
            f.issue is None,
            f.requester_is_member is None,
            f.children is None,
    {
        DeleteIssueFacts { issue: None, requester_is_member: None, children: None }
    }
}

impl DeleteIssueUseCase {
    pub fn new() -> (u: Self) {
        DeleteIssueUseCase {  }
    }

    /// What comes next in deleting an issue: what to look up, the refusal, or leave to carry
    /// out the deletion steps.
    pub fn next_step(&self, current_user: &CurrentUser, facts: &DeleteIssueFacts) -> (n: Next<
        DeleteIssueLookup,
    >)
        ensures
            follows(n, delete_issue_decision(current_user.admin, *facts)),
    {
        match &facts.issue {
            None => return Next::Fetch(DeleteIssueLookup::Issue),
            Some(found) => if found.is_none() {
                return Next::Refuse(ApplicationError::NotFound(literal("Issue not found")));
            },
        }
        if !current_user.admin {
            match facts.requester_is_member {
                None => return Next::Fetch(DeleteIssueLookup::RequesterMembership),
                Some(m) => if let Err(e) = self.check_permission(current_user, m) {
                    return Next::Refuse(e);
                },
            }
        }
        match &facts.children {
            None => Next::Fetch(DeleteIssueLookup::Children),
            Some(children) => match self.check_no_subtasks(children) {
                Err(e) => Next::Refuse(e),
                Ok(()) => Next::Proceed,
            },
        }
    }

    /// The issue that was looked up, or the error for one that does not exist.
    pub fn require_issue(&self, found: Option<Issue>) -> (r: Result<Issue, ApplicationError>)
        ensures
            match found {
                Some(i) => r == Ok::<Issue, ApplicationError>(i),
                None => refusal_of(r) == Some((ErrorKind::NotFound, "Issue not found"@)),
            },
    {
        match found {
            Some(i) => Ok(i),
            None => Err(ApplicationError::NotFound(literal("Issue not found"))),
        }
    }

    /// Whether the user's membership in the issue's project must be looked up: for a user who
    /// is not an administrator.
    pub fn needs_membership(&self, current_user: &CurrentUser) -> (b: bool)
        ensures
            b == !current_user.admin,
    {
        !current_user.admin
    }

    /// Decides whether the user may delete the issue: administrators, and members of its
    /// project.
    pub fn check_permission(&self, current_user: &CurrentUser, is_member: bool) -> (r: Result<
        (),
        ApplicationError,
    >)
        ensures
            refusal_of(r) == delete_issue_refusal(current_user.admin, is_member),
    {
        if current_user.admin || is_member {
            Ok(())
        } else {
            Err(ApplicationError::Forbidden(literal("You don't have permission to delete this issue")))
        }
    }

    /// Refuses to delete an issue that has subtasks.
    pub fn check_no_subtasks(&self, children: &Vec<Issue>) -> (r: Result<(), ApplicationError>)
        ensures
            refusal_of(r) == (if children@.len() == 0 {
                None
            } else {
                Some(
                    (
                        ErrorKind::Validation,
                        "Cannot delete an issue with subtasks. Delete subtasks first."@,
                    ),
                )
            }),
    {
        if children.len() == 0 {
            Ok(())
        } else {
            Err(
                ApplicationError::Validation(
                    literal("Cannot delete an issue with subtasks. Delete subtasks first."),
                ),
            )
        }
    }

    /// What is deleted with the issue, in order: relations, history, attachments, and then the
    /// issue, so that nothing is left that points at a deleted record.
    pub fn deletion_steps(&self) -> (v: Vec<DeletionStep>)
        ensures
            v@ == seq![
                DeletionStep::Relations,
                DeletionStep::Journals,
                DeletionStep::Attachments,
                DeletionStep::Issue,
            ],
    {
        let mut v: Vec<DeletionStep> = Vec::new();
        v.push(DeletionStep::Relations);
        v.push(DeletionStep::Journals);
        v.push(DeletionStep::Attachments);
        v.push(DeletionStep::Issue);
        assert(v@ =~= seq![
            DeletionStep::Relations,
            DeletionStep::Journals,
            DeletionStep::Attachments,
            DeletionStep::Issue,
        ]);
        v
    }
}

/// An issue that has subtasks is never deleted: once it is found and the requester may delete
/// it, known subtasks give "Cannot delete an issue with subtasks. Delete subtasks first.", for
/// administrators as for members.
pub proof fn issue_with_subtasks_is_not_deleted(admin: bool, f: DeleteIssueFacts)
    requires
        f.issue matches Some(Some(_)),
        admin || f.requester_is_member == Some(true),
        f.children matches Some(c) && c@.len() > 0,
    ensures
        delete_issue_decision(admin, f) == Err::<Option<DeleteIssueLookup>, Refusal>(
            (ErrorKind::Validation, "Cannot delete an issue with subtasks. Delete subtasks first."@),
        ),
{
}

/// An issue is deleted only when it exists, the requester is an administrator or a member of
/// its project, and it has no subtasks.
pub proof fn issue_deleted_only_when_every_rule_holds(admin: bool, f: DeleteIssueFacts)
    requires
        delete_issue_decision(admin, f) == Ok::<Option<DeleteIssueLookup>, Refusal>(None),
    ensures
        f.issue matches Some(Some(_)),
        admin || f.requester_is_member == Some(true),
        f.children matches Some(c) && c@.len() == 0,
{
}

} // verus!
