use crate::domain::{CurrentUser, Issue, Journal, Project};
use crate::errors::{ApplicationError, refusal_of};
use crate::use_cases::access::{issue_not_found, issue_not_found_error};
use super::get_issue::{check_issue_visibility, issue_view_refusal, shown_journals, visible_journals, JournalResponse};
use vstd::prelude::*;

verus! {

/// The history of an issue.
#[derive(Debug, Clone)]
pub struct ListJournalsResponse {
    pub journals: Vec<JournalResponse>,
}

/// Lists the history of an issue to those who may see the issue.
#[derive(Debug)]
pub struct ListJournalsUseCase {}

impl ListJournalsUseCase {
    pub fn new() -> (u: Self) {
        ListJournalsUseCase {  }
    }

    /// The issue that was looked up, or the error for one that does not exist.
    pub fn require_issue(&self, issue_id: i32, found: Option<Issue>) -> (r: Result<
        Issue,
        ApplicationError,
    >)
        ensures
            match found {
                Some(i) => r == Ok::<Issue, ApplicationError>(i),
                None => refusal_of(r) == Some(issue_not_found(issue_id)),
            },
    {
        match found {
            Some(i) => Ok(i),
            None => Err(issue_not_found_error(issue_id)),
        }
    }

    /// Decides whether the user may see the issue. The project is looked up for a user who is
    /// not an administrator, the memberships only for a project that is not public.
    pub fn check_visibility(
        &self,
        current_user: &CurrentUser,
        issue: &Issue,
        project: &Option<Project>,
        member_project_ids: &Vec<i32>,
    ) -> (r: Result<(), ApplicationError>)
        ensures
            refusal_of(r) == issue_view_refusal(
                current_user.admin,
                issue.project_id,
                *project,
                member_project_ids@,
            ),
    {
        check_issue_visibility(current_user, issue, project, member_project_ids)
    }

    /// The history entries that the user may see, in order.
    pub fn visible_journals(&self, journals: Vec<Journal>, current_user: &CurrentUser) -> (v: Vec<
        Journal,
    >)
        ensures
            v@ == shown_journals(journals@, current_user.admin),
    {
        visible_journals(journals, current_user)
    }

    /// The history, as the entries were shown.
    pub fn build_response(&self, journals: Vec<JournalResponse>) -> (r: ListJournalsResponse)
        ensures
            r.journals@ == journals@,
    {
        ListJournalsResponse { journals }
    }
}

} // verus!
