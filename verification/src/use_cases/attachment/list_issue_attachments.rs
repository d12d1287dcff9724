use crate::domain::{Attachment, CurrentUser, Issue, Project, User};
use crate::errors::{ApplicationError, refusal_of};
use crate::use_cases::access::{
    check_view_access, issue_not_found, issue_not_found_error, view_refusal,
};
use crate::use_cases::project::{named_user, user_named, NamedId};
use vstd::prelude::*;

verus! {

/// The attachments of an issue.
#[derive(Debug, Clone)]
pub struct IssueAttachmentListResponse {
    pub attachments: Vec<IssueAttachmentItem>,
}

/// What the list shows of one attachment.
#[derive(Debug, Clone)]
pub struct IssueAttachmentItem {
    pub id: i32,
    pub filename: String,
    pub filesize: i32,
    pub content_type: Option<String>,
    pub description: Option<String>,
    pub author: NamedId,
    pub created_on: Option<String>,
}

/// Lists the attachments of issues to those who may see the issue.
#[derive(Debug)]
pub struct ListIssueAttachmentsUseCase {}

/// The refusal for a user who may not see an issue.
pub open spec fn view_issue_denial() -> Seq<char> {
    "You don't have permission to view this issue"@
}

/// Whether an item shows the attachment, its author named as `named_user` names one.
pub open spec fn item_shows(item: IssueAttachmentItem, a: Attachment, author: Option<User>) -> bool {
    &&& item.id == a.id
    &&& item.filename == a.filename
    &&& item.filesize == a.filesize
    &&& item.content_type == a.content_type
    &&& item.description == a.description
    &&& item.created_on == a.created_on
    &&& user_named(author, a.author_id, item.author.id, item.author.name@)
}

impl ListIssueAttachmentsUseCase {
    pub fn new() -> (u: Self) {
        ListIssueAttachmentsUseCase {  }
    }

    /// The issue that was looked up, or the error for one that does not exist.
    pub fn require_issue(&self, issue_id: i32, found: Option<Issue>) -> (r: Result<
        Issue,
        ApplicationError,
    >)
        ensures
            match found {
                Some(i) => r == Ok::<Issue, ApplicationError>(i),
                None => refusal_of(r) == Some(issue_not_found(issue_id)),
            },
    {
        match found {
            Some(i) => Ok(i),
            None => Err(issue_not_found_error(issue_id)),
        }
    }

    /// Decides whether the user may see the issue: administrators always; otherwise any user
    /// when the issue's project is public, and its members when it is private.
    pub fn check_issue_visibility(
        &self,
        issue: &Issue,
        current_user: &CurrentUser,
        project: &Option<Project>,
        member_project_ids: &Vec<i32>,
    ) -> (r: Result<(), ApplicationError>)
        ensures
            refusal_of(r) == view_refusal(
                current_user.admin,
                issue.project_id,
                *project,
                member_project_ids@,
                view_issue_denial(),
            ),
    {
        check_view_access(
            current_user,
            issue.project_id,
            project,
            member_project_ids,
            "You don't have permission to view this issue",
        )
    }

    /// What the list shows of one attachment.
    pub fn build_item(&self, attachment: Attachment, author: &Option<User>) -> (item:
        IssueAttachmentItem)
        ensures
            item_shows(item, attachment, *author),
    {
        let who = named_user(author, attachment.author_id);
        IssueAttachmentItem {
            id: attachment.id,
            filename: attachment.filename,
            filesize: attachment.filesize,
            content_type: attachment.content_type,
            description: attachment.description,
            author: who,
            created_on: attachment.created_on,
        }
    }
}

} // verus!
