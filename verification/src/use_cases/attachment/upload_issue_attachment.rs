use crate::domain::{CurrentUser, Issue, NewAttachment, SaveResult, StorageConfig, StorageError, User};
use crate::errors::{literal, ApplicationError, ErrorKind, Refusal, refusal_of};
use crate::use_cases::access::{issue_not_found, issue_not_found_error};
use crate::use_cases::attachment::upload_file::{check_file_size, save_error, save_refusal, size_refusal};
use crate::use_cases::project::NamedId;
use vstd::prelude::*;

verus! {

/// The response to an upload onto an issue.
#[derive(Debug, Clone)]
pub struct UploadIssueAttachmentResponse {
    pub attachment: UploadedAttachmentItem,
}

/// What is shown of the new attachment.
#[derive(Debug, Clone)]
pub struct UploadedAttachmentItem {
    pub id: i32,
    pub filename: String,
    pub filesize: i64,
    pub content_type: Option<String>,
    pub author: NamedId,
}

/// Attaches uploaded files to issues, for administrators and members of the issue's project.
#[derive(Debug)]
pub struct UploadIssueAttachmentUseCase {
    config: StorageConfig,
}

/// The refusal for a user who may not attach files to the issue, if they may not.
pub open spec fn upload_refusal(admin: bool, member_found: bool) -> Option<Refusal> {
    if admin || member_found {
        None
    } else {
        Some(
            (
                ErrorKind::Forbidden,
                "You don't have permission to upload attachments to this issue"@,
            ),
        )
    }
}

impl UploadIssueAttachmentUseCase {
    pub fn new(config: StorageConfig) -> (u: Self)
        ensures
            u.max_file_size() == config.max_file_size,
    {
        UploadIssueAttachmentUseCase { config }
    }

    /// The largest accepted file, in bytes.
    pub closed spec fn max_file_size(&self) -> u64 {
        self.config.max_file_size
    }

    /// Checks that a file of `size` bytes is not larger than the configuration allows.
    pub fn check_file_size(&self, size: usize) -> (r: Result<(), ApplicationError>)
        ensures
            refusal_of(r) == size_refusal(size as nat, self.max_file_size()),
    {
        check_file_size(size, self.config.max_file_size)
    }

    /// The issue that was looked up, or the error for one that does not exist.
    pub fn require_issue(&self, issue_id: i32, found: Option<Issue>) -> (r: Result<
        Issue,
        ApplicationError,
    >)
        ensures
            match found {
                Some(i) => r == Ok::<Issue, ApplicationError>(i),
                None => refusal_of(r) == Some(issue_not_found(issue_id)),
            },
    {
        match found {
            Some(i) => Ok(i),
            None => Err(issue_not_found_error(issue_id)),
        }
    }

    /// Whether the user's membership must be looked up: for anyone but an administrator.
    pub fn needs_membership(&self, current_user: &CurrentUser) -> (b: bool)
        ensures
            b == !current_user.admin,
    {
        !current_user.admin
    }

    /// Decides whether the user may attach files to the issue: administrators, and members of
    /// the issue's project.
    pub fn check_upload_permission(&self, current_user: &CurrentUser, member_found: bool) -> (r:
        Result<(), ApplicationError>)
        ensures
            refusal_of(r) == upload_refusal(current_user.admin, member_found),
    {
        if current_user.admin || member_found {
            Ok(())
        } else {
            Err(
                ApplicationError::Forbidden(
                    literal("You don't have permission to upload attachments to this issue"),
                ),
            )
        }
    }

    /// The error for a file that could not be stored.
    pub fn save_error(&self, e: StorageError) -> (r: ApplicationError)
        ensures
            refusal_of::<()>(Err(r)) == Some(save_refusal(e)),
    {
        save_error(e)
    }

    /// The attachment to record for the stored file: it belongs to the issue and to the user.
    pub fn new_attachment(
        &self,
        issue_id: i32,
        filename: String,
        filesize: i64,
        content_type: Option<String>,
        description: Option<String>,
        current_user: &CurrentUser,
        saved: SaveResult,
    ) -> (a: NewAttachment)
        ensures
            a.container_id == Some(issue_id),
            a.container_type matches Some(t) && t@ == "Issue"@,
            a.filename == filename,
            a.disk_filename == saved.disk_filename,
            a.filesize == filesize,
            a.content_type == content_type,
            a.digest == Some(saved.digest),
            a.author_id == current_user.id,
            a.description == description,
            a.disk_directory == Some(saved.disk_directory),
    {
        NewAttachment {
            container_id: Some(issue_id),
            container_type: Some(literal("Issue")),
            filename,
            disk_filename: saved.disk_filename,
            filesize,
            content_type,
            digest: Some(saved.digest),
            author_id: current_user.id,
            description,
            disk_directory: Some(saved.disk_directory),
        }
    }

    /// How the uploader is shown: by full name when found, else by id and login.
    pub fn author_info(&self, author: &Option<User>, current_user: &CurrentUser) -> (n: NamedId)
        ensures
            match *author {
                Some(u) => n.id == u.id && n.name@ == crate::domain::full_name_of(
                    u.firstname@,
                    u.lastname@,
                ),
                None => n.id == current_user.id && n.name@ == current_user.login@,
            },
    {
        match author {
            Some(u) => NamedId { id: u.id, name: u.full_name() },
            None => NamedId { id: current_user.id, name: current_user.login.clone() },
        }
    }

    /// The response that shows the new attachment.
    pub fn build_response(
        &self,
        attachment_id: i32,
        filename: String,
        filesize: i64,
        content_type: Option<String>,
        author: NamedId,
    ) -> (r: UploadIssueAttachmentResponse)
        ensures
            r.attachment.id == attachment_id,
            r.attachment.filename == filename,
            r.attachment.filesize == filesize,
            r.attachment.content_type == content_type,
            r.attachment.author == author,
    {
        UploadIssueAttachmentResponse {
            attachment: UploadedAttachmentItem {
                id: attachment_id,
                filename,
                filesize,
                content_type,
                author,
            },
        }
    }
}

/// Only administrators and members of the issue's project may attach files to it.
pub proof fn upload_permission_rule(admin: bool, member_found: bool)
    ensures
        upload_refusal(admin, member_found) is None <==> (admin || member_found),
{
}

} // verus!
