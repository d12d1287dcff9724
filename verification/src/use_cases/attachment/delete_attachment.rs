use crate::domain::{Attachment, CurrentUser, Issue, Project, StorageError};
use crate::errors::{prefixed, framed_number, ApplicationError, ErrorKind, Refusal, refusal_of};
use crate::text::decimal;
use crate::use_cases::access::{attachment_manage_refusal, check_attachment_manage, container_target_of};
use vstd::prelude::*;

verus! {

/// The refusal for an attachment that does not exist.
pub open spec fn attachment_not_found(attachment_id: i32) -> Refusal {
    (ErrorKind::NotFound, "Attachment "@ + decimal(attachment_id as int) + " not found"@)
}

/// The attachment that was looked up, or the error for one that does not exist.
pub fn require_attachment(attachment_id: i32, found: Option<Attachment>) -> (r: Result<
    Attachment,
    ApplicationError,
>)
    ensures
        match found {
            Some(a) => r == Ok::<Attachment, ApplicationError>(a),
            None => refusal_of(r) == Some(attachment_not_found(attachment_id)),
        },
{
    match found {
        Some(a) => Ok(a),
        None => Err(
            ApplicationError::NotFound(framed_number("Attachment ", attachment_id, " not found")),
        ),
    }
}

/// The directory of the stored file; the storage root when none is recorded.
pub fn disk_directory_of(a: &Attachment) -> (d: &str)
    ensures
        match a.disk_directory {
            Some(dir) => d@ == dir@,
            None => d@ == ""@,
        },
{
    match &a.disk_directory {
        Some(dir) => dir.as_str(),
        None => "",
    }
}

/// Removes attachments: only administrators, members of the project, and any user of a
/// public project may; the stored file goes only when no other attachment shares it.
#[derive(Debug)]
pub struct DeleteAttachmentUseCase {}

/// The refusal for a user who may not remove the attachment.
pub open spec fn delete_denial() -> Seq<char> {
    "You don't have permission to delete this attachment"@
}

/// What becomes of a failed removal of the stored file: a file already gone is no error.
pub open spec fn removal_refusal(r: Result<(), StorageError>) -> Option<Refusal> {
    match r {
        Ok(()) => None,
        Err(StorageError::NotFound(_)) => None,
        Err(StorageError::Io(m)) => Some(
            (ErrorKind::Internal, "Failed to delete attachment file: "@ + m@),
        ),
        Err(StorageError::InvalidFilename(m)) => Some((ErrorKind::Internal, m@)),
    }
}

impl DeleteAttachmentUseCase {
    pub fn new() -> (u: Self) {
        DeleteAttachmentUseCase {  }
    }

    /// Decides whether the user may remove the attachment: administrators always; otherwise
    /// the file rule of the project of the attachment's issue, or of the attachment's project.
    pub fn check_delete_permission(
        &self,
        attachment: &Attachment,
        current_user: &CurrentUser,
        issue: &Option<Issue>,
        is_member: bool,
        project: &Option<Project>,
    ) -> (r: Result<(), ApplicationError>)
        ensures
            refusal_of(r) == attachment_manage_refusal(
                current_user.admin,
                container_target_of(*attachment),
                *issue,
                is_member,
                *project,
                delete_denial(),
            ),
    {
        check_attachment_manage(
            current_user,
            attachment,
            issue,
            is_member,
            project,
            "You don't have permission to delete this attachment",
        )
    }

    /// The digest to look for among other attachments before the stored file is removed.
    pub fn digest_to_check<'a>(&self, attachment: &'a Attachment) -> (d: Option<&'a String>)
        ensures
            match attachment.digest {
                Some(x) => d == Some(&x),
                None => d is None,
            },
    {
        match &attachment.digest {
            Some(x) => Some(x),
            None => None,
        }
    }

    /// Whether the stored file goes with the attachment: when the attachment has no digest,
    /// or when no other attachment has the same digest.
    pub fn should_delete_file(&self, attachment: &Attachment, digest_shared: bool) -> (b: bool)
        ensures
            b == (attachment.digest is None || !digest_shared),
    {
        match &attachment.digest {
            Some(_) => !digest_shared,
            None => true,
        }
    }

    /// What the request answers once the stored file was to be removed.
    pub fn file_removal_outcome(&self, removal: Result<(), StorageError>) -> (r: Result<
        (),
        ApplicationError,
    >)
        ensures
            refusal_of(r) == removal_refusal(removal),
    {
        match removal {
            Ok(()) => Ok(()),
            Err(StorageError::NotFound(_)) => Ok(()),
            Err(StorageError::Io(m)) => Err(
                ApplicationError::Internal(
                    prefixed("Failed to delete attachment file: ", m.as_str()),
                ),
            ),
            Err(StorageError::InvalidFilename(m)) => Err(ApplicationError::Internal(m)),
        }
    }
}

/// Removing an attachment's file fails only on a real storage failure: a file that is already
/// gone is no failure.
pub proof fn missing_file_is_no_failure(r: Result<(), StorageError>)
    ensures
        removal_refusal(r) is None <==> (r is Ok || (r matches Err(StorageError::NotFound(_)))),
{
}

} // verus!
