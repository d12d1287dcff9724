use crate::domain::{Attachment, CurrentUser, Issue, Project, User};
use crate::errors::{literal, ApplicationError, refusal_of};
use crate::use_cases::access::{attachment_manage_refusal, check_attachment_manage, container_target_of};
use crate::use_cases::attachment::get_attachment::{content_url, content_url_of};
use crate::use_cases::project::{named_user, user_named, NamedId};
use vstd::prelude::*;

verus! {

/// The request body that changes an attachment.
#[derive(Debug)]
pub struct UpdateAttachmentRequest {
    pub attachment: UpdateAttachmentDto,
}

/// The fields of an attachment that can change.
#[derive(Debug)]
pub struct UpdateAttachmentDto {
    /// New description, at most 255 characters.
    pub description: Option<String>,
}

/// Whether a description is short enough: at most 255 characters, or none at all.
pub open spec fn description_ok(description: Option<String>) -> bool {
    match description {
        Some(d) => d@.len() <= 255,
        None => true,
    }
}

impl UpdateAttachmentDto {
    /// Checks that a given description has at most 255 characters.
    pub fn validate(&self) -> (r: Result<(), String>)
        ensures
            r is Ok <==> description_ok(self.description),
            r matches Err(m) ==> m@ == "Description must be at most 255 characters"@,
    {
        match &self.description {
            Some(d) => if d.as_str().unicode_len() > 255 {
                Err(literal("Description must be at most 255 characters"))
            } else {
                Ok(())
            },
            None => Ok(()),
        }
    }
}

/// The response that describes the changed attachment.
#[derive(Debug, Clone)]
pub struct UpdateAttachmentResponse {
    pub attachment: UpdateAttachmentDetailResponse,
}

/// What is shown of the changed attachment.
#[derive(Debug, Clone)]
pub struct UpdateAttachmentDetailResponse {
    pub id: i32,
    pub filename: String,
    pub filesize: i32,
    pub content_type: Option<String>,
    pub description: Option<String>,
    pub content_url: String,
    pub author: NamedId,
    pub created_on: Option<String>,
}

/// Changes the description of attachments, for those who may manage the project's files.
#[derive(Debug)]
pub struct UpdateAttachmentUseCase {
    base_url: String,
}

/// The refusal for a user who may not change the attachment.
pub open spec fn update_denial() -> Seq<char> {
    "You don't have permission to update this attachment"@
}

impl UpdateAttachmentUseCase {
    pub fn new(base_url: String) -> (u: Self)
        ensures
            u.base_url() == base_url@,
    {
        UpdateAttachmentUseCase { base_url }
    }

    /// The address that download addresses start with.
    pub closed spec fn base_url(&self) -> Seq<char> {
        self.base_url@
    }

    /// Decides whether the user may change the attachment: administrators always; otherwise
    /// the file rule of the project of the attachment's issue, or of the attachment's project.
    pub fn check_update_permission(
        &self,
        attachment: &Attachment,
        current_user: &CurrentUser,
        issue: &Option<Issue>,
        is_member: bool,
        project: &Option<Project>,
    ) -> (r: Result<(), ApplicationError>)
        ensures
            refusal_of(r) == attachment_manage_refusal(
                current_user.admin,
                container_target_of(*attachment),
                *issue,
                is_member,
                *project,
                update_denial(),
            ),
    {
        check_attachment_manage(
            current_user,
            attachment,
            issue,
            is_member,
            project,
            "You don't have permission to update this attachment",
        )
    }

    /// What is shown of the changed attachment, its author named as `named_user` names one.
    pub fn build_response(&self, attachment: Attachment, author: &Option<User>) -> (r:
        UpdateAttachmentResponse)
        ensures
            r.attachment.id == attachment.id,
            r.attachment.filename == attachment.filename,
            r.attachment.filesize == attachment.filesize,
            r.attachment.content_type == attachment.content_type,
            r.attachment.description == attachment.description,
            r.attachment.created_on == attachment.created_on,
            r.attachment.content_url@ == content_url_of(
                self.base_url(),
                attachment.id,
                attachment.filename@,
            ),
            user_named(
                *author,
                attachment.author_id,
                r.attachment.author.id,
                r.attachment.author.name@,
            ),
    {
        let url = content_url(self.base_url.as_str(), attachment.id, attachment.filename.as_str());
        let who = named_user(author, attachment.author_id);
        UpdateAttachmentResponse {
            attachment: UpdateAttachmentDetailResponse {
                id: attachment.id,
                filename: attachment.filename,
                filesize: attachment.filesize,
                content_type: attachment.content_type,
                description: attachment.description,
                content_url: url,
                author: who,
                created_on: attachment.created_on,
            },
        }
    }
}

} // verus!
