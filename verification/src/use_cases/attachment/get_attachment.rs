use crate::domain::{Attachment, CurrentUser, Issue, Project, User};
use crate::errors::{ApplicationError, refusal_of};
use crate::external::{percent_encode, url_encode};
use crate::text::{contains_str, decimal, i32_to_string, starts_with, str_eq};
use crate::use_cases::access::{attachment_view_refusal, check_attachment_view, container_target_of};
use crate::use_cases::project::{named_user, user_named, NamedId};
use vstd::prelude::*;

verus! {

/// The response that describes one attachment.
#[derive(Debug, Clone)]
pub struct GetAttachmentResponse {
    pub attachment: AttachmentDetailResponse,
}

/// What is shown of an attachment, with the addresses to download it and its thumbnail.
#[derive(Debug, Clone)]
pub struct AttachmentDetailResponse {
    pub id: i32,
    pub filename: String,
    pub filesize: i32,
    pub content_type: Option<String>,
    pub description: Option<String>,
    pub content_url: String,
    /// Only for images that can have a thumbnail.
    pub thumbnail_url: Option<String>,
    pub author: NamedId,
    pub created_on: Option<String>,
}

/// Describes attachments to those who may download them.
#[derive(Debug)]
pub struct GetAttachmentUseCase {
    base_url: String,
}

/// Whether a content type is an image that can have a thumbnail: it starts with `image/`,
/// holds no `svg`, and is not `image/x-icon`.
pub open spec fn is_thumbnail_image(content_type: Option<Seq<char>>) -> bool {
    match content_type {
        Some(ct) => {
            &&& "image/"@.len() <= ct.len() && ct.subrange(0, "image/"@.len() as int) == "image/"@
            &&& !(exists|k: int|
                0 <= k && k + "svg"@.len() <= ct.len() && #[trigger] ct.subrange(
                    k,
                    k + "svg"@.len(),
                ) == "svg"@)
            &&& ct != "image/x-icon"@
        },
        None => false,
    }
}

/// The view of an optional string.
pub open spec fn opt_view(s: Option<String>) -> Option<Seq<char>> {
    match s {
        Some(t) => Some(t@),
        None => None,
    }
}

/// Whether a content type is an image that can have a thumbnail.
pub fn is_image_content_type(content_type: Option<&str>) -> (b: bool)
    ensures
        b == is_thumbnail_image(
            match content_type {
                Some(ct) => Some(ct@),
                None => None,
            },
        ),
{
    match content_type {
        Some(ct) => starts_with(ct, "image/") && !contains_str(ct, "svg") && !str_eq(
            ct,
            "image/x-icon",
        ),
        None => false,
    }
}

/// The address that downloads an attachment: the base address, `/attachments/download/`,
/// the id, `/`, and the URL-encoded file name.
pub open spec fn content_url_of(base_url: Seq<char>, id: i32, filename: Seq<char>) -> Seq<char> {
    base_url + "/attachments/download/"@ + decimal(id as int) + "/"@ + percent_encode(
        vstd::utf8::encode_utf8(filename),
    )
}

/// The address of an attachment's thumbnail: the base address, `/attachments/thumbnail/`
/// and the id.
pub open spec fn thumbnail_url_of(base_url: Seq<char>, id: i32) -> Seq<char> {
    base_url + "/attachments/thumbnail/"@ + decimal(id as int)
}

/// The address that downloads an attachment.
pub fn content_url(base_url: &str, id: i32, filename: &str) -> (s: String)
    ensures
        s@ == content_url_of(base_url@, id, filename@),
{
    let mut s = String::from_str(base_url);
    s.append("/attachments/download/");
    let d = i32_to_string(id);
    s.append(d.as_str());
    s.append("/");
    let enc = url_encode(filename);
    s.append(enc.as_str());
    s
}

/// The address of the thumbnail, for images that can have one.
pub fn thumbnail_url(base_url: &str, id: i32, content_type: &Option<String>) -> (s: Option<String>)
    ensures
        match s {
            Some(u) => is_thumbnail_image(opt_view(*content_type)) && u@ == thumbnail_url_of(
                base_url@,
                id,
            ),
            None => !is_thumbnail_image(opt_view(*content_type)),
        },
{
    let ct: Option<&str> = match content_type {
        Some(c) => Some(c.as_str()),
        None => None,
    };
    if is_image_content_type(ct) {
        let mut s = String::from_str(base_url);
        s.append("/attachments/thumbnail/");
        let d = i32_to_string(id);
        s.append(d.as_str());
        Some(s)
    } else {
        None
    }
}

/// The refusal for a user who may not see the attachment.
pub open spec fn view_attachment_denial() -> Seq<char> {
    "You don't have permission to view this attachment"@
}

impl GetAttachmentUseCase {
    pub fn new(base_url: String) -> (u: Self)
        ensures
            u.base_url() == base_url@,
    {
        GetAttachmentUseCase { base_url }
    }

    /// The address that the download and thumbnail addresses start with.
    pub closed spec fn base_url(&self) -> Seq<char> {
        self.base_url@
    }

    /// Decides whether the user may see the attachment, by the rule that decides downloads.
    pub fn check_attachment_permission(
        &self,
        attachment: &Attachment,
        current_user: &CurrentUser,
        issue: &Option<Issue>,
        project: &Option<Project>,
        member_project_ids: &Vec<i32>,
    ) -> (r: Result<(), ApplicationError>)
        ensures
            refusal_of(r) == attachment_view_refusal(
                current_user.admin,
                container_target_of(*attachment),
                *issue,
                *project,
                member_project_ids@,
                view_attachment_denial(),
            ),
    {
        check_attachment_view(
            current_user,
            attachment,
            issue,
            project,
            member_project_ids,
            "You don't have permission to view this attachment",
        )
    }

    /// What is shown of the attachment, its author named as `named_user` names one.
    pub fn build_response(&self, attachment: Attachment, author: &Option<User>) -> (r:
        GetAttachmentResponse)
        ensures
            r.attachment.id == attachment.id,
            r.attachment.filename == attachment.filename,
            r.attachment.filesize == attachment.filesize,
            r.attachment.content_type == attachment.content_type,
            r.attachment.description == attachment.description,
            r.attachment.created_on == attachment.created_on,
            r.attachment.content_url@ == content_url_of(
                self.base_url(),
                attachment.id,
                attachment.filename@,
            ),
            match r.attachment.thumbnail_url {
                Some(u) => is_thumbnail_image(opt_view(attachment.content_type)) && u@
                    == thumbnail_url_of(self.base_url(), attachment.id),
                None => !is_thumbnail_image(opt_view(attachment.content_type)),
            },
            user_named(
                *author,
                attachment.author_id,
                r.attachment.author.id,
                r.attachment.author.name@,
            ),
    {
        let url = content_url(self.base_url.as_str(), attachment.id, attachment.filename.as_str());
        let thumb = thumbnail_url(self.base_url.as_str(), attachment.id, &attachment.content_type);
        let who = named_user(author, attachment.author_id);
        GetAttachmentResponse {
            attachment: AttachmentDetailResponse {
                id: attachment.id,
                filename: attachment.filename,
                filesize: attachment.filesize,
                content_type: attachment.content_type,
                description: attachment.description,
                content_url: url,
                thumbnail_url: thumb,
                author: who,
                created_on: attachment.created_on,
            },
        }
    }
}

/// Thumbnails are offered only for images: a type that does not start with `image/`, an SVG
/// image and an icon get none, and neither does an attachment without a type.
pub proof fn thumbnails_only_for_raster_images(content_type: Option<Seq<char>>)
    ensures
        content_type is None ==> !is_thumbnail_image(content_type),
        content_type matches Some(ct) ==> (is_thumbnail_image(content_type) ==> ct.len() >= 6
            && ct.subrange(0, 6) == seq!['i', 'm', 'a', 'g', 'e', '/']),
        content_type == Some("image/x-icon"@) ==> !is_thumbnail_image(content_type),
        content_type matches Some(ct) ==> ((exists|k: int|
            0 <= k && k + 3 <= ct.len() && #[trigger] ct.subrange(k, k + 3) == seq!['s', 'v', 'g'])
            ==> !is_thumbnail_image(content_type)),
{
    reveal_strlit("image/");
    reveal_strlit("svg");
    assert("image/"@ =~= seq!['i', 'm', 'a', 'g', 'e', '/']);
    assert("svg"@ =~= seq!['s', 'v', 'g']);
}

} // verus!
