use crate::domain::{Attachment, CurrentUser, Issue, Project, StorageError};
use crate::errors::{prefixed, framed_number, ApplicationError, ErrorKind, Refusal, refusal_of};
use crate::external::{file_extension, is_path_independent, path_extension_of};
use crate::text::{ascii_lower_chars, ascii_lowercase, chars_equal_str, decimal};
use crate::use_cases::access::{attachment_view_refusal, check_attachment_view, container_target_of};
use vstd::prelude::*;

verus! {

/// A file ready to be sent.
#[derive(Debug, Clone)]
pub struct DownloadResponse {
    pub content: Vec<u8>,
    /// Original name of the file.
    pub filename: String,
    pub content_type: String,
}

/// Sends the content of attachments to those who may see them: administrators, any user of a
/// public project, and members of a private project.
#[derive(Debug)]
pub struct DownloadAttachmentUseCase {}

/// The refusal for a user who may not download the attachment.
pub open spec fn download_denial() -> Seq<char> {
    "You don't have permission to download this attachment"@
}

/// What a failed read of the stored file is reported as.
pub open spec fn load_refusal(attachment_id: i32, e: StorageError) -> Refusal {
    match e {
        StorageError::NotFound(_) => (
            ErrorKind::NotFound,
            "Attachment file "@ + decimal(attachment_id as int) + " not found on disk"@,
        ),
        StorageError::Io(m) => (ErrorKind::Internal, "Failed to read attachment file: "@ + m@),
        StorageError::InvalidFilename(m) => (ErrorKind::Internal, m@),
    }
}

/// The content type for a lower-cased file extension; `application/octet-stream` for any other.
pub open spec fn mime_for_extension(e: Seq<char>) -> Seq<char> {
    if e == "pdf"@ {
        "application/pdf"@
    } else if e == "doc"@ {
        "application/msword"@
    } else if e == "docx"@ {
        "application/vnd.openxmlformats-officedocument.wordprocessingml.document"@
    } else if e == "xls"@ {
        "application/vnd.ms-excel"@
    } else if e == "xlsx"@ {
        "application/vnd.openxmlformats-officedocument.spreadsheetml.sheet"@
    } else if e == "ppt"@ {
        "application/vnd.ms-powerpoint"@
    } else if e == "pptx"@ {
        "application/vnd.openxmlformats-officedocument.presentationml.presentation"@
    } else if e == "png"@ {
        "image/png"@
    } else if e == "jpg"@ {
        "image/jpeg"@
    } else if e == "jpeg"@ {
        "image/jpeg"@
    } else if e == "gif"@ {
        "image/gif"@
    } else if e == "webp"@ {
        "image/webp"@
    } else if e == "svg"@ {
        "image/svg+xml"@
    } else if e == "ico"@ {
        "image/x-icon"@
    } else if e == "bmp"@ {
        "image/bmp"@
    } else if e == "txt"@ {
        "text/plain"@
    } else if e == "csv"@ {
        "text/csv"@
    } else if e == "html"@ {
        "text/html"@
    } else if e == "htm"@ {
        "text/html"@
    } else if e == "css"@ {
        "text/css"@
    } else if e == "js"@ {
        "application/javascript"@
    } else if e == "json"@ {
        "application/json"@
    } else if e == "xml"@ {
        "application/xml"@
    } else if e == "zip"@ {
        "application/zip"@
    } else if e == "tar"@ {
        "application/x-tar"@
    } else if e == "gz"@ {
        "application/gzip"@
    } else if e == "rar"@ {
        "application/vnd.rar"@
    } else if e == "7z"@ {
        "application/x-7z-compressed"@
    } else if e == "mp3"@ {
        "audio/mpeg"@
    } else if e == "wav"@ {
        "audio/wav"@
    } else if e == "mp4"@ {
        "video/mp4"@
    } else if e == "webm"@ {
        "video/webm"@
    } else if e == "avi"@ {
        "video/x-msvideo"@
    } else if e == "mov"@ {
        "video/quicktime"@
    } else {
        "application/octet-stream"@
    }
}

/// Whether a content type is one that a file name may suggest: that of some extension, or of
/// none; for a name that every platform splits alike, exactly that of its extension.
pub open spec fn suggested_content_type(filename: Seq<char>, ct: Seq<char>) -> bool {
    &&& exists|e: Option<Seq<char>>| ct == #[trigger] content_type_for_extension(e)
    &&& is_path_independent(filename) ==> ct == content_type_for_extension(
        path_extension_of(filename),
    )
}

/// The content type for a lower-cased file extension.
fn mime_for_extension_chars(e: &Vec<char>) -> (r: &'static str)
    ensures
        r@ == mime_for_extension(e@),
{
    if chars_equal_str(e, "pdf") {
        "application/pdf"
    } else if chars_equal_str(e, "doc") {
        "application/msword"
    } else if chars_equal_str(e, "docx") {
        "application/vnd.openxmlformats-officedocument.wordprocessingml.document"
    } else if chars_equal_str(e, "xls") {
        "application/vnd.ms-excel"
    } else if chars_equal_str(e, "xlsx") {
        "application/vnd.openxmlformats-officedocument.spreadsheetml.sheet"
    } else if chars_equal_str(e, "ppt") {
        "application/vnd.ms-powerpoint"
    } else if chars_equal_str(e, "pptx") {
        "application/vnd.openxmlformats-officedocument.presentationml.presentation"
    } else if chars_equal_str(e, "png") {
        "image/png"
    } else if chars_equal_str(e, "jpg") {
        "image/jpeg"
    } else if chars_equal_str(e, "jpeg") {
        "image/jpeg"
    } else if chars_equal_str(e, "gif") {
        "image/gif"
    } else if chars_equal_str(e, "webp") {
        "image/webp"
    } else if chars_equal_str(e, "svg") {
        "image/svg+xml"
    } else if chars_equal_str(e, "ico") {
        "image/x-icon"
    } else if chars_equal_str(e, "bmp") {
        "image/bmp"
    } else if chars_equal_str(e, "txt") {
        "text/plain"
    } else if chars_equal_str(e, "csv") {
        "text/csv"
    } else if chars_equal_str(e, "html") {
        "text/html"
    } else if chars_equal_str(e, "htm") {
        "text/html"
    } else if chars_equal_str(e, "css") {
        "text/css"
    } else if chars_equal_str(e, "js") {
        "application/javascript"
    } else if chars_equal_str(e, "json") {
        "application/json"
    } else if chars_equal_str(e, "xml") {
        "application/xml"
    } else if chars_equal_str(e, "zip") {
        "application/zip"
    } else if chars_equal_str(e, "tar") {
        "application/x-tar"
    } else if chars_equal_str(e, "gz") {
        "application/gzip"
    } else if chars_equal_str(e, "rar") {
        "application/vnd.rar"
    } else if chars_equal_str(e, "7z") {
        "application/x-7z-compressed"
    } else if chars_equal_str(e, "mp3") {
        "audio/mpeg"
    } else if chars_equal_str(e, "wav") {
        "audio/wav"
    } else if chars_equal_str(e, "mp4") {
        "video/mp4"
    } else if chars_equal_str(e, "webm") {
        "video/webm"
    } else if chars_equal_str(e, "avi") {
        "video/x-msvideo"
    } else if chars_equal_str(e, "mov") {
        "video/quicktime"
    } else {
        "application/octet-stream"
    }
}

/// The content type for a file extension, if the name has one, compared without regard to the
/// case of ASCII letters.
///
/// The extension is lowered letter by letter in ASCII. Every name in the table is ASCII, and
/// the only characters whose Unicode lower case is an ASCII letter are the ASCII capitals and
/// the Kelvin sign, which lowers to `k`, a letter no name in the table holds; so this gives the
/// content type that a full Unicode lowering would.
pub open spec fn content_type_for_extension(ext: Option<Seq<char>>) -> Seq<char> {
    match ext {
        Some(e) => mime_for_extension(ascii_lower_chars(e)),
        None => mime_for_extension(Seq::empty()),
    }
}

/// The content type for a file extension, if the name has one.
pub fn content_type_of_extension(ext: Option<&str>) -> (r: String)
    ensures
        r@ == content_type_for_extension(
            match ext {
                Some(e) => Some(e@),
                None => None,
            },
        ),
{
    let lowered: Vec<char> = match ext {
        Some(e) => ascii_lowercase(e),
        None => Vec::new(),
    };
    assert(ext is None ==> lowered@ =~= Seq::<char>::empty());
    String::from_str(mime_for_extension_chars(&lowered))
}

/// The content type that the extension of a file name suggests.
pub fn detect_content_type(filename: &str) -> (r: String)
    ensures
        suggested_content_type(filename@, r@),
{
    let ext = file_extension(filename);
    match &ext {
        Some(e) => content_type_of_extension(Some(e.as_str())),
        None => content_type_of_extension(None),
    }
}

/// Whether a content type is the one to send for an attachment: the recorded one, else one
/// that its name suggests.
pub open spec fn attachment_content_type(a: Attachment, ct: Seq<char>) -> bool {
    match a.content_type {
        Some(t) => ct == t@,
        None => suggested_content_type(a.filename@, ct),
    }
}

impl DownloadAttachmentUseCase {
    pub fn new() -> (u: Self) {
        DownloadAttachmentUseCase {  }
    }

    /// Decides whether the user may download the attachment: administrators always; otherwise
    /// the view rule of the project of the attachment's issue, or of the attachment's project.
    pub fn check_download_permission(
        &self,
        attachment: &Attachment,
        current_user: &CurrentUser,
        issue: &Option<Issue>,
        project: &Option<Project>,
        member_project_ids: &Vec<i32>,
    ) -> (r: Result<(), ApplicationError>)
        ensures
            refusal_of(r) == attachment_view_refusal(
                current_user.admin,
                container_target_of(*attachment),
                *issue,
                *project,
                member_project_ids@,
                download_denial(),
            ),
    {
        check_attachment_view(
            current_user,
            attachment,
            issue,
            project,
            member_project_ids,
            "You don't have permission to download this attachment",
        )
    }

    /// The error for a stored file that could not be read.
    pub fn load_error(&self, attachment_id: i32, e: StorageError) -> (r: ApplicationError)
        ensures
            refusal_of::<()>(Err(r)) == Some(load_refusal(attachment_id, e)),
    {
        match e {
            StorageError::NotFound(_) => ApplicationError::NotFound(
                framed_number("Attachment file ", attachment_id, " not found on disk"),
            ),
            StorageError::Io(m) => ApplicationError::Internal(
                prefixed("Failed to read attachment file: ", m.as_str()),
            ),
            StorageError::InvalidFilename(m) => ApplicationError::Internal(m),
        }
    }

    /// The file to send: its content, its original name and its content type.
    pub fn build_response(&self, attachment: Attachment, content: Vec<u8>) -> (r: DownloadResponse)
        ensures
            r.content@ == content@,
            r.filename@ == attachment.filename@,
            attachment_content_type(attachment, r.content_type@),
    {
        let content_type = match &attachment.content_type {
            Some(t) => t.clone(),
            None => detect_content_type(attachment.filename.as_str()),
        };
        DownloadResponse { content, filename: attachment.filename, content_type }
    }
}

/// The content type that a file extension gives, in any ASCII case: the documents, images,
/// text, archives, audio and video types below; `application/octet-stream` for any other
/// extension and for none.
pub proof fn content_types_of_extensions(e: Seq<char>)
    ensures
        ascii_lower_chars(e) == "pdf"@ ==> content_type_for_extension(Some(e)) == "application/pdf"@,
        ascii_lower_chars(e) == "doc"@ ==> content_type_for_extension(Some(e)) == "application/msword"@,
        ascii_lower_chars(e) == "docx"@ ==> content_type_for_extension(Some(e)) == "application/vnd.openxmlformats-officedocument.wordprocessingml.document"@,
        ascii_lower_chars(e) == "xls"@ ==> content_type_for_extension(Some(e)) == "application/vnd.ms-excel"@,
        ascii_lower_chars(e) == "xlsx"@ ==> content_type_for_extension(Some(e)) == "application/vnd.openxmlformats-officedocument.spreadsheetml.sheet"@,
        ascii_lower_chars(e) == "ppt"@ ==> content_type_for_extension(Some(e)) == "application/vnd.ms-powerpoint"@,
        ascii_lower_chars(e) == "pptx"@ ==> content_type_for_extension(Some(e)) == "application/vnd.openxmlformats-officedocument.presentationml.presentation"@,
        ascii_lower_chars(e) == "png"@ ==> content_type_for_extension(Some(e)) == "image/png"@,
        ascii_lower_chars(e) == "jpg"@ ==> content_type_for_extension(Some(e)) == "image/jpeg"@,
        ascii_lower_chars(e) == "jpeg"@ ==> content_type_for_extension(Some(e)) == "image/jpeg"@,
        ascii_lower_chars(e) == "gif"@ ==> content_type_for_extension(Some(e)) == "image/gif"@,
        ascii_lower_chars(e) == "webp"@ ==> content_type_for_extension(Some(e)) == "image/webp"@,
        ascii_lower_chars(e) == "svg"@ ==> content_type_for_extension(Some(e)) == "image/svg+xml"@,
        ascii_lower_chars(e) == "ico"@ ==> content_type_for_extension(Some(e)) == "image/x-icon"@,
        ascii_lower_chars(e) == "bmp"@ ==> content_type_for_extension(Some(e)) == "image/bmp"@,
        ascii_lower_chars(e) == "txt"@ ==> content_type_for_extension(Some(e)) == "text/plain"@,
        ascii_lower_chars(e) == "csv"@ ==> content_type_for_extension(Some(e)) == "text/csv"@,
        ascii_lower_chars(e) == "html"@ ==> content_type_for_extension(Some(e)) == "text/html"@,
        ascii_lower_chars(e) == "htm"@ ==> content_type_for_extension(Some(e)) == "text/html"@,
        ascii_lower_chars(e) == "css"@ ==> content_type_for_extension(Some(e)) == "text/css"@,
        ascii_lower_chars(e) == "js"@ ==> content_type_for_extension(Some(e)) == "application/javascript"@,
        ascii_lower_chars(e) == "json"@ ==> content_type_for_extension(Some(e)) == "application/json"@,
        ascii_lower_chars(e) == "xml"@ ==> content_type_for_extension(Some(e)) == "application/xml"@,
        ascii_lower_chars(e) == "zip"@ ==> content_type_for_extension(Some(e)) == "application/zip"@,
        ascii_lower_chars(e) == "tar"@ ==> content_type_for_extension(Some(e)) == "application/x-tar"@,
        ascii_lower_chars(e) == "gz"@ ==> content_type_for_extension(Some(e)) == "application/gzip"@,
        ascii_lower_chars(e) == "rar"@ ==> content_type_for_extension(Some(e)) == "application/vnd.rar"@,
        ascii_lower_chars(e) == "7z"@ ==> content_type_for_extension(Some(e)) == "application/x-7z-compressed"@,
        ascii_lower_chars(e) == "mp3"@ ==> content_type_for_extension(Some(e)) == "audio/mpeg"@,
        ascii_lower_chars(e) == "wav"@ ==> content_type_for_extension(Some(e)) == "audio/wav"@,
        ascii_lower_chars(e) == "mp4"@ ==> content_type_for_extension(Some(e)) == "video/mp4"@,
        ascii_lower_chars(e) == "webm"@ ==> content_type_for_extension(Some(e)) == "video/webm"@,
        ascii_lower_chars(e) == "avi"@ ==> content_type_for_extension(Some(e)) == "video/x-msvideo"@,
        ascii_lower_chars(e) == "mov"@ ==> content_type_for_extension(Some(e)) == "video/quicktime"@,
        (ascii_lower_chars(e) != "pdf"@ && ascii_lower_chars(e) != "doc"@ && ascii_lower_chars(e) != "docx"@ && ascii_lower_chars(e) != "xls"@ && ascii_lower_chars(e) != "xlsx"@ && ascii_lower_chars(e) != "ppt"@ && ascii_lower_chars(e) != "pptx"@ && ascii_lower_chars(e) != "png"@ && ascii_lower_chars(e) != "jpg"@ && ascii_lower_chars(e) != "jpeg"@ && ascii_lower_chars(e) != "gif"@ && ascii_lower_chars(e) != "webp"@ && ascii_lower_chars(e) != "svg"@ && ascii_lower_chars(e) != "ico"@ && ascii_lower_chars(e) != "bmp"@ && ascii_lower_chars(e) != "txt"@ && ascii_lower_chars(e) != "csv"@ && ascii_lower_chars(e) != "html"@ && ascii_lower_chars(e) != "htm"@ && ascii_lower_chars(e) != "css"@ && ascii_lower_chars(e) != "js"@ && ascii_lower_chars(e) != "json"@ && ascii_lower_chars(e) != "xml"@ && ascii_lower_chars(e) != "zip"@ && ascii_lower_chars(e) != "tar"@ && ascii_lower_chars(e) != "gz"@ && ascii_lower_chars(e) != "rar"@ && ascii_lower_chars(e) != "7z"@ && ascii_lower_chars(e) != "mp3"@ && ascii_lower_chars(e) != "wav"@ && ascii_lower_chars(e) != "mp4"@ && ascii_lower_chars(e) != "webm"@ && ascii_lower_chars(e) != "avi"@ && ascii_lower_chars(e) != "mov"@) ==> content_type_for_extension(Some(e)) == "application/octet-stream"@,
        content_type_for_extension(None) == "application/octet-stream"@,
{
    reveal_strlit("pdf");
    reveal_strlit("doc");
    reveal_strlit("docx");
    reveal_strlit("xls");
    reveal_strlit("xlsx");
    reveal_strlit("ppt");
    reveal_strlit("pptx");
    reveal_strlit("png");
    reveal_strlit("jpg");
    reveal_strlit("jpeg");
    reveal_strlit("gif");
    reveal_strlit("webp");
    reveal_strlit("svg");
    reveal_strlit("ico");
    reveal_strlit("bmp");
    reveal_strlit("txt");
    reveal_strlit("csv");
    reveal_strlit("html");
    reveal_strlit("htm");
    reveal_strlit("css");
    reveal_strlit("js");
    reveal_strlit("json");
    reveal_strlit("xml");
    reveal_strlit("zip");
    reveal_strlit("tar");
    reveal_strlit("gz");
    reveal_strlit("rar");
    reveal_strlit("7z");
    reveal_strlit("mp3");
    reveal_strlit("wav");
    reveal_strlit("mp4");
    reveal_strlit("webm");
    reveal_strlit("avi");
    reveal_strlit("mov");
    let l = ascii_lower_chars(e);
    assert("pdf"@.len() == 3);
    if l == "pdf"@ {
        assert(l.len() == 3);
        assert(l[0] == 'p');
        assert(l[1] == 'd');
        assert(l[2] == 'f');
    }
    assert("doc"@.len() == 3);
    if l == "doc"@ {
        assert(l.len() == 3);
        assert(l[0] == 'd');
        assert(l[1] == 'o');
        assert(l[2] == 'c');
    }
    assert("docx"@.len() == 4);
    if l == "docx"@ {
        assert(l.len() == 4);
        assert(l[0] == 'd');
        assert(l[1] == 'o');
        assert(l[2] == 'c');
        assert(l[3] == 'x');
    }
    assert("xls"@.len() == 3);
    if l == "xls"@ {
        assert(l.len() == 3);
        assert(l[0] == 'x');
        assert(l[1] == 'l');
        assert(l[2] == 's');
    }
    assert("xlsx"@.len() == 4);
    if l == "xlsx"@ {
        assert(l.len() == 4);
        assert(l[0] == 'x');
        assert(l[1] == 'l');
        assert(l[2] == 's');
        assert(l[3] == 'x');
    }
    assert("ppt"@.len() == 3);
    if l == "ppt"@ {
        assert(l.len() == 3);
        assert(l[0] == 'p');
        assert(l[1] == 'p');
        assert(l[2] == 't');
    }
    assert("pptx"@.len() == 4);
    if l == "pptx"@ {
        assert(l.len() == 4);
        assert(l[0] == 'p');
        assert(l[1] == 'p');
        assert(l[2] == 't');
        assert(l[3] == 'x');
    }
    assert("png"@.len() == 3);
    if l == "png"@ {
        assert(l.len() == 3);
        assert(l[0] == 'p');
        assert(l[1] == 'n');
        assert(l[2] == 'g');
    }
    assert("jpg"@.len() == 3);
    if l == "jpg"@ {
        assert(l.len() == 3);
        assert(l[0] == 'j');
        assert(l[1] == 'p');
        assert(l[2] == 'g');
    }
    assert("jpeg"@.len() == 4);
    if l == "jpeg"@ {
        assert(l.len() == 4);
        assert(l[0] == 'j');
        assert(l[1] == 'p');
        assert(l[2] == 'e');
        assert(l[3] == 'g');
    }
    assert("gif"@.len() == 3);
    if l == "gif"@ {
        assert(l.len() == 3);
        assert(l[0] == 'g');
        assert(l[1] == 'i');
        assert(l[2] == 'f');
    }
    assert("webp"@.len() == 4);
    if l == "webp"@ {
        assert(l.len() == 4);
        assert(l[0] == 'w');
        assert(l[1] == 'e');
        assert(l[2] == 'b');
        assert(l[3] == 'p');
    }
    assert("svg"@.len() == 3);
    if l == "svg"@ {
        assert(l.len() == 3);
        assert(l[0] == 's');
        assert(l[1] == 'v');
        assert(l[2] == 'g');
    }
    assert("ico"@.len() == 3);
    if l == "ico"@ {
        assert(l.len() == 3);
        assert(l[0] == 'i');
        assert(l[1] == 'c');
        assert(l[2] == 'o');
    }
    assert("bmp"@.len() == 3);
    if l == "bmp"@ {
        assert(l.len() == 3);
        assert(l[0] == 'b');
        assert(l[1] == 'm');
        assert(l[2] == 'p');
    }
    assert("txt"@.len() == 3);
    if l == "txt"@ {
        assert(l.len() == 3);
        assert(l[0] == 't');
        assert(l[1] == 'x');
        assert(l[2] == 't');
    }
    assert("csv"@.len() == 3);
    if l == "csv"@ {
        assert(l.len() == 3);
        assert(l[0] == 'c');
        assert(l[1] == 's');
        assert(l[2] == 'v');
    }
    assert("html"@.len() == 4);
    if l == "html"@ {
        assert(l.len() == 4);
        assert(l[0] == 'h');
        assert(l[1] == 't');
        assert(l[2] == 'm');
        assert(l[3] == 'l');
    }
    assert("htm"@.len() == 3);
    if l == "htm"@ {
        assert(l.len() == 3);
        assert(l[0] == 'h');
        assert(l[1] == 't');
        assert(l[2] == 'm');
    }
    assert("css"@.len() == 3);
    if l == "css"@ {
        assert(l.len() == 3);
        assert(l[0] == 'c');
        assert(l[1] == 's');
        assert(l[2] == 's');
    }
    assert("js"@.len() == 2);
    if l == "js"@ {
        assert(l.len() == 2);
        assert(l[0] == 'j');
        assert(l[1] == 's');
    }
    assert("json"@.len() == 4);
    if l == "json"@ {
        assert(l.len() == 4);
        assert(l[0] == 'j');
        assert(l[1] == 's');
        assert(l[2] == 'o');
        assert(l[3] == 'n');
    }
    assert("xml"@.len() == 3);
    if l == "xml"@ {
        assert(l.len() == 3);
        assert(l[0] == 'x');
        assert(l[1] == 'm');
        assert(l[2] == 'l');
    }
    assert("zip"@.len() == 3);
    if l == "zip"@ {
        assert(l.len() == 3);
        assert(l[0] == 'z');
        assert(l[1] == 'i');
        assert(l[2] == 'p');
    }
    assert("tar"@.len() == 3);
    if l == "tar"@ {
        assert(l.len() == 3);
        assert(l[0] == 't');
        assert(l[1] == 'a');
        assert(l[2] == 'r');
    }
    assert("gz"@.len() == 2);
    if l == "gz"@ {
        assert(l.len() == 2);
        assert(l[0] == 'g');
        assert(l[1] == 'z');
    }
    assert("rar"@.len() == 3);
    if l == "rar"@ {
        assert(l.len() == 3);
        assert(l[0] == 'r');
        assert(l[1] == 'a');
        assert(l[2] == 'r');
    }
    assert("7z"@.len() == 2);
    if l == "7z"@ {
        assert(l.len() == 2);
        assert(l[0] == '7');
        assert(l[1] == 'z');
    }
    assert("mp3"@.len() == 3);
    if l == "mp3"@ {
        assert(l.len() == 3);
        assert(l[0] == 'm');
        assert(l[1] == 'p');
        assert(l[2] == '3');
    }
    assert("wav"@.len() == 3);
    if l == "wav"@ {
        assert(l.len() == 3);
        assert(l[0] == 'w');
        assert(l[1] == 'a');
        assert(l[2] == 'v');
    }
    assert("mp4"@.len() == 3);
    if l == "mp4"@ {
        assert(l.len() == 3);
        assert(l[0] == 'm');
        assert(l[1] == 'p');
        assert(l[2] == '4');
    }
    assert("webm"@.len() == 4);
    if l == "webm"@ {
        assert(l.len() == 4);
        assert(l[0] == 'w');
        assert(l[1] == 'e');
        assert(l[2] == 'b');
        assert(l[3] == 'm');
    }
    assert("avi"@.len() == 3);
    if l == "avi"@ {
        assert(l.len() == 3);
        assert(l[0] == 'a');
        assert(l[1] == 'v');
        assert(l[2] == 'i');
    }
    assert("mov"@.len() == 3);
    if l == "mov"@ {
        assert(l.len() == 3);
        assert(l[0] == 'm');
        assert(l[1] == 'o');
        assert(l[2] == 'v');
    }
    assert(Seq::<char>::empty().len() == 0);
}

/// A download is sent with the content type recorded for the attachment when there is one;
/// without one, with the type that the extension of its name gives (for a name that every
/// platform splits alike).
pub proof fn recorded_content_type_wins(a: Attachment, ct: Seq<char>)
    ensures
        a.content_type matches Some(t) ==> (attachment_content_type(a, ct) <==> ct == t@),
        a.content_type is None && is_path_independent(a.filename@) && attachment_content_type(a, ct)
            ==> ct == content_type_for_extension(path_extension_of(a.filename@)),
{
}

} // verus!
