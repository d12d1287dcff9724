use crate::domain::{CurrentUser, SaveResult, StorageConfig, StorageError};
use crate::errors::{framed, prefixed, ApplicationError, ErrorKind, Refusal, refusal_of};
use crate::external::chars_to_string;
use crate::text::{chars_of, decimal, u64_to_string};
use vstd::prelude::*;

verus! {

/// How long an upload token stays valid, in hours.
pub const UPLOAD_TOKEN_LIFETIME_HOURS: i64 = 24;

/// The response to an upload: the token that later requests attach the file by.
#[derive(Debug)]
pub struct UploadResponse {
    pub upload: UploadTokenResponse,
}

/// The token of an uploaded file.
#[derive(Debug)]
pub struct UploadTokenResponse {
    pub token: String,
}

/// Stores uploaded files and hands out tokens for them.
#[derive(Debug)]
pub struct UploadFileUseCase {
    config: StorageConfig,
}

/// The refusal for a file larger than allowed, if it is.
pub open spec fn size_refusal(size: nat, max_file_size: u64) -> Option<Refusal> {
    if size > max_file_size {
        Some(
            (
                ErrorKind::Validation,
                "File size exceeds maximum of "@ + decimal(max_file_size as int) + " bytes"@,
            ),
        )
    } else {
        None
    }
}

/// Checks that a file of `size` bytes is not larger than allowed.
pub fn check_file_size(size: usize, max_file_size: u64) -> (r: Result<(), ApplicationError>)
    ensures
        refusal_of(r) == size_refusal(size as nat, max_file_size),
{
    if size as u64 > max_file_size {
        let n = u64_to_string(max_file_size);
        Err(ApplicationError::Validation(framed("File size exceeds maximum of ", n.as_str(), " bytes")))
    } else {
        Ok(())
    }
}

/// What a failed store of a file is reported as: an invalid name is the caller's fault.
pub open spec fn save_refusal(e: StorageError) -> Refusal {
    match e {
        StorageError::Io(m) => (ErrorKind::Internal, "Failed to save file: "@ + m@),
        StorageError::InvalidFilename(m) => (ErrorKind::Validation, m@),
        StorageError::NotFound(m) => (ErrorKind::Internal, m@),
    }
}

/// The error for a file that could not be stored.
pub fn save_error(e: StorageError) -> (r: ApplicationError)
    ensures
        refusal_of::<()>(Err(r)) == Some(save_refusal(e)),
{
    match e {
        StorageError::Io(m) => ApplicationError::Internal(prefixed("Failed to save file: ", m.as_str())),
        StorageError::InvalidFilename(m) => ApplicationError::Validation(m),
        StorageError::NotFound(m) => ApplicationError::Internal(m),
    }
}

/// Whether a text is an upload token: 32 lower-case hexadecimal digits.
pub open spec fn is_upload_token(s: Seq<char>) -> bool {
    &&& s.len() == 32
    &&& forall|i: int|
        0 <= i < 32 ==> ('0' <= #[trigger] s[i] && s[i] <= '9') || ('a' <= s[i] && s[i] <= 'f')
}

/// An uploaded file waiting to be attached, kept under its token: where it was stored, its
/// name, size, type and digest, who uploaded it, and for how many hours it is kept.
#[derive(Debug, Clone)]
pub struct TempUpload {
    pub token: String,
    pub filename: String,
    pub disk_directory: String,
    pub disk_filename: String,
    pub filesize: i64,
    pub content_type: Option<String>,
    pub digest: Option<String>,
    pub author_id: i32,
    pub lifetime_hours: i64,
}

/// Whether the text is a UUID in hyphenated lower-case form, as `uuid::Uuid`'s `to_string`
/// writes one: 36 characters, hyphens at positions 8, 13, 18 and 23, lower-case hexadecimal
/// digits everywhere else.
pub open spec fn is_hyphenated_lower_uuid(s: Seq<char>) -> bool {
    &&& s.len() == 36
    &&& forall|i: int|
        0 <= i < 36 ==> if i == 8 || i == 13 || i == 18 || i == 23 {
            #[trigger] s[i] == '-'
        } else {
            ('0' <= s[i] && s[i] <= '9') || ('a' <= s[i] && s[i] <= 'f')
        }
}

/// The text without its hyphens.
pub open spec fn without_hyphens(s: Seq<char>) -> Seq<char> {
    s.filter(|c: char| c != '-')
}

/// The upload token made from the text of a fresh UUID: the text without its hyphens. For a
/// UUID in hyphenated lower-case form that is 32 lower-case hexadecimal digits.
pub fn token_from_uuid_text(text: &str) -> (t: String)
    ensures
        t@ == without_hyphens(text@),
        is_hyphenated_lower_uuid(text@) ==> is_upload_token(t@),
{
    let v = chars_of(text);
    let ghost keep = |c: char| c != '-';
    let mut out: Vec<char> = Vec::new();
    let mut i: usize = 0;
    proof {
        assert(v@.take(0).filter(keep) =~= Seq::<char>::empty());
    }
    while i < v.len()
        invariant
            v@ == text@,
            i <= v@.len(),
            keep == (|c: char| c != '-'),
            out@ == v@.take(i as int).filter(keep),
            is_hyphenated_lower_uuid(text@) ==> out@.len() == i - (if i > 23 {
                4int
            } else if i > 18 {
                3int
            } else if i > 13 {
                2int
            } else if i > 8 {
                1int
            } else {
                0int
            }),
            is_hyphenated_lower_uuid(text@) ==> forall|k: int|
                0 <= k < out@.len() ==> ('0' <= #[trigger] out@[k] && out@[k] <= '9') || ('a'
                    <= out@[k] && out@[k] <= 'f'),
        decreases v.len() - i,
    {
        let c = v[i];
        proof {
            assert(v@.take(i + 1).drop_last() =~= v@.take(i as int));
            assert(v@.take(i + 1).last() == c);
            reveal(Seq::filter);
        }
        if c != '-' {
            out.push(c);
            assert(is_hyphenated_lower_uuid(text@) ==> !(i == 8 || i == 13 || i == 18 || i
                == 23));
        } else {
            assert(is_hyphenated_lower_uuid(text@) ==> (i == 8 || i == 13 || i == 18 || i
                == 23));
        }
        i = i + 1;
    }
    proof {
        assert(v@.take(v@.len() as int) =~= v@);
    }
    chars_to_string(&out)
}

impl UploadFileUseCase {
    pub fn new(config: StorageConfig) -> (u: Self)
        ensures
            u.max_file_size() == config.max_file_size,
    {
        UploadFileUseCase { config }
    }

    /// The largest accepted file, in bytes.
    pub closed spec fn max_file_size(&self) -> u64 {
        self.config.max_file_size
    }

    /// Checks that a file of `size` bytes is not larger than the configuration allows.
    pub fn check_file_size(&self, size: usize) -> (r: Result<(), ApplicationError>)
        ensures
            refusal_of(r) == size_refusal(size as nat, self.max_file_size()),
    {
        check_file_size(size, self.config.max_file_size)
    }

    /// The error for a file that could not be stored.
    pub fn save_error(&self, e: StorageError) -> (r: ApplicationError)
        ensures
            refusal_of::<()>(Err(r)) == Some(save_refusal(e)),
    {
        save_error(e)
    }

    /// The error for a token that could not be kept.
    pub fn store_error(&self, reason: &str) -> (r: ApplicationError)
        ensures
            refusal_of::<()>(Err(r)) == Some(
                (ErrorKind::Internal, "Failed to store upload token: "@ + reason@),
            ),
    {
        ApplicationError::Internal(prefixed("Failed to store upload token: ", reason))
    }

    /// The record that keeps the uploaded file under its token until the token expires.
    pub fn temp_upload(
        &self,
        token: String,
        filename: String,
        filesize: i64,
        content_type: Option<String>,
        current_user: &CurrentUser,
        saved: SaveResult,
    ) -> (t: TempUpload)
        ensures
            t.token == token,
            t.filename == filename,
            t.disk_directory == saved.disk_directory,
            t.disk_filename == saved.disk_filename,
            t.filesize == filesize,
            t.content_type == content_type,
            t.digest == Some(saved.digest),
            t.author_id == current_user.id,
            t.lifetime_hours == UPLOAD_TOKEN_LIFETIME_HOURS,
    {
        TempUpload {
            token,
            filename,
            disk_directory: saved.disk_directory,
            disk_filename: saved.disk_filename,
            filesize,
            content_type,
            digest: Some(saved.digest),
            author_id: current_user.id,
            lifetime_hours: UPLOAD_TOKEN_LIFETIME_HOURS,
        }
    }

    /// The response that hands out the token.
    pub fn build_response(&self, token: String) -> (r: UploadResponse)
        ensures
            r.upload.token == token,
    {
        UploadResponse { upload: UploadTokenResponse { token } }
    }
}

/// A file is accepted exactly when it is no larger than the configured maximum; a larger one
/// is refused with a message that gives the maximum.
pub proof fn file_size_rule(size: nat, max_file_size: u64)
    ensures
        size_refusal(size, max_file_size) is None <==> size <= max_file_size,
        size > max_file_size ==> size_refusal(size, max_file_size) == Some(
            (
                ErrorKind::Validation,
                "File size exceeds maximum of "@ + decimal(max_file_size as int) + " bytes"@,
            ),
        ),
{
}

} // verus!
