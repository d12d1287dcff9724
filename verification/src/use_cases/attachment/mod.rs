pub mod delete_attachment;
pub mod download_attachment;
pub mod get_attachment;
pub mod list_issue_attachments;
pub mod update_attachment;
pub mod upload_file;
pub mod upload_issue_attachment;

pub use delete_attachment::DeleteAttachmentUseCase;
pub use download_attachment::{DownloadAttachmentUseCase, DownloadResponse};
pub use get_attachment::{AttachmentDetailResponse, GetAttachmentResponse, GetAttachmentUseCase};
pub use list_issue_attachments::{
    IssueAttachmentItem, IssueAttachmentListResponse, ListIssueAttachmentsUseCase,
};
pub use update_attachment::{
    UpdateAttachmentDetailResponse, UpdateAttachmentDto, UpdateAttachmentRequest,
    UpdateAttachmentResponse, UpdateAttachmentUseCase,
};
pub use upload_file::{UploadFileUseCase, UploadResponse, UploadTokenResponse};
pub use upload_issue_attachment::{
    UploadIssueAttachmentResponse, UploadIssueAttachmentUseCase, UploadedAttachmentItem,
};
