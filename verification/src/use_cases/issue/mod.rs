pub mod create_issue;
pub mod delete_issue;
pub mod get_issue;
pub mod list_issues;
pub mod list_journals;
pub mod update_issue;

pub use create_issue::CreateIssueUseCase;
pub use delete_issue::{DeleteIssueUseCase, DeletionStep};
pub use get_issue::{
    AttachmentResponse, ChildIssueSummary, GetIssueUseCase, IncludeOption, IssueDetails,
    JournalDetailResponse, JournalResponse, RelationResponse,
};
pub use list_issues::{ListIssuesUseCase, StatusInfo};
pub use list_journals::{ListJournalsResponse, ListJournalsUseCase};
pub use update_issue::{UpdateIssueUseCase, UpdateLookups};
