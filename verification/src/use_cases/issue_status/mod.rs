pub mod create_issue_status;
pub mod delete_issue_status;
pub mod get_issue_status;
pub mod list_issue_statuses;
pub mod update_issue_status;

pub use create_issue_status::{CreateIssueStatusResponse, CreateIssueStatusUseCase};
pub use delete_issue_status::DeleteIssueStatusUseCase;
pub use get_issue_status::{GetIssueStatusResponse, GetIssueStatusUseCase};
pub use list_issue_statuses::{IssueStatusItem, IssueStatusListResponse, ListIssueStatusesUseCase};
pub use update_issue_status::{
    UpdateIssueStatusRequest, UpdateIssueStatusResponse, UpdateIssueStatusUseCase,
};
