pub mod auth;
pub mod category;
pub mod issue;
pub mod issue_status;
pub mod member;
pub mod project;
pub mod relation;
pub mod role;
pub mod tracker;
pub mod user;

pub use auth::LoginRequest;
pub use category::{
    CreateCategoryDto, CreateCategoryRequest, UpdateCategoryDto, UpdateCategoryRequest,
};
pub use issue::{
    CreateIssueDto, CreateIssueRequest, CreateUploadToken, UpdateIssueDto, UpdateIssueRequest,
    UploadToken,
};
pub use issue_status::{
    CreateIssueStatusDto, CreateIssueStatusRequest, DeleteIssueStatusRequest, UpdateIssueStatusDto,
    UpdateIssueStatusRequest,
};
pub use member::{CreateMemberDto, CreateMemberRequest, UpdateMemberDto, UpdateMemberRequest};
pub use project::{CreateProjectDto, CreateProjectRequest, UpdateProjectDto, UpdateProjectRequest};
pub use relation::{CreateRelationDto, CreateRelationRequest};
pub use role::{CreateRoleDto, CreateRoleRequest, UpdateRoleDto, UpdateRoleRequest};
pub use tracker::{CreateTrackerDto, CreateTrackerRequest, UpdateTrackerDto, UpdateTrackerRequest};
pub use user::{CreateUserDto, CreateUserRequest, UpdateUserDto, UpdateUserRequest};
