use crate::domain::NewIssueStatus;
use vstd::prelude::*;

verus! {

/// The request body that creates an issue status.
#[derive(Debug)]
pub struct CreateIssueStatusRequest {
    pub issue_status: CreateIssueStatusDto,
}

/// The fields of a new issue status.
#[derive(Debug)]
pub struct CreateIssueStatusDto {
    pub name: String,
    pub is_closed: Option<bool>,
    pub is_default: Option<bool>,
    pub default_done_ratio: Option<i32>,
}

impl From<CreateIssueStatusDto> for NewIssueStatus {
    /// The status to store; flags that are not given are false, and no position is set.
    fn from(dto: CreateIssueStatusDto) -> (r: Self) {
        NewIssueStatus {
            name: dto.name,
            position: None,
            is_closed: match dto.is_closed {
                Some(b) => b,
                None => false,
            },
            is_default: match dto.is_default {
                Some(b) => b,
                None => false,
            },
            default_done_ratio: dto.default_done_ratio,
        }
    }
}

impl vstd::std_specs::convert::FromSpecImpl<CreateIssueStatusDto> for NewIssueStatus {
    open spec fn obeys_from_spec() -> bool {
        true
    }

    open spec fn from_spec(dto: CreateIssueStatusDto) -> Self {
        NewIssueStatus {
            name: dto.name,
            position: None,
            is_closed: dto.is_closed == Some(true),
            is_default: dto.is_default == Some(true),
            default_done_ratio: dto.default_done_ratio,
        }
    }
}

/// The request body that deletes an issue status.
#[derive(Debug)]
pub struct DeleteIssueStatusRequest {
    /// Status that the issues of the deleted one move to.
    pub reassign_to_id: Option<i32>,
}

/// The request body that updates an issue status.
#[derive(Debug)]
pub struct UpdateIssueStatusRequest {
    pub issue_status: UpdateIssueStatusDto,
}

/// The fields of an issue status to change; `None` leaves a field as it is.
#[derive(Debug)]
pub struct UpdateIssueStatusDto {
    pub name: Option<String>,
    pub is_closed: Option<bool>,
    pub is_default: Option<bool>,
    pub default_done_ratio: Option<i32>,
}

} // verus!
