use crate::use_cases::tracker;
use vstd::prelude::*;

verus! {

/// The request body that creates a tracker.
#[derive(Debug)]
pub struct CreateTrackerRequest {
    pub tracker: CreateTrackerDto,
}

/// The fields of a new tracker.
#[derive(Debug)]
pub struct CreateTrackerDto {
    pub name: String,
    pub default_status_id: Option<i32>,
    pub description: Option<String>,
    pub enabled_standard_fields: Option<Vec<String>>,
}

impl From<CreateTrackerDto> for tracker::CreateTrackerRequest {
    fn from(dto: CreateTrackerDto) -> (r: Self) {
        tracker::CreateTrackerRequest {
            name: dto.name,
            default_status_id: dto.default_status_id,
            description: dto.description,
            enabled_standard_fields: dto.enabled_standard_fields,
        }
    }
}

impl vstd::std_specs::convert::FromSpecImpl<CreateTrackerDto> for tracker::CreateTrackerRequest {
    open spec fn obeys_from_spec() -> bool {
        true
    }

    open spec fn from_spec(dto: CreateTrackerDto) -> Self {
        tracker::CreateTrackerRequest {
            name: dto.name,
            default_status_id: dto.default_status_id,
            description: dto.description,
            enabled_standard_fields: dto.enabled_standard_fields,
        }
    }
}

/// The request body that updates a tracker.
#[derive(Debug)]
pub struct UpdateTrackerRequest {
    pub tracker: UpdateTrackerDto,
}

/// The fields of a tracker to change; `None` leaves a field as it is.
#[derive(Debug)]
pub struct UpdateTrackerDto {
    pub name: Option<String>,
    pub position: Option<i32>,
    pub is_in_roadmap: Option<bool>,
    pub default_status_id: Option<i32>,
    pub enabled_standard_fields: Option<Vec<String>>,
    /// Projects that use the tracker; replaces the current ones.
    pub project_ids: Option<Vec<i32>>,
}

impl From<UpdateTrackerDto> for tracker::UpdateTrackerRequest {
    fn from(dto: UpdateTrackerDto) -> (r: Self) {
        tracker::UpdateTrackerRequest {
            name: dto.name,
            position: dto.position,
            is_in_roadmap: dto.is_in_roadmap,
            default_status_id: dto.default_status_id,
            enabled_standard_fields: dto.enabled_standard_fields,
            project_ids: dto.project_ids,
        }
    }
}

impl vstd::std_specs::convert::FromSpecImpl<UpdateTrackerDto> for tracker::UpdateTrackerRequest {
    open spec fn obeys_from_spec() -> bool {
        true
    }

    open spec fn from_spec(dto: UpdateTrackerDto) -> Self {
        tracker::UpdateTrackerRequest {
            name: dto.name,
            position: dto.position,
            is_in_roadmap: dto.is_in_roadmap,
            default_status_id: dto.default_status_id,
            enabled_standard_fields: dto.enabled_standard_fields,
            project_ids: dto.project_ids,
        }
    }
}

} // verus!
