use vstd::prelude::*;

verus! {

/// What the tracker service needs to create a tracker.
#[derive(Debug)]
pub struct CreateTrackerRequest {
    pub name: String,
    pub default_status_id: Option<i32>,
    pub description: Option<String>,
    pub enabled_standard_fields: Option<Vec<String>>,
}

/// What the tracker service needs to change a tracker; `None` leaves a field as it is.
#[derive(Debug)]
pub struct UpdateTrackerRequest {
    pub name: Option<String>,
    pub position: Option<i32>,
    pub is_in_roadmap: Option<bool>,
    pub default_status_id: Option<i32>,
    pub enabled_standard_fields: Option<Vec<String>>,
    pub project_ids: Option<Vec<i32>>,
}

} // verus!
