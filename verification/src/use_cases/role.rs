use vstd::prelude::*;

verus! {

/// What the role service needs to create a role.
#[derive(Debug)]
pub struct CreateRoleRequest {
    pub name: String,
    pub permissions: Option<Vec<String>>,
    /// `all`, `default` or `own`.
    pub issues_visibility: Option<String>,
    pub assignable: Option<bool>,
}

/// What the role service needs to change a role; `None` leaves a field as it is.
#[derive(Debug)]
pub struct UpdateRoleRequest {
    pub name: Option<String>,
    pub permissions: Option<Vec<String>>,
    pub issues_visibility: Option<String>,
    pub assignable: Option<bool>,
}

} // verus!
