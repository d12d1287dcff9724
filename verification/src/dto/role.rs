use crate::use_cases::role;
use vstd::prelude::*;

verus! {

/// The request body that creates a role.
#[derive(Debug)]
pub struct CreateRoleRequest {
    pub role: CreateRoleDto,
}

/// The fields of a new role.
#[derive(Debug)]
pub struct CreateRoleDto {
    pub name: String,
    pub permissions: Option<Vec<String>>,
    /// `all`, `default` or `own`.
    pub issues_visibility: Option<String>,
    pub assignable: Option<bool>,
}

impl From<CreateRoleDto> for role::CreateRoleRequest {
    fn from(dto: CreateRoleDto) -> (r: Self) {
        role::CreateRoleRequest {
            name: dto.name,
            permissions: dto.permissions,
            issues_visibility: dto.issues_visibility,
            assignable: dto.assignable,
        }
    }
}

impl vstd::std_specs::convert::FromSpecImpl<CreateRoleDto> for role::CreateRoleRequest {
    open spec fn obeys_from_spec() -> bool {
        true
    }

    open spec fn from_spec(dto: CreateRoleDto) -> Self {
        role::CreateRoleRequest {
            name: dto.name,
            permissions: dto.permissions,
            issues_visibility: dto.issues_visibility,
            assignable: dto.assignable,
        }
    }
}

/// The request body that updates a role.
#[derive(Debug)]
pub struct UpdateRoleRequest {
    pub role: UpdateRoleDto,
}

/// The fields of a role to change; `None` leaves a field as it is.
#[derive(Debug)]
pub struct UpdateRoleDto {
    pub name: Option<String>,
    pub permissions: Option<Vec<String>>,
    pub issues_visibility: Option<String>,
    pub assignable: Option<bool>,
}

impl From<UpdateRoleDto> for role::UpdateRoleRequest {
    fn from(dto: UpdateRoleDto) -> (r: Self) {
        role::UpdateRoleRequest {
            name: dto.name,
            permissions: dto.permissions,
            issues_visibility: dto.issues_visibility,
            assignable: dto.assignable,
        }
    }
}

impl vstd::std_specs::convert::FromSpecImpl<UpdateRoleDto> for role::UpdateRoleRequest {
    open spec fn obeys_from_spec() -> bool {
        true
    }

    open spec fn from_spec(dto: UpdateRoleDto) -> Self {
        role::UpdateRoleRequest {
            name: dto.name,
            permissions: dto.permissions,
            issues_visibility: dto.issues_visibility,
            assignable: dto.assignable,
        }
    }
}

} // verus!
