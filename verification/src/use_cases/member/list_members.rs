use crate::domain::{CurrentUser, MemberWithRoles, Project, RoleWithInheritance};
use crate::errors::{ApplicationError, refusal_of};
use super::get_member::{check_members_view, members_view_needs_membership, members_view_refusal};
use vstd::prelude::*;

verus! {

/// A role of a membership in a list of members.
#[derive(Debug, Clone)]
pub struct MemberRoleItem {
    pub id: i32,
    pub name: String,
}

/// A membership in a list of members.
#[derive(Debug, Clone)]
pub struct MembershipItem {
    pub id: i32,
    pub project: ProjectInfo,
    pub user: UserInfo,
    pub roles: Vec<MemberRoleItem>,
}

/// The project of a membership.
#[derive(Debug, Clone)]
pub struct ProjectInfo {
    pub id: i32,
    pub name: String,
}

/// The user of a membership.
#[derive(Debug, Clone)]
pub struct UserInfo {
    pub id: i32,
    pub name: String,
}

/// One page of a project's members: the whole list, from offset 0, with a limit of 25.
#[derive(Debug, Clone)]
pub struct MemberListResponse {
    pub memberships: Vec<MembershipItem>,
    pub total_count: u32,
    pub offset: u32,
    pub limit: u32,
}

/// Lists the members of a project for those who may see them.
#[derive(Debug)]
pub struct ListMembersUseCase {}

/// Whether the item shows the membership in the project, with all its roles.
pub open spec fn membership_item_shows(
    item: MembershipItem,
    membership: MemberWithRoles,
    project: Project,
) -> bool {
    &&& item.id == membership.member.id
    &&& item.project.id == project.id
    &&& item.project.name@ == project.name@
    &&& item.user.id == membership.user.id
    &&& item.user.name@ == crate::domain::full_name_of(
        membership.user.firstname@,
        membership.user.lastname@,
    )
    &&& item.roles@.len() == membership.roles@.len()
    &&& forall|k: int|
        0 <= k < membership.roles@.len() ==> (#[trigger] item.roles@[k]).id
            == membership.roles@[k].role.id && item.roles@[k].name@
            == membership.roles@[k].role.name@
}

/// The roles of a membership as list items.
pub fn role_items(roles: &Vec<RoleWithInheritance>) -> (v: Vec<MemberRoleItem>)
    ensures
        v@.len() == roles@.len(),
        forall|k: int|
            0 <= k < roles@.len() ==> (#[trigger] v@[k]).id == roles@[k].role.id && v@[k].name@
                == roles@[k].role.name@,
{
    let mut v: Vec<MemberRoleItem> = Vec::new();
    let mut i: usize = 0;
    while i < roles.len()
        invariant
            i <= roles@.len(),
            v@.len() == i,
            forall|k: int|
                0 <= k < i ==> (#[trigger] v@[k]).id == roles@[k].role.id && v@[k].name@
                    == roles@[k].role.name@,
        decreases roles.len() - i,
    {
        v.push(MemberRoleItem { id: roles[i].role.id, name: roles[i].role.name.clone() });
        i = i + 1;
    }
    v
}

/// The membership as an item of the project's list.
pub fn membership_item(membership: &MemberWithRoles, project: &Project) -> (item: MembershipItem)
    ensures
        membership_item_shows(item, *membership, *project),
{
    MembershipItem {
        id: membership.member.id,
        project: ProjectInfo { id: project.id, name: project.name.clone() },
        user: UserInfo { id: membership.user.id, name: membership.user.full_name() },
        roles: role_items(&membership.roles),
    }
}

impl ListMembersUseCase {
    pub fn new() -> (u: Self) {
        ListMembersUseCase {  }
    }

    /// Whether the user's membership in the project must be looked up.
    pub fn needs_membership(&self, current_user: &CurrentUser, project: &Project) -> (b: bool)
        ensures
            b == (!current_user.admin && !project.is_public && project.status
                != crate::domain::PROJECT_STATUS_ARCHIVED),
    {
        members_view_needs_membership(current_user, project)
    }

    /// Decides whether the user may see the project's members.
    pub fn check_permission(&self, current_user: &CurrentUser, project: &Project, is_member: bool) -> (r:
        Result<(), ApplicationError>)
        ensures
            refusal_of(r) == members_view_refusal(
                current_user.admin,
                *project,
                is_member,
                "You don't have permission to view this project's members"@,
            ),
    {
        check_members_view(
            current_user,
            project,
            is_member,
            "You don't have permission to view this project's members",
        )
    }

    /// The list of all the memberships, in the order given, each shown in the project.
    pub fn build_response(&self, members: &Vec<MemberWithRoles>, project: &Project) -> (r:
        MemberListResponse)
        ensures
            r.memberships@.len() == members@.len(),
            forall|k: int|
                0 <= k < members@.len() ==> membership_item_shows(
                    #[trigger] r.memberships@[k],
                    members@[k],
                    *project,
                ),
            r.total_count == members@.len() as u32,
            r.offset == 0,
            r.limit == 25,
    {
        let mut memberships: Vec<MembershipItem> = Vec::new();
        let mut i: usize = 0;
        while i < members.len()
            invariant
                i <= members@.len(),
                memberships@.len() == i,
                forall|k: int|
                    0 <= k < i ==> membership_item_shows(
                        #[trigger] memberships@[k],
                        members@[k],
                        *project,
                    ),
            decreases members.len() - i,
        {
            memberships.push(membership_item(&members[i], project));
            i = i + 1;
        }
        let total_count = memberships.len() as u32;
        MemberListResponse { memberships, total_count, offset: 0, limit: 25 }
    }
}

} // verus!
