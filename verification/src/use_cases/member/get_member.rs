use crate::domain::{CurrentUser, MemberWithRoles, Project, RoleWithInheritance, PROJECT_STATUS_ARCHIVED};
use crate::errors::{literal, ApplicationError, ErrorKind, Refusal, refusal_of};
use super::add_member::{MemberNamedId, MembershipResponse};
use vstd::prelude::*;

verus! {

/// Shows one membership to those who may see the members of its project.
#[derive(Debug)]
pub struct GetMemberUseCase {}

/// Who may see the members of a project: nobody but an administrator when the project is
/// archived; otherwise an administrator, anyone when the project is public, and its members.
pub open spec fn members_view_refusal(
    admin: bool,
    project: Project,
    is_member: bool,
    denial: Seq<char>,
) -> Option<Refusal> {
    if project.status == PROJECT_STATUS_ARCHIVED && !admin {
        Some((ErrorKind::Forbidden, "Project is archived"@))
    } else if admin || project.is_public || is_member {
        None
    } else {
        Some((ErrorKind::Forbidden, denial))
    }
}

/// Whether membership of the user in the project must be looked up to decide on seeing its
/// members: for a user who is not an administrator, on a project that is neither public nor
/// archived (an archived one is refused first).
pub fn members_view_needs_membership(current_user: &CurrentUser, project: &Project) -> (b: bool)
    ensures
        b == (!current_user.admin && !project.is_public && project.status
            != PROJECT_STATUS_ARCHIVED),
{
    !current_user.admin && !project.is_public && project.status != PROJECT_STATUS_ARCHIVED
}

/// Decides whether the user may see the members of the project; whether the user is a member
/// is read only where `members_view_needs_membership` asks for it.
pub fn check_members_view(
    current_user: &CurrentUser,
    project: &Project,
    is_member: bool,
    denial: &str,
) -> (r: Result<(), ApplicationError>)
    ensures
        refusal_of(r) == members_view_refusal(current_user.admin, *project, is_member, denial@),
{
    if project.status == PROJECT_STATUS_ARCHIVED && !current_user.admin {
        return Err(ApplicationError::Forbidden(literal("Project is archived")));
    }
    if current_user.admin || project.is_public || is_member {
        Ok(())
    } else {
        Err(ApplicationError::Forbidden(literal(denial)))
    }
}

/// The membership that was looked up, or the error for one that does not exist.
pub fn require_membership(found: Option<MemberWithRoles>) -> (r: Result<
    MemberWithRoles,
    ApplicationError,
>)
    ensures
        match found {
            Some(m) => r == Ok::<MemberWithRoles, ApplicationError>(m),
            None => refusal_of(r) == Some((ErrorKind::NotFound, "Membership not found"@)),
        },
{
    match found {
        Some(m) => Ok(m),
        None => Err(ApplicationError::NotFound(literal("Membership not found"))),
    }
}

/// The roles of a membership, each by id and name.
pub fn named_member_roles(roles: &Vec<RoleWithInheritance>) -> (v: Vec<MemberNamedId>)
    ensures
        v@.len() == roles@.len(),
        forall|k: int|
            0 <= k < roles@.len() ==> (#[trigger] v@[k]).id == roles@[k].role.id && v@[k].name@
                == roles@[k].role.name@,
{
    let mut v: Vec<MemberNamedId> = Vec::new();
    let mut i: usize = 0;
    while i < roles.len()
        invariant
            i <= roles@.len(),
            v@.len() == i,
            forall|k: int|
                0 <= k < i ==> (#[trigger] v@[k]).id == roles@[k].role.id && v@[k].name@
                    == roles@[k].role.name@,
        decreases roles.len() - i,
    {
        v.push(MemberNamedId { id: roles[i].role.id, name: roles[i].role.name.clone() });
        i = i + 1;
    }
    v
}

/// Whether the response shows the membership, in the project, with all its roles.
pub open spec fn stored_membership_shown(
    r: MembershipResponse,
    membership: MemberWithRoles,
    project: Project,
) -> bool {
    &&& r.id == membership.member.id
    &&& r.project.id == project.id
    &&& r.project.name@ == project.name@
    &&& r.user.id == membership.user.id
    &&& r.user.name@ == crate::domain::full_name_of(
        membership.user.firstname@,
        membership.user.lastname@,
    )
    &&& r.roles@.len() == membership.roles@.len()
    &&& forall|k: int|
        0 <= k < membership.roles@.len() ==> (#[trigger] r.roles@[k]).id
            == membership.roles@[k].role.id && r.roles@[k].name@
            == membership.roles@[k].role.name@
}

impl GetMemberUseCase {
    pub fn new() -> (u: Self) {
        GetMemberUseCase {  }
    }

    /// The membership that was looked up, or the error for one that does not exist.
    pub fn require_membership(&self, found: Option<MemberWithRoles>) -> (r: Result<
        MemberWithRoles,
        ApplicationError,
    >)
        ensures
            match found {
                Some(m) => r == Ok::<MemberWithRoles, ApplicationError>(m),
                None => refusal_of(r) == Some((ErrorKind::NotFound, "Membership not found"@)),
            },
    {
        require_membership(found)
    }

    /// Whether the user's membership in the project must be looked up.
    pub fn needs_membership(&self, current_user: &CurrentUser, project: &Project) -> (b: bool)
        ensures
            b == (!current_user.admin && !project.is_public && project.status
                != PROJECT_STATUS_ARCHIVED),
    {
        members_view_needs_membership(current_user, project)
    }

    /// Decides whether the user may see the membership.
    pub fn check_permission(&self, current_user: &CurrentUser, project: &Project, is_member: bool) -> (r:
        Result<(), ApplicationError>)
        ensures
            refusal_of(r) == members_view_refusal(
                current_user.admin,
                *project,
                is_member,
                "You don't have permission to view this membership"@,
            ),
    {
        check_members_view(
            current_user,
            project,
            is_member,
            "You don't have permission to view this membership",
        )
    }

    /// The response that shows the membership in its project.
    pub fn build_response(&self, membership: &MemberWithRoles, project: &Project) -> (r:
        MembershipResponse)
        ensures
            stored_membership_shown(r, *membership, *project),
    {
        MembershipResponse {
            id: membership.member.id,
            project: MemberNamedId { id: project.id, name: project.name.clone() },
            user: MemberNamedId { id: membership.user.id, name: membership.user.full_name() },
            roles: named_member_roles(&membership.roles),
        }
    }
}

/// Only administrators see the members of an archived project, whatever else holds.
pub proof fn lemma_archived_members_admin_only(
    admin: bool,
    project: Project,
    is_member: bool,
    denial: Seq<char>,
)
    requires
        project.status == PROJECT_STATUS_ARCHIVED,
    ensures
        members_view_refusal(admin, project, is_member, denial) is None <==> admin,
{
}

/// Who may see a project's members: nobody but administrators when the project is archived;
/// otherwise administrators, members, and anyone when the project is public.
pub proof fn members_view_rule(admin: bool, project: Project, is_member: bool, denial: Seq<char>)
    ensures
        members_view_refusal(admin, project, is_member, denial) is None <==> (admin || (
        project.status != PROJECT_STATUS_ARCHIVED && (project.is_public || is_member))),
        !admin && project.status == PROJECT_STATUS_ARCHIVED ==> members_view_refusal(
            admin,
            project,
            is_member,
            denial,
        ) == Some((ErrorKind::Forbidden, "Project is archived"@)),
{
}

} // verus!
