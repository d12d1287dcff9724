use crate::domain::{CurrentUser, MemberWithRoles, Project, Role, RoleAssignment};
use crate::dto::member::role_id_problems;
use crate::dto::UpdateMemberDto;
use crate::errors::{literal, ApplicationError, ErrorKind, Refusal, refusal_of};
use crate::use_cases::flow::{check, check_after, check_when, follows, found_refusal, proceed, Decision, Next};
use super::add_member::{
    assignable_refusal, check_assignable, direct_assignments, role_assignments, check_manage_members, check_roles_found,
    manage_members_refusal, membership_response, membership_shown, problems_error, problems_refusal,
    lemma_managed_roles_cover, roles_found_refusal, MembershipResponse,
};
use vstd::prelude::*;

verus! {

/// Replaces the roles that a membership was given in its project.
#[derive(Debug)]
pub struct UpdateMemberUseCase {}

/// A step of replacing the roles of a membership.
#[derive(Debug, Clone, Copy, PartialEq, Eq, Structural)]
pub enum MemberRoleStep {
    /// The roles the membership was given directly are taken away.
    ClearRoles(i32),
    /// A role is given.
    Assign(RoleAssignment),
}

/// The steps that replace the roles of a membership: its direct roles are cleared, then each
/// requested role is given, in the order requested.
pub open spec fn role_replacement(membership_id: i32, role_ids: Seq<i32>) -> Seq<MemberRoleStep> {
    seq![MemberRoleStep::ClearRoles(membership_id)] + direct_assignments(
        membership_id,
        role_ids,
    ).map_values(|a: RoleAssignment| MemberRoleStep::Assign(a))
}

/// What replacing a membership's roles looks up, in the order it is needed.
#[derive(Debug, Clone, Copy, PartialEq, Eq, Structural)]
pub enum UpdateMemberLookup {
    /// The membership, by its id.
    Membership,
    /// Whether the requester is a member of the membership's project.
    RequesterMembership,
    /// The requested roles, by their ids.
    Roles,
    /// The roles that the requester manages.
    ManagedRoles,
}

/// What has been looked up to replace a membership's roles: `None` where nothing is known
/// yet.
#[derive(Debug)]
pub struct UpdateMemberFacts {
    pub membership: Option<Option<MemberWithRoles>>,
    pub requester_is_member: Option<bool>,
    pub roles: Option<Vec<Role>>,
    pub managed_roles: Option<Vec<Role>>,
}

/// How a request to replace a membership's roles is decided, check by check: the request's
/// fields; the membership; for a requester who is not an administrator, their membership in
/// the project; the requested roles; for a requester who is not an administrator, the roles
/// they manage. The first check that fails answers, and a check waits for what it reads to
/// be looked up.
pub open spec fn update_member_decision(
    admin: bool,
    dto: UpdateMemberDto,
    f: UpdateMemberFacts,
) -> Decision<UpdateMemberLookup> {
    check(
        problems_refusal(role_id_problems(dto.role_ids@)),
        check_after(
            f.membership is Some,
            UpdateMemberLookup::Membership,
            found_refusal(f.membership.unwrap(), (ErrorKind::NotFound, "Membership not found"@)),
            check_when(
                !admin,
                f.requester_is_member is Some,
                UpdateMemberLookup::RequesterMembership,
                manage_members_refusal(admin, f.requester_is_member.unwrap()),
                check_after(
                    f.roles is Some,
                    UpdateMemberLookup::Roles,
                    roles_found_refusal(dto.role_ids@, f.roles.unwrap()@),
                    check_when(
                        !admin,
                        f.managed_roles is Some,
                        UpdateMemberLookup::ManagedRoles,
                        assignable_refusal(admin, dto.role_ids@, f.managed_roles.unwrap()@),
                        proceed(),
                    ),
                ),
            ),
        ),
    )
}

impl UpdateMemberFacts {
    /// Nothing looked up yet.
    pub fn new() -> (f: Self)
        ensures
            f.membership is None,
            f.requester_is_member is None,
            f.roles is None,
            f.managed_roles is None,
    {
        UpdateMemberFacts { membership: None, requester_is_member: None, roles: None, managed_roles: None }
    }
}

impl UpdateMemberUseCase {
    pub fn new() -> (u: Self) {
        UpdateMemberUseCase {  }
    }

    /// What comes next in replacing a membership's roles: what to look up, the refusal, or
    /// leave to carry out the role plan.
    pub fn next_step(&self, current_user: &CurrentUser, dto: &UpdateMemberDto, facts: &UpdateMemberFacts) -> (n:
        Next<UpdateMemberLookup>)
        ensures
            follows(n, update_member_decision(current_user.admin, *dto, *facts)),
    {
        if let Err(e) = self.validate(dto) {
            return Next::Refuse(e);
        }
        match &facts.membership {
            None => return Next::Fetch(UpdateMemberLookup::Membership),
            Some(found) => if found.is_none() {
                return Next::Refuse(ApplicationError::NotFound(literal("Membership not found")));
            },
        }
        if !current_user.admin {
            match facts.requester_is_member {
                None => return Next::Fetch(UpdateMemberLookup::RequesterMembership),
                Some(m) => if let Err(e) = check_manage_members(current_user, m) {
                    return Next::Refuse(e);
                },
            }
        }
        match &facts.roles {
            None => return Next::Fetch(UpdateMemberLookup::Roles),
            Some(roles) => if let Err(e) = check_roles_found(&dto.role_ids, roles) {
                return Next::Refuse(e);
            },
        }
        if !current_user.admin {
            match &facts.managed_roles {
                None => return Next::Fetch(UpdateMemberLookup::ManagedRoles),
                Some(managed) => if let Err(e) = check_assignable(current_user, &dto.role_ids, managed) {
                    return Next::Refuse(e);
                },
            }
        }
        Next::Proceed
    }

    /// Refuses a request whose fields break their rules.
    pub fn validate(&self, dto: &UpdateMemberDto) -> (r: Result<(), ApplicationError>)
        ensures
            refusal_of(r) == problems_refusal(role_id_problems(dto.role_ids@)),
    {
        problems_error(dto.validate())
    }

    /// Whether the user's membership in the project must be looked up: for a user who is not
    /// an administrator.
    pub fn needs_membership(&self, current_user: &CurrentUser) -> (b: bool)
        ensures
            b == !current_user.admin,
    {
        !current_user.admin
    }

    /// Decides whether the user may manage the project's members.
    pub fn check_permission(&self, current_user: &CurrentUser, is_member: bool) -> (r: Result<
        (),
        ApplicationError,
    >)
        ensures
            refusal_of(r) == manage_members_refusal(current_user.admin, is_member),
    {
        check_manage_members(current_user, is_member)
    }

    /// Refuses the request when some requested role was not found.
    pub fn check_roles_found(&self, requested: &Vec<i32>, roles: &Vec<Role>) -> (r: Result<
        (),
        ApplicationError,
    >)
        ensures
            refusal_of(r) == roles_found_refusal(requested@, roles@),
    {
        check_roles_found(requested, roles)
    }

    /// Refuses roles that the requester may not give.
    pub fn check_assignable(&self, current_user: &CurrentUser, requested: &Vec<i32>, manageable: &Vec<Role>) -> (r:
        Result<(), ApplicationError>)
        ensures
            refusal_of(r) == assignable_refusal(current_user.admin, requested@, manageable@),
    {
        check_assignable(current_user, requested, manageable)
    }

    /// The steps that give the membership the requested roles: clear its direct roles, then
    /// give each requested role, in order.
    pub fn role_plan(&self, membership_id: i32, dto: &UpdateMemberDto) -> (v: Vec<MemberRoleStep>)
        ensures
            v@ == role_replacement(membership_id, dto.role_ids@),
    {
        let assignments = role_assignments(membership_id, &dto.role_ids);
        let mut v: Vec<MemberRoleStep> = Vec::new();
        v.push(MemberRoleStep::ClearRoles(membership_id));
        let ghost first = v@;
        let mut i: usize = 0;
        while i < assignments.len()
            invariant
                i <= assignments@.len(),
                first == seq![MemberRoleStep::ClearRoles(membership_id)],
                v@ == first + assignments@.take(i as int).map_values(
                    |a: RoleAssignment| MemberRoleStep::Assign(a),
                ),
            decreases assignments.len() - i,
        {
            v.push(MemberRoleStep::Assign(assignments[i]));
            i = i + 1;
            assert(v@ =~= first + assignments@.take(i as int).map_values(
                |a: RoleAssignment| MemberRoleStep::Assign(a),
            ));
        }
        assert(assignments@.take(i as int) =~= assignments@);
        v
    }

    /// The response that shows the membership with its new roles.
    pub fn build_response(&self, membership: &MemberWithRoles, project: &Project, roles: &Vec<Role>) -> (r:
        MembershipResponse)
        ensures
            membership_shown(r, membership.member.id, *project, membership.user, roles@),
    {
        membership_response(membership.member.id, project, &membership.user, roles)
    }
}

/// A membership's roles are replaced only when every rule holds: the request is valid, the
/// membership exists, the requester is an administrator or a member of the project, every
/// requested role was found, and a requester who is not an administrator manages each
/// requested role.
pub proof fn roles_replaced_only_when_every_rule_holds(
    admin: bool,
    dto: UpdateMemberDto,
    f: UpdateMemberFacts,
)
    requires
        update_member_decision(admin, dto, f) == Ok::<Option<UpdateMemberLookup>, Refusal>(None),
    ensures
        role_id_problems(dto.role_ids@).len() == 0,
        f.membership matches Some(Some(_)),
        admin || f.requester_is_member == Some(true),
        f.roles matches Some(rs) && rs@.len() == dto.role_ids@.len(),
        admin || (f.managed_roles matches Some(ms) && forall|k: int|
            0 <= k < dto.role_ids@.len() ==> ms@.map_values(|r: Role| r.id).contains(
                #[trigger] dto.role_ids@[k],
            )),
{
    if !admin {
        lemma_managed_roles_cover(dto.role_ids@, f.managed_roles.unwrap()@);
    }
}

} // verus!
