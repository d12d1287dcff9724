use crate::domain::{CurrentUser, MemberWithRoles, RoleWithInheritance};
use crate::errors::{literal, ApplicationError, ErrorKind, Refusal, refusal_of};
use super::add_member::{check_manage_members, manage_members_refusal};
use crate::use_cases::flow::{check, check_after, check_when, follows, found_refusal, proceed, Decision, Next};
use vstd::prelude::*;

verus! {

/// Removes memberships that were given in the project itself; a membership held only through a
/// parent project is removed there.
#[derive(Debug)]
pub struct RemoveMemberUseCase {}

/// A step of removing a membership.
#[derive(Debug, Clone, Copy, PartialEq, Eq, Structural)]
pub enum RemovalStep {
    /// The issues of the project assigned to the user lose their assignee.
    ClearAssignee { project_id: i32, user_id: i32 },
    /// The membership is deleted, with its roles.
    DeleteMembership(i32),
}

/// Whether every role of the membership comes from a parent project, and it has at least one.
pub open spec fn only_inherited(roles: Seq<RoleWithInheritance>) -> bool {
    roles.len() > 0 && forall|k: int| 0 <= k < roles.len() ==> (#[trigger] roles[k]).inherited_from is Some
}

/// The refusal to remove a membership held only through a parent project.
pub open spec fn inherited_removal_refusal(roles: Seq<RoleWithInheritance>) -> Option<Refusal> {
    if only_inherited(roles) {
        Some(
            (
                ErrorKind::Validation,
                "Cannot remove inherited membership. Remove from parent project."@,
            ),
        )
    } else {
        None
    }
}

/// Whether every role comes from a parent project, and there is at least one.
pub fn all_roles_inherited(roles: &Vec<RoleWithInheritance>) -> (b: bool)
    ensures
        b == only_inherited(roles@),
{
    if roles.len() == 0 {
        return false;
    }
    let mut i: usize = 0;
    while i < roles.len()
        invariant
            i <= roles@.len(),
            forall|k: int| 0 <= k < i ==> (#[trigger] roles@[k]).inherited_from is Some,
        decreases roles.len() - i,
    {
        if !roles[i].is_inherited() {
            return false;
        }
        i = i + 1;
    }
    true
}

/// What removing a membership looks up, in the order it is needed.
#[derive(Debug, Clone, Copy, PartialEq, Eq, Structural)]
pub enum RemoveMemberLookup {
    /// The membership, by its id.
    Membership,
    /// Whether the requester is a member of the membership's project.
    RequesterMembership,
}

/// What has been looked up to remove a membership: `None` where nothing is known yet.
#[derive(Debug)]
pub struct RemoveMemberFacts {
    pub membership: Option<Option<MemberWithRoles>>,
    pub requester_is_member: Option<bool>,
}

/// How a request to remove a membership is decided, check by check: the membership; for a
/// requester who is not an administrator, their membership in the project; that the
/// membership does not come only from a parent project. The first check that fails answers,
/// and a check waits for what it reads to be looked up.
pub open spec fn remove_member_decision(admin: bool, f: RemoveMemberFacts) -> Decision<
    RemoveMemberLookup,
> {
    check_after(
        f.membership is Some,
        RemoveMemberLookup::Membership,
        found_refusal(f.membership.unwrap(), (ErrorKind::NotFound, "Membership not found"@)),
        check_when(
            !admin,
            f.requester_is_member is Some,
            RemoveMemberLookup::RequesterMembership,
            manage_members_refusal(admin, f.requester_is_member.unwrap()),
            check(inherited_removal_refusal(f.membership.unwrap().unwrap().roles@), proceed()),
        ),
    )
}

impl RemoveMemberFacts {
    /// Nothing looked up yet.
    pub fn new() -> (f: Self)
        ensures
            f.membership is None,
            f.requester_is_member is None,
    {
        RemoveMemberFacts { membership: None, requester_is_member: None }
    }
}

impl RemoveMemberUseCase {
    pub fn new() -> (u: Self) {
        RemoveMemberUseCase {  }
    }

    /// What comes next in removing a membership: what to look up, the refusal, or leave to
    /// carry out the removal steps.
    pub fn next_step(&self, current_user: &CurrentUser, facts: &RemoveMemberFacts) -> (n: Next<
        RemoveMemberLookup,
    >)
        ensures
            follows(n, remove_member_decision(current_user.admin, *facts)),
    {
        let membership = match &facts.membership {
            None => return Next::Fetch(RemoveMemberLookup::Membership),
            Some(None) => return Next::Refuse(
                ApplicationError::NotFound(literal("Membership not found")),
            ),
            Some(Some(m)) => m,
        };
        if !current_user.admin {
            match facts.requester_is_member {
                None => return Next::Fetch(RemoveMemberLookup::RequesterMembership),
                Some(m) => if let Err(e) = check_manage_members(current_user, m) {
                    return Next::Refuse(e);
                },
            }
        }
        match self.check_removable(membership) {
            Err(e) => Next::Refuse(e),
            Ok(()) => Next::Proceed,
        }
    }

    /// Whether the user's membership in the project must be looked up: for a user who is not
    /// an administrator.
    pub fn needs_membership(&self, current_user: &CurrentUser) -> (b: bool)
        ensures
            b == !current_user.admin,
    {
        !current_user.admin
    }

    /// Decides whether the user may manage the project's members.
    pub fn check_permission(&self, current_user: &CurrentUser, is_member: bool) -> (r: Result<
        (),
        ApplicationError,
    >)
        ensures
            refusal_of(r) == manage_members_refusal(current_user.admin, is_member),
    {
        check_manage_members(current_user, is_member)
    }

    /// Refuses to remove a membership whose roles all come from a parent project.
    pub fn check_removable(&self, membership: &MemberWithRoles) -> (r: Result<(), ApplicationError>)
        ensures
            refusal_of(r) == inherited_removal_refusal(membership.roles@),
    {
        if all_roles_inherited(&membership.roles) {
            Err(
                ApplicationError::Validation(
                    literal("Cannot remove inherited membership. Remove from parent project."),
                ),
            )
        } else {
            Ok(())
        }
    }

    /// What removing the membership does, in order: the user's issues in the project lose
    /// their assignee, then the membership (with its roles) is deleted.
    pub fn removal_steps(&self, membership: &MemberWithRoles) -> (v: Vec<RemovalStep>)
        ensures
            v@ == seq![
                RemovalStep::ClearAssignee {
                    project_id: membership.member.project_id,
                    user_id: membership.member.user_id,
                },
                RemovalStep::DeleteMembership(membership.member.id),
            ],
    {
        let mut v: Vec<RemovalStep> = Vec::new();
        v.push(
            RemovalStep::ClearAssignee {
                project_id: membership.member.project_id,
                user_id: membership.member.user_id,
            },
        );
        v.push(RemovalStep::DeleteMembership(membership.member.id));
        assert(v@ =~= seq![
            RemovalStep::ClearAssignee {
                project_id: membership.member.project_id,
                user_id: membership.member.user_id,
            },
            RemovalStep::DeleteMembership(membership.member.id),
        ]);
        v
    }
}

/// A membership is removed only when it exists, the requester is an administrator or a member
/// of its project, and it holds at least one role given in the project itself (or none).
pub proof fn membership_removed_only_when_every_rule_holds(admin: bool, f: RemoveMemberFacts)
    requires
        remove_member_decision(admin, f) == Ok::<Option<RemoveMemberLookup>, Refusal>(None),
    ensures
        f.membership matches Some(Some(_)),
        admin || f.requester_is_member == Some(true),
        f.membership.unwrap().unwrap().roles@.len() == 0 || exists|k: int|
            0 <= k < f.membership.unwrap().unwrap().roles@.len()
                && (#[trigger] f.membership.unwrap().unwrap().roles@[k]).inherited_from is None,
{
}

} // verus!
