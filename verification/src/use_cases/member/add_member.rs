use crate::domain::{CurrentUser, NewMember, Project, Role, RoleAssignment, User, USER_STATUS_ACTIVE};
use crate::dto::issue::string_views;
use crate::dto::member::create_member_problems;
use crate::dto::CreateMemberDto;
use crate::errors::{literal, prefixed, ApplicationError, ErrorKind, Refusal, refusal_of};
use crate::use_cases::flow::{check, check_after, check_when, follows, found_refusal, proceed, Decision, Next};
use crate::text::{contains_i32, debug_i32_list, debug_int_list, join, join_chars};
use vstd::prelude::*;

verus! {

/// What is shown of a membership.
#[derive(Debug, Clone)]
pub struct MembershipResponse {
    pub id: i32,
    pub project: MemberNamedId,
    pub user: MemberNamedId,
    pub roles: Vec<MemberNamedId>,
}

/// An id and a name, as membership responses show projects, users and roles.
#[derive(Debug, Clone)]
pub struct MemberNamedId {
    pub id: i32,
    pub name: String,
}

/// Adds users to projects with roles. Administrators may add anyone with any role; members of
/// the project may add users with the roles they manage.
#[derive(Debug)]
pub struct AddMemberUseCase {}

/// The refusal of a request that breaks the rules of its fields: the messages joined by `, `.
pub open spec fn problems_refusal(problems: Seq<Seq<char>>) -> Option<Refusal> {
    if problems.len() == 0 {
        None
    } else {
        Some((ErrorKind::Validation, join_chars(problems, ", "@)))
    }
}

/// The refusal for a user who may not manage the project's members, if they may not.
pub open spec fn manage_members_refusal(admin: bool, is_member: bool) -> Option<Refusal> {
    if admin || is_member {
        None
    } else {
        Some(
            (ErrorKind::Forbidden, "You don't have permission to manage members in this project"@),
        )
    }
}

/// Decides whether the user may manage the project's members: administrators, and members of
/// the project. Membership is looked up only for users who are not administrators.
pub fn check_manage_members(current_user: &CurrentUser, is_member: bool) -> (r: Result<
    (),
    ApplicationError,
>)
    ensures
        refusal_of(r) == manage_members_refusal(current_user.admin, is_member),
{
    if current_user.admin || is_member {
        Ok(())
    } else {
        Err(
            ApplicationError::Forbidden(
                literal("You don't have permission to manage members in this project"),
            ),
        )
    }
}

/// The refusal for a list of validation messages, if there are any.
pub fn problems_error(r: Result<(), Vec<String>>) -> (out: Result<(), ApplicationError>)
    ensures
        refusal_of(out) == match r {
            Ok(()) => None,
            Err(es) => Some((ErrorKind::Validation, join_chars(string_views(es@), ", "@))),
        },
{
    match r {
        Ok(()) => Ok(()),
        Err(es) => {
            proof {
                reveal_strlit(", ");
            }
            let m = join(&es, ", ");
            assert(es@.map_values(|p: String| p@) == string_views(es@));
            Err(ApplicationError::Validation(m))
        },
    }
}

/// The requested role ids that are not among the ids found, in request order.
pub open spec fn missing_role_ids(requested: Seq<i32>, found: Seq<i32>) -> Seq<i32>
    decreases requested.len(),
{
    if requested.len() == 0 {
        Seq::empty()
    } else {
        let rest = missing_role_ids(requested.drop_last(), found);
        if found.contains(requested.last()) {
            rest
        } else {
            rest.push(requested.last())
        }
    }
}

/// The ids of the roles.
pub open spec fn role_ids_of(roles: Seq<Role>) -> Seq<i32> {
    roles.map_values(|r: Role| r.id)
}

/// The refusal when fewer roles were found than ids were requested.
pub open spec fn roles_found_refusal(requested: Seq<i32>, roles: Seq<Role>) -> Option<Refusal> {
    if roles.len() != requested.len() {
        Some(
            (
                ErrorKind::Validation,
                "Role(s) not found: "@ + debug_int_list(
                    missing_role_ids(requested, role_ids_of(roles)),
                ),
            ),
        )
    } else {
        None
    }
}

/// The ids of the roles, in order.
pub fn ids_of_roles(roles: &Vec<Role>) -> (ids: Vec<i32>)
    ensures
        ids@ == role_ids_of(roles@),
{
    let mut ids: Vec<i32> = Vec::new();
    let mut i: usize = 0;
    while i < roles.len()
        invariant
            i <= roles@.len(),
            ids@ =~= role_ids_of(roles@).take(i as int),
        decreases roles.len() - i,
    {
        ids.push(roles[i].id);
        i = i + 1;
    }
    ids
}

/// Refuses the request when some requested role was not found, naming the missing ids.
pub fn check_roles_found(requested: &Vec<i32>, roles: &Vec<Role>) -> (r: Result<(), ApplicationError>)
    ensures
        refusal_of(r) == roles_found_refusal(requested@, roles@),
{
    if roles.len() == requested.len() {
        return Ok(());
    }
    let found = ids_of_roles(roles);
    let mut missing: Vec<i32> = Vec::new();
    let mut i: usize = 0;
    while i < requested.len()
        invariant
            found@ == role_ids_of(roles@),
            i <= requested@.len(),
            missing@ == missing_role_ids(requested@.take(i as int), found@),
        decreases requested.len() - i,
    {
        let id = requested[i];
        proof {
            let t = requested@.take(i + 1);
            assert(t.drop_last() =~= requested@.take(i as int));
            assert(t.last() == id);
        }
        if !contains_i32(&found, id) {
            missing.push(id);
        }
        i = i + 1;
    }
    assert(requested@.take(requested@.len() as int) =~= requested@);
    let list = debug_i32_list(&missing);
    Err(ApplicationError::Validation(prefixed("Role(s) not found: ", list.as_str())))
}

/// The refusal for a requester who may not give every requested role, if so: users who are not
/// administrators may give only the roles they manage.
pub open spec fn assignable_refusal(admin: bool, requested: Seq<i32>, manageable: Seq<Role>) -> Option<
    Refusal,
> {
    if !admin && exists|k: int|
        0 <= k < requested.len() && !role_ids_of(manageable).contains(#[trigger] requested[k]) {
        Some(
            (
                ErrorKind::Forbidden,
                "You don't have permission to assign one or more of the specified roles"@,
            ),
        )
    } else {
        None
    }
}

/// Refuses roles that a requester who is not an administrator does not manage. The roles the
/// user manages are looked up only for users who are not administrators.
pub fn check_assignable(current_user: &CurrentUser, requested: &Vec<i32>, manageable: &Vec<Role>) -> (r:
    Result<(), ApplicationError>)
    ensures
        refusal_of(r) == assignable_refusal(current_user.admin, requested@, manageable@),
{
    if current_user.admin {
        return Ok(());
    }
    let ids = ids_of_roles(manageable);
    let mut i: usize = 0;
    while i < requested.len()
        invariant
            !current_user.admin,
            ids@ == role_ids_of(manageable@),
            i <= requested@.len(),
            forall|k: int| 0 <= k < i ==> ids@.contains(#[trigger] requested@[k]),
        decreases requested.len() - i,
    {
        if !contains_i32(&ids, requested[i]) {
            assert(!role_ids_of(manageable@).contains(requested@[i as int]));
            return Err(
                ApplicationError::Forbidden(
                    literal("You don't have permission to assign one or more of the specified roles"),
                ),
            );
        }
        i = i + 1;
    }
    Ok(())
}

/// The refusal of the user to add, if they are refused: unknown, or not active.
pub open spec fn new_member_user_refusal(found: Option<User>) -> Option<Refusal> {
    match found {
        None => Some((ErrorKind::Validation, "User not found"@)),
        Some(u) => if u.status != USER_STATUS_ACTIVE {
            Some((ErrorKind::Validation, "User is not active"@))
        } else {
            None
        },
    }
}

/// The roles, each by id and name.
pub fn named_roles(roles: &Vec<Role>) -> (v: Vec<MemberNamedId>)
    ensures
        v@.len() == roles@.len(),
        forall|k: int|
            0 <= k < roles@.len() ==> (#[trigger] v@[k]).id == roles@[k].id && v@[k].name@
                == roles@[k].name@,
{
    let mut v: Vec<MemberNamedId> = Vec::new();
    let mut i: usize = 0;
    while i < roles.len()
        invariant
            i <= roles@.len(),
            v@.len() == i,
            forall|k: int|
                0 <= k < i ==> (#[trigger] v@[k]).id == roles@[k].id && v@[k].name@
                    == roles@[k].name@,
        decreases roles.len() - i,
    {
        v.push(MemberNamedId { id: roles[i].id, name: roles[i].name.clone() });
        i = i + 1;
    }
    v
}

/// Whether the response shows the membership of the user in the project with the roles.
pub open spec fn membership_shown(
    r: MembershipResponse,
    id: i32,
    project: Project,
    user: User,
    roles: Seq<Role>,
) -> bool {
    &&& r.id == id
    &&& r.project.id == project.id
    &&& r.project.name@ == project.name@
    &&& r.user.id == user.id
    &&& r.user.name@ == crate::domain::full_name_of(user.firstname@, user.lastname@)
    &&& r.roles@.len() == roles.len()
    &&& forall|k: int|
        0 <= k < roles.len() ==> (#[trigger] r.roles@[k]).id == roles[k].id && r.roles@[k].name@
            == roles[k].name@
}

/// The response that shows the membership of the user in the project with the roles.
pub fn membership_response(id: i32, project: &Project, user: &User, roles: &Vec<Role>) -> (r:
    MembershipResponse)
    ensures
        membership_shown(r, id, *project, *user, roles@),
{
    MembershipResponse {
        id,
        project: MemberNamedId { id: project.id, name: project.name.clone() },
        user: MemberNamedId { id: user.id, name: user.full_name() },
        roles: named_roles(roles),
    }
}

/// The roles given directly, not through a parent project, to a membership: one for each
/// requested role, in the order requested.
pub open spec fn direct_assignments(member_id: i32, role_ids: Seq<i32>) -> Seq<RoleAssignment> {
    role_ids.map_values(|r: i32| RoleAssignment { member_id, role_id: r, inherited_from: None })
}

/// The roles to give directly to a membership, in the order requested.
pub fn role_assignments(member_id: i32, role_ids: &Vec<i32>) -> (v: Vec<RoleAssignment>)
    ensures
        v@ == direct_assignments(member_id, role_ids@),
{
    let mut v: Vec<RoleAssignment> = Vec::new();
    let mut i: usize = 0;
    while i < role_ids.len()
        invariant
            i <= role_ids@.len(),
            v@ == direct_assignments(member_id, role_ids@.take(i as int)),
        decreases role_ids.len() - i,
    {
        v.push(RoleAssignment { member_id, role_id: role_ids[i], inherited_from: None });
        i = i + 1;
        assert(v@ =~= direct_assignments(member_id, role_ids@.take(i as int)));
    }
    assert(role_ids@.take(i as int) =~= role_ids@);
    v
}

/// What adding a member looks up, in the order it is needed.
#[derive(Debug, Clone, Copy, PartialEq, Eq, Structural)]
pub enum AddMemberLookup {
    /// The project, by its id.
    Project,
    /// Whether the requester is a member of the project.
    RequesterMembership,
    /// The user to add.
    User,
    /// Whether the user to add is a member of the project already.
    UserMembership,
    /// The requested roles, by their ids.
    Roles,
    /// The roles that the requester manages.
    ManagedRoles,
}

/// What has been looked up to add a member: `None` where nothing is known yet.
#[derive(Debug)]
pub struct AddMemberFacts {
    pub project: Option<Option<Project>>,
    pub requester_is_member: Option<bool>,
    pub user: Option<Option<User>>,
    pub user_is_member: Option<bool>,
    pub roles: Option<Vec<Role>>,
    pub managed_roles: Option<Vec<Role>>,
}

/// The refusal of a user who is a member of the project already.
pub open spec fn already_member_refusal(already_member: bool) -> Option<Refusal> {
    if already_member {
        Some((ErrorKind::Validation, "User is already a member of this project"@))
    } else {
        None
    }
}

/// How a request to add a member is decided, check by check: the request's fields; the
/// project; for a requester who is not an administrator, their membership; the user to add,
/// who must be active; that user's membership; the requested roles; for a requester who is
/// not an administrator, the roles they manage. The first check that fails answers, and a
/// check waits for what it reads to be looked up.
pub open spec fn add_member_decision(
    admin: bool,
    dto: CreateMemberDto,
    f: AddMemberFacts,
) -> Decision<AddMemberLookup> {
    check(
        problems_refusal(create_member_problems(dto.user_id, dto.role_ids@)),
        check_after(
            f.project is Some,
            AddMemberLookup::Project,
            found_refusal(f.project.unwrap(), (ErrorKind::NotFound, "Project not found"@)),
            check_when(
                !admin,
                f.requester_is_member is Some,
                AddMemberLookup::RequesterMembership,
                manage_members_refusal(admin, f.requester_is_member.unwrap()),
                check_after(
                    f.user is Some,
                    AddMemberLookup::User,
                    new_member_user_refusal(f.user.unwrap()),
                    check_after(
                        f.user_is_member is Some,
                        AddMemberLookup::UserMembership,
                        already_member_refusal(f.user_is_member.unwrap()),
                        check_after(
                            f.roles is Some,
                            AddMemberLookup::Roles,
                            roles_found_refusal(dto.role_ids@, f.roles.unwrap()@),
                            check_when(
                                !admin,
                                f.managed_roles is Some,
                                AddMemberLookup::ManagedRoles,
                                assignable_refusal(admin, dto.role_ids@, f.managed_roles.unwrap()@),
                                proceed(),
                            ),
                        ),
                    ),
                ),
            ),
        ),
    )
}

/// The refusal of the user to add, if they are refused.
fn new_member_user_error(found: &Option<User>) -> (r: Result<(), ApplicationError>)
    ensures
        refusal_of(r) == new_member_user_refusal(*found),
{
    match found {
        None => Err(ApplicationError::Validation(literal("User not found"))),
        Some(u) => if u.status != USER_STATUS_ACTIVE {
            Err(ApplicationError::Validation(literal("User is not active")))
        } else {
            Ok(())
        },
    }
}

impl AddMemberFacts {
    /// Nothing looked up yet.
    pub fn new() -> (f: Self)
        ensures
            f.project is None,
            f.requester_is_member is None,
            f.user is None,
            f.user_is_member is None,
            f.roles is None,
            f.managed_roles is None,
    {
        AddMemberFacts {
            project: None,
            requester_is_member: None,
            user: None,
            user_is_member: None,
            roles: None,
            managed_roles: None,
        }
    }
}

impl AddMemberUseCase {
    pub fn new() -> (u: Self) {
        AddMemberUseCase {  }
    }

    /// What comes next in adding a member: what to look up, the refusal, or leave to store the
    /// membership and its roles.
    pub fn next_step(&self, current_user: &CurrentUser, dto: &CreateMemberDto, facts: &AddMemberFacts) -> (n:
        Next<AddMemberLookup>)
        ensures
            follows(n, add_member_decision(current_user.admin, *dto, *facts)),
    {
        if let Err(e) = self.validate(dto) {
            return Next::Refuse(e);
        }
        match &facts.project {
            None => return Next::Fetch(AddMemberLookup::Project),
            Some(found) => if found.is_none() {
                return Next::Refuse(ApplicationError::NotFound(literal("Project not found")));
            },
        }
        if !current_user.admin {
            match facts.requester_is_member {
                None => return Next::Fetch(AddMemberLookup::RequesterMembership),
                Some(m) => if let Err(e) = check_manage_members(current_user, m) {
                    return Next::Refuse(e);
                },
            }
        }
        match &facts.user {
            None => return Next::Fetch(AddMemberLookup::User),
            Some(found) => if let Err(e) = new_member_user_error(found) {
                return Next::Refuse(e);
            },
        }
        match facts.user_is_member {
            None => return Next::Fetch(AddMemberLookup::UserMembership),
            Some(m) => if let Err(e) = self.check_not_member(m) {
                return Next::Refuse(e);
            },
        }
        match &facts.roles {
            None => return Next::Fetch(AddMemberLookup::Roles),
            Some(roles) => if let Err(e) = check_roles_found(&dto.role_ids, roles) {
                return Next::Refuse(e);
            },
        }
        if !current_user.admin {
            match &facts.managed_roles {
                None => return Next::Fetch(AddMemberLookup::ManagedRoles),
                Some(managed) => if let Err(e) = check_assignable(current_user, &dto.role_ids, managed) {
                    return Next::Refuse(e);
                },
            }
        }
        Next::Proceed
    }

    /// Refuses a request whose fields break their rules.
    pub fn validate(&self, dto: &CreateMemberDto) -> (r: Result<(), ApplicationError>)
        ensures
            refusal_of(r) == problems_refusal(create_member_problems(dto.user_id, dto.role_ids@)),
    {
        problems_error(dto.validate())
    }

    /// Decides whether the user may manage the project's members.
    pub fn check_permission(&self, current_user: &CurrentUser, is_member: bool) -> (r: Result<
        (),
        ApplicationError,
    >)
        ensures
            refusal_of(r) == manage_members_refusal(current_user.admin, is_member),
    {
        check_manage_members(current_user, is_member)
    }

    /// The user to add, or the refusal of an unknown or inactive one.
    pub fn check_user(&self, found: Option<User>) -> (r: Result<User, ApplicationError>)
        ensures
            refusal_of(r) == new_member_user_refusal(found),
            r matches Ok(u) ==> found == Some(u),
    {
        match found {
            None => Err(ApplicationError::Validation(literal("User not found"))),
            Some(u) => if u.status != USER_STATUS_ACTIVE {
                Err(ApplicationError::Validation(literal("User is not active")))
            } else {
                Ok(u)
            },
        }
    }

    /// Refuses a user who is already a member of the project.
    pub fn check_not_member(&self, already_member: bool) -> (r: Result<(), ApplicationError>)
        ensures
            refusal_of(r) == (if already_member {
                Some((ErrorKind::Validation, "User is already a member of this project"@))
            } else {
                None
            }),
    {
        if already_member {
            Err(ApplicationError::Validation(literal("User is already a member of this project")))
        } else {
            Ok(())
        }
    }

    /// Refuses the request when some requested role was not found.
    pub fn check_roles_found(&self, requested: &Vec<i32>, roles: &Vec<Role>) -> (r: Result<
        (),
        ApplicationError,
    >)
        ensures
            refusal_of(r) == roles_found_refusal(requested@, roles@),
    {
        check_roles_found(requested, roles)
    }

    /// Refuses roles that the requester may not give.
    pub fn check_assignable(&self, current_user: &CurrentUser, requested: &Vec<i32>, manageable: &Vec<Role>) -> (r:
        Result<(), ApplicationError>)
        ensures
            refusal_of(r) == assignable_refusal(current_user.admin, requested@, manageable@),
    {
        check_assignable(current_user, requested, manageable)
    }

    /// The membership to store: the requested user joins the project, with mail notification
    /// off.
    pub fn membership_to_store(&self, project_id: i32, dto: &CreateMemberDto) -> (m: NewMember)
        ensures
            m == (NewMember { user_id: dto.user_id, project_id, mail_notification: false }),
    {
        NewMember { user_id: dto.user_id, project_id, mail_notification: false }
    }

    /// The roles that the stored membership is given, once it has its id: each requested role,
    /// directly, in the order requested.
    pub fn role_assignments(&self, member_id: i32, dto: &CreateMemberDto) -> (v: Vec<
        RoleAssignment,
    >)
        ensures
            v@ == direct_assignments(member_id, dto.role_ids@),
    {
        role_assignments(member_id, &dto.role_ids)
    }

    /// The response that shows the new membership.
    pub fn build_response(&self, member_id: i32, project: &Project, user: &User, roles: &Vec<Role>) -> (r:
        MembershipResponse)
        ensures
            membership_shown(r, member_id, *project, *user, roles@),
    {
        membership_response(member_id, project, user, roles)
    }
}

/// A user who is already a member of the project is not added again: once the request is
/// valid, the project exists, the requester may manage members and the user is active, the
/// request is refused with "User is already a member of this project", whether or not the
/// requester is an administrator.
pub proof fn existing_member_is_not_added_again(admin: bool, dto: CreateMemberDto, f: AddMemberFacts)
    requires
        create_member_problems(dto.user_id, dto.role_ids@).len() == 0,
        f.project matches Some(Some(_)),
        admin || f.requester_is_member == Some(true),
        f.user matches Some(Some(u)) && u.status == USER_STATUS_ACTIVE,
        f.user_is_member == Some(true),
    ensures
        add_member_decision(admin, dto, f) == Err::<Option<AddMemberLookup>, Refusal>(
            (ErrorKind::Validation, "User is already a member of this project"@),
        ),
{
}

/// When a requester who is not an administrator may give the requested roles, each of them is
/// among the roles they manage.
pub proof fn lemma_managed_roles_cover(requested: Seq<i32>, managed: Seq<Role>)
    requires
        assignable_refusal(false, requested, managed) is None,
    ensures
        forall|k: int|
            0 <= k < requested.len() ==> managed.map_values(|r: Role| r.id).contains(
                #[trigger] requested[k],
            ),
{
    assert(role_ids_of(managed) =~= managed.map_values(|r: Role| r.id));
}

/// A membership is stored only when every rule holds: the request is valid, the project
/// exists, the requester is an administrator or a member of it, the user exists and is active
/// and is not a member yet, every requested role was found, and a requester who is not an
/// administrator manages each requested role.
pub proof fn member_added_only_when_every_rule_holds(
    admin: bool,
    dto: CreateMemberDto,
    f: AddMemberFacts,
)
    requires
        add_member_decision(admin, dto, f) == Ok::<Option<AddMemberLookup>, Refusal>(None),
    ensures
        create_member_problems(dto.user_id, dto.role_ids@).len() == 0,
        f.project matches Some(Some(_)),
        admin || f.requester_is_member == Some(true),
        f.user matches Some(Some(u)) && u.status == USER_STATUS_ACTIVE,
        f.user_is_member == Some(false),
        f.roles matches Some(rs) && rs@.len() == dto.role_ids@.len(),
        admin || (f.managed_roles matches Some(ms) && forall|k: int|
            0 <= k < dto.role_ids@.len() ==> ms@.map_values(|r: Role| r.id).contains(
                #[trigger] dto.role_ids@[k],
            )),
{
    if !admin {
        lemma_managed_roles_cover(dto.role_ids@, f.managed_roles.unwrap()@);
    }
}

} // verus!
