use crate::domain::{IssueCategory, MemberWithRoles, Project, User};
use crate::dto::CreateCategoryDto;
use crate::use_cases::flow::{check_after, check_when, follows, found_refusal, proceed, Decision, Next};
use crate::errors::{framed, framed_number, literal, ApplicationError, ErrorKind, Refusal, refusal_of};
use crate::text::decimal;
use crate::use_cases::project::{named_user_if_found, NamedId};
use vstd::prelude::*;

verus! {

/// The response that shows a new category.
#[derive(Debug, Clone)]
pub struct CreateCategoryResponse {
    pub issue_category: CategoryDetail,
}

/// What is shown of a category.
#[derive(Debug, Clone)]
pub struct CategoryDetail {
    pub id: i32,
    pub name: String,
    pub project: NamedId,
    pub assigned_to: Option<NamedId>,
}

/// Creates issue categories, for administrators and members who hold the role of a manager (3)
/// or a developer (4).
#[derive(Debug)]
pub struct CreateCategoryUseCase {}

/// Whether a membership holds a role that manages categories: role 3 (manager) or 4 (developer).
pub open spec fn holds_category_role(member: MemberWithRoles) -> bool {
    exists|k: int|
        0 <= k < member.roles@.len() && (#[trigger] member.roles@[k].role.id == 3
            || member.roles@[k].role.id == 4)
}

/// The message for a user who may not manage categories.
pub open spec fn manage_categories_denial() -> Seq<char> {
    "You don't have permission to manage categories in this project"@
}

/// The refusal for a user who may not manage a project's categories, if they may not.
pub open spec fn manage_categories_refusal(is_admin: bool, member: Option<MemberWithRoles>) -> Option<
    Refusal,
> {
    if is_admin {
        None
    } else {
        match member {
            Some(m) => if holds_category_role(m) {
                None
            } else {
                Some((ErrorKind::Forbidden, manage_categories_denial()))
            },
            None => Some((ErrorKind::Forbidden, manage_categories_denial())),
        }
    }
}

/// Whether the membership holds a role that manages categories.
pub fn has_manage_categories_role(member: &MemberWithRoles) -> (b: bool)
    ensures
        b == holds_category_role(*member),
{
    let mut i: usize = 0;
    while i < member.roles.len()
        invariant
            i <= member.roles@.len(),
            forall|k: int|
                0 <= k < i ==> !(#[trigger] member.roles@[k].role.id == 3 || member.roles@[k].role.id
                    == 4),
        decreases member.roles.len() - i,
    {
        let id = member.roles[i].role.id;
        if id == 3 || id == 4 {
            return true;
        }
        i = i + 1;
    }
    false
}

/// Decides whether the user may manage the project's categories. The membership is looked up
/// only for users who are not administrators.
pub fn check_manage_categories(is_admin: bool, member: &Option<MemberWithRoles>) -> (r: Result<
    (),
    ApplicationError,
>)
    ensures
        refusal_of(r) == manage_categories_refusal(is_admin, *member),
{
    if is_admin {
        return Ok(());
    }
    match member {
        Some(m) => if has_manage_categories_role(m) {
            Ok(())
        } else {
            Err(
                ApplicationError::Forbidden(
                    literal("You don't have permission to manage categories in this project"),
                ),
            )
        },
        None => Err(
            ApplicationError::Forbidden(
                literal("You don't have permission to manage categories in this project"),
            ),
        ),
    }
}

/// The refusal for a proposed assignee, if they are refused: an unknown user; for users who
/// are not administrators, a user who is not a member of the project.
pub open spec fn assignee_refusal(
    is_admin: bool,
    assigned_to_id: Option<i32>,
    user_found: bool,
    assignee_is_member: bool,
) -> Option<Refusal> {
    match assigned_to_id {
        None => None,
        Some(id) => if !user_found {
            Some(
                (
                    ErrorKind::Validation,
                    "User with id "@ + decimal(id as int) + " not found"@,
                ),
            )
        } else if !is_admin && !assignee_is_member {
            Some((ErrorKind::Validation, "Assigned user must be a member of the project"@))
        } else {
            None
        },
    }
}

/// What creating a category looks up, in the order it is needed.
#[derive(Debug, Clone, Copy, PartialEq, Eq, Structural)]
pub enum CreateCategoryLookup {
    /// The project, by its id.
    Project,
    /// The requester's membership in the project, with its roles.
    RequesterMembership,
    /// Whether another category of the project has the name.
    NameTaken,
    /// The proposed assignee, by id.
    Assignee,
    /// Whether the proposed assignee is a member of the project.
    AssigneeMembership,
}

/// What has been looked up to create a category: `None` where nothing is known yet.
#[derive(Debug)]
pub struct CreateCategoryFacts {
    pub project: Option<Option<Project>>,
    pub requester_membership: Option<Option<MemberWithRoles>>,
    pub name_taken: Option<bool>,
    pub assignee: Option<Option<User>>,
    pub assignee_is_member: Option<bool>,
}

/// The refusal of a name that another category of the project has.
pub open spec fn name_taken_refusal(name: Seq<char>, taken: bool) -> Option<Refusal> {
    if taken {
        Some(
            (
                ErrorKind::Validation,
                "Category with name '"@ + name + "' already exists in this project"@,
            ),
        )
    } else {
        None
    }
}

/// How a request to create a category is decided, check by check: the project; for a
/// requester who is not an administrator, their membership and its roles; the name; the
/// proposed assignee, if any; for a requester who is not an administrator, the assignee's
/// membership. The first check that fails answers, and a check waits for what it reads to be
/// looked up.
pub open spec fn create_category_decision(
    is_admin: bool,
    dto: CreateCategoryDto,
    f: CreateCategoryFacts,
) -> Decision<CreateCategoryLookup> {
    check_after(
        f.project is Some,
        CreateCategoryLookup::Project,
        found_refusal(f.project.unwrap(), (ErrorKind::NotFound, "Project not found"@)),
        check_when(
            !is_admin,
            f.requester_membership is Some,
            CreateCategoryLookup::RequesterMembership,
            manage_categories_refusal(is_admin, f.requester_membership.unwrap()),
            check_after(
                f.name_taken is Some,
                CreateCategoryLookup::NameTaken,
                name_taken_refusal(dto.name@, f.name_taken.unwrap()),
                check_when(
                    dto.assigned_to_id is Some,
                    f.assignee is Some,
                    CreateCategoryLookup::Assignee,
                    assignee_refusal(is_admin, dto.assigned_to_id, f.assignee.unwrap() is Some, true),
                    check_when(
                        dto.assigned_to_id is Some && !is_admin,
                        f.assignee_is_member is Some,
                        CreateCategoryLookup::AssigneeMembership,
                        assignee_refusal(
                            is_admin,
                            dto.assigned_to_id,
                            true,
                            f.assignee_is_member.unwrap(),
                        ),
                        proceed(),
                    ),
                ),
            ),
        ),
    )
}

impl CreateCategoryFacts {
    /// Nothing looked up yet.
    pub fn new() -> (f: Self)
        ensures
            f.project is None,
            f.requester_membership is None,
            f.name_taken is None,
            f.assignee is None,
            f.assignee_is_member is None,
    {
        CreateCategoryFacts {
            project: None,
            requester_membership: None,
            name_taken: None,
            assignee: None,
            assignee_is_member: None,
        }
    }
}

impl CreateCategoryUseCase {
    pub fn new() -> (u: Self) {
        CreateCategoryUseCase {  }
    }

    /// What comes next in creating a category: what to look up, the refusal, or leave to store
    /// the category.
    pub fn next_step(&self, is_admin: bool, dto: &CreateCategoryDto, facts: &CreateCategoryFacts) -> (n:
        Next<CreateCategoryLookup>)
        ensures
            follows(n, create_category_decision(is_admin, *dto, *facts)),
    {
        match &facts.project {
            None => return Next::Fetch(CreateCategoryLookup::Project),
            Some(found) => if found.is_none() {
                return Next::Refuse(ApplicationError::NotFound(literal("Project not found")));
            },
        }
        if !is_admin {
            match &facts.requester_membership {
                None => return Next::Fetch(CreateCategoryLookup::RequesterMembership),
                Some(member) => if let Err(e) = check_manage_categories(is_admin, member) {
                    return Next::Refuse(e);
                },
            }
        }
        match facts.name_taken {
            None => return Next::Fetch(CreateCategoryLookup::NameTaken),
            Some(taken) => if let Err(e) = self.check_name_available(dto.name.as_str(), taken) {
                return Next::Refuse(e);
            },
        }
        if dto.assigned_to_id.is_some() {
            match &facts.assignee {
                None => return Next::Fetch(CreateCategoryLookup::Assignee),
                Some(found) => if let Err(e) = self.check_assignee(
                    is_admin,
                    dto.assigned_to_id,
                    found.is_some(),
                    true,
                ) {
                    return Next::Refuse(e);
                },
            }
            if !is_admin {
                match facts.assignee_is_member {
                    None => return Next::Fetch(CreateCategoryLookup::AssigneeMembership),
                    Some(m) => if let Err(e) = self.check_assignee(
                        is_admin,
                        dto.assigned_to_id,
                        true,
                        m,
                    ) {
                        return Next::Refuse(e);
                    },
                }
            }
        }
        Next::Proceed
    }

    /// Decides whether the user may manage the project's categories.
    pub fn check_permission(&self, is_admin: bool, member: &Option<MemberWithRoles>) -> (r: Result<
        (),
        ApplicationError,
    >)
        ensures
            refusal_of(r) == manage_categories_refusal(is_admin, *member),
    {
        check_manage_categories(is_admin, member)
    }

    /// Refuses a name that another category of the project already has.
    pub fn check_name_available(&self, name: &str, name_exists: bool) -> (r: Result<(), ApplicationError>)
        ensures
            refusal_of(r) == (if name_exists {
                Some(
                    (
                        ErrorKind::Validation,
                        "Category with name '"@ + name@ + "' already exists in this project"@,
                    ),
                )
            } else {
                None
            }),
    {
        if name_exists {
            Err(
                ApplicationError::Validation(
                    framed("Category with name '", name, "' already exists in this project"),
                ),
            )
        } else {
            Ok(())
        }
    }

    /// Decides on the proposed assignee. The user is looked up when one is proposed, and their
    /// membership when the requester is not an administrator.
    pub fn check_assignee(
        &self,
        is_admin: bool,
        assigned_to_id: Option<i32>,
        user_found: bool,
        assignee_is_member: bool,
    ) -> (r: Result<(), ApplicationError>)
        ensures
            refusal_of(r) == assignee_refusal(
                is_admin,
                assigned_to_id,
                user_found,
                assignee_is_member,
            ),
    {
        match assigned_to_id {
            None => Ok(()),
            Some(id) => {
                if !user_found {
                    Err(ApplicationError::Validation(framed_number("User with id ", id, " not found")))
                } else if !is_admin && !assignee_is_member {
                    Err(
                        ApplicationError::Validation(
                            literal("Assigned user must be a member of the project"),
                        ),
                    )
                } else {
                    Ok(())
                }
            },
        }
    }

    /// The response that shows the new category, its assignee named when found.
    pub fn build_response(&self, category: IssueCategory, project: &Project, assignee: &Option<User>) -> (r:
        CreateCategoryResponse)
        ensures
            r.issue_category.id == category.id,
            r.issue_category.name == category.name,
            r.issue_category.project.id == project.id,
            r.issue_category.project.name@ == project.name@,
            match *assignee {
                Some(u) => r.issue_category.assigned_to matches Some(a) && a.id == u.id && a.name@
                    == crate::domain::full_name_of(u.firstname@, u.lastname@),
                None => r.issue_category.assigned_to is None,
            },
    {
        let who = named_user_if_found(assignee);
        CreateCategoryResponse {
            issue_category: CategoryDetail {
                id: category.id,
                name: category.name,
                project: NamedId { id: project.id, name: project.name.clone() },
                assigned_to: who,
            },
        }
    }
}

/// A name that another category of the project has is refused, for administrators as for
/// members: once the project exists and the requester may manage its categories, a taken name
/// gives "Category with name '<name>' already exists in this project".
pub proof fn taken_category_name_is_refused(is_admin: bool, dto: CreateCategoryDto, f: CreateCategoryFacts)
    requires
        f.project matches Some(Some(_)),
        is_admin || (f.requester_membership matches Some(Some(m)) && exists|k: int|
            0 <= k < m.roles@.len() && (#[trigger] m.roles@[k].role.id == 3 || m.roles@[k].role.id
                == 4)),
        f.name_taken == Some(true),
    ensures
        create_category_decision(is_admin, dto, f) == Err::<Option<CreateCategoryLookup>, Refusal>(
            (
                ErrorKind::Validation,
                "Category with name '"@ + dto.name@ + "' already exists in this project"@,
            ),
        ),
{
}

/// A category is created only when every rule holds: the project exists, the requester is an
/// administrator or a member holding role 3 or 4, no category of the project has the name,
/// and a proposed assignee exists and, for a requester who is not an administrator, is a
/// member of the project.
pub proof fn category_created_only_when_every_rule_holds(
    is_admin: bool,
    dto: CreateCategoryDto,
    f: CreateCategoryFacts,
)
    requires
        create_category_decision(is_admin, dto, f) == Ok::<Option<CreateCategoryLookup>, Refusal>(
            None,
        ),
    ensures
        f.project matches Some(Some(_)),
        is_admin || (f.requester_membership matches Some(Some(m)) && exists|k: int|
            0 <= k < m.roles@.len() && (#[trigger] m.roles@[k].role.id == 3 || m.roles@[k].role.id
                == 4)),
        f.name_taken == Some(false),
        dto.assigned_to_id is Some ==> (f.assignee matches Some(Some(_))),
        dto.assigned_to_id is Some && !is_admin ==> f.assignee_is_member == Some(true),
{
}

} // verus!
