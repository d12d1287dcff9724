use crate::domain::{CurrentUser, Issue, NewIssue, Project, Tracker};
use crate::dto::issue::{message_list, subject_problem};
use crate::dto::CreateIssueDto;
use crate::errors::{literal, ApplicationError, ErrorKind, Refusal, refusal_of};
use crate::text::{contains_i32, trim, trim_chars};
use crate::use_cases::attachment::get_attachment::opt_view;
use crate::use_cases::member::add_member::{problems_error, problems_refusal};
use vstd::prelude::*;

verus! {

/// The priority of a new issue for which none is given.
pub const DEFAULT_PRIORITY_ID: i32 = 2;

/// Creates issues in projects.
#[derive(Debug)]
pub struct CreateIssueUseCase {}

/// The refusal of a user who may not create issues in the project: one who is not an
/// administrator, not a member, and the project is not public.
pub open spec fn create_issue_refusal(admin: bool, is_member: bool, project: Project) -> Option<
    Refusal,
> {
    if admin || is_member || project.is_public {
        None
    } else {
        Some(
            (ErrorKind::Forbidden, "You don't have permission to create issues in this project"@),
        )
    }
}

/// The refusal of the parent issue, when one is given: unknown, or in another project.
pub open spec fn parent_refusal(parent_id: Option<i32>, parent: Option<Issue>, project_id: i32) -> Option<
    Refusal,
> {
    match parent_id {
        None => None,
        Some(_) => match parent {
            None => Some((ErrorKind::Validation, "Parent issue not found"@)),
            Some(p) => if p.project_id != project_id {
                Some((ErrorKind::Validation, "Parent issue must be in the same project"@))
            } else {
                None
            },
        },
    }
}

/// A new issue's description: the given one trimmed, none when that leaves nothing.
pub open spec fn new_description(d: Option<String>) -> Option<Seq<char>> {
    match d {
        Some(s) => if trim_chars(s@).len() == 0 {
            None
        } else {
            Some(trim_chars(s@))
        },
        None => None,
    }
}

impl CreateIssueUseCase {
    pub fn new() -> (u: Self) {
        CreateIssueUseCase {  }
    }

    /// Refuses a request whose fields break their rules; the messages are joined by `, `.
    pub fn validate(&self, dto: &CreateIssueDto) -> (r: Result<(), ApplicationError>)
        ensures
            refusal_of(r) == problems_refusal(message_list(subject_problem(dto.subject@))),
    {
        problems_error(dto.validate())
    }

    /// The project that was looked up; one that does not exist is a validation error.
    pub fn require_project(&self, found: Option<Project>) -> (r: Result<Project, ApplicationError>)
        ensures
            match found {
                Some(p) => r == Ok::<Project, ApplicationError>(p),
                None => refusal_of(r) == Some((ErrorKind::Validation, "Project not found"@)),
            },
    {
        match found {
            Some(p) => Ok(p),
            None => Err(ApplicationError::Validation(literal("Project not found"))),
        }
    }

    /// Whether the user's membership in the project must be looked up: for a user who is not
    /// an administrator.
    pub fn needs_membership(&self, current_user: &CurrentUser) -> (b: bool)
        ensures
            b == !current_user.admin,
    {
        !current_user.admin
    }

    /// Decides whether the user may create issues in the project: administrators, members,
    /// and anyone in a public project.
    pub fn check_permission(&self, current_user: &CurrentUser, is_member: bool, project: &Project) -> (r:
        Result<(), ApplicationError>)
        ensures
            refusal_of(r) == create_issue_refusal(current_user.admin, is_member, *project),
    {
        if current_user.admin || is_member || project.is_public {
            Ok(())
        } else {
            Err(
                ApplicationError::Forbidden(
                    literal("You don't have permission to create issues in this project"),
                ),
            )
        }
    }

    /// The tracker that was looked up, or the error for one that does not exist.
    pub fn require_tracker(&self, found: Option<Tracker>) -> (r: Result<Tracker, ApplicationError>)
        ensures
            match found {
                Some(t) => r == Ok::<Tracker, ApplicationError>(t),
                None => refusal_of(r) == Some((ErrorKind::Validation, "Tracker not found"@)),
            },
    {
        match found {
            Some(t) => Ok(t),
            None => Err(ApplicationError::Validation(literal("Tracker not found"))),
        }
    }

    /// Refuses a tracker that the project does not use.
    pub fn check_tracker_available(&self, tracker_id: i32, project_tracker_ids: &Vec<i32>) -> (r:
        Result<(), ApplicationError>)
        ensures
            refusal_of(r) == (if project_tracker_ids@.contains(tracker_id) {
                None
            } else {
                Some((ErrorKind::Validation, "Tracker is not available in this project"@))
            }),
    {
        if contains_i32(project_tracker_ids, tracker_id) {
            Ok(())
        } else {
            Err(ApplicationError::Validation(literal("Tracker is not available in this project")))
        }
    }

    /// The status of the new issue: the given one, else the tracker's default status.
    pub fn status_to_use(&self, dto: &CreateIssueDto, tracker: &Tracker) -> (s: i32)
        ensures
            s == match dto.status_id {
                Some(v) => v,
                None => tracker.default_status_id,
            },
    {
        match dto.status_id {
            Some(v) => v,
            None => tracker.default_status_id,
        }
    }

    /// Refuses a status that does not exist.
    pub fn check_status_found(&self, found: bool) -> (r: Result<(), ApplicationError>)
        ensures
            refusal_of(r) == (if found {
                None
            } else {
                Some((ErrorKind::Validation, "Status not found"@))
            }),
    {
        if found {
            Ok(())
        } else {
            Err(ApplicationError::Validation(literal("Status not found")))
        }
    }

    /// The priority of the new issue: the given one, else the default priority.
    pub fn priority_to_use(&self, dto: &CreateIssueDto) -> (p: i32)
        ensures
            p == match dto.priority_id {
                Some(v) => v,
                None => DEFAULT_PRIORITY_ID,
            },
    {
        match dto.priority_id {
            Some(v) => v,
            None => DEFAULT_PRIORITY_ID,
        }
    }

    /// Refuses a parent issue that does not exist or lies in another project; the parent is
    /// looked up only when one is given.
    pub fn check_parent(&self, dto: &CreateIssueDto, parent: &Option<Issue>) -> (r: Result<
        (),
        ApplicationError,
    >)
        ensures
            refusal_of(r) == parent_refusal(dto.parent_id, *parent, dto.project_id),
    {
        match dto.parent_id {
            None => Ok(()),
            Some(_) => match parent {
                None => Err(ApplicationError::Validation(literal("Parent issue not found"))),
                Some(p) => if p.project_id != dto.project_id {
                    Err(
                        ApplicationError::Validation(
                            literal("Parent issue must be in the same project"),
                        ),
                    )
                } else {
                    Ok(())
                },
            },
        }
    }

    /// Refuses an assignee that does not exist; the user is looked up only when one is given.
    pub fn check_assignee(&self, dto: &CreateIssueDto, found: bool) -> (r: Result<
        (),
        ApplicationError,
    >)
        ensures
            refusal_of(r) == (if dto.assigned_to_id is Some && !found {
                Some((ErrorKind::Validation, "Assignee not found"@))
            } else {
                None
            }),
    {
        if dto.assigned_to_id.is_some() && !found {
            Err(ApplicationError::Validation(literal("Assignee not found")))
        } else {
            Ok(())
        }
    }

    /// The issue to store: the request's fields, its subject and description trimmed (a
    /// description that is left empty is dropped), with the status and priority chosen and the
    /// user as author.
    pub fn build_new_issue(
        &self,
        dto: &CreateIssueDto,
        status_id: i32,
        priority_id: i32,
        author_id: i32,
    ) -> (n: NewIssue)
        ensures
            n.tracker_id == dto.tracker_id,
            n.project_id == dto.project_id,
            n.subject@ == trim_chars(dto.subject@),
            opt_view(n.description) == new_description(dto.description),
            n.due_date == dto.due_date,
            n.category_id == dto.category_id,
            n.status_id == status_id,
            n.assigned_to_id == dto.assigned_to_id,
            n.priority_id == priority_id,
            n.author_id == author_id,
            n.start_date == dto.start_date,
            n.parent_id == dto.parent_id,
            n.is_private == dto.is_private,
    {
        let description = match &dto.description {
            Some(d) => {
                let t = trim(d.as_str());
                if t.as_str().unicode_len() == 0 {
                    None
                } else {
                    Some(t)
                }
            },
            None => None,
        };
        NewIssue {
            tracker_id: dto.tracker_id,
            project_id: dto.project_id,
            subject: trim(dto.subject.as_str()),
            description,
            due_date: dto.due_date.clone(),
            category_id: dto.category_id,
            status_id,
            assigned_to_id: dto.assigned_to_id,
            priority_id,
            author_id,
            start_date: dto.start_date.clone(),
            parent_id: dto.parent_id,
            is_private: dto.is_private,
        }
    }
}

/// Who may create issues in a project: administrators, its members, and anyone when the
/// project is public; anyone else is refused as forbidden.
pub proof fn create_issue_permission_rule(admin: bool, is_member: bool, project: Project)
    ensures
        create_issue_refusal(admin, is_member, project) is None <==> (admin || is_member
            || project.is_public),
        !(admin || is_member || project.is_public) ==> create_issue_refusal(
            admin,
            is_member,
            project,
        ) == Some(
            (ErrorKind::Forbidden, "You don't have permission to create issues in this project"@),
        ),
{
}

/// A given parent issue must exist and belong to the new issue's project; without one there
/// is nothing to check.
pub proof fn new_issue_parent_rule(parent_id: Option<i32>, parent: Option<Issue>, project_id: i32)
    ensures
        parent_id is None ==> parent_refusal(parent_id, parent, project_id) is None,
        parent_id is Some ==> (parent_refusal(parent_id, parent, project_id) is None <==> (
        parent matches Some(q) && q.project_id == project_id)),
        parent_id is Some && parent is None ==> parent_refusal(parent_id, parent, project_id)
            == Some((ErrorKind::Validation, "Parent issue not found"@)),
        (parent_id is Some && (parent matches Some(q) && q.project_id != project_id))
            ==> parent_refusal(parent_id, parent, project_id) == Some(
            (ErrorKind::Validation, "Parent issue must be in the same project"@),
        ),
{
}

} // verus!
