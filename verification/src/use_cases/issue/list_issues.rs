use crate::domain::{CurrentUser, Enumeration, IssueStatus, Project};
use crate::errors::{prefixed_number, ApplicationError, refusal_of};
use crate::text::{decimal, i32_to_string, str_eq};
use crate::use_cases::access::{check_view_access, view_refusal};
use crate::use_cases::project::{fallback_name, NamedId};
use vstd::prelude::*;

verus! {

/// A status as issues show it: id, name, and whether it closes issues.
#[derive(Debug, Clone)]
pub struct StatusInfo {
    pub id: i32,
    pub name: String,
    pub is_closed: bool,
}

/// Lists issues, within the projects the user may see.
#[derive(Debug)]
pub struct ListIssuesUseCase {}

/// A status by id, name and whether it closes issues; `Status <id>`, open, when not found.
pub fn status_info(found: &Option<IssueStatus>, id: i32) -> (s: StatusInfo)
    ensures
        match *found {
            Some(st) => s.id == st.id && s.name@ == st.name@ && s.is_closed == st.is_closed,
            None => s.id == id && s.name@ == fallback_name("Status "@, id) && !s.is_closed,
        },
{
    match found {
        Some(st) => StatusInfo { id: st.id, name: st.name.clone(), is_closed: st.is_closed },
        None => StatusInfo { id, name: prefixed_number("Status ", id), is_closed: false },
    }
}

/// A priority by id and name, or `Priority <id>` with the given id when not found.
pub fn named_priority(found: &Option<Enumeration>, id: i32) -> (n: NamedId)
    ensures
        match *found {
            Some(p) => n.id == p.id && n.name@ == p.name@,
            None => n.id == id && n.name@ == fallback_name("Priority "@, id),
        },
{
    match found {
        Some(p) => NamedId { id: p.id, name: p.name.clone() },
        None => NamedId { id, name: prefixed_number("Priority ", id) },
    }
}

/// The assignee filter to search by: `me` stands for the user's own id.
pub open spec fn assignee_filter(given: Option<Seq<char>>, user_id: i32) -> Option<Seq<char>> {
    match given {
        Some(a) => if a == "me"@ {
            Some(decimal(user_id as int))
        } else {
            Some(a)
        },
        None => None,
    }
}

impl ListIssuesUseCase {
    pub fn new() -> (u: Self) {
        ListIssuesUseCase {  }
    }

    /// The assignee filter with `me` replaced by the user's id.
    pub fn resolve_assignee_filter(&self, given: Option<String>, current_user: &CurrentUser) -> (r:
        Option<String>)
        ensures
            crate::use_cases::attachment::get_attachment::opt_view(r) == assignee_filter(
                crate::use_cases::attachment::get_attachment::opt_view(given),
                current_user.id,
            ),
    {
        match given {
            Some(a) => if str_eq(a.as_str(), "me") {
                Some(i32_to_string(current_user.id))
            } else {
                Some(a)
            },
            None => None,
        }
    }

    /// The project whose access must be checked: the one searched in, for a user who is not an
    /// administrator.
    pub fn project_to_check(&self, project_id: Option<i32>, current_user: &CurrentUser) -> (r: Option<
        i32,
    >)
        ensures
            r == (if current_user.admin {
                None
            } else {
                project_id
            }),
    {
        if current_user.admin {
            None
        } else {
            project_id
        }
    }

    /// Decides whether the user may search the project: the project must exist, and be public
    /// or have the user as a member. The memberships are listed only for a project that is not
    /// public.
    pub fn check_project_access(
        &self,
        current_user: &CurrentUser,
        project_id: i32,
        project: &Option<Project>,
        member_project_ids: &Vec<i32>,
    ) -> (r: Result<(), ApplicationError>)
        ensures
            refusal_of(r) == view_refusal(
                current_user.admin,
                project_id,
                *project,
                member_project_ids@,
                "You don't have access to this project"@,
            ),
    {
        check_view_access(
            current_user,
            project_id,
            project,
            member_project_ids,
            "You don't have access to this project",
        )
    }

    /// The description as a list shows it: empty when there is none.
    pub fn description_text(&self, description: &Option<String>) -> (s: String)
        ensures
            s@ == match *description {
                Some(d) => d@,
                None => Seq::<char>::empty(),
            },
    {
        match description {
            Some(d) => d.clone(),
            None => String::new(),
        }
    }
}

} // verus!
