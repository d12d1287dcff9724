use crate::domain::{IssueCategory, Project, User};
use crate::errors::{literal, ApplicationError, ErrorKind, Refusal, refusal_of};
use crate::use_cases::project::named_user_if_found;
use vstd::prelude::*;

pub use crate::use_cases::project::NamedId;

verus! {

/// What the list shows of one category.
#[derive(Debug, Clone)]
pub struct CategoryItem {
    pub id: i32,
    pub name: String,
    pub project: NamedId,
    pub assigned_to: Option<NamedId>,
}

/// Whether an item shows the category of the named project with the given assignee.
pub open spec fn category_item_shows(
    item: CategoryItem,
    c: IssueCategory,
    project_name: Seq<char>,
    assignee: Option<NamedId>,
) -> bool {
    &&& item.id == c.id
    &&& item.name == c.name
    &&& item.project.id == c.project_id
    &&& item.project.name@ == project_name
    &&& item.assigned_to == assignee
}

impl CategoryItem {
    /// What the list shows of the category.
    pub fn from_category(category: &IssueCategory, project_name: &str, assignee: Option<NamedId>) -> (item:
        Self)
        ensures
            category_item_shows(item, *category, project_name@, assignee),
    {
        CategoryItem {
            id: category.id,
            name: category.name.clone(),
            project: NamedId { id: category.project_id, name: literal(project_name) },
            assigned_to: assignee,
        }
    }
}

/// The categories of a project.
#[derive(Debug, Clone)]
pub struct CategoryListResponse {
    pub issue_categories: Vec<CategoryItem>,
    pub total_count: u32,
}

/// Lists the categories of projects to administrators, members, and any user of a public project.
#[derive(Debug)]
pub struct ListCategoriesUseCase {}

/// The refusal for a user who may not see the project, if they may not.
pub open spec fn list_categories_refusal(is_admin: bool, is_member: bool, project: Project) -> Option<
    Refusal,
> {
    if is_admin || is_member || project.is_public {
        None
    } else {
        Some((ErrorKind::Forbidden, "You don't have permission to view this project"@))
    }
}

impl ListCategoriesUseCase {
    pub fn new() -> (u: Self) {
        ListCategoriesUseCase {  }
    }

    /// Decides whether the user may see the project's categories. Membership is looked up only
    /// for users who are not administrators.
    pub fn check_view_permission(&self, is_admin: bool, is_member: bool, project: &Project) -> (r:
        Result<(), ApplicationError>)
        ensures
            refusal_of(r) == list_categories_refusal(is_admin, is_member, *project),
    {
        if is_admin || is_member || project.is_public {
            Ok(())
        } else {
            Err(ApplicationError::Forbidden(literal("You don't have permission to view this project")))
        }
    }

    /// What the list shows of one category, its assignee named when found.
    pub fn build_item(&self, category: &IssueCategory, project: &Project, assignee: &Option<User>) -> (item:
        CategoryItem)
        ensures
            item.id == category.id,
            item.name == category.name,
            item.project.id == category.project_id,
            item.project.name@ == project.name@,
            match *assignee {
                Some(u) => item.assigned_to matches Some(a) && a.id == u.id && a.name@
                    == crate::domain::full_name_of(u.firstname@, u.lastname@),
                None => item.assigned_to is None,
            },
    {
        let who = named_user_if_found(assignee);
        CategoryItem::from_category(category, project.name.as_str(), who)
    }

    /// The list, with the number of categories in it.
    pub fn build_response(&self, items: Vec<CategoryItem>) -> (r: CategoryListResponse)
        ensures
            r.issue_categories@ == items@,
            r.total_count == items@.len() as u32,
    {
        let n = items.len() as u32;
        CategoryListResponse { issue_categories: items, total_count: n }
    }
}

/// Who may list a project's categories: administrators, members, and anyone when the project
/// is public.
pub proof fn list_categories_permission_rule(is_admin: bool, is_member: bool, project: Project)
    ensures
        list_categories_refusal(is_admin, is_member, project) is None <==> (is_admin || is_member
            || project.is_public),
{
}

} // verus!
