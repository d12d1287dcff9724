use crate::domain::{IssueCategory, MemberWithRoles};
use crate::errors::{framed, literal, ApplicationError, ErrorKind, Refusal, refusal_of};
use crate::text::{decimal, u64_to_string};
use crate::use_cases::category::create_category::{check_manage_categories, manage_categories_refusal};
use vstd::prelude::*;

verus! {

/// Deletes issue categories, for those who may manage them. The issues of a category move to
/// another category of the same project, which the request must name when there are any.
#[derive(Debug)]
pub struct DeleteCategoryUseCase {}

/// What happens to the issues of a category about to be deleted: nothing when there are none;
/// they move to the named category; or the request is refused for naming none.
pub open spec fn issue_handling(issue_count: u32, reassign_to_id: Option<i32>) -> Result<
    Option<i32>,
    Refusal,
> {
    if issue_count == 0 {
        Ok(None)
    } else {
        match reassign_to_id {
            Some(to) => Ok(Some(to)),
            None => Err(
                (
                    ErrorKind::Validation,
                    "Category has "@ + decimal(issue_count as int)
                        + " issues. Specify reassign_to_id to reassign them."@,
                ),
            ),
        }
    }
}

/// The refusal of a category to move issues to, if it is refused: it must exist and belong to
/// the same project.
pub open spec fn target_refusal(category: IssueCategory, target: Option<IssueCategory>) -> Option<
    Refusal,
> {
    match target {
        None => Some((ErrorKind::Validation, "Target category not found"@)),
        Some(t) => if t.project_id != category.project_id {
            Some((ErrorKind::Validation, "Target category must be in the same project"@))
        } else {
            None
        },
    }
}

impl DeleteCategoryUseCase {
    pub fn new() -> (u: Self) {
        DeleteCategoryUseCase {  }
    }

    /// The category that was looked up, or the error for one that does not exist.
    pub fn require_category(&self, found: Option<IssueCategory>) -> (r: Result<
        IssueCategory,
        ApplicationError,
    >)
        ensures
            match found {
                Some(c) => r == Ok::<IssueCategory, ApplicationError>(c),
                None => refusal_of(r) == Some((ErrorKind::NotFound, "Category not found"@)),
            },
    {
        match found {
            Some(c) => Ok(c),
            None => Err(ApplicationError::NotFound(literal("Category not found"))),
        }
    }

    /// Decides whether the user may manage the categories of the category's project.
    pub fn check_permission(&self, is_admin: bool, member: &Option<MemberWithRoles>) -> (r: Result<
        (),
        ApplicationError,
    >)
        ensures
            refusal_of(r) == manage_categories_refusal(is_admin, *member),
    {
        check_manage_categories(is_admin, member)
    }

    /// What happens to the issues of the category: `Ok(None)` none to move, `Ok(Some(to))`
    /// they move to `to`.
    pub fn plan_issues(&self, issue_count: u32, reassign_to_id: Option<i32>) -> (r: Result<
        Option<i32>,
        ApplicationError,
    >)
        ensures
            match issue_handling(issue_count, reassign_to_id) {
                Ok(x) => r == Ok::<Option<i32>, ApplicationError>(x),
                Err(f) => refusal_of(r) == Some(f),
            },
    {
        if issue_count == 0 {
            return Ok(None);
        }
        match reassign_to_id {
            Some(to) => Ok(Some(to)),
            None => {
                let n = u64_to_string(issue_count as u64);
                Err(
                    ApplicationError::Validation(
                        framed(
                            "Category has ",
                            n.as_str(),
                            " issues. Specify reassign_to_id to reassign them.",
                        ),
                    ),
                )
            },
        }
    }

    /// Decides on the category that the issues move to.
    pub fn check_reassign_target(&self, category: &IssueCategory, target: &Option<IssueCategory>) -> (r:
        Result<(), ApplicationError>)
        ensures
            refusal_of(r) == target_refusal(*category, *target),
    {
        match target {
            None => Err(ApplicationError::Validation(literal("Target category not found"))),
            Some(t) => if t.project_id != category.project_id {
                Err(
                    ApplicationError::Validation(
                        literal("Target category must be in the same project"),
                    ),
                )
            } else {
                Ok(())
            },
        }
    }
}

/// Issues are never dropped with their category: when there are any, either they move to
/// a named category or the deletion is refused.
pub proof fn lemma_issues_never_dropped(issue_count: u32, reassign_to_id: Option<i32>)
    requires
        issue_count > 0,
    ensures
        match issue_handling(issue_count, reassign_to_id) {
            Ok(x) => x is Some && x == reassign_to_id,
            Err(f) => f.0 == ErrorKind::Validation,
        },
{
}

/// A category that issues use is deleted only when a category to move them to is given: with
/// none, the refusal names how many issues use it; a category no issue uses needs none.
pub proof fn category_in_use_needs_a_target(issue_count: u32, reassign_to_id: Option<i32>)
    ensures
        issue_count == 0 ==> issue_handling(issue_count, reassign_to_id) == Ok::<
            Option<i32>,
            Refusal,
        >(None),
        issue_count > 0 && reassign_to_id is Some ==> issue_handling(issue_count, reassign_to_id)
            == Ok::<Option<i32>, Refusal>(reassign_to_id),
        issue_count > 0 && reassign_to_id is None ==> issue_handling(issue_count, reassign_to_id)
            == Err::<Option<i32>, Refusal>(
            (
                ErrorKind::Validation,
                "Category has "@ + decimal(issue_count as int)
                    + " issues. Specify reassign_to_id to reassign them."@,
            ),
        ),
{
}

/// Issues are moved only to a category that exists in the same project.
pub proof fn reassignment_target_rule(category: IssueCategory, target: Option<IssueCategory>)
    ensures
        target_refusal(category, target) is None <==> (target matches Some(t) && t.project_id
            == category.project_id),
        target is None ==> target_refusal(category, target) == Some(
            (ErrorKind::Validation, "Target category not found"@),
        ),
{
}

} // verus!
