use crate::domain::{IssueCategoryUpdate, NewIssueCategory};
use crate::errors::literal;
use vstd::prelude::*;

verus! {

/// The request body that creates an issue category.
#[derive(Debug)]
pub struct CreateCategoryRequest {
    pub issue_category: CreateCategoryDto,
}

/// The fields of a new issue category.
#[derive(Debug)]
pub struct CreateCategoryDto {
    /// Name of the category (1 to 60 characters).
    pub name: String,
    /// Default assignee of the issues in this category.
    pub assigned_to_id: Option<i32>,
}

/// Whether a category name has an allowed number of characters.
pub open spec fn category_name_ok(name: Seq<char>) -> bool {
    1 <= name.len() <= 60
}

/// The message given for a category name of the wrong length.
pub open spec fn category_name_message() -> Seq<char> {
    "Name must be between 1 and 60 characters"@
}

impl CreateCategoryDto {
    /// Checks that the name has between 1 and 60 characters.
    pub fn validate(&self) -> (r: Result<(), String>)
        ensures
            r is Ok <==> category_name_ok(self.name@),
            r matches Err(m) ==> m@ == category_name_message(),
    {
        let n = self.name.as_str().unicode_len();
        if n < 1 || n > 60 {
            Err(literal("Name must be between 1 and 60 characters"))
        } else {
            Ok(())
        }
    }

    /// The category to store in the given project.
    pub fn into_new_category(self, project_id: i32) -> (c: NewIssueCategory)
        ensures
            c.project_id == project_id,
            c.name == self.name,
            c.assigned_to_id == self.assigned_to_id,
    {
        NewIssueCategory { project_id, name: self.name, assigned_to_id: self.assigned_to_id }
    }
}

/// The request body that updates an issue category.
#[derive(Debug)]
pub struct UpdateCategoryRequest {
    pub issue_category: UpdateCategoryDto,
}

/// The fields of an issue category to change.
#[derive(Debug)]
pub struct UpdateCategoryDto {
    /// New name (1 to 60 characters when given).
    pub name: Option<String>,
    /// New default assignee; `Some(None)` clears it.
    pub assigned_to_id: Option<Option<i32>>,
}

impl UpdateCategoryDto {
    /// Checks that a given name has between 1 and 60 characters.
    pub fn validate(&self) -> (r: Result<(), String>)
        ensures
            r is Ok <==> (self.name matches Some(n) ==> category_name_ok(n@)),
            r matches Err(m) ==> m@ == category_name_message(),
    {
        match &self.name {
            Some(name) => {
                let n = name.as_str().unicode_len();
                if n < 1 || n > 60 {
                    Err(literal("Name must be between 1 and 60 characters"))
                } else {
                    Ok(())
                }
            },
            None => Ok(()),
        }
    }

    /// The changes to store.
    pub fn into_update(self) -> (u: IssueCategoryUpdate)
        ensures
            u.name == self.name,
            u.assigned_to_id == self.assigned_to_id,
    {
        IssueCategoryUpdate { name: self.name, assigned_to_id: self.assigned_to_id }
    }
}

} // verus!
