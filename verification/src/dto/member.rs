use crate::dto::issue::string_views;
use crate::errors::literal;
use vstd::prelude::*;

verus! {

/// The request body that adds a member to a project.
#[derive(Debug)]
pub struct CreateMemberRequest {
    pub membership: CreateMemberDto,
}

/// The user to add and the roles to give them.
#[derive(Debug, Clone)]
pub struct CreateMemberDto {
    pub user_id: i32,
    pub role_ids: Vec<i32>,
}

/// Whether some role id is zero or less.
pub open spec fn has_non_positive(ids: Seq<i32>) -> bool {
    exists|k: int| 0 <= k < ids.len() && ids[k] <= 0
}

/// The messages of the rules that a list of role ids breaks, in order.
pub open spec fn role_id_problems(ids: Seq<i32>) -> Seq<Seq<char>> {
    let a: Seq<Seq<char>> = if ids.len() == 0 {
        seq!["At least one role is required"@]
    } else {
        seq![]
    };
    let b: Seq<Seq<char>> = if has_non_positive(ids) {
        seq!["All role IDs must be positive integers"@]
    } else {
        seq![]
    };
    a + b
}

/// The messages of the rules that a new membership breaks, in order.
pub open spec fn create_member_problems(user_id: i32, ids: Seq<i32>) -> Seq<Seq<char>> {
    let u: Seq<Seq<char>> = if user_id <= 0 {
        seq!["User ID must be a positive integer"@]
    } else {
        seq![]
    };
    u + role_id_problems(ids)
}

/// Whether some id in the list is zero or less.
pub fn any_non_positive(ids: &Vec<i32>) -> (b: bool)
    ensures
        b == has_non_positive(ids@),
{
    let mut i: usize = 0;
    while i < ids.len()
        invariant
            i <= ids@.len(),
            forall|k: int| 0 <= k < i ==> ids@[k] > 0,
        decreases ids.len() - i,
    {
        if ids[i] <= 0 {
            return true;
        }
        i = i + 1;
    }
    false
}

/// Appends the messages of the rules that a list of role ids breaks.
fn push_role_id_problems(errors: &mut Vec<String>, ids: &Vec<i32>)
    ensures
        string_views(final(errors)@) == string_views(old(errors)@) + role_id_problems(ids@),
{
    let ghost start = errors@;
    if ids.len() == 0 {
        errors.push(literal("At least one role is required"));
    }
    let ghost mid = errors@;
    if any_non_positive(ids) {
        errors.push(literal("All role IDs must be positive integers"));
    }
    assert(string_views(errors@) =~= string_views(start) + role_id_problems(ids@));
}

impl CreateMemberDto {
    /// Checks the user id and the role ids; the error lists each message.
    pub fn validate(&self) -> (r: Result<(), Vec<String>>)
        ensures
            match r {
                Ok(()) => create_member_problems(self.user_id, self.role_ids@).len() == 0,
                Err(es) => create_member_problems(self.user_id, self.role_ids@).len() > 0
                    && string_views(es@) == create_member_problems(self.user_id, self.role_ids@),
            },
    {
        let mut errors: Vec<String> = Vec::new();
        if self.user_id <= 0 {
            errors.push(literal("User ID must be a positive integer"));
        }
        let ghost first = errors@;
        assert(string_views(first) =~= (if self.user_id <= 0 {
            seq!["User ID must be a positive integer"@]
        } else {
            Seq::<Seq<char>>::empty()
        }));
        push_role_id_problems(&mut errors, &self.role_ids);
        if errors.len() == 0 {
            Ok(())
        } else {
            Err(errors)
        }
    }
}

/// The request body that changes the roles of a member.
#[derive(Debug)]
pub struct UpdateMemberRequest {
    pub membership: UpdateMemberDto,
}

/// The roles that replace those of a member.
#[derive(Debug, Clone)]
pub struct UpdateMemberDto {
    pub role_ids: Vec<i32>,
}

impl UpdateMemberDto {
    /// Checks the role ids; the error lists each message.
    pub fn validate(&self) -> (r: Result<(), Vec<String>>)
        ensures
            match r {
                Ok(()) => role_id_problems(self.role_ids@).len() == 0,
                Err(es) => role_id_problems(self.role_ids@).len() > 0 && string_views(es@)
                    == role_id_problems(self.role_ids@),
            },
    {
        let mut errors: Vec<String> = Vec::new();
        assert(string_views(errors@) =~= Seq::<Seq<char>>::empty());
        push_role_id_problems(&mut errors, &self.role_ids);
        assert(string_views(errors@) =~= role_id_problems(self.role_ids@));
        if errors.len() == 0 {
            Ok(())
        } else {
            Err(errors)
        }
    }
}

/// A new membership that passes its checks gives role ids that also pass as an update:
/// the checks of an update are a part of those of a new membership.
pub proof fn lemma_valid_membership_roles_are_valid_update(user_id: i32, ids: Seq<i32>)
    requires
        create_member_problems(user_id, ids).len() == 0,
    ensures
        role_id_problems(ids).len() == 0,
{
}

} // verus!
