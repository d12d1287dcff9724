use crate::domain::{Project, Tracker, User};
use crate::errors::prefixed_number;
use crate::text::decimal;
use vstd::prelude::*;

verus! {

/// An id and a display name, as responses show related records.
#[derive(Debug, Clone)]
pub struct NamedId {
    pub id: i32,
    pub name: String,
}

/// The name shown for a record that was not found: a label, a space and its id.
pub open spec fn fallback_name(label: Seq<char>, id: i32) -> Seq<char> {
    label + decimal(id as int)
}

/// How a user is shown: by full name when found, else as `User <id>`.
pub open spec fn user_named(user: Option<User>, id: i32, shown_id: i32, shown_name: Seq<char>) -> bool {
    match user {
        Some(u) => shown_id == u.id && shown_name == crate::domain::full_name_of(
            u.firstname@,
            u.lastname@,
        ),
        None => shown_id == id && shown_name == fallback_name("User "@, id),
    }
}

/// A user by id and full name, or `User <id>` with the given id when the user was not found.
pub fn named_user(user: &Option<User>, id: i32) -> (n: NamedId)
    ensures
        user_named(*user, id, n.id, n.name@),
{
    match user {
        Some(u) => NamedId { id: u.id, name: u.full_name() },
        None => NamedId { id, name: prefixed_number("User ", id) },
    }
}

/// A user by id and full name, when found.
pub fn named_user_if_found(user: &Option<User>) -> (n: Option<NamedId>)
    ensures
        match *user {
            Some(u) => n matches Some(x) && x.id == u.id && x.name@
                == crate::domain::full_name_of(u.firstname@, u.lastname@),
            None => n is None,
        },
{
    match user {
        Some(u) => Some(NamedId { id: u.id, name: u.full_name() }),
        None => None,
    }
}

/// A project by id and name, or `Project <id>` with the given id when not found.
pub fn named_project(project: &Option<Project>, id: i32) -> (n: NamedId)
    ensures
        match *project {
            Some(p) => n.id == p.id && n.name@ == p.name@,
            None => n.id == id && n.name@ == fallback_name("Project "@, id),
        },
{
    match project {
        Some(p) => {
            NamedId { id: p.id, name: p.name.clone() }
        },
        None => NamedId { id, name: prefixed_number("Project ", id) },
    }
}

/// A tracker by id and name, or `Tracker <id>` with the given id when not found.
pub fn named_tracker(tracker: &Option<Tracker>, id: i32) -> (n: NamedId)
    ensures
        match *tracker {
            Some(t) => n.id == t.id && n.name@ == t.name@,
            None => n.id == id && n.name@ == fallback_name("Tracker "@, id),
        },
{
    match tracker {
        Some(t) => NamedId { id: t.id, name: t.name.clone() },
        None => NamedId { id, name: prefixed_number("Tracker ", id) },
    }
}

} // verus!
