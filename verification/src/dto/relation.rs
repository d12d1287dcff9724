use crate::dto::issue::string_views;
use crate::errors::{literal, prefixed};
use crate::text::str_eq;
use vstd::prelude::*;

verus! {

/// The request body that relates two issues.
#[derive(Debug)]
pub struct CreateRelationRequest {
    pub relation: CreateRelationDto,
}

/// The target issue, the kind of relation and its delay in days.
#[derive(Debug, Clone)]
pub struct CreateRelationDto {
    pub issue_to_id: i32,
    pub relation_type: String,
    /// Delay in days; only for `precedes` and `follows`.
    pub delay: Option<i32>,
}

/// The relation types that a request may name.
pub open spec fn is_valid_relation_type(t: Seq<char>) -> bool {
    ||| t == "relates"@
    ||| t == "duplicates"@
    ||| t == "blocks"@
    ||| t == "precedes"@
    ||| t == "follows"@
    ||| t == "copied_to"@
    ||| t == "duplicated"@
    ||| t == "blocked"@
    ||| t == "copied_from"@
}

/// The relation types in which relations are stored.
pub open spec fn is_canonical_relation_type(t: Seq<char>) -> bool {
    ||| t == "relates"@
    ||| t == "duplicates"@
    ||| t == "blocks"@
    ||| t == "precedes"@
    ||| t == "follows"@
    ||| t == "copied_to"@
}

/// Whether a relation type may carry a delay.
pub open spec fn allows_delay(t: Seq<char>) -> bool {
    t == "precedes"@ || t == "follows"@
}

/// The messages of the rules that a relation request breaks, in order.
pub open spec fn relation_problems(t: Seq<char>, delay: Option<i32>) -> Seq<Seq<char>> {
    let a: Seq<Seq<char>> = if !is_valid_relation_type(t) {
        seq!["Invalid relation type: "@ + t]
    } else {
        seq![]
    };
    let b: Seq<Seq<char>> = if delay is Some && !allows_delay(t) {
        seq!["Delay can only be specified for precedes or follows relations"@]
    } else {
        seq![]
    };
    a + b
}

/// The stored form of a relation type: the passive forms turn into their active forms.
pub open spec fn normalized_relation(t: Seq<char>) -> Seq<char> {
    if t == "duplicated"@ {
        "duplicates"@
    } else if t == "blocked"@ {
        "blocks"@
    } else if t == "copied_from"@ {
        "copied_to"@
    } else {
        t
    }
}

/// The type of the relation seen from the other issue, for the relations that have one.
pub open spec fn reverse_relation(t: Seq<char>) -> Option<Seq<char>> {
    if t == "relates"@ {
        Some("relates"@)
    } else if t == "duplicates"@ {
        Some("duplicated"@)
    } else if t == "blocks"@ {
        Some("blocked"@)
    } else if t == "precedes"@ {
        Some("follows"@)
    } else if t == "follows"@ {
        Some("precedes"@)
    } else {
        None
    }
}

impl CreateRelationDto {
    /// Checks the relation type and that a delay comes only with `precedes` or `follows`;
    /// the error lists each message.
    pub fn validate(&self) -> (r: Result<(), Vec<String>>)
        ensures
            match r {
                Ok(()) => relation_problems(self.relation_type@, self.delay).len() == 0,
                Err(es) => relation_problems(self.relation_type@, self.delay).len() > 0
                    && string_views(es@) == relation_problems(self.relation_type@, self.delay),
            },
    {
        let t = self.relation_type.as_str();
        let valid = str_eq(t, "relates") || str_eq(t, "duplicates") || str_eq(t, "blocks")
            || str_eq(t, "precedes") || str_eq(t, "follows") || str_eq(t, "copied_to") || str_eq(
            t,
            "duplicated",
        ) || str_eq(t, "blocked") || str_eq(t, "copied_from");
        let mut errors: Vec<String> = Vec::new();
        if !valid {
            errors.push(prefixed("Invalid relation type: ", t));
        }
        let ghost first = errors@;
        let delay_ok = str_eq(t, "precedes") || str_eq(t, "follows");
        if self.delay.is_some() && !delay_ok {
            errors.push(literal("Delay can only be specified for precedes or follows relations"));
        }
        assert(string_views(errors@) =~= relation_problems(self.relation_type@, self.delay));
        if errors.len() == 0 {
            Ok(())
        } else {
            Err(errors)
        }
    }

    /// The stored form of the relation type: `duplicated`, `blocked` and `copied_from`
    /// become `duplicates`, `blocks` and `copied_to`; any other type is kept.
    pub fn normalized_relation_type(&self) -> (r: &str)
        ensures
            r@ == normalized_relation(self.relation_type@),
    {
        let t = self.relation_type.as_str();
        if str_eq(t, "duplicated") {
            "duplicates"
        } else if str_eq(t, "blocked") {
            "blocks"
        } else if str_eq(t, "copied_from") {
            "copied_to"
        } else {
            t
        }
    }

    /// The type of the relation seen from the target issue, for the types that have one.
    pub fn reverse_relation_type(&self) -> (r: Option<&'static str>)
        ensures
            match r {
                Some(s) => reverse_relation(self.relation_type@) == Some(s@),
                None => reverse_relation(self.relation_type@) is None,
            },
    {
        let t = self.relation_type.as_str();
        if str_eq(t, "relates") {
            Some("relates")
        } else if str_eq(t, "duplicates") {
            Some("duplicated")
        } else if str_eq(t, "blocks") {
            Some("blocked")
        } else if str_eq(t, "precedes") {
            Some("follows")
        } else if str_eq(t, "follows") {
            Some("precedes")
        } else {
            None
        }
    }
}

/// Normalizing a relation type twice gives what normalizing it once gives.
pub proof fn lemma_normalized_relation_idempotent(t: Seq<char>)
    ensures
        normalized_relation(normalized_relation(t)) == normalized_relation(t),
{
    reveal_strlit("duplicated");
    reveal_strlit("duplicates");
    reveal_strlit("blocked");
    reveal_strlit("blocks");
    reveal_strlit("copied_from");
    reveal_strlit("copied_to");
}

/// Every valid relation type is stored as one of the six canonical types.
pub proof fn lemma_normalized_relation_is_canonical(t: Seq<char>)
    requires
        is_valid_relation_type(t),
    ensures
        is_canonical_relation_type(normalized_relation(t)),
{
}

/// The reverse of a relation type is itself a valid relation type, and for the symmetric
/// pairs (`relates`, `precedes`/`follows`) reversing twice gives the type back.
pub proof fn lemma_reverse_relation(t: Seq<char>)
    ensures
        reverse_relation(t) matches Some(r) ==> is_valid_relation_type(r),
        (t == "relates"@ || t == "precedes"@ || t == "follows"@) ==> (reverse_relation(t) matches Some(
            r,
        ) && reverse_relation(r) == Some(t)),
{
    reveal_strlit("relates");
    reveal_strlit("precedes");
    reveal_strlit("follows");
    reveal_strlit("duplicates");
    reveal_strlit("blocks");
    reveal_strlit("duplicated");
    reveal_strlit("blocked");
    assert("relates"@.len() == 7 && "follows"@.len() == 7 && "precedes"@.len() == 8);
    assert("duplicates"@.len() == 10 && "blocks"@.len() == 6);
    assert("relates"@[0] == 'r' && "follows"@[0] == 'f');
}

/// Every accepted relation type is stored under a canonical type: the passive forms are
/// turned into their active ones and the canonical types are kept as they are.
pub proof fn accepted_relations_are_stored_canonically(t: Seq<char>)
    ensures
        is_valid_relation_type(t) ==> is_canonical_relation_type(normalized_relation(t)),
        is_canonical_relation_type(t) ==> normalized_relation(t) == t,
{
    reveal_strlit("relates");
    reveal_strlit("duplicates");
    reveal_strlit("blocks");
    reveal_strlit("precedes");
    reveal_strlit("follows");
    reveal_strlit("copied_to");
    reveal_strlit("duplicated");
    reveal_strlit("blocked");
    reveal_strlit("copied_from");
    assert("relates"@.len() == 7);
    assert("duplicates"@.len() == 10);
    assert("blocks"@.len() == 6);
    assert("precedes"@.len() == 8);
    assert("follows"@.len() == 7);
    assert("copied_to"@.len() == 9);
    assert("duplicated"@.len() == 10);
    assert("blocked"@.len() == 7);
    assert("copied_from"@.len() == 11);
    lemma_relation_names_differ();
}

/// The reverse of a relation leads back to it: reversing twice gives the relation again, or
/// the reverse is a passive form that is stored as the relation itself.
pub proof fn reverse_relation_leads_back(t: Seq<char>)
    ensures
        reverse_relation(t) matches Some(r) ==> (reverse_relation(r) == Some(t)
            || normalized_relation(r) == t),
{
    reveal_strlit("relates");
    reveal_strlit("duplicates");
    reveal_strlit("blocks");
    reveal_strlit("precedes");
    reveal_strlit("follows");
    reveal_strlit("copied_to");
    reveal_strlit("duplicated");
    reveal_strlit("blocked");
    reveal_strlit("copied_from");
    assert("relates"@.len() == 7);
    assert("duplicates"@.len() == 10);
    assert("blocks"@.len() == 6);
    assert("precedes"@.len() == 8);
    assert("follows"@.len() == 7);
    assert("copied_to"@.len() == 9);
    assert("duplicated"@.len() == 10);
    assert("blocked"@.len() == 7);
    assert("copied_from"@.len() == 11);
    lemma_relation_names_differ();
}

/// The relation type names are pairwise different.
proof fn lemma_relation_names_differ()
    ensures
        "relates"@ != "duplicates"@,
        "relates"@ != "blocks"@,
        "relates"@ != "precedes"@,
        "relates"@ != "follows"@,
        "relates"@ != "copied_to"@,
        "relates"@ != "duplicated"@,
        "relates"@ != "blocked"@,
        "relates"@ != "copied_from"@,
        "duplicates"@ != "blocks"@,
        "duplicates"@ != "precedes"@,
        "duplicates"@ != "follows"@,
        "duplicates"@ != "copied_to"@,
        "duplicates"@ != "duplicated"@,
        "duplicates"@ != "blocked"@,
        "duplicates"@ != "copied_from"@,
        "blocks"@ != "precedes"@,
        "blocks"@ != "follows"@,
        "blocks"@ != "copied_to"@,
        "blocks"@ != "duplicated"@,
        "blocks"@ != "blocked"@,
        "blocks"@ != "copied_from"@,
        "precedes"@ != "follows"@,
        "precedes"@ != "copied_to"@,
        "precedes"@ != "duplicated"@,
        "precedes"@ != "blocked"@,
        "precedes"@ != "copied_from"@,
        "follows"@ != "copied_to"@,
        "follows"@ != "duplicated"@,
        "follows"@ != "blocked"@,
        "follows"@ != "copied_from"@,
        "copied_to"@ != "duplicated"@,
        "copied_to"@ != "blocked"@,
        "copied_to"@ != "copied_from"@,
        "duplicated"@ != "blocked"@,
        "duplicated"@ != "copied_from"@,
        "blocked"@ != "copied_from"@,
{
    reveal_strlit("relates");
    reveal_strlit("duplicates");
    reveal_strlit("blocks");
    reveal_strlit("precedes");
    reveal_strlit("follows");
    reveal_strlit("copied_to");
    reveal_strlit("duplicated");
    reveal_strlit("blocked");
    reveal_strlit("copied_from");
    assert("relates"@.len() != "duplicates"@.len());
    assert("relates"@.len() != "blocks"@.len());
    assert("relates"@.len() != "precedes"@.len());
    assert("relates"@[0] != "follows"@[0]);
    assert("relates"@.len() != "copied_to"@.len());
    assert("relates"@.len() != "duplicated"@.len());
    assert("relates"@[0] != "blocked"@[0]);
    assert("relates"@.len() != "copied_from"@.len());
    assert("duplicates"@.len() != "blocks"@.len());
    assert("duplicates"@.len() != "precedes"@.len());
    assert("duplicates"@.len() != "follows"@.len());
    assert("duplicates"@.len() != "copied_to"@.len());
    assert("duplicates"@[9] != "duplicated"@[9]);
    assert("duplicates"@.len() != "blocked"@.len());
    assert("duplicates"@.len() != "copied_from"@.len());
    assert("blocks"@.len() != "precedes"@.len());
    assert("blocks"@.len() != "follows"@.len());
    assert("blocks"@.len() != "copied_to"@.len());
    assert("blocks"@.len() != "duplicated"@.len());
    assert("blocks"@.len() != "blocked"@.len());
    assert("blocks"@.len() != "copied_from"@.len());
    assert("precedes"@.len() != "follows"@.len());
    assert("precedes"@.len() != "copied_to"@.len());
    assert("precedes"@.len() != "duplicated"@.len());
    assert("precedes"@.len() != "blocked"@.len());
    assert("precedes"@.len() != "copied_from"@.len());
    assert("follows"@.len() != "copied_to"@.len());
    assert("follows"@.len() != "duplicated"@.len());
    assert("follows"@[0] != "blocked"@[0]);
    assert("follows"@.len() != "copied_from"@.len());
    assert("copied_to"@.len() != "duplicated"@.len());
    assert("copied_to"@.len() != "blocked"@.len());
    assert("copied_to"@.len() != "copied_from"@.len());
    assert("duplicated"@.len() != "blocked"@.len());
    assert("duplicated"@.len() != "copied_from"@.len());
    assert("blocked"@.len() != "copied_from"@.len());
}

} // verus!
