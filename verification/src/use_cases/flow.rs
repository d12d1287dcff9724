use crate::errors::{error_message, kind_of, ApplicationError, Refusal};
use vstd::prelude::*;

verus! {

/// What a use case does next, given what has been looked up so far. A use case is run by
/// asking for its next step, looking up what a `Fetch` names and asking again, until it is
/// refused or may proceed; its writes come only after `Proceed`.
#[derive(Debug)]
pub enum Next<F> {
    /// Look up this, then ask again.
    Fetch(F),
    /// Answer with this error; nothing is written.
    Refuse(ApplicationError),
    /// Every check passed: carry out the writes.
    Proceed,
}

/// A decision: a refusal, something to look up first, or (`Ok(None)`) leave to proceed.
pub type Decision<F> = Result<Option<F>, Refusal>;

/// Whether a step is the decision.
pub open spec fn follows<F>(n: Next<F>, d: Decision<F>) -> bool {
    match n {
        Next::Fetch(f) => d == Ok::<Option<F>, Refusal>(Some(f)),
        Next::Refuse(e) => d == Err::<Option<F>, Refusal>((kind_of(e), error_message(e))),
        Next::Proceed => d == Ok::<Option<F>, Refusal>(None),
    }
}

/// A check that needs nothing looked up: its refusal, else what comes after it.
pub open spec fn check<F>(refusal: Option<Refusal>, rest: Decision<F>) -> Decision<F> {
    match refusal {
        Some(r) => Err(r),
        None => rest,
    }
}

/// A check on something looked up: look it up first when it is not known yet; then its
/// refusal, else what comes after it.
pub open spec fn check_after<F>(
    known: bool,
    need: F,
    refusal: Option<Refusal>,
    rest: Decision<F>,
) -> Decision<F> {
    if !known {
        Ok(Some(need))
    } else {
        check(refusal, rest)
    }
}

/// A check on something looked up only where it is needed: when it is not, what comes after
/// it.
pub open spec fn check_when<F>(
    needed: bool,
    known: bool,
    need: F,
    refusal: Option<Refusal>,
    rest: Decision<F>,
) -> Decision<F> {
    if needed {
        check_after(known, need, refusal, rest)
    } else {
        rest
    }
}

/// The refusal of something that was looked up and not found.
pub open spec fn found_refusal<T>(found: Option<T>, missing: Refusal) -> Option<Refusal> {
    match found {
        Some(_) => None,
        None => Some(missing),
    }
}

/// Leave to proceed.
pub open spec fn proceed<F>() -> Decision<F> {
    Ok(None)
}

/// Whether a decision lets the use case proceed to its writes.
pub open spec fn lets_proceed<F>(d: Decision<F>) -> bool {
    d == Ok::<Option<F>, Refusal>(None)
}

} // verus!
