use crate::domain::Enumeration;
use vstd::prelude::*;

verus! {

/// What the list shows of one priority.
#[derive(Debug, Clone)]
pub struct PriorityItem {
    pub id: i32,
    pub name: String,
    pub is_default: bool,
    pub active: bool,
}

/// What the list shows of a priority: its fields as they are.
pub open spec fn priority_item_of(e: Enumeration) -> PriorityItem {
    PriorityItem { id: e.id, name: e.name, is_default: e.is_default, active: e.active }
}

impl From<Enumeration> for PriorityItem {
    fn from(e: Enumeration) -> (r: Self) {
        PriorityItem { id: e.id, name: e.name, is_default: e.is_default, active: e.active }
    }
}

impl vstd::std_specs::convert::FromSpecImpl<Enumeration> for PriorityItem {
    open spec fn obeys_from_spec() -> bool {
        true
    }

    open spec fn from_spec(e: Enumeration) -> Self {
        priority_item_of(e)
    }
}

/// The active issue priorities.
#[derive(Debug, Clone)]
pub struct PriorityListResponse {
    pub issue_priorities: Vec<PriorityItem>,
}

/// Lists the active issue priorities to any signed-in user.
#[derive(Debug)]
pub struct ListPrioritiesUseCase {}

impl ListPrioritiesUseCase {
    pub fn new() -> (u: Self) {
        ListPrioritiesUseCase {  }
    }

    /// The list of the priorities, in the order given.
    pub fn build_response(&self, priorities: Vec<Enumeration>) -> (r: PriorityListResponse)
        ensures
            r.issue_priorities@.len() == priorities@.len(),
            forall|k: int|
                0 <= k < priorities@.len() ==> #[trigger] r.issue_priorities@[k]
                    == priority_item_of(priorities@[k]),
    {
        let mut items: Vec<PriorityItem> = Vec::new();
        let mut rest = priorities;
        let ghost all = rest@;
        let mut i: usize = 0;
        let n = rest.len();
        while i < n
            invariant
                n == all.len(),
                i <= n,
                rest@ == all.subrange(i as int, n as int),
                items@.len() == i,
                forall|k: int|
                    0 <= k < i ==> #[trigger] items@[k] == priority_item_of(all[k]),
            decreases n - i,
        {
            let e = rest.remove(0);
            assert(all.subrange(i as int, n as int)[0] == all[i as int]);
            assert(rest@ =~= all.subrange(i + 1, n as int));
            items.push(PriorityItem::from(e));
            i = i + 1;
        }
        PriorityListResponse { issue_priorities: items }
    }
}

} // verus!
