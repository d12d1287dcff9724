use crate::domain::IssueStatus;
use vstd::prelude::*;

verus! {

/// What is shown of an issue status.
#[derive(Debug, Clone)]
pub struct IssueStatusItem {
    pub id: i32,
    pub name: String,
    pub is_closed: bool,
    pub is_default: bool,
    pub default_done_ratio: Option<i32>,
}

/// What is shown of a status: its fields but its position.
pub open spec fn shows_status(item: IssueStatusItem, s: IssueStatus) -> bool {
    &&& item.id == s.id
    &&& item.name@ == s.name@
    &&& item.is_closed == s.is_closed
    &&& item.is_default == s.is_default
    &&& item.default_done_ratio == s.default_done_ratio
}

impl From<IssueStatus> for IssueStatusItem {
    fn from(status: IssueStatus) -> (r: Self) {
        IssueStatusItem {
            id: status.id,
            name: status.name,
            is_closed: status.is_closed,
            is_default: status.is_default,
            default_done_ratio: status.default_done_ratio,
        }
    }
}

/// What is shown of a status.
pub open spec fn status_item_of(status: IssueStatus) -> IssueStatusItem {
    IssueStatusItem {
        id: status.id,
        name: status.name,
        is_closed: status.is_closed,
        is_default: status.is_default,
        default_done_ratio: status.default_done_ratio,
    }
}

impl vstd::std_specs::convert::FromSpecImpl<IssueStatus> for IssueStatusItem {
    open spec fn obeys_from_spec() -> bool {
        true
    }

    open spec fn from_spec(status: IssueStatus) -> Self {
        status_item_of(status)
    }
}

impl IssueStatusItem {
    /// What is shown of the status, read without taking it.
    pub fn from_ref(status: &IssueStatus) -> (r: Self)
        ensures
            shows_status(r, *status),
    {
        IssueStatusItem {
            id: status.id,
            name: status.name.clone(),
            is_closed: status.is_closed,
            is_default: status.is_default,
            default_done_ratio: status.default_done_ratio,
        }
    }
}

/// Every issue status.
#[derive(Debug, Clone)]
pub struct IssueStatusListResponse {
    pub issue_statuses: Vec<IssueStatusItem>,
}

/// Lists every issue status to any signed-in user.
#[derive(Debug)]
pub struct ListIssueStatusesUseCase {}

impl ListIssueStatusesUseCase {
    pub fn new() -> (u: Self) {
        ListIssueStatusesUseCase {  }
    }

    /// The list of the statuses, in the order given.
    pub fn build_response(&self, statuses: &Vec<IssueStatus>) -> (r: IssueStatusListResponse)
        ensures
            r.issue_statuses@.len() == statuses@.len(),
            forall|k: int|
                0 <= k < statuses@.len() ==> shows_status(
                    #[trigger] r.issue_statuses@[k],
                    statuses@[k],
                ),
    {
        let mut items: Vec<IssueStatusItem> = Vec::new();
        let mut i: usize = 0;
        while i < statuses.len()
            invariant
                i <= statuses@.len(),
                items@.len() == i,
                forall|k: int| 0 <= k < i ==> shows_status(#[trigger] items@[k], statuses@[k]),
            decreases statuses.len() - i,
        {
            items.push(IssueStatusItem::from_ref(&statuses[i]));
            i = i + 1;
        }
        IssueStatusListResponse { issue_statuses: items }
    }
}

} // verus!
