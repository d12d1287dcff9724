pub mod list_priorities;

pub use list_priorities::{ListPrioritiesUseCase, PriorityItem, PriorityListResponse};
