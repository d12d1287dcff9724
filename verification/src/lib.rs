use vstd::prelude::*;

pub mod domain;
pub mod dto;
pub mod errors;
pub mod external;
pub mod text;
pub mod use_cases;

verus! {
}
