//! The use cases on experiments and what they need from a store.

use vstd::prelude::*;

pub mod experiment;

verus! {

/// Who is calling, as far as the use cases need to know.
#[derive(Debug)]
pub struct Context<'a> {
    pub user_id: &'a str,
    pub user_group_id: &'a str,
}

} // verus!
