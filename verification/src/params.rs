//! Request parameters shared by the controllers.
use vstd::prelude::*;

verus! {

/// Fewest records that one removal may name.
pub const MIN_REMOVE_IDS: usize = 1;

/// Most records that one removal may name.
pub const MAX_REMOVE_IDS: usize = 100;

/// The records to remove.
#[derive(Debug)]
pub struct RemoveParams {
    pub ids: Vec<i64>,
}

impl RemoveParams {
    /// A removal names at least one record and at most a hundred.
    pub open spec fn valid(&self) -> bool {
        MIN_REMOVE_IDS <= self.ids@.len() <= MAX_REMOVE_IDS
    }

    /// Whether the parameters meet [`RemoveParams::valid`].
    pub fn validate(&self) -> (ok: bool)
        ensures
            ok == self.valid(),
    {
        MIN_REMOVE_IDS <= self.ids.len() && self.ids.len() <= MAX_REMOVE_IDS
    }
}

/// Which page of a listing to fetch, counted from zero, for the page
/// `page` counted from one: none when the listing has fewer pages.
pub fn page_to_fetch(page: u64, num_pages: u64) -> (index: Option<u64>)
    requires
        page >= 1,
    ensures
        index == if num_pages < page {
            None
        } else {
            Some((page - 1) as u64)
        },
{
    if num_pages < page {
        None
    } else {
        Some(page - 1)
    }
}

} // verus!
