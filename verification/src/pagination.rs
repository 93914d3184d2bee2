use vstd::prelude::*;

verus! {

/// Optional paging of a listing: how many entries to skip and how many to return.
#[derive(Debug, Clone, Copy)]
pub struct Pagination {
    pub offset: Option<usize>,
    pub limit: Option<usize>,
}

impl Default for Pagination {
    /// No paging: neither an offset nor a limit.
    fn default() -> (p: Self)
        ensures
            p.offset is None,
            p.limit is None,
    {
        Pagination { offset: None, limit: None }
    }
}

} // verus!
