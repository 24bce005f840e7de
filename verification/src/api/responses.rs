//! What a response says about the page it holds.

use vstd::prelude::*;

verus! {

/// The place of one page among all pages of a result.
#[derive(Debug, Clone, Copy, PartialEq, Eq)]
pub struct PaginationMeta {
    pub current_page: i64,
    pub per_page: i64,
    pub total_count: i64,
    pub total_pages: i64,
    pub has_next: bool,
    pub has_prev: bool,
}

} // verus!
