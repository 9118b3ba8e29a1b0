//! Pages of results for infinite scroll.

use vstd::prelude::*;

verus! {

/// A page of results, with the cursor of the next page.
#[derive(Debug, Clone)]
pub struct PaginationResponse<T> {
    pub items: Vec<T>,
    /// The next page's cursor (`None` when there are no more pages).
    pub next_cursor: Option<String>,
    /// Whether more pages follow.
    pub has_more: bool,
}

impl<T> PaginationResponse<T> {
    /// A page of the given items.
    pub fn new(items: Vec<T>, next_cursor: Option<String>, has_more: bool) -> (r: Self)
        ensures
            r.items == items,
            r.next_cursor == next_cursor,
            r.has_more == has_more,
    {
        Self { items, next_cursor, has_more }
    }

    /// A response that holds all results: no cursor and nothing more to come.
    pub fn all(items: Vec<T>) -> (r: Self)
        ensures
            r.items == items,
            r.next_cursor is None,
            !r.has_more,
    {
        Self { items, next_cursor: None, has_more: false }
    }
}

} // verus!
