//! The command layer's own minimal query parameters: a bare row limit.

use vstd::prelude::*;

verus! {

/// A row limit for a fetch, and nothing else.
#[derive(Debug, Clone)]
pub struct QueryParams {
    limit: usize,
}

impl QueryParams {
    /// The row limit.
    pub closed spec fn spec_limit(self) -> usize {
        self.limit
    }

    /// The row limit.
    pub fn limit(&self) -> (n: usize)
        ensures
            n == self.spec_limit(),
    {
        self.limit
    }
}

impl Default for QueryParams {
    /// At most a hundred rows.
    fn default() -> (q: QueryParams)
        ensures
            q.spec_limit() == 100,
    {
        QueryParams { limit: 100 }
    }
}

} // verus!
