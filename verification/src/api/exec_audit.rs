//! The execution-audit endpoints' own logic: the length of a listing.
use vstd::prelude::*;

verus! {

/// Filters of the audit log (all optional).
pub struct AuditQuery {
    pub limit: Option<usize>,
    pub source: Option<String>,
    pub risk: Option<String>,
}

impl AuditQuery {
    /// The number of entries listed: 100 unless the query names another.
    pub fn limit_or_default(&self) -> (r: usize)
        ensures
            r == match self.limit {
                Some(l) => l,
                None => 100usize,
            },
    {
        match self.limit {
            Some(l) => l,
            None => 100,
        }
    }
}

} // verus!
