//! The quick-reply endpoints' own logic: which replies a listing shows.
use vstd::prelude::*;

verus! {

/// Whether disabled quick replies are listed too.
pub struct ListQuery {
    pub all: Option<bool>,
}

impl ListQuery {
    /// Whether only enabled replies are listed: unless `all` is set.
    pub fn only_enabled(&self) -> (r: bool)
        ensures
            r == !(self.all == Some(true)),
    {
        match self.all {
            Some(a) => !a,
            None => true,
        }
    }
}

} // verus!
