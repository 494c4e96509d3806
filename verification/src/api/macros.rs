//! Items of the macro-expansion endpoint.
use vstd::prelude::*;

verus! {

/// A history message that the macros read.
pub struct MacroHistoryItem {
    pub role: String,
    pub content: String,
}

} // verus!
