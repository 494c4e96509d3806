//! Request bodies of the agent-flow endpoints.
use vstd::prelude::*;

verus! {

/// The flow configuration to save (and select).
pub struct UpdateFlowBody<C> {
    pub config: C,
}

/// The body that selects a flow by id.
pub struct SelectFlowBody {
    pub id: String,
}

} // verus!
