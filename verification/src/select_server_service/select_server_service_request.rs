use vstd::prelude::*;

verus! {

/// A selection request; selection takes no per-request input.
#[derive(Debug, Clone)]
pub struct SelectServerServiceRequest {}

} // verus!
