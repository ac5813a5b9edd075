use vstd::prelude::*;

verus! {

/// The selected upstream's base URL.
#[derive(Debug, Clone)]
pub struct SelectServerServiceResponse {
    pub server: String,
}

} // verus!
