use vstd::prelude::*;

verus! {

/// The selected upstream's base URL.
#[derive(Debug, Clone)]
pub struct Response {
    pub server: String,
}

} // verus!
