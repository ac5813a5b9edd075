use vstd::prelude::*;

verus! {

/// Body of the balancer's own liveness endpoint, answered unconditionally
/// with status 200; it says nothing about upstream health.
pub fn health_body() -> (r: &'static str)
    ensures
        r@ == "PONG"@,
{
    "PONG"
}

} // verus!
