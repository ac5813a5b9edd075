use vstd::prelude::*;

verus! {

use std::sync::Arc;

use crate::healthy_set::HealthySet;
use crate::select_server_service::select_server_service::SelectServerService;
use crate::select_server_service::select_server_service_error::SelectServerServiceError;
use crate::select_server_service::select_server_service_request::SelectServerServiceRequest;
use crate::select_server_service::select_server_service_response::SelectServerServiceResponse;

/// Relies on rand::random_range over `0..len`: the thread-local generator
/// draws an index that always lies below `len`; the range must not be
/// empty.
#[verifier::external_body]
pub(crate) fn random_below(len: usize) -> (r: usize)
    requires
        len > 0,
    ensures
        r < len,
{
    rand::random_range(0..len)
}

/// Random selection over the shared healthy set: each call independently
/// draws one entry of the current snapshot.
pub struct RandomSelectServerService {
    target_servers: Arc<HealthySet>,
}

/// The random choice itself: over a non-empty snapshot some entry is
/// returned — which one is up to the generator, so only membership is
/// promised; an empty snapshot means no target is live.
pub fn select_random(snapshot: &Vec<String>) -> (r: Result<
    SelectServerServiceResponse,
    SelectServerServiceError,
>)
    ensures
        snapshot@.len() == 0 ==> (r matches Err(e) && e == SelectServerServiceError::NoOneIsAlive),
        snapshot@.len() > 0 ==> (r matches Ok(resp) && snapshot.deep_view().contains(resp.server@)),
{
    if snapshot.len() == 0 {
        return Err(SelectServerServiceError::NoOneIsAlive);
    }
    let index = random_below(snapshot.len());
    let r = Ok(SelectServerServiceResponse { server: snapshot[index].clone() });
    proof {
        assert(snapshot.deep_view()[index as int] == snapshot@[index as int]@);
    }
    r
}

impl RandomSelectServerService {
    /// A random selector over `target_servers`.
    pub fn new(target_servers: Arc<HealthySet>) -> (s: Self)
        ensures
            s.configured() == target_servers.configured(),
    {
        RandomSelectServerService { target_servers }
    }
}

impl SelectServerService for RandomSelectServerService {
    closed spec fn configured(&self) -> Seq<Seq<char>> {
        self.target_servers.configured()
    }

    fn execute(&self, _request: SelectServerServiceRequest) -> (r: Result<
        SelectServerServiceResponse,
        SelectServerServiceError,
    >) {
        let snapshot = self.target_servers.snapshot();
        select_random(&snapshot)
    }
}

} // verus!
