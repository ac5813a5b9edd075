use vstd::prelude::*;

verus! {

use std::sync::Arc;

use crate::healthy_set::HealthySet;
use crate::select_server::error::Error;
use crate::select_server::request::Request;
use crate::select_server::response::Response;
use crate::select_server::select_server::SelectServer;
use crate::select_server_service::random_select_server_service::random_below;

/// Random selection over the shared healthy set: each call independently
/// draws one entry of the current snapshot.
pub struct RandomSelectServer {
    target_servers: Arc<HealthySet>,
}

/// The random choice itself: over a non-empty snapshot some entry is
/// returned — which one is up to the generator, so only membership is
/// promised; an empty snapshot means no target is live.
pub fn select_random(snapshot: &Vec<String>) -> (r: Result<Response, Error>)
    ensures
        snapshot@.len() == 0 ==> (r matches Err(e) && e == Error::NoOneIsAlive),
        snapshot@.len() > 0 ==> (r matches Ok(resp) && snapshot.deep_view().contains(resp.server@)),
{
    if snapshot.len() == 0 {
        return Err(Error::NoOneIsAlive);
    }
    let index = random_below(snapshot.len());
    let r = Ok(Response { server: snapshot[index].clone() });
    proof {
        assert(snapshot.deep_view()[index as int] == snapshot@[index as int]@);
    }
    r
}

impl RandomSelectServer {
    /// A random selector over `target_servers`.
    pub fn new(target_servers: Arc<HealthySet>) -> (s: Self)
        ensures
            s.configured() == target_servers.configured(),
    {
        RandomSelectServer { target_servers }
    }
}

impl SelectServer for RandomSelectServer {
    closed spec fn configured(&self) -> Seq<Seq<char>> {
        self.target_servers.configured()
    }

    fn execute(&self, _request: Request) -> (r: Result<Response, Error>) {
        let snapshot = self.target_servers.snapshot();
        select_random(&snapshot)
    }
}

} // verus!
