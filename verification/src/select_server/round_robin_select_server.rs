use vstd::prelude::*;

verus! {

use std::sync::Arc;
use vstd::arithmetic::div_mod::lemma_mod_bound;
use vstd::rwlock::RwLock;

use crate::healthy_set::HealthySet;
use crate::select_server::error::Error;
use crate::select_server::request::Request;
use crate::select_server::response::Response;
use crate::select_server::select_server::SelectServer;

/// Round-robin selection over the shared healthy set: a shared counter is
/// fetched and incremented on every successful selection, and the counter
/// taken modulo the snapshot length picks the target.
pub struct RoundRobinSelectServer {
    target_servers: Arc<HealthySet>,
    current_server_index: RwLock<usize, spec_fn(usize) -> bool>,
}

/// The round-robin choice itself: over a non-empty snapshot the counter
/// value `counter` picks entry `counter % len`; an empty snapshot means no
/// target is live.
pub fn select_round_robin(snapshot: &Vec<String>, counter: usize) -> (r: Result<Response, Error>)
    ensures
        snapshot@.len() == 0 ==> (r matches Err(e) && e == Error::NoOneIsAlive),
        snapshot@.len() > 0 ==> (r matches Ok(resp) && resp.server@ == snapshot.deep_view()[
            counter as int % snapshot@.len() as int
        ]),
{
    if snapshot.len() == 0 {
        return Err(Error::NoOneIsAlive);
    }
    let index = counter % snapshot.len();
    Ok(Response { server: snapshot[index].clone() })
}

impl RoundRobinSelectServer {
    #[verifier::type_invariant]
    spec fn wf(&self) -> bool {
        forall|v: usize| #[trigger] self.current_server_index.inv(v)
    }

    /// A round-robin selector over `target_servers`, with its counter at 0.
    pub fn new(target_servers: Arc<HealthySet>) -> (s: Self)
        ensures
            s.configured() == target_servers.configured(),
    {
        let ghost pred = |v: usize| true;
        RoundRobinSelectServer {
            target_servers,
            current_server_index: RwLock::new(0, Ghost(pred)),
        }
    }

    /// Fetches the shared counter and advances it by one, wrapping at the
    /// counter width; the pre-increment value is returned.
    fn next_counter(&self) -> usize {
        proof {
            use_type_invariant(self);
        }
        let (counter, write_handle) = self.current_server_index.acquire_write();
        let next: usize = if counter == usize::MAX {
            0
        } else {
            counter + 1
        };
        write_handle.release_write(next);
        counter
    }
}

impl SelectServer for RoundRobinSelectServer {
    closed spec fn configured(&self) -> Seq<Seq<char>> {
        self.target_servers.configured()
    }

    fn execute(&self, _request: Request) -> (r: Result<Response, Error>) {
        let snapshot = self.target_servers.snapshot();
        if snapshot.len() == 0 {
            return Err(Error::NoOneIsAlive);
        }
        let counter = self.next_counter();
        let r = select_round_robin(&snapshot, counter);
        proof {
            lemma_mod_bound(counter as int, snapshot@.len() as int);
        }
        r
    }
}

} // verus!
