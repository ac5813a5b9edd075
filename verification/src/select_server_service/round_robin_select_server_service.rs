use vstd::prelude::*;

verus! {

use std::sync::Arc;
use vstd::arithmetic::div_mod::{
    lemma_fundamental_div_mod,
    lemma_fundamental_div_mod_converse_mod,
    lemma_mod_bound,
};
use vstd::rwlock::RwLock;

use crate::healthy_set::HealthySet;
use crate::select_server_service::select_server_service::SelectServerService;
use crate::select_server_service::select_server_service_error::SelectServerServiceError;
use crate::select_server_service::select_server_service_request::SelectServerServiceRequest;
use crate::select_server_service::select_server_service_response::SelectServerServiceResponse;

/// Round-robin selection over the shared healthy set: a shared counter is
/// fetched and incremented on every successful selection, and the counter
/// taken modulo the snapshot length picks the target.
pub struct RoundRobinSelectServerService {
    target_servers: Arc<HealthySet>,
    current_server_index: RwLock<usize, spec_fn(usize) -> bool>,
}

impl RoundRobinSelectServerService {
    #[verifier::type_invariant]
    spec fn wf(&self) -> bool {
        forall|v: usize| #[trigger] self.current_server_index.inv(v)
    }
}

/// The round-robin choice itself: over a non-empty snapshot the counter
/// value `counter` picks entry `counter % len`; an empty snapshot means no
/// target is live.
pub fn select_round_robin(snapshot: &Vec<String>, counter: usize) -> (r: Result<
    SelectServerServiceResponse,
    SelectServerServiceError,
>)
    ensures
        snapshot@.len() == 0 ==> (r matches Err(e) && e == SelectServerServiceError::NoOneIsAlive),
        snapshot@.len() > 0 ==> (r matches Ok(resp) && resp.server@ == snapshot.deep_view()[
            counter as int % snapshot@.len() as int
        ]),
{
    if snapshot.len() == 0 {
        return Err(SelectServerServiceError::NoOneIsAlive);
    }
    let index = counter % snapshot.len();
    Ok(SelectServerServiceResponse { server: snapshot[index].clone() })
}

impl RoundRobinSelectServerService {
    /// A round-robin selector over `target_servers`, with its counter at 0.
    pub fn new(target_servers: Arc<HealthySet>) -> (s: Self)
        ensures
            s.configured() == target_servers.configured(),
    {
        let ghost pred = |v: usize| true;
        RoundRobinSelectServerService {
            target_servers,
            current_server_index: RwLock::new(0, Ghost(pred)),
        }
    }

    /// Fetches the shared counter and advances it by one, wrapping at the
    /// counter width; the pre-increment value is returned.
    fn next_counter(&self) -> usize {
        proof {
            use_type_invariant(self);
        }
        let (counter, write_handle) = self.current_server_index.acquire_write();
        let next: usize = if counter == usize::MAX {
            0
        } else {
            counter + 1
        };
        write_handle.release_write(next);
        counter
    }
}

impl SelectServerService for RoundRobinSelectServerService {
    closed spec fn configured(&self) -> Seq<Seq<char>> {
        self.target_servers.configured()
    }

    fn execute(&self, _request: SelectServerServiceRequest) -> (r: Result<
        SelectServerServiceResponse,
        SelectServerServiceError,
    >) {
        let snapshot = self.target_servers.snapshot();
        if snapshot.len() == 0 {
            return Err(SelectServerServiceError::NoOneIsAlive);
        }
        let counter = self.next_counter();
        let r = select_round_robin(&snapshot, counter);
        proof {
            let len = snapshot@.len() as int;
            lemma_mod_bound(counter as int, len);
        }
        r
    }
}

/// The selections of one full round over a stable snapshot: the `j`-th of
/// `n` consecutive selections is made with counter `k + j`, so it returns
/// entry `(k + j) % n` of the snapshot.
pub open spec fn round_robin_round(snapshot: Seq<Seq<char>>, k: int) -> Seq<Seq<char>> {
    Seq::new(snapshot.len(), |j: int| snapshot[(k + j) % (snapshot.len() as int)])
}

/// One full round of `n` consecutive selections over a stable snapshot of
/// size `n` returns the snapshot itself, rotated to start at entry
/// `k % n`: every entry is returned exactly once, in snapshot order. (An
/// executable counter that wraps around inside such a window of `n`
/// selections steps outside this statement; the wrap is reachable only
/// after the counter exhausts its whole width.)
pub proof fn lemma_round_robin_round_is_rotation(snapshot: Seq<Seq<char>>, k: int)
    requires
        0 < snapshot.len(),
        0 <= k,
    ensures
        round_robin_round(snapshot, k) =~= snapshot.subrange(
            k % (snapshot.len() as int),
            snapshot.len() as int,
        ) + snapshot.subrange(0, k % (snapshot.len() as int)),
{
    let n = snapshot.len() as int;
    lemma_mod_bound(k, n);
    lemma_fundamental_div_mod(k, n);
    let r = k % n;
    let rotated = snapshot.subrange(r, n) + snapshot.subrange(0, r);
    assert forall|j: int| 0 <= j < n implies round_robin_round(snapshot, k)[j] == rotated[j] by {
        let q = if r + j < n {
            k / n
        } else {
            k / n + 1
        };
        let target = if r + j < n {
            r + j
        } else {
            r + j - n
        };
        assert(k + j == q * n + target) by (nonlinear_arith)
            requires
                k == n * (k / n) + r,
                (r + j < n ==> q == k / n && target == r + j),
                (r + j >= n ==> q == k / n + 1 && target == r + j - n),
        ;
        lemma_fundamental_div_mod_converse_mod(k + j, n, q, target);
        assert((k + j) % n == target);
    }
}

} // verus!
