use vstd::prelude::*;

verus! {

use std::sync::Arc;
use vstd::string::StringExecFns;

use crate::healthy_set::{HealthySet, all_configured};
use crate::http_client::error::Error;

broadcast use vstd::std_specs::vec::vec_clone_deep_view_proof;

/// Why a target is excluded from the healthy set this cycle.
#[derive(Debug, Clone, PartialEq, Eq, Structural)]
pub enum ProbeFailure {
    NonOkStatus(u16),
    NetworkError,
    Timeout,
}

/// The outcome of probing one target in one cycle; transient, never
/// persisted.
#[derive(Debug, Clone, PartialEq, Eq, Structural)]
pub enum ProbeOutcome {
    Healthy,
    Unhealthy(ProbeFailure),
}

impl ProbeOutcome {
    /// Whether this outcome keeps the target in the healthy set.
    pub open spec fn is_healthy_spec(self) -> bool {
        self is Healthy
    }

    /// Whether this outcome keeps the target in the healthy set.
    pub fn is_healthy(&self) -> (b: bool)
        ensures
            b == self.is_healthy_spec(),
    {
        matches!(self, ProbeOutcome::Healthy)
    }
}

/// Classifies one probe's result: exactly status 200 is healthy; any other
/// status, a transport timeout, or any other transport error marks the
/// target unhealthy with the matching reason.
pub fn classify_probe(result: &Result<u16, Error>) -> (o: ProbeOutcome)
    ensures
        o is Healthy <==> (result matches Ok(s) && s == 200),
        result matches Ok(s) ==> (s == 200 ==> o == ProbeOutcome::Healthy) && (s != 200 ==> o
            == ProbeOutcome::Unhealthy(ProbeFailure::NonOkStatus(*s))),
        result matches Err(e) ==> (e is Timeout ==> o == ProbeOutcome::Unhealthy(
            ProbeFailure::Timeout,
        )) && (!(e is Timeout) ==> o == ProbeOutcome::Unhealthy(ProbeFailure::NetworkError)),
{
    match result {
        Ok(status) => if *status == 200 {
            ProbeOutcome::Healthy
        } else {
            ProbeOutcome::Unhealthy(ProbeFailure::NonOkStatus(*status))
        },
        Err(Error::Timeout) => ProbeOutcome::Unhealthy(ProbeFailure::Timeout),
        Err(Error::Network(_)) => ProbeOutcome::Unhealthy(ProbeFailure::NetworkError),
        Err(Error::InvalidRequest(_)) => ProbeOutcome::Unhealthy(ProbeFailure::NetworkError),
    }
}

/// The servers whose probe came back healthy this cycle, in configured
/// order.
pub open spec fn healthy_after_cycle_spec(
    servers: Seq<Seq<char>>,
    outcomes: Seq<ProbeOutcome>,
) -> Seq<Seq<char>>
    decreases servers.len(),
{
    if servers.len() == 0 {
        Seq::empty()
    } else {
        let prefix = healthy_after_cycle_spec(servers.drop_last(), outcomes.drop_last());
        if outcomes[servers.len() - 1] is Healthy {
            prefix.push(servers.last())
        } else {
            prefix
        }
    }
}

/// Builds the list of servers whose cycle outcome was healthy, preserving
/// configured order; every entry of the result is one of `servers`.
pub fn healthy_after_cycle(servers: &Vec<String>, outcomes: &Vec<ProbeOutcome>) -> (r: Vec<
    String,
>)
    requires
        servers.deep_view().len() == outcomes@.len(),
    ensures
        r.deep_view() == healthy_after_cycle_spec(servers.deep_view(), outcomes@),
        all_configured(r.deep_view(), servers.deep_view()),
{
    let ghost all = servers.deep_view();
    let ghost outs = outcomes@;
    let mut r: Vec<String> = Vec::new();
    let mut i: usize = 0;
    while i < servers.len()
        invariant
            0 <= i <= servers.len(),
            all == servers.deep_view(),
            outs == outcomes@,
            all.len() == servers@.len(),
            outs.len() == all.len(),
            r.deep_view() == healthy_after_cycle_spec(all.take(i as int), outs.take(i as int)),
            all_configured(r.deep_view(), all),
        decreases servers.len() - i,
    {
        let ghost longer_servers = all.take(i as int + 1);
        let ghost longer_outs = outs.take(i as int + 1);
        proof {
            assert(longer_servers.drop_last() =~= all.take(i as int));
            assert(longer_outs.drop_last() =~= outs.take(i as int));
            assert(longer_servers.last() == all[i as int]);
            assert(longer_outs[longer_servers.len() - 1] == outs[i as int]);
        }
        if outcomes[i].is_healthy() {
            r.push(servers[i].clone());
            proof {
                assert(servers.deep_view()[i as int] == servers@[i as int]@);
                assert(r.deep_view() =~= healthy_after_cycle_spec(longer_servers, longer_outs));
                assert forall|t: int| 0 <= t < r.deep_view().len() implies all.contains(
                    #[trigger] r.deep_view()[t],
                ) by {
                    if t == r.deep_view().len() - 1 {
                        assert(r.deep_view()[t] == all[i as int]);
                    }
                }
            }
        }
        i = i + 1;
    }
    proof {
        assert(all.take(servers@.len() as int) =~= all);
        assert(outs.take(servers@.len() as int) =~= outs);
    }
    r
}

/// Relies on Arc::clone: the returned handle shares the source's
/// allocation, so it carries the very same healthy set.
#[verifier::external_body]
fn share_healthy_set(set: &Arc<HealthySet>) -> (r: Arc<HealthySet>)
    ensures
        r == *set,
{
    Arc::clone(set)
}

/// The periodic health checker's state: the immutable configured target
/// list, the shared healthy set it maintains, the path probed on each
/// target, and the tick interval. The probing itself is plain HTTP done by
/// the surrounding runtime; each cycle's outcomes come back through
/// [`TimedBackgroundChecker::apply_cycle`], which installs the new healthy
/// list atomically.
pub struct TimedBackgroundChecker {
    all_servers: Vec<String>,
    healthy_servers: Arc<HealthySet>,
    health_endpoint: String,
    polling_interval_seconds: u64,
}

impl TimedBackgroundChecker {
    /// The configured target list, fixed at construction.
    pub closed spec fn configured(&self) -> Seq<Seq<char>> {
        self.all_servers.deep_view()
    }

    /// The path appended to each target for probing.
    pub closed spec fn health_endpoint_spec(&self) -> Seq<char> {
        self.health_endpoint@
    }

    /// The tick interval, in seconds.
    pub closed spec fn polling_interval_spec(&self) -> u64 {
        self.polling_interval_seconds
    }

    #[verifier::type_invariant]
    spec fn wf(&self) -> bool {
        self.healthy_servers.configured() == self.all_servers.deep_view()
    }

    /// A checker over `servers`, probing `server + health_endpoint` every
    /// `polling_interval_seconds`; the healthy set starts out holding every
    /// configured target.
    pub fn new(
        servers: Vec<String>,
        health_endpoint: String,
        polling_interval_seconds: u64,
    ) -> (c: Self)
        ensures
            c.configured() == servers.deep_view(),
            c.health_endpoint_spec() == health_endpoint@,
            c.polling_interval_spec() == polling_interval_seconds,
    {
        let initial = servers.clone();
        let healthy_servers = Arc::new(HealthySet::new(initial));
        TimedBackgroundChecker {
            all_servers: servers,
            healthy_servers,
            health_endpoint,
            polling_interval_seconds,
        }
    }

    /// The shared healthy set, handed to the selectors.
    pub fn get_healthy_servers(&self) -> (s: Arc<HealthySet>)
        ensures
            s.configured() == self.configured(),
    {
        proof {
            use_type_invariant(self);
        }
        share_healthy_set(&self.healthy_servers)
    }

    /// The configured target list.
    pub fn all_servers(&self) -> (r: &Vec<String>)
        ensures
            r.deep_view() == self.configured(),
    {
        &self.all_servers
    }

    /// How many targets are configured.
    pub fn server_count(&self) -> (n: usize)
        ensures
            n == self.configured().len(),
    {
        self.all_servers.len()
    }

    /// The tick interval, in seconds.
    pub fn polling_interval_seconds(&self) -> (n: u64)
        ensures
            n == self.polling_interval_spec(),
    {
        self.polling_interval_seconds
    }

    /// The URL probed for the target at `index`: the target's base URL with
    /// the health path appended.
    pub fn probe_url(&self, index: usize) -> (u: String)
        requires
            index < self.configured().len(),
        ensures
            u@ == self.configured()[index as int] + self.health_endpoint_spec(),
    {
        let base = self.all_servers[index].clone();
        proof {
            assert(self.all_servers.deep_view()[index as int] == self.all_servers@[index as int]@);
        }
        base.concat(self.health_endpoint.as_str())
    }

    /// Finishes one probe cycle: the targets whose outcome was healthy, in
    /// configured order, atomically replace the shared healthy set's
    /// membership, and that same list is returned. The healthy set can only
    /// shrink toward the configured list, never grow beyond it.
    pub fn apply_cycle(&self, outcomes: &Vec<ProbeOutcome>) -> (stored: Vec<String>)
        requires
            outcomes@.len() == self.configured().len(),
        ensures
            stored.deep_view() == healthy_after_cycle_spec(self.configured(), outcomes@),
            all_configured(stored.deep_view(), self.configured()),
    {
        proof {
            use_type_invariant(self);
        }
        let new_list = healthy_after_cycle(&self.all_servers, outcomes);
        let stored = new_list.clone();
        self.healthy_servers.replace(new_list);
        stored
    }
}

} // verus!
