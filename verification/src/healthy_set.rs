use vstd::prelude::*;

verus! {

use vstd::rwlock::RwLock;

broadcast use vstd::std_specs::vec::vec_clone_deep_view_proof;

/// Every entry of `servers` is one of the targets in `configured`.
pub open spec fn all_configured(servers: Seq<Seq<char>>, configured: Seq<Seq<char>>) -> bool {
    forall|i: int| 0 <= i < servers.len() ==> configured.contains(#[trigger] servers[i])
}

/// The abstract effect of [`HealthySet::replace`] on the stored list: the
/// argument becomes the whole content, whatever was stored before.
pub open spec fn replace_spec(
    current: Seq<Seq<char>>,
    new_servers: Seq<Seq<char>>,
) -> Seq<Seq<char>> {
    new_servers
}

/// Replacing the membership with `x` and immediately replacing it with `x`
/// again leaves the same content as the single replacement: the second
/// write is unobservable to any reader.
pub proof fn lemma_replace_idempotent(current: Seq<Seq<char>>, x: Seq<Seq<char>>)
    ensures
        replace_spec(replace_spec(current, x), x) == replace_spec(current, x),
{
}

/// The shared set of live upstream base URLs: a reader-writer lock over the
/// current list. Readers take whole-list snapshots and the health checker
/// installs whole-list replacements; the lock's invariant pins every stored
/// list to the configured targets, so every snapshot ever taken is drawn
/// from them.
pub struct HealthySet {
    configured: Ghost<Seq<Seq<char>>>,
    servers: RwLock<Vec<String>, spec_fn(Vec<String>) -> bool>,
}

impl HealthySet {
    /// The configured target list this set was created over.
    pub closed spec fn configured(&self) -> Seq<Seq<char>> {
        self.configured@
    }

    #[verifier::type_invariant]
    spec fn wf(&self) -> bool {
        forall|v: Vec<String>| #[trigger]
            self.servers.inv(v) <==> all_configured(v.deep_view(), self.configured@)
    }

    /// Creates the set with every configured target assumed live, until the
    /// first probe cycle says otherwise.
    pub fn new(configured: Vec<String>) -> (s: Self)
        ensures
            s.configured() == configured.deep_view(),
    {
        let ghost cfg = configured.deep_view();
        let ghost pred = |v: Vec<String>| all_configured(v.deep_view(), cfg);
        proof {
            assert forall|i: int| 0 <= i < cfg.len() implies cfg.contains(#[trigger] cfg[i]) by {
                assert(0 <= i < cfg.len() && cfg[i] == cfg[i]);
            }
        }
        HealthySet { configured: Ghost(cfg), servers: RwLock::new(configured, Ghost(pred)) }
    }

    /// A consistent point-in-time copy of the live list, stable in the
    /// caller's hands; every entry is one of the configured targets,
    /// whichever cycle last replaced the membership.
    pub fn snapshot(&self) -> (snap: Vec<String>)
        ensures
            all_configured(snap.deep_view(), self.configured()),
    {
        proof {
            use_type_invariant(self);
        }
        let handle = self.servers.acquire_read();
        let snap = handle.borrow().clone();
        handle.release_read();
        snap
    }

    /// Atomically substitutes the membership: the argument becomes the whole
    /// content, exactly as [`replace_spec`] states, so repeating a
    /// replacement with an equal list changes nothing
    /// ([`lemma_replace_idempotent`]). Readers see either the old or the new
    /// list, never a partial one.
    pub fn replace(&self, new_servers: Vec<String>)
        requires
            all_configured(new_servers.deep_view(), self.configured()),
    {
        proof {
            use_type_invariant(self);
        }
        let (_previous, write_handle) = self.servers.acquire_write();
        write_handle.release_write(new_servers);
    }
}

} // verus!
