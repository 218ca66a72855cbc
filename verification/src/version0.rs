//! Strategy A — coarse lock: one exclusive lock guards the whole registry,
//! a map from client key to window. Every call serialises against every
//! other, on any key; in exchange the prune-decide-append step is atomic with
//! respect to all other calls, which makes this the simplest correct design.

use vstd::prelude::*;

use vstd::rwlock::RwLock;
use vstd::rwlock::RwLockPredicate;

use std::collections::HashMap;
use std::collections::VecDeque;

use crate::ClientKey;
use crate::MAX_REQUESTS;
use crate::Timestamp;
use crate::window::admit_window;
use crate::window::admits;
use crate::window::lemma_next_window_len;
use crate::window::reg_next;
use crate::window::reg_window;

verus! {

broadcast use vstd::std_specs::hash::group_hash_axioms;

/// The registry as a model value: each stored key mapped to the sequence of
/// timestamps its window holds.
pub open spec fn windows_of(m: Map<ClientKey, VecDeque<Timestamp>>) -> Map<ClientKey, Seq<Timestamp>> {
    Map::new(|k: ClientKey| m.contains_key(k), |k: ClientKey| m[k]@)
}

/// The invariant the registry lock maintains: every stored window is within
/// quota.
pub struct RegistryPred {}

impl RwLockPredicate<HashMap<ClientKey, VecDeque<Timestamp>>> for RegistryPred {
    open spec fn inv(self, m: HashMap<ClientKey, VecDeque<Timestamp>>) -> bool {
        forall|k: ClientKey| #[trigger] m@.contains_key(k) ==> m@[k]@.len() <= MAX_REQUESTS
    }
}

/// One admission decision against the registry: obtain the key's window
/// (empty for a key never seen), prune it, decide, and store the result.
/// Only the touched key's window changes; every other key keeps its window.
pub fn registry_admit(
    m: &mut HashMap<ClientKey, VecDeque<Timestamp>>,
    key: ClientKey,
    now: Timestamp,
) -> (admitted: bool)
    ensures
        admitted == admits(reg_window(windows_of(old(m)@), key), now as int),
        windows_of(final(m)@) == reg_next(windows_of(old(m)@), key, now),
{
    let mut window = match m.remove(&key) {
        Some(w) => w,
        None => VecDeque::new(),
    };
    let admitted = admit_window(&mut window, now);
    m.insert(key, window);
    proof {
        assert(windows_of(m@) =~= reg_next(windows_of(old(m)@), key, now));
    }
    admitted
}

/// A sliding-window rate limiter whose registry sits behind one exclusive
/// lock. The registry grows with the set of keys ever seen: entries are never
/// removed, an accepted unbounded-growth trade-off.
pub struct RateLimiter0 {
    requests: RwLock<HashMap<ClientKey, VecDeque<Timestamp>>, RegistryPred>,
}

impl RateLimiter0 {
    /// A limiter with an empty registry: no key has any prior state.
    pub fn new() -> Self {
        RateLimiter0 { requests: RwLock::new(HashMap::new(), Ghost(RegistryPred {})) }
    }

    /// Admit or reject a request from `src_ip` at `timestamp`, holding the
    /// registry's write lock for the whole prune-decide-append step, on all
    /// keys at once. The lock used here cannot be left poisoned, so the
    /// fail-closed recovery that a poisonable lock would need does not arise.
    pub fn ratelimit0(&self, src_ip: ClientKey, timestamp: Timestamp) -> bool {
        let (mut requests, handle) = self.requests.acquire_write();
        let ghost before = requests@;
        let admitted = registry_admit(&mut requests, src_ip, timestamp);
        proof {
            lemma_next_window_len(reg_window(windows_of(before), src_ip), timestamp);
            assert forall|k: ClientKey| #[trigger] requests@.contains_key(k) implies
                requests@[k]@.len() <= MAX_REQUESTS by {
                let model = windows_of(requests@);
                assert(model.contains_key(k));
                assert(requests@[k]@ == model[k]);
                if k == src_ip {
                    if before.contains_key(src_ip) {
                        assert(before[src_ip]@.len() <= MAX_REQUESTS);
                        assert(reg_window(windows_of(before), src_ip) == before[src_ip]@);
                    } else {
                        assert(reg_window(windows_of(before), src_ip) =~= Seq::<Timestamp>::empty());
                    }
                } else {
                    assert(model[k] == windows_of(before)[k]);
                    assert(before.contains_key(k));
                    assert(before[k]@.len() <= MAX_REQUESTS);
                }
            }
        }
        handle.release_write(requests);
        admitted
    }
}

} // verus!
