//! Strategy C — lock-free map of per-key locked windows: the registry's
//! structural operations are lock-free, and each window sits behind its own
//! exclusive lock. Calls on different keys never contend; calls on one key
//! serialise on that key's lock alone, so per-key admission is as exact as
//! the coarse lock's while distinct keys proceed in parallel. This is the
//! reference-correct concurrent design.

use vstd::prelude::*;

use vstd::rwlock::RwLock;
use vstd::rwlock::RwLockPredicate;

use crossbeam_skiplist::SkipMap;

use std::collections::VecDeque;

use crate::ClientKey;
use crate::MAX_REQUESTS;
use crate::Timestamp;
use crate::skipmap::entry_value;
use crate::skipmap::skipmap_get;
use crate::skipmap::skipmap_get_or_insert;
use crate::skipmap::skipmap_new;
use crate::window::admit_window;

verus! {

/// The invariant each per-key lock maintains: the window it guards stays
/// within quota.
pub struct WindowPred {}

impl RwLockPredicate<VecDeque<Timestamp>> for WindowPred {
    open spec fn inv(self, w: VecDeque<Timestamp>) -> bool {
        w@.len() <= MAX_REQUESTS
    }
}

/// A fresh, empty, lock-guarded window, what a key's first touch inserts.
fn new_window_lock() -> RwLock<VecDeque<Timestamp>, WindowPred> {
    RwLock::new(VecDeque::new(), Ghost(WindowPred {}))
}

/// A sliding-window rate limiter over a lock-free map whose values are
/// individually lock-guarded windows. The registry grows with the set of
/// keys ever seen: entries are never removed, an accepted unbounded-growth
/// trade-off.
pub struct RateLimiter2 {
    requests: SkipMap<ClientKey, RwLock<VecDeque<Timestamp>, WindowPred>>,
}

impl RateLimiter2 {
    /// A limiter with an empty registry: no key has any prior state.
    pub fn new() -> Self {
        RateLimiter2 { requests: skipmap_new() }
    }

    /// Admit or reject a request from `src_ip` at `timestamp`: find or
    /// insert the key's lock-guarded window without blocking other keys,
    /// then run the shared window step while holding that key's lock, so
    /// same-key calls are fully serialised. The lock used here cannot be
    /// left poisoned, so the per-key fail-closed recovery that a poisonable
    /// lock would need does not arise.
    pub fn ratelimit2(&self, src_ip: ClientKey, timestamp: Timestamp) -> bool {
        // A fresh lock is built only when the key looks absent: the common
        // call finds its entry without constructing anything.
        let entry = match skipmap_get(&self.requests, src_ip) {
            Some(e) => e,
            None => skipmap_get_or_insert(&self.requests, src_ip, new_window_lock()),
        };
        let lock = entry_value(&entry);
        let (mut window, handle) = lock.acquire_write();
        let admitted = admit_window(&mut window, timestamp);
        handle.release_write(window);
        admitted
    }

    /// How many timestamps the key's window currently holds, read under the
    /// key's lock: never more than the quota.
    pub fn window_len(&self, src_ip: ClientKey) -> (n: usize)
        ensures
            n <= MAX_REQUESTS,
    {
        match skipmap_get(&self.requests, src_ip) {
            None => 0,
            Some(entry) => {
                let lock = entry_value(&entry);
                let handle = lock.acquire_read();
                let n = handle.borrow().len();
                handle.release_read();
                n
            },
        }
    }
}

} // verus!
