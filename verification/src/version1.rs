//! Strategy B — lock-free map of cloned windows: each call reads a snapshot
//! of the key's window, prunes and decides on a private clone, and writes the
//! clone back unconditionally.
//!
//! Caution: the read-decide-write sequence has no atomicity. When two calls
//! for the same key interleave, the later write silently discards what the
//! earlier one recorded, so the quota can be over-admitted. This is a
//! deliberate, documented trade-off of this strategy — it is only an exact
//! admission bound when no key is used from more than one caller at a time —
//! and must not be "fixed"; it is the point of comparison with the locked
//! strategies. The per-call decision itself is still exactly the shared
//! window step, on whatever snapshot the read returned.

use vstd::prelude::*;

use crossbeam_skiplist::SkipMap;

use std::collections::VecDeque;

use crate::ClientKey;
use crate::Timestamp;
use crate::skipmap::entry_value;
use crate::skipmap::skipmap_get;
use crate::skipmap::skipmap_insert;
use crate::skipmap::skipmap_new;
use crate::window::admit_window;

verus! {

/// An element-for-element copy of a window, the private clone a call works
/// on.
fn clone_window(w: &VecDeque<Timestamp>) -> (r: VecDeque<Timestamp>)
    ensures
        r@ == w@,
{
    let r = w.clone();
    proof {
        assert forall|i: int| 0 <= i < w@.len() implies r@[i] == w@[i] by {
            assert(cloned::<Timestamp>(w@[i], r@[i]));
        }
        assert(r@ =~= w@);
    }
    r
}

/// A sliding-window rate limiter over a lock-free map of plain windows, with
/// no synchronisation between a call's read of a window and its write back.
/// The registry grows with the set of keys ever seen: entries are never
/// removed, an accepted unbounded-growth trade-off.
pub struct RateLimiter1 {
    requests: SkipMap<ClientKey, VecDeque<Timestamp>>,
}

impl RateLimiter1 {
    /// A limiter with an empty registry: no key has any prior state.
    pub fn new() -> Self {
        RateLimiter1 { requests: skipmap_new() }
    }

    /// Admit or reject a request from `src_ip` at `timestamp`: clone the
    /// window the map currently holds for the key (empty if none), run the
    /// shared window step on the clone, and store the clone back, replacing
    /// whatever is present. The decision is exactly the shared step's
    /// decision on the snapshot; which snapshot a concurrent caller gets is
    /// not promised.
    pub fn ratelimit1(&self, src_ip: ClientKey, timestamp: Timestamp) -> bool {
        let snapshot = skipmap_get(&self.requests, src_ip);
        let mut current_requests = match snapshot {
            Some(entry) => clone_window(entry_value(&entry)),
            None => VecDeque::new(),
        };
        let admitted = admit_window(&mut current_requests, timestamp);
        skipmap_insert(&self.requests, src_ip, current_requests);
        admitted
    }

    /// The shared registry itself, for callers that inspect what a run of
    /// calls left behind.
    pub fn requests(&self) -> &SkipMap<ClientKey, VecDeque<Timestamp>> {
        &self.requests
    }
}

} // verus!
