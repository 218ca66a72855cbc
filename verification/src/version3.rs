//! Strategy D — lock-free map of bounded ring buffers: each key's window is
//! a fixed-capacity lock-free queue of `MAX_REQUESTS` timestamps. While the
//! buffer has room, admission is one push. Once it is full, pruning becomes
//! a drain-and-requeue pass: pop each slot, push back the timestamps still
//! inside the window, and admit only if at least one stale entry fell out.
//!
//! Caution: the buffer's push and pop are individually atomic, but the
//! drain-then-refill pass is not atomic as a whole. A concurrent call on the
//! same key can interleave mid-drain and observe a transiently smaller
//! buffer, so the quota bound is weaker than the per-key lock's, though the
//! race window is far narrower than the cloned-window strategy's. That is
//! this strategy's documented trade-off, not something to "fix" with a lock.

use vstd::prelude::*;

use crossbeam_queue::ArrayQueue;
use crossbeam_skiplist::SkipMap;

use crate::ClientKey;
use crate::MAX_REQUESTS;
use crate::Timestamp;
use crate::skipmap::entry_value;
use crate::skipmap::skipmap_get;
use crate::skipmap::skipmap_get_or_insert;
use crate::skipmap::skipmap_new;
use crate::window::uniform_window;
use crate::window::window_cutoff;
use crate::window::window_cutoff_i64;

verus! {

#[verifier::external_type_specification]
#[verifier::external_body]
#[verifier::reject_recursive_types(T)]
pub struct ExArrayQueue<T>(ArrayQueue<T>);

/// Relies on `ArrayQueue::new`: a new, empty bounded queue of capacity
/// `cap`. `new` panics on a capacity of zero or one too large for its index
/// encoding; the precondition keeps well clear of both.
#[verifier::external_body]
fn queue_new(cap: usize) -> ArrayQueue<Timestamp>
    requires
        0 < cap < usize::MAX / 2,
{
    ArrayQueue::new(cap)
}

/// Relies on `ArrayQueue::is_full`: whether the queue held its full capacity
/// at some moment during the call; concurrent pushes and pops may change
/// that at any time, so nothing further holds of the result.
#[verifier::external_body]
fn queue_is_full(q: &ArrayQueue<Timestamp>) -> bool {
    q.is_full()
}

/// Relies on `ArrayQueue::push`: appends the value at the back, or hands it
/// back when the queue was full; true exactly when the value went in.
#[verifier::external_body]
fn queue_push(q: &ArrayQueue<Timestamp>, t: Timestamp) -> bool {
    q.push(t).is_ok()
}

/// Relies on `ArrayQueue::force_push`: appends the value at the back,
/// displacing and returning the oldest element when the queue was full.
#[verifier::external_body]
fn queue_force_push(q: &ArrayQueue<Timestamp>, t: Timestamp) -> Option<Timestamp> {
    q.force_push(t)
}

/// Relies on `ArrayQueue::pop`: removes and returns the front element, or
/// `None` when the queue was empty at that moment.
#[verifier::external_body]
fn queue_pop(q: &ArrayQueue<Timestamp>) -> Option<Timestamp> {
    q.pop()
}

/// Relies on `ArrayQueue::len`: how many elements the queue held at some
/// moment during the call.
#[verifier::external_body]
fn queue_len(q: &ArrayQueue<Timestamp>) -> usize {
    q.len()
}

/// How many of the drained timestamps still lie inside the window of a call
/// at `now`: the ones the eviction pass pushes back.
pub open spec fn survivor_count(popped: Seq<Timestamp>, now: int) -> nat
    decreases popped.len(),
{
    if popped.len() == 0 {
        0
    } else {
        survivor_count(popped.drop_last(), now) + if popped.last() >= window_cutoff(now) {
            1nat
        } else {
            0nat
        }
    }
}

/// At most everything survives a drain, and something fails to survive
/// exactly when some drained timestamp lies strictly before the cutoff.
pub proof fn lemma_survivor_count(popped: Seq<Timestamp>, now: int)
    ensures
        survivor_count(popped, now) <= popped.len(),
        (survivor_count(popped, now) < popped.len()) == (exists|i: int|
            0 <= i < popped.len() && popped[i] < window_cutoff(now)),
    decreases popped.len(),
{
    if popped.len() > 0 {
        let prefix = popped.drop_last();
        lemma_survivor_count(prefix, now);
        if popped.last() < window_cutoff(now) {
            assert(popped[popped.len() - 1] < window_cutoff(now));
        }
        if survivor_count(prefix, now) < prefix.len() {
            let i = choose|i: int| 0 <= i < prefix.len() && prefix[i] < window_cutoff(now);
            assert(popped[i] < window_cutoff(now));
        }
        if exists|i: int| 0 <= i < popped.len() && popped[i] < window_cutoff(now) {
            let i = choose|i: int| 0 <= i < popped.len() && popped[i] < window_cutoff(now);
            if i < popped.len() - 1 {
                assert(prefix[i] < window_cutoff(now));
            }
        }
    }
}

/// Whether a drained timestamp still lies inside the window of a call at
/// `now`: exactly the ones the eviction pass pushes back onto the buffer.
pub fn still_in_window(ts: Timestamp, now: Timestamp) -> (r: bool)
    ensures
        r == (ts as int >= window_cutoff(now as int)),
{
    ts >= window_cutoff_i64(now)
}

/// The eviction decision on the drained timestamps: admit exactly when more
/// was popped than survives the window — that is, when at least one stale
/// entry was evicted and its slot is free again.
pub fn drain_decide(popped: &Vec<Timestamp>, now: Timestamp) -> (admitted: bool)
    ensures
        admitted == (popped@.len() > survivor_count(popped@, now as int)),
        admitted == (exists|i: int|
            0 <= i < popped@.len() && popped@[i] < window_cutoff(now as int)),
{
    let mut valid_count: usize = 0;
    let mut idx: usize = 0;
    while idx < popped.len()
        invariant
            idx <= popped@.len(),
            valid_count == survivor_count(popped@.take(idx as int), now as int),
            valid_count <= idx,
        decreases popped@.len() - idx,
    {
        proof {
            assert(popped@.take(idx as int + 1).drop_last() =~= popped@.take(idx as int));
            assert(popped@.take(idx as int + 1).last() == popped@[idx as int]);
        }
        if still_in_window(popped[idx], now) {
            valid_count = valid_count + 1;
        }
        idx = idx + 1;
    }
    proof {
        assert(popped@.take(popped@.len() as int) =~= popped@);
        lemma_survivor_count(popped@, now as int);
    }
    popped.len() > valid_count
}

/// A buffer drained at the very instant its entries were admitted evicts
/// nothing, so the eviction decision denies: a full buffer of same-instant
/// admissions rejects the next same-instant call.
pub proof fn lemma_drain_same_instant_keeps_all(t: Timestamp, n: nat)
    ensures
        survivor_count(uniform_window(t, n), t as int) == n,
    decreases n,
{
    if n > 0 {
        lemma_drain_same_instant_keeps_all(t, (n - 1) as nat);
        assert(uniform_window(t, n).drop_last() =~= uniform_window(t, (n - 1) as nat));
    }
}

/// A buffer whose every timestamp lies strictly before the cutoff is evicted
/// wholesale, so the eviction decision admits: once the window has rolled
/// over, a full buffer stops blocking the key.
pub proof fn lemma_drain_expired_evicts_all(popped: Seq<Timestamp>, now: int)
    requires
        forall|i: int| 0 <= i < popped.len() ==> popped[i] < window_cutoff(now),
    ensures
        survivor_count(popped, now) == 0,
    decreases popped.len(),
{
    if popped.len() > 0 {
        let prefix = popped.drop_last();
        assert(forall|i: int| 0 <= i < prefix.len() ==> prefix[i] == popped[i]);
        lemma_drain_expired_evicts_all(prefix, now);
        assert(popped.last() == popped[popped.len() - 1]);
    }
}

/// A sliding-window rate limiter over a lock-free map of fixed-capacity
/// lock-free ring buffers. The registry grows with the set of keys ever
/// seen: entries are never removed, an accepted unbounded-growth trade-off.
pub struct RateLimiter3 {
    requests: SkipMap<ClientKey, ArrayQueue<Timestamp>>,
}

impl RateLimiter3 {
    /// A limiter with an empty registry: no key has any prior state.
    pub fn new() -> Self {
        RateLimiter3 { requests: skipmap_new() }
    }

    /// Admit or reject a request from `src_ip` at `timestamp`. While the
    /// key's buffer has room the call is one push. A full buffer triggers
    /// the eviction pass: pop once per slot — at most `MAX_REQUESTS` times,
    /// the buffer's capacity, so a call stays O(`MAX_REQUESTS`) even though
    /// re-pushed survivors queue up behind the slots still to be visited —
    /// push back each popped timestamp that [`still_in_window`] keeps, and
    /// let [`drain_decide`] fix the admission from the drained timestamps:
    /// admitted exactly when at least one stale entry was evicted.
    pub fn ratelimit3(&self, src_ip: ClientKey, timestamp: Timestamp) -> bool {
        // A fresh buffer is built only when the key looks absent: the common
        // call finds its entry without allocating one.
        let entry = match skipmap_get(&self.requests, src_ip) {
            Some(e) => e,
            None => skipmap_get_or_insert(&self.requests, src_ip, queue_new(MAX_REQUESTS)),
        };
        let request_queue = entry_value(&entry);

        // Fast path: room left, no eviction needed. A lone caller's push
        // cannot fail here; if a concurrent push fills the buffer first,
        // fail closed and reject rather than panic on the request path.
        if !queue_is_full(request_queue) {
            return queue_push(request_queue, timestamp);
        }

        let mut popped: Vec<Timestamp> = Vec::new();
        let mut slots_left: usize = MAX_REQUESTS;
        let mut emptied = false;
        while slots_left > 0 && !emptied
            invariant
                popped@.len() + slots_left <= MAX_REQUESTS,
            decreases slots_left,
        {
            match queue_pop(request_queue) {
                Some(front_time) => {
                    if still_in_window(front_time, timestamp) {
                        queue_force_push(request_queue, front_time);
                    }
                    popped.push(front_time);
                },
                None => {
                    emptied = true;
                },
            }
            slots_left = slots_left - 1;
        }

        if drain_decide(&popped, timestamp) {
            queue_force_push(request_queue, timestamp);
            true
        } else {
            false
        }
    }

    /// How many timestamps the key's ring buffer held when asked; a moment's
    /// snapshot under concurrent callers.
    pub fn window_len(&self, src_ip: ClientKey) -> usize {
        match skipmap_get(&self.requests, src_ip) {
            None => 0,
            Some(entry) => queue_len(entry_value(&entry)),
        }
    }
}

} // verus!
