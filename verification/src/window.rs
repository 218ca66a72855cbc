//! The sliding-window model shared by every strategy: a per-key window is an
//! oldest-first sequence of admitted timestamps, and one call prunes the
//! expired prefix, then admits the request exactly when the pruned window is
//! below quota.

use vstd::prelude::*;

use std::collections::VecDeque;

use crate::ClientKey;
use crate::MAX_REQUESTS;
use crate::MAX_REQUESTS_DURATION_SECONDS;
use crate::Timestamp;

verus! {

/// The instant before which a stored timestamp no longer counts against the
/// quota of a call made at `now`.
pub open spec fn window_cutoff(now: int) -> int {
    now - MAX_REQUESTS_DURATION_SECONDS
}

/// The window after pruning: the longest prefix of timestamps strictly older
/// than the cutoff is removed. The window is kept oldest-first, so pruning is
/// a prefix trim; an old timestamp stored behind a newer one stays.
pub open spec fn pruned(w: Seq<Timestamp>, now: int) -> Seq<Timestamp>
    decreases w.len(),
{
    if w.len() > 0 && w[0] < window_cutoff(now) {
        pruned(w.drop_first(), now)
    } else {
        w
    }
}

/// Whether a call at `now` against window `w` is admitted: after pruning, the
/// window must hold fewer than `MAX_REQUESTS` timestamps.
pub open spec fn admits(w: Seq<Timestamp>, now: int) -> bool {
    pruned(w, now).len() < MAX_REQUESTS
}

/// The window stored after one call at `now` against window `w`: the pruned
/// window, extended by `now` exactly when the call was admitted.
pub open spec fn next_window(w: Seq<Timestamp>, now: Timestamp) -> Seq<Timestamp> {
    if admits(w, now as int) {
        pruned(w, now as int).push(now)
    } else {
        pruned(w, now as int)
    }
}

/// Pruning never lengthens a window.
pub proof fn lemma_pruned_len(w: Seq<Timestamp>, now: int)
    ensures
        pruned(w, now).len() <= w.len(),
    decreases w.len(),
{
    if w.len() > 0 && w[0] < window_cutoff(now) {
        lemma_pruned_len(w.drop_first(), now);
    }
}

/// A call never leaves a window over quota unless it already was: a window of
/// at most `MAX_REQUESTS` timestamps stays at most that long.
pub proof fn lemma_next_window_len(w: Seq<Timestamp>, now: Timestamp)
    ensures
        w.len() <= MAX_REQUESTS ==> next_window(w, now).len() <= MAX_REQUESTS,
{
    lemma_pruned_len(w, now as int);
}

/// The cutoff as an `i64`, clamped at the smallest representable instant.
/// Clamping prunes exactly the timestamps the unbounded cutoff would: no
/// representable timestamp lies below `i64::MIN` either.
pub fn window_cutoff_i64(now: Timestamp) -> (c: Timestamp)
    ensures
        c as int == if window_cutoff(now as int) >= i64::MIN { window_cutoff(now as int) } else { i64::MIN as int },
{
    if now >= i64::MIN + MAX_REQUESTS_DURATION_SECONDS {
        now - MAX_REQUESTS_DURATION_SECONDS
    } else {
        i64::MIN
    }
}

/// One admission decision on one window, the step every strategy shares:
/// prune the expired prefix, reject if the quota is already met, otherwise
/// record `now` and admit. Timestamps out of chronological order are accepted
/// as they come; the window counts requests, it does not order them.
pub fn admit_window(w: &mut VecDeque<Timestamp>, now: Timestamp) -> (admitted: bool)
    ensures
        admitted == admits(old(w)@, now as int),
        final(w)@ == next_window(old(w)@, now),
        old(w)@.len() <= MAX_REQUESTS ==> final(w)@.len() <= MAX_REQUESTS,
{
    let ghost orig = w@;
    let cutoff = window_cutoff_i64(now);
    while w.len() > 0 && w[0] < cutoff
        invariant
            cutoff as int == if window_cutoff(now as int) >= i64::MIN { window_cutoff(now as int) } else { i64::MIN as int },
            pruned(w@, now as int) == pruned(orig, now as int),
            w@.len() <= orig.len(),
        decreases w@.len(),
    {
        assert(pruned(w@, now as int) == pruned(w@.drop_first(), now as int));
        w.pop_front();
    }
    assert(pruned(w@, now as int) == w@);
    proof {
        lemma_pruned_len(orig, now as int);
    }
    if w.len() >= MAX_REQUESTS {
        return false;
    }
    w.push_back(now);
    true
}

/// A window of `n` copies of one timestamp: what `n` admitted calls at the
/// same instant leave behind.
pub open spec fn uniform_window(t: Timestamp, n: nat) -> Seq<Timestamp> {
    Seq::new(n, |i: int| t)
}

/// The window a fresh key holds after `n` consecutive calls at timestamp `t`.
pub open spec fn window_after_calls(t: Timestamp, n: nat) -> Seq<Timestamp>
    decreases n,
{
    if n == 0 {
        Seq::empty()
    } else {
        next_window(window_after_calls(t, (n - 1) as nat), t)
    }
}

/// A window of same-instant timestamps is not pruned by a call at that same
/// instant: nothing in it is older than the cutoff.
pub proof fn lemma_uniform_window_unpruned(t: Timestamp, n: nat)
    ensures
        pruned(uniform_window(t, n), t as int) == uniform_window(t, n),
{
}

/// Quota bound for one key under consecutive same-instant calls: each of the
/// first `MAX_REQUESTS` calls is admitted and each later call is rejected,
/// and the window holds one timestamp per admitted call, never more than
/// `MAX_REQUESTS` of them.
pub proof fn lemma_quota_bound(t: Timestamp, n: nat)
    ensures
        admits(window_after_calls(t, n), t as int) == (n < MAX_REQUESTS),
        window_after_calls(t, n) =~= uniform_window(t, if n <= MAX_REQUESTS { n } else { MAX_REQUESTS as nat }),
    decreases n,
{
    if n == 0 {
        assert(pruned(Seq::<Timestamp>::empty(), t as int) == Seq::<Timestamp>::empty());
    } else {
        lemma_quota_bound(t, (n - 1) as nat);
        lemma_uniform_window_unpruned(t, if n - 1 <= MAX_REQUESTS { (n - 1) as nat } else { MAX_REQUESTS as nat });
        lemma_uniform_window_unpruned(t, if n <= MAX_REQUESTS { n } else { MAX_REQUESTS as nat });
    }
}

/// The admitted total under serialised same-instant calls: among `n` calls
/// for one key at one timestamp, exactly `MAX_REQUESTS` are admitted once `n`
/// reaches the quota — the window holds one timestamp per admitted call.
/// Strategies that serialise same-key calls (the coarse lock and the per-key
/// lock) therefore admit exactly the quota however the callers interleave;
/// the cloned-window strategy's lost updates are exactly a departure from
/// this serialised model.
pub proof fn lemma_same_instant_admitted_total(t: Timestamp, n: nat)
    ensures
        window_after_calls(t, n).len() == if n <= MAX_REQUESTS { n } else { MAX_REQUESTS as nat },
{
    lemma_quota_bound(t, n);
}

/// Window expiry: once the whole window lies strictly before the cutoff of a
/// later call, that call finds the window fully rolled over and is admitted.
pub proof fn lemma_window_expiry(w: Seq<Timestamp>, now: int)
    requires
        forall|i: int| 0 <= i < w.len() ==> w[i] < window_cutoff(now),
    ensures
        pruned(w, now) =~= Seq::<Timestamp>::empty(),
        admits(w, now),
    decreases w.len(),
{
    if w.len() > 0 {
        lemma_window_expiry(w.drop_first(), now);
    }
}

/// Window rollover for same-instant admissions: however many calls were
/// admitted at `t`, a call strictly more than one window length later is
/// admitted again.
pub proof fn lemma_window_rollover(t: Timestamp, n: nat, later: int)
    requires
        later > t + MAX_REQUESTS_DURATION_SECONDS,
    ensures
        admits(uniform_window(t, n), later),
{
    lemma_window_expiry(uniform_window(t, n), later);
}

/// A freshly created key has no prior state: the first call at any instant is
/// admitted and leaves exactly that one timestamp behind.
pub proof fn lemma_fresh_window(now: Timestamp)
    ensures
        admits(Seq::<Timestamp>::empty(), now as int),
        next_window(Seq::<Timestamp>::empty(), now) =~= seq![now],
{
    assert(pruned(Seq::<Timestamp>::empty(), now as int) == Seq::<Timestamp>::empty());
}

/// The window of `key` in a registry model `r`: its stored window, or the
/// empty window for a key never seen. Keys are created lazily and map entries
/// are never removed, so absence simply means no prior state.
pub open spec fn reg_window(r: Map<ClientKey, Seq<Timestamp>>, key: ClientKey) -> Seq<Timestamp> {
    if r.contains_key(key) {
        r[key]
    } else {
        Seq::empty()
    }
}

/// The registry model after one call for `key` at `now`: only that key's
/// window moves, to its next window.
pub open spec fn reg_next(
    r: Map<ClientKey, Seq<Timestamp>>,
    key: ClientKey,
    now: Timestamp,
) -> Map<ClientKey, Seq<Timestamp>> {
    r.insert(key, next_window(reg_window(r, key), now))
}

/// Independence across keys: a call for one key never touches another key's
/// window, so exhausting the quota for one key cannot affect admission for
/// any other key.
pub proof fn lemma_key_independence(
    r: Map<ClientKey, Seq<Timestamp>>,
    x: ClientKey,
    y: ClientKey,
    tx: Timestamp,
    ty: Timestamp,
)
    requires
        x != y,
    ensures
        reg_window(reg_next(r, x, tx), y) == reg_window(r, y),
        admits(reg_window(reg_next(r, x, tx), y), ty as int) == admits(reg_window(r, y), ty as int),
{
}

} // verus!
