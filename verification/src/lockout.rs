//! Account lockout guard: failed-attempt counter and cooldown per account.
//!
//! Every failure increments the counter and pushes the cooldown deadline
//! out again, so the window extends with repeated failures. The counter is
//! cleared on success. When the cache backend is unreachable the guard
//! fails open: nothing is recorded and no account reads as locked.

use vstd::prelude::*;
use crate::cache::{live_at, lockout_key, make_lockout_key, CounterCache, CounterView};
use crate::constants::{LOCKOUT_DURATION_SECS, LOCKOUT_THRESHOLD};

verus! {

/// The account reads as locked: the backend answered and the live failure
/// counter has reached the threshold.
pub open spec fn locked_out(c: CounterCache, account_id: Seq<char>, now: usize) -> bool {
    c.is_available() && c.counter_value(lockout_key(account_id), now) >= LOCKOUT_THRESHOLD
}

/// Counter state after one recorded failure: bumped by one with a fresh
/// cooldown deadline, or untouched when the backend was unreachable.
pub open spec fn counters_after_failure(
    c: CounterCache,
    account_id: Seq<char>,
    now: usize,
) -> Map<Seq<char>, CounterView> {
    if c.is_available() {
        c.counters().insert(
            lockout_key(account_id),
            CounterView {
                count: (c.counter_value(lockout_key(account_id), now) + 1) as u64,
                expires_at: Some((now + LOCKOUT_DURATION_SECS) as usize),
            },
        )
    } else {
        c.counters()
    }
}

/// Law: each recorded failure raises the account's live failure count by
/// exactly one and keeps it live through the whole lockout window — the
/// cooldown extends with every failure. Five failures from a clear
/// counter therefore reach the threshold.
pub proof fn lemma_failure_raises_count(
    c: CounterCache,
    account_id: Seq<char>,
    now: usize,
    later: usize,
)
    requires
        c.is_available(),
        c.counter_value(lockout_key(account_id), now) < u64::MAX,
        now <= later,
        later < now + LOCKOUT_DURATION_SECS,
        now + LOCKOUT_DURATION_SECS <= usize::MAX,
    ensures
        ({
            let m = counters_after_failure(c, account_id, now);
            &&& m.contains_key(lockout_key(account_id))
            &&& m[lockout_key(account_id)].count == c.counter_value(lockout_key(account_id), now)
                + 1
            &&& live_at(m[lockout_key(account_id)].expires_at, later)
        }),
{
}

proof fn lemma_failure_chain_counts(
    caches: Seq<CounterCache>,
    times: Seq<usize>,
    account_id: Seq<char>,
    i: int,
)
    requires
        caches.len() == times.len() + 1,
        times.len() <= u64::MAX,
        caches[0].counter_value(lockout_key(account_id), times[0]) == 0,
        forall|j: int| 0 <= j < times.len() ==> #[trigger] caches[j + 1].counters()
            == counters_after_failure(caches[j], account_id, times[j]),
        forall|j: int| 0 <= j < times.len() ==> #[trigger] caches[j].is_available(),
        forall|j: int| 0 <= j < times.len() - 1 ==> #[trigger] times[j + 1] < times[j]
            + LOCKOUT_DURATION_SECS,
        forall|j: int| 0 <= j < times.len() ==> #[trigger] times[j] + LOCKOUT_DURATION_SECS
            <= usize::MAX,
        0 <= i < times.len(),
    ensures
        caches[i].counter_value(lockout_key(account_id), times[i]) == i,
    decreases i,
{
    if i > 0 {
        lemma_failure_chain_counts(caches, times, account_id, i - 1);
        assert(caches[i].counters() == counters_after_failure(
            caches[i - 1],
            account_id,
            times[i - 1],
        ));
        assert(times[i] < times[i - 1] + LOCKOUT_DURATION_SECS);
    }
}

/// Law: consecutive wrong-password attempts accumulate. Starting from a
/// clear failure counter, each recorded failure lands within the cooldown
/// window the previous one set, so after at least the threshold's worth
/// of failures the account reads as locked at any check inside the last
/// cooldown window — and authenticate then returns the lockout message
/// even for the correct password.
pub proof fn lemma_consecutive_failures_lock(
    caches: Seq<CounterCache>,
    times: Seq<usize>,
    account_id: Seq<char>,
    check_time: usize,
)
    requires
        LOCKOUT_THRESHOLD <= times.len() <= u64::MAX,
        caches.len() == times.len() + 1,
        caches[0].counter_value(lockout_key(account_id), times[0]) == 0,
        forall|j: int| 0 <= j < times.len() ==> #[trigger] caches[j + 1].counters()
            == counters_after_failure(caches[j], account_id, times[j]),
        forall|j: int| 0 <= j < times.len() ==> #[trigger] caches[j].is_available(),
        caches.last().is_available(),
        forall|j: int| 0 <= j < times.len() - 1 ==> #[trigger] times[j + 1] < times[j]
            + LOCKOUT_DURATION_SECS,
        forall|j: int| 0 <= j < times.len() ==> #[trigger] times[j] + LOCKOUT_DURATION_SECS
            <= usize::MAX,
        check_time < times.last() + LOCKOUT_DURATION_SECS,
    ensures
        locked_out(caches.last(), account_id, check_time),
{
    let n = times.len() as int;
    lemma_failure_chain_counts(caches, times, account_id, n - 1);
    assert(caches[n].counters() == counters_after_failure(
        caches[n - 1],
        account_id,
        times[n - 1],
    ));
    assert(caches[n].counter_value(lockout_key(account_id), check_time) == n);
}

/// Law: an account whose live failure count has reached the threshold
/// reads as locked, and authenticate answers a locked account with the
/// lockout message before any password comparison.
pub proof fn lemma_threshold_locks(c: CounterCache, account_id: Seq<char>, now: usize)
    requires
        c.is_available(),
        c.counter_value(lockout_key(account_id), now) >= LOCKOUT_THRESHOLD,
    ensures
        locked_out(c, account_id, now),
{
}

/// Is the account currently locked out?
pub fn is_locked(cache: &CounterCache, account_id: &str, now: usize) -> (r: bool)
    requires
        cache.wf(),
    ensures
        r == locked_out(*cache, account_id@, now),
{
    let key = make_lockout_key(account_id);
    match cache.get_counter(key.as_str(), now) {
        None => false,
        Some(count) => count >= LOCKOUT_THRESHOLD,
    }
}

/// Record one failed attempt and refresh the cooldown deadline.
pub fn record_failure(cache: &mut CounterCache, account_id: &str, now: usize)
    requires
        old(cache).wf(),
        now + LOCKOUT_DURATION_SECS <= usize::MAX,
        old(cache).is_available() ==> old(cache).counter_value(lockout_key(account_id@), now)
            < u64::MAX,
    ensures
        final(cache).wf(),
        final(cache).is_available() == old(cache).is_available(),
        final(cache).codes() == old(cache).codes(),
        final(cache).counters() == counters_after_failure(*old(cache), account_id@, now),
{
    let key = make_lockout_key(account_id);
    cache.increment_counter(key.as_str(), now);
    cache.expire_counter(key.as_str(), LOCKOUT_DURATION_SECS, now);
    proof {
        assert(cache.counters() =~= counters_after_failure(*old(cache), account_id@, now));
    }
}

/// Clear the failure counter (on a successful authentication).
pub fn clear(cache: &mut CounterCache, account_id: &str)
    requires
        old(cache).wf(),
    ensures
        final(cache).wf(),
        final(cache).is_available() == old(cache).is_available(),
        final(cache).codes() == old(cache).codes(),
        old(cache).is_available() ==> final(cache).counters() == old(cache).counters().remove(
            lockout_key(account_id@),
        ),
        !old(cache).is_available() ==> final(cache).counters() == old(cache).counters(),
{
    let key = make_lockout_key(account_id);
    cache.delete_counter(key.as_str());
}

} // verus!
