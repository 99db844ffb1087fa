//! Fixed-window rate limiter per (purpose, subject), built on the cache.
//!
//! If the current count has reached the cap the request is denied with no
//! mutation; otherwise the counter is incremented and its window deadline
//! reset. When the cache backend is unreachable the check fails open.

use vstd::prelude::*;
use crate::cache::{live_at, make_rate_key, rate_key, CounterCache, CounterView};

verus! {

#[derive(Clone, Copy, Debug, PartialEq, Eq, Structural)]
pub enum RateDecision {
    Allowed,
    Denied,
}

/// The request is over the cap: the backend answered and the live counter
/// has reached `max_requests`.
pub open spec fn rate_blocked(
    c: CounterCache,
    purpose: Seq<char>,
    subject: Seq<char>,
    max_requests: u64,
    now: usize,
) -> bool {
    c.is_available() && c.counter_value(rate_key(purpose, subject), now) >= max_requests
}

/// Counter state after an allowed request: bumped by one and given a fresh
/// window deadline, or untouched when the backend was unreachable.
pub open spec fn counters_after_allow(
    c: CounterCache,
    purpose: Seq<char>,
    subject: Seq<char>,
    window_secs: usize,
    now: usize,
) -> Map<Seq<char>, CounterView> {
    if c.is_available() {
        c.counters().insert(
            rate_key(purpose, subject),
            CounterView {
                count: (c.counter_value(rate_key(purpose, subject), now) + 1) as u64,
                expires_at: Some((now + window_secs) as usize),
            },
        )
    } else {
        c.counters()
    }
}

/// Law: each allowed request raises the live counter by exactly one and
/// keeps it live through the window, so after `max_requests` allowed
/// calls within one window the counter stands at the cap.
pub proof fn lemma_allow_raises_count(
    c: CounterCache,
    purpose: Seq<char>,
    subject: Seq<char>,
    window_secs: usize,
    now: usize,
    later: usize,
)
    requires
        c.is_available(),
        c.counter_value(rate_key(purpose, subject), now) < u64::MAX,
        now <= later,
        later < now + window_secs,
        now + window_secs <= usize::MAX,
    ensures
        ({
            let m = counters_after_allow(c, purpose, subject, window_secs, now);
            &&& m.contains_key(rate_key(purpose, subject))
            &&& m[rate_key(purpose, subject)].count == c.counter_value(
                rate_key(purpose, subject),
                now,
            ) + 1
            &&& live_at(m[rate_key(purpose, subject)].expires_at, later)
        }),
{
}

proof fn lemma_allow_chain_counts(
    caches: Seq<CounterCache>,
    times: Seq<usize>,
    purpose: Seq<char>,
    subject: Seq<char>,
    window_secs: usize,
    i: int,
)
    requires
        caches.len() == times.len() + 1,
        times.len() <= u64::MAX,
        caches[0].counter_value(rate_key(purpose, subject), times[0]) == 0,
        forall|j: int| 0 <= j < times.len() ==> #[trigger] caches[j + 1].counters()
            == counters_after_allow(caches[j], purpose, subject, window_secs, times[j]),
        forall|j: int| 0 <= j < times.len() ==> #[trigger] caches[j].is_available(),
        forall|j: int| 0 <= j < times.len() - 1 ==> #[trigger] times[j + 1] < times[j]
            + window_secs,
        forall|j: int| 0 <= j < times.len() ==> #[trigger] times[j] + window_secs <= usize::MAX,
        0 <= i < times.len(),
    ensures
        caches[i].counter_value(rate_key(purpose, subject), times[i]) == i,
    decreases i,
{
    if i > 0 {
        lemma_allow_chain_counts(caches, times, purpose, subject, window_secs, i - 1);
        assert(caches[i].counters() == counters_after_allow(
            caches[i - 1],
            purpose,
            subject,
            window_secs,
            times[i - 1],
        ));
        assert(times[i] < times[i - 1] + window_secs);
    }
}

/// Law: allowed requests accumulate. Starting from a clear counter, each
/// allowed request lands within the window the previous one set, so after
/// `max_requests` of them the counter stands at the cap and the next
/// check within the last window denies.
pub proof fn lemma_consecutive_allows_reach_cap(
    caches: Seq<CounterCache>,
    times: Seq<usize>,
    purpose: Seq<char>,
    subject: Seq<char>,
    max_requests: u64,
    window_secs: usize,
    check_time: usize,
)
    requires
        max_requests >= 1,
        max_requests <= times.len() <= u64::MAX,
        caches.len() == times.len() + 1,
        caches[0].counter_value(rate_key(purpose, subject), times[0]) == 0,
        forall|j: int| 0 <= j < times.len() ==> #[trigger] caches[j + 1].counters()
            == counters_after_allow(caches[j], purpose, subject, window_secs, times[j]),
        forall|j: int| 0 <= j < times.len() ==> #[trigger] caches[j].is_available(),
        caches.last().is_available(),
        forall|j: int| 0 <= j < times.len() - 1 ==> #[trigger] times[j + 1] < times[j]
            + window_secs,
        forall|j: int| 0 <= j < times.len() ==> #[trigger] times[j] + window_secs <= usize::MAX,
        check_time < times.last() + window_secs,
    ensures
        rate_blocked(caches.last(), purpose, subject, max_requests, check_time),
{
    let n = times.len() as int;
    lemma_allow_chain_counts(caches, times, purpose, subject, window_secs, n - 1);
    assert(caches[n].counters() == counters_after_allow(
        caches[n - 1],
        purpose,
        subject,
        window_secs,
        times[n - 1],
    ));
    assert(caches[n].counter_value(rate_key(purpose, subject), check_time) == n);
}

/// Law: a live counter at the cap makes the next check deny, and `check`
/// then returns Denied with no mutation.
pub proof fn lemma_cap_denies(
    c: CounterCache,
    purpose: Seq<char>,
    subject: Seq<char>,
    max_requests: u64,
    now: usize,
)
    requires
        c.is_available(),
        c.counter_value(rate_key(purpose, subject), now) >= max_requests,
    ensures
        rate_blocked(c, purpose, subject, max_requests, now),
{
}

/// Fixed-window check for one request.
pub fn check(
    cache: &mut CounterCache,
    purpose: &str,
    subject: &str,
    max_requests: u64,
    window_secs: usize,
    now: usize,
) -> (r: RateDecision)
    requires
        old(cache).wf(),
        now + window_secs <= usize::MAX,
        max_requests >= 1,
    ensures
        final(cache).wf(),
        final(cache).is_available() == old(cache).is_available(),
        final(cache).codes() == old(cache).codes(),
        (r == RateDecision::Denied) == rate_blocked(
            *old(cache),
            purpose@,
            subject@,
            max_requests,
            now,
        ),
        rate_blocked(*old(cache), purpose@, subject@, max_requests, now) ==> final(cache).counters()
            == old(cache).counters(),
        !rate_blocked(*old(cache), purpose@, subject@, max_requests, now)
            ==> final(cache).counters() == counters_after_allow(
                *old(cache), purpose@, subject@, window_secs, now),
{
    let key = make_rate_key(purpose, subject);
    match cache.get_counter(key.as_str(), now) {
        None => RateDecision::Allowed,
        Some(count) => {
            if count >= max_requests {
                RateDecision::Denied
            } else {
                cache.increment_counter(key.as_str(), now);
                cache.expire_counter(key.as_str(), window_secs, now);
                proof {
                    assert(cache.counters() =~= counters_after_allow(
                        *old(cache),
                        purpose@,
                        subject@,
                        window_secs,
                        now,
                    ));
                }
                RateDecision::Allowed
            }
        },
    }
}

} // verus!
