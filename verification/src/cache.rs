//! Ephemeral counter cache: TTL-keyed counters and single-use codes.
//!
//! In-memory model of the keyed increment/expire/get/delete interface the
//! service consumes. Entries expire lazily against an explicit clock.
//! When the backend is unavailable every operation reports so and leaves
//! the state untouched; rate-limit and lockout checks built on top fail
//! open in that case.

use vstd::prelude::*;
use vstd::string::StringExecFns;
use crate::strutil::str_eq;

verus! {

/// Abstract value of one counter entry.
pub struct CounterView {
    pub count: u64,
    pub expires_at: Option<usize>,
}

/// Abstract value of one stored single-use code.
pub struct CodeView {
    pub code: String,
    pub expires_at: Option<usize>,
}

struct CounterEntry {
    key: String,
    count: u64,
    expires_at: Option<usize>,
}

struct CodeEntry {
    key: String,
    code: String,
    expires_at: Option<usize>,
}

/// Is an entry with this deadline still live at `now`?
pub open spec fn live_at(expires_at: Option<usize>, now: usize) -> bool {
    match expires_at {
        None => true,
        Some(deadline) => now < deadline,
    }
}

spec fn counter_view(e: CounterEntry) -> CounterView {
    CounterView { count: e.count, expires_at: e.expires_at }
}

spec fn code_view(e: CodeEntry) -> CodeView {
    CodeView { code: e.code, expires_at: e.expires_at }
}

spec fn counters_map(s: Seq<CounterEntry>) -> Map<Seq<char>, CounterView>
    decreases s.len(),
{
    if s.len() == 0 {
        Map::empty()
    } else {
        counters_map(s.drop_last()).insert(s.last().key@, counter_view(s.last()))
    }
}

spec fn codes_map(s: Seq<CodeEntry>) -> Map<Seq<char>, CodeView>
    decreases s.len(),
{
    if s.len() == 0 {
        Map::empty()
    } else {
        codes_map(s.drop_last()).insert(s.last().key@, code_view(s.last()))
    }
}

spec fn unique_counter_keys(s: Seq<CounterEntry>) -> bool {
    forall|i: int, j: int| 0 <= i < j < s.len() ==> s[i].key@ != s[j].key@
}

spec fn unique_code_keys(s: Seq<CodeEntry>) -> bool {
    forall|i: int, j: int| 0 <= i < j < s.len() ==> s[i].key@ != s[j].key@
}

proof fn lemma_counters_map_domain(s: Seq<CounterEntry>, k: Seq<char>)
    ensures
        counters_map(s).contains_key(k) <==> exists|i: int| 0 <= i < s.len() && s[i].key@ == k,
    decreases s.len(),
{
    if s.len() > 0 {
        lemma_counters_map_domain(s.drop_last(), k);
        if counters_map(s).contains_key(k) && s.last().key@ != k {
            let i = choose|i: int| 0 <= i < s.drop_last().len() && s.drop_last()[i].key@ == k;
            assert(s[i].key@ == k);
        }
        if exists|i: int| 0 <= i < s.len() && s[i].key@ == k {
            let i = choose|i: int| 0 <= i < s.len() && s[i].key@ == k;
            if i < s.len() - 1 {
                assert(s.drop_last()[i].key@ == k);
            }
        }
    }
}

proof fn lemma_counters_map_index(s: Seq<CounterEntry>, i: int)
    requires
        unique_counter_keys(s),
        0 <= i < s.len(),
    ensures
        counters_map(s).contains_key(s[i].key@),
        counters_map(s)[s[i].key@] == counter_view(s[i]),
    decreases s.len(),
{
    if i == s.len() - 1 {
    } else {
        assert(unique_counter_keys(s.drop_last()));
        lemma_counters_map_index(s.drop_last(), i);
        assert(s.drop_last()[i] == s[i]);
        assert(s[i].key@ != s.last().key@);
    }
}

proof fn lemma_counters_map_update(s: Seq<CounterEntry>, i: int, e: CounterEntry)
    requires
        unique_counter_keys(s),
        0 <= i < s.len(),
        e.key@ == s[i].key@,
    ensures
        unique_counter_keys(s.update(i, e)),
        counters_map(s.update(i, e)) =~= counters_map(s).insert(e.key@, counter_view(e)),
    decreases s.len(),
{
    if i == s.len() - 1 {
        assert(s.update(i, e).drop_last() =~= s.drop_last());
        assert(s.update(i, e).last() == e);
    } else {
        assert(unique_counter_keys(s.drop_last()));
        lemma_counters_map_update(s.drop_last(), i, e);
        assert(s.update(i, e).drop_last() =~= s.drop_last().update(i, e));
        assert(s.update(i, e).last() == s.last());
        assert(s[i].key@ != s.last().key@);
    }
}

proof fn lemma_counters_map_push(s: Seq<CounterEntry>, e: CounterEntry)
    requires
        unique_counter_keys(s),
        forall|i: int| 0 <= i < s.len() ==> s[i].key@ != e.key@,
    ensures
        unique_counter_keys(s.push(e)),
        counters_map(s.push(e)) =~= counters_map(s).insert(e.key@, counter_view(e)),
{
    assert(s.push(e).drop_last() =~= s);
    assert(s.push(e).last() == e);
}

proof fn lemma_counters_map_remove(s: Seq<CounterEntry>, i: int)
    requires
        unique_counter_keys(s),
        0 <= i < s.len(),
    ensures
        unique_counter_keys(s.remove(i)),
        counters_map(s.remove(i)) =~= counters_map(s).remove(s[i].key@),
    decreases s.len(),
{
    lemma_counters_map_index(s, i);
    if i == s.len() - 1 {
        assert(s.remove(i) =~= s.drop_last());
        lemma_counters_map_domain(s.drop_last(), s[i].key@);
        assert(!counters_map(s.drop_last()).contains_key(s[i].key@));
        assert(counters_map(s.drop_last()).remove(s[i].key@) =~= counters_map(s.drop_last()));
    } else {
        assert(unique_counter_keys(s.drop_last()));
        lemma_counters_map_remove(s.drop_last(), i);
        assert(s.remove(i).drop_last() =~= s.drop_last().remove(i));
        assert(s.remove(i).last() == s.last());
        assert(s[i].key@ != s.last().key@);
    }
}

proof fn lemma_codes_map_domain(s: Seq<CodeEntry>, k: Seq<char>)
    ensures
        codes_map(s).contains_key(k) <==> exists|i: int| 0 <= i < s.len() && s[i].key@ == k,
    decreases s.len(),
{
    if s.len() > 0 {
        lemma_codes_map_domain(s.drop_last(), k);
        if codes_map(s).contains_key(k) && s.last().key@ != k {
            let i = choose|i: int| 0 <= i < s.drop_last().len() && s.drop_last()[i].key@ == k;
            assert(s[i].key@ == k);
        }
        if exists|i: int| 0 <= i < s.len() && s[i].key@ == k {
            let i = choose|i: int| 0 <= i < s.len() && s[i].key@ == k;
            if i < s.len() - 1 {
                assert(s.drop_last()[i].key@ == k);
            }
        }
    }
}

proof fn lemma_codes_map_index(s: Seq<CodeEntry>, i: int)
    requires
        unique_code_keys(s),
        0 <= i < s.len(),
    ensures
        codes_map(s).contains_key(s[i].key@),
        codes_map(s)[s[i].key@] == code_view(s[i]),
    decreases s.len(),
{
    if i == s.len() - 1 {
    } else {
        assert(unique_code_keys(s.drop_last()));
        lemma_codes_map_index(s.drop_last(), i);
        assert(s.drop_last()[i] == s[i]);
        assert(s[i].key@ != s.last().key@);
    }
}

proof fn lemma_codes_map_update(s: Seq<CodeEntry>, i: int, e: CodeEntry)
    requires
        unique_code_keys(s),
        0 <= i < s.len(),
        e.key@ == s[i].key@,
    ensures
        unique_code_keys(s.update(i, e)),
        codes_map(s.update(i, e)) =~= codes_map(s).insert(e.key@, code_view(e)),
    decreases s.len(),
{
    if i == s.len() - 1 {
        assert(s.update(i, e).drop_last() =~= s.drop_last());
        assert(s.update(i, e).last() == e);
    } else {
        assert(unique_code_keys(s.drop_last()));
        lemma_codes_map_update(s.drop_last(), i, e);
        assert(s.update(i, e).drop_last() =~= s.drop_last().update(i, e));
        assert(s.update(i, e).last() == s.last());
        assert(s[i].key@ != s.last().key@);
    }
}

proof fn lemma_codes_map_push(s: Seq<CodeEntry>, e: CodeEntry)
    requires
        unique_code_keys(s),
        forall|i: int| 0 <= i < s.len() ==> s[i].key@ != e.key@,
    ensures
        unique_code_keys(s.push(e)),
        codes_map(s.push(e)) =~= codes_map(s).insert(e.key@, code_view(e)),
{
    assert(s.push(e).drop_last() =~= s);
    assert(s.push(e).last() == e);
}

proof fn lemma_codes_map_remove(s: Seq<CodeEntry>, i: int)
    requires
        unique_code_keys(s),
        0 <= i < s.len(),
    ensures
        unique_code_keys(s.remove(i)),
        codes_map(s.remove(i)) =~= codes_map(s).remove(s[i].key@),
    decreases s.len(),
{
    lemma_codes_map_index(s, i);
    if i == s.len() - 1 {
        assert(s.remove(i) =~= s.drop_last());
        lemma_codes_map_domain(s.drop_last(), s[i].key@);
        assert(!codes_map(s.drop_last()).contains_key(s[i].key@));
        assert(codes_map(s.drop_last()).remove(s[i].key@) =~= codes_map(s.drop_last()));
    } else {
        assert(unique_code_keys(s.drop_last()));
        lemma_codes_map_remove(s.drop_last(), i);
        assert(s.remove(i).drop_last() =~= s.drop_last().remove(i));
        assert(s.remove(i).last() == s.last());
        assert(s[i].key@ != s.last().key@);
    }
}

/// TTL-keyed counters and single-use codes, with an availability switch
/// that models a backend outage.
pub struct CounterCache {
    counters: Vec<CounterEntry>,
    codes: Vec<CodeEntry>,
    available: bool,
}

impl CounterCache {
    /// All counters, keyed by cache key.
    pub closed spec fn counters(self) -> Map<Seq<char>, CounterView> {
        counters_map(self.counters@)
    }

    /// All stored codes, keyed by cache key.
    pub closed spec fn codes(self) -> Map<Seq<char>, CodeView> {
        codes_map(self.codes@)
    }

    /// Is the backend reachable?
    pub closed spec fn is_available(self) -> bool {
        self.available
    }

    pub closed spec fn wf(self) -> bool {
        unique_counter_keys(self.counters@) && unique_code_keys(self.codes@)
    }

    /// Current value of a counter: its stored count while live, else 0.
    pub open spec fn counter_value(self, k: Seq<char>, now: usize) -> u64 {
        if self.counters().contains_key(k) && live_at(self.counters()[k].expires_at, now) {
            self.counters()[k].count
        } else {
            0
        }
    }

    /// Current live code under a key, if any.
    pub open spec fn code_value(self, k: Seq<char>, now: usize) -> Option<Seq<char>> {
        if self.codes().contains_key(k) && live_at(self.codes()[k].expires_at, now) {
            Some(self.codes()[k].code@)
        } else {
            None
        }
    }

    pub fn new() -> (r: CounterCache)
        ensures
            r.wf(),
            r.is_available(),
            r.counters() == Map::<Seq<char>, CounterView>::empty(),
            r.codes() == Map::<Seq<char>, CodeView>::empty(),
    {
        CounterCache { counters: Vec::new(), codes: Vec::new(), available: true }
    }

    /// Flip backend reachability (models an outage and recovery).
    pub fn set_available(&mut self, avail: bool)
        ensures
            final(self).wf() == old(self).wf(),
            final(self).counters() == old(self).counters(),
            final(self).codes() == old(self).codes(),
            final(self).is_available() == avail,
    {
        self.available = avail;
    }

    fn find_counter(&self, key: &str) -> (r: Option<usize>)
        ensures
            match r {
                Some(i) => i < self.counters@.len() && self.counters@[i as int].key@ == key@
                    && forall|j: int| 0 <= j < i ==> self.counters@[j].key@ != key@,
                None => forall|j: int| 0 <= j < self.counters@.len()
                    ==> self.counters@[j].key@ != key@,
            },
    {
        let mut i: usize = 0;
        while i < self.counters.len()
            invariant
                i <= self.counters@.len(),
                forall|j: int| 0 <= j < i ==> self.counters@[j].key@ != key@,
            decreases self.counters@.len() - i,
        {
            if str_eq(self.counters[i].key.as_str(), key) {
                return Some(i);
            }
            i = i + 1;
        }
        None
    }

    fn find_code(&self, key: &str) -> (r: Option<usize>)
        ensures
            match r {
                Some(i) => i < self.codes@.len() && self.codes@[i as int].key@ == key@
                    && forall|j: int| 0 <= j < i ==> self.codes@[j].key@ != key@,
                None => forall|j: int| 0 <= j < self.codes@.len() ==> self.codes@[j].key@ != key@,
            },
    {
        let mut i: usize = 0;
        while i < self.codes.len()
            invariant
                i <= self.codes@.len(),
                forall|j: int| 0 <= j < i ==> self.codes@[j].key@ != key@,
            decreases self.codes@.len() - i,
        {
            if str_eq(self.codes[i].key.as_str(), key) {
                return Some(i);
            }
            i = i + 1;
        }
        None
    }

    /// Read a counter. `None` means the backend was unreachable; a missing
    /// or expired entry reads as 0, as the consumers treat it.
    pub fn get_counter(&self, key: &str, now: usize) -> (r: Option<u64>)
        requires
            self.wf(),
        ensures
            self.is_available() ==> r == Some(self.counter_value(key@, now)),
            !self.is_available() ==> r is None,
    {
        if !self.available {
            return None;
        }
        match self.find_counter(key) {
            Some(i) => {
                proof {
                    lemma_counters_map_index(self.counters@, i as int);
                }
                let e = &self.counters[i];
                match e.expires_at {
                    Some(deadline) => {
                        if now < deadline {
                            Some(e.count)
                        } else {
                            Some(0)
                        }
                    },
                    None => Some(e.count),
                }
            },
            None => {
                proof {
                    lemma_counters_map_domain(self.counters@, key@);
                }
                Some(0)
            },
        }
    }

    /// Atomically increment a counter, creating it at 1 (with no deadline)
    /// when absent or expired; a live entry keeps its deadline. Returns the
    /// new value, or `None` when the backend is unreachable.
    pub fn increment_counter(&mut self, key: &str, now: usize) -> (r: Option<u64>)
        requires
            old(self).wf(),
            old(self).is_available() ==> old(self).counter_value(key@, now) < u64::MAX,
        ensures
            final(self).wf(),
            final(self).is_available() == old(self).is_available(),
            final(self).codes() == old(self).codes(),
            !old(self).is_available() ==> r is None && final(self).counters() == old(
                self,
            ).counters(),
            old(self).is_available() ==> {
                let newc = (old(self).counter_value(key@, now) + 1) as u64;
                let exp = if old(self).counters().contains_key(key@) && live_at(
                    old(self).counters()[key@].expires_at,
                    now,
                ) {
                    old(self).counters()[key@].expires_at
                } else {
                    None::<usize>
                };
                r == Some(newc) && final(self).counters() == old(self).counters().insert(
                    key@,
                    CounterView { count: newc, expires_at: exp },
                )
            },
    {
        if !self.available {
            return None;
        }
        match self.find_counter(key) {
            Some(i) => {
                proof {
                    lemma_counters_map_index(self.counters@, i as int);
                }
                let live = match self.counters[i].expires_at {
                    Some(deadline) => now < deadline,
                    None => true,
                };
                if live {
                    let newc = self.counters[i].count + 1;
                    let entry = CounterEntry {
                        key: self.counters[i].key.clone(),
                        count: newc,
                        expires_at: self.counters[i].expires_at,
                    };
                    proof {
                        lemma_counters_map_update(self.counters@, i as int, entry);
                    }
                    self.counters.set(i, entry);
                    Some(newc)
                } else {
                    let entry = CounterEntry {
                        key: self.counters[i].key.clone(),
                        count: 1,
                        expires_at: None,
                    };
                    proof {
                        lemma_counters_map_update(self.counters@, i as int, entry);
                    }
                    self.counters.set(i, entry);
                    Some(1)
                }
            },
            None => {
                proof {
                    lemma_counters_map_domain(self.counters@, key@);
                }
                let entry = CounterEntry {
                    key: key.to_owned(),
                    count: 1,
                    expires_at: None,
                };
                proof {
                    lemma_counters_map_push(self.counters@, entry);
                }
                self.counters.push(entry);
                Some(1)
            },
        }
    }

    /// Set the deadline of a live counter to `now + ttl`; a missing or
    /// expired entry is left alone, as the backend has no key to touch.
    pub fn expire_counter(&mut self, key: &str, ttl: usize, now: usize)
        requires
            old(self).wf(),
            now + ttl <= usize::MAX,
        ensures
            final(self).wf(),
            final(self).is_available() == old(self).is_available(),
            final(self).codes() == old(self).codes(),
            if old(self).is_available() && old(self).counters().contains_key(key@) && live_at(
                old(self).counters()[key@].expires_at,
                now,
            ) {
                final(self).counters() == old(self).counters().insert(
                    key@,
                    CounterView {
                        count: old(self).counters()[key@].count,
                        expires_at: Some((now + ttl) as usize),
                    },
                )
            } else {
                final(self).counters() == old(self).counters()
            },
    {
        if !self.available {
            return ;
        }
        match self.find_counter(key) {
            Some(i) => {
                proof {
                    lemma_counters_map_index(self.counters@, i as int);
                }
                let live = match self.counters[i].expires_at {
                    Some(deadline) => now < deadline,
                    None => true,
                };
                if live {
                    let entry = CounterEntry {
                        key: self.counters[i].key.clone(),
                        count: self.counters[i].count,
                        expires_at: Some(now + ttl),
                    };
                    proof {
                        lemma_counters_map_update(self.counters@, i as int, entry);
                    }
                    self.counters.set(i, entry);
                }
            },
            None => {
                proof {
                    lemma_counters_map_domain(self.counters@, key@);
                }
            },
        }
    }

    /// Delete a counter outright.
    pub fn delete_counter(&mut self, key: &str)
        requires
            old(self).wf(),
        ensures
            final(self).wf(),
            final(self).is_available() == old(self).is_available(),
            final(self).codes() == old(self).codes(),
            old(self).is_available() ==> final(self).counters() == old(self).counters().remove(
                key@,
            ),
            !old(self).is_available() ==> final(self).counters() == old(self).counters(),
    {
        if !self.available {
            return ;
        }
        match self.find_counter(key) {
            Some(i) => {
                proof {
                    lemma_counters_map_remove(self.counters@, i as int);
                }
                self.counters.remove(i);
            },
            None => {
                proof {
                    lemma_counters_map_domain(self.counters@, key@);
                    assert(!old(self).counters().contains_key(key@));
                    assert(old(self).counters().remove(key@) =~= old(self).counters());
                }
            },
        }
    }

    /// Read the live code under a key. The outer `None` means the backend
    /// was unreachable.
    pub fn get_code(&self, key: &str, now: usize) -> (r: Option<Option<String>>)
        requires
            self.wf(),
        ensures
            !self.is_available() ==> r is None,
            self.is_available() ==> match r {
                Some(inner) => match inner {
                    Some(c) => self.code_value(key@, now) == Some(c@),
                    None => self.code_value(key@, now) is None,
                },
                None => false,
            },
    {
        if !self.available {
            return None;
        }
        match self.find_code(key) {
            Some(i) => {
                proof {
                    lemma_codes_map_index(self.codes@, i as int);
                }
                let e = &self.codes[i];
                let live = match e.expires_at {
                    Some(deadline) => now < deadline,
                    None => true,
                };
                if live {
                    Some(Some(e.code.clone()))
                } else {
                    Some(None)
                }
            },
            None => {
                proof {
                    lemma_codes_map_domain(self.codes@, key@);
                }
                Some(None)
            },
        }
    }

    /// Store a code under a key with a deadline of `now + ttl`, replacing
    /// any earlier one. This is the interface a code-delivery collaborator
    /// writes through.
    pub fn set_code(&mut self, key: &str, code: String, ttl: usize, now: usize)
        requires
            old(self).wf(),
            now + ttl <= usize::MAX,
        ensures
            final(self).wf(),
            final(self).is_available() == old(self).is_available(),
            final(self).counters() == old(self).counters(),
            old(self).is_available() ==> final(self).codes() == old(self).codes().insert(
                key@,
                CodeView { code, expires_at: Some((now + ttl) as usize) },
            ),
            !old(self).is_available() ==> final(self).codes() == old(self).codes(),
    {
        if !self.available {
            return ;
        }
        match self.find_code(key) {
            Some(i) => {
                let entry = CodeEntry {
                    key: self.codes[i].key.clone(),
                    code,
                    expires_at: Some(now + ttl),
                };
                proof {
                    lemma_codes_map_update(self.codes@, i as int, entry);
                }
                self.codes.set(i, entry);
            },
            None => {
                let entry = CodeEntry { key: key.to_owned(), code, expires_at: Some(now + ttl) };
                proof {
                    lemma_codes_map_push(self.codes@, entry);
                }
                self.codes.push(entry);
            },
        }
    }

    /// Delete a stored code outright.
    pub fn delete_code(&mut self, key: &str)
        requires
            old(self).wf(),
        ensures
            final(self).wf(),
            final(self).is_available() == old(self).is_available(),
            final(self).counters() == old(self).counters(),
            old(self).is_available() ==> final(self).codes() == old(self).codes().remove(key@),
            !old(self).is_available() ==> final(self).codes() == old(self).codes(),
    {
        if !self.available {
            return ;
        }
        match self.find_code(key) {
            Some(i) => {
                proof {
                    lemma_codes_map_remove(self.codes@, i as int);
                }
                self.codes.remove(i);
            },
            None => {
                proof {
                    lemma_codes_map_domain(self.codes@, key@);
                    assert(!old(self).codes().contains_key(key@));
                    assert(old(self).codes().remove(key@) =~= old(self).codes());
                }
            },
        }
    }
}

// ── Cache keys ─────────────────────────────────────────────────────────

/// Rate-limit counter key for a purpose and subject.
pub open spec fn rate_key(purpose: Seq<char>, subject: Seq<char>) -> Seq<char> {
    "rate:"@ + purpose + ":"@ + subject
}

/// Lockout counter key for an account.
pub open spec fn lockout_key(account_id: Seq<char>) -> Seq<char> {
    "lockout:"@ + account_id
}

/// Single-use SMS challenge key for an account and MFA method.
pub open spec fn sms_key(account_id: Seq<char>, mfa_type: Seq<char>) -> Seq<char> {
    "mfa:sms:"@ + account_id + ":"@ + mfa_type
}

pub fn make_rate_key(purpose: &str, subject: &str) -> (r: String)
    ensures
        r@ == rate_key(purpose@, subject@),
{
    let mut s = String::from_str("rate:");
    s.append(purpose);
    s.append(":");
    s.append(subject);
    s
}

pub fn make_lockout_key(account_id: &str) -> (r: String)
    ensures
        r@ == lockout_key(account_id@),
{
    let mut s = String::from_str("lockout:");
    s.append(account_id);
    s
}

pub fn make_sms_key(account_id: &str, mfa_type: &str) -> (r: String)
    ensures
        r@ == sms_key(account_id@, mfa_type@),
{
    let mut s = String::from_str("mfa:sms:");
    s.append(account_id);
    s.append(":");
    s.append(mfa_type);
    s
}

/// A rate-limit key never collides with a lockout key: the two prefixes
/// differ in their first character.
pub proof fn lemma_rate_lockout_keys_distinct(
    purpose: Seq<char>,
    subject: Seq<char>,
    account_id: Seq<char>,
)
    ensures
        rate_key(purpose, subject) != lockout_key(account_id),
{
    reveal_strlit("rate:");
    reveal_strlit("lockout:");
    assert(rate_key(purpose, subject)[0] == 'r');
    assert(lockout_key(account_id)[0] == 'l');
    assert(rate_key(purpose, subject) != lockout_key(account_id)) by {
        if rate_key(purpose, subject) == lockout_key(account_id) {
            assert(rate_key(purpose, subject)[0] == lockout_key(account_id)[0]);
        }
    }
}

} // verus!
