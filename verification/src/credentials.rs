//! Persistent credential store: account_id → password-hash mapping with a
//! uniqueness constraint, and the directory of known external accounts.

use vstd::prelude::*;
use vstd::string::StrSliceExecFns;
use crate::strutil::str_eq;

verus! {

/// One stored credential. Created on first successful authentication for
/// an account with no row; never rotated.
pub struct Credential {
    pub account_id: String,
    pub password_hash: String,
}

/// Insert against an existing key violates the uniqueness constraint.
#[derive(Clone, Copy, Debug, PartialEq, Eq, Structural)]
pub enum StoreError {
    Duplicate,
}

spec fn creds_map(s: Seq<Credential>) -> Map<Seq<char>, Seq<char>>
    decreases s.len(),
{
    if s.len() == 0 {
        Map::empty()
    } else {
        creds_map(s.drop_last()).insert(s.last().account_id@, s.last().password_hash@)
    }
}

spec fn unique_ids(s: Seq<Credential>) -> bool {
    forall|i: int, j: int| 0 <= i < j < s.len() ==> s[i].account_id@ != s[j].account_id@
}

proof fn lemma_creds_map_domain(s: Seq<Credential>, k: Seq<char>)
    ensures
        creds_map(s).contains_key(k) <==> exists|i: int| 0 <= i < s.len() && s[i].account_id@
            == k,
    decreases s.len(),
{
    if s.len() > 0 {
        lemma_creds_map_domain(s.drop_last(), k);
        if creds_map(s).contains_key(k) && s.last().account_id@ != k {
            let i = choose|i: int|
                0 <= i < s.drop_last().len() && s.drop_last()[i].account_id@ == k;
            assert(s[i].account_id@ == k);
        }
        if exists|i: int| 0 <= i < s.len() && s[i].account_id@ == k {
            let i = choose|i: int| 0 <= i < s.len() && s[i].account_id@ == k;
            if i < s.len() - 1 {
                assert(s.drop_last()[i].account_id@ == k);
            }
        }
    }
}

proof fn lemma_creds_map_index(s: Seq<Credential>, i: int)
    requires
        unique_ids(s),
        0 <= i < s.len(),
    ensures
        creds_map(s).contains_key(s[i].account_id@),
        creds_map(s)[s[i].account_id@] == s[i].password_hash@,
    decreases s.len(),
{
    if i == s.len() - 1 {
    } else {
        assert(unique_ids(s.drop_last()));
        lemma_creds_map_index(s.drop_last(), i);
        assert(s.drop_last()[i] == s[i]);
        assert(s[i].account_id@ != s.last().account_id@);
    }
}

proof fn lemma_creds_map_push(s: Seq<Credential>, e: Credential)
    requires
        unique_ids(s),
        forall|i: int| 0 <= i < s.len() ==> s[i].account_id@ != e.account_id@,
    ensures
        unique_ids(s.push(e)),
        creds_map(s.push(e)) =~= creds_map(s).insert(e.account_id@, e.password_hash@),
{
    assert(s.push(e).drop_last() =~= s);
    assert(s.push(e).last() == e);
}

/// In-memory model of the keyed credential store the service consumes.
/// At most one credential exists per account_id.
pub struct CredentialStore {
    records: Vec<Credential>,
}

impl CredentialStore {
    /// The stored mapping account_id → password hash.
    pub closed spec fn creds(self) -> Map<Seq<char>, Seq<char>> {
        creds_map(self.records@)
    }

    pub closed spec fn wf(self) -> bool {
        unique_ids(self.records@)
    }

    pub fn new() -> (r: CredentialStore)
        ensures
            r.wf(),
            r.creds() == Map::<Seq<char>, Seq<char>>::empty(),
    {
        CredentialStore { records: Vec::new() }
    }

    fn find(&self, account_id: &str) -> (r: Option<usize>)
        ensures
            match r {
                Some(i) => i < self.records@.len() && self.records@[i as int].account_id@
                    == account_id@,
                None => forall|j: int| 0 <= j < self.records@.len()
                    ==> self.records@[j].account_id@ != account_id@,
            },
    {
        let mut i: usize = 0;
        while i < self.records.len()
            invariant
                i <= self.records@.len(),
                forall|j: int| 0 <= j < i ==> self.records@[j].account_id@ != account_id@,
            decreases self.records@.len() - i,
        {
            if str_eq(self.records[i].account_id.as_str(), account_id) {
                return Some(i);
            }
            i = i + 1;
        }
        None
    }

    /// The stored password hash for an account, if a credential exists.
    pub fn lookup(&self, account_id: &str) -> (r: Option<String>)
        requires
            self.wf(),
        ensures
            match r {
                Some(h) => self.creds().contains_key(account_id@) && h@ == self.creds()[account_id@],
                None => !self.creds().contains_key(account_id@),
            },
    {
        match self.find(account_id) {
            Some(i) => {
                proof {
                    lemma_creds_map_index(self.records@, i as int);
                }
                Some(self.records[i].password_hash.clone())
            },
            None => {
                proof {
                    lemma_creds_map_domain(self.records@, account_id@);
                }
                None
            },
        }
    }

    /// Insert a fresh credential; the uniqueness constraint rejects a
    /// second row for the same account_id.
    pub fn insert(&mut self, account_id: &str, password_hash: String) -> (r: Result<
        (),
        StoreError,
    >)
        requires
            old(self).wf(),
        ensures
            final(self).wf(),
            if old(self).creds().contains_key(account_id@) {
                r == Result::<(), StoreError>::Err(StoreError::Duplicate) && final(self).creds()
                    == old(self).creds()
            } else {
                r == Result::<(), StoreError>::Ok(()) && final(self).creds() == old(
                    self,
                ).creds().insert(account_id@, password_hash@)
            },
    {
        match self.find(account_id) {
            Some(_) => {
                proof {
                    lemma_creds_map_domain(self.records@, account_id@);
                }
                Err(StoreError::Duplicate)
            },
            None => {
                proof {
                    lemma_creds_map_domain(self.records@, account_id@);
                }
                let cred = Credential { account_id: account_id.to_owned(), password_hash };
                proof {
                    lemma_creds_map_push(self.records@, cred);
                }
                self.records.push(cred);
                Ok(())
            },
        }
    }
}

/// Directory of external accounts that may authenticate. Keeping it is a
/// collaborator concern; this core only asks whether an account exists.
pub struct AccountDirectory {
    ids: Vec<String>,
}

impl AccountDirectory {
    /// Does the directory know this account?
    pub closed spec fn has(self, account_id: Seq<char>) -> bool {
        exists|i: int| 0 <= i < self.ids@.len() && self.ids@[i]@ == account_id
    }

    pub fn new() -> (r: AccountDirectory)
        ensures
            forall|x: Seq<char>| !r.has(x),
    {
        AccountDirectory { ids: Vec::new() }
    }

    /// Register an account.
    pub fn add(&mut self, account_id: String)
        ensures
            forall|x: Seq<char>| #[trigger]
                final(self).has(x) <==> (old(self).has(x) || x == account_id@),
    {
        self.ids.push(account_id);
        proof {
            assert forall|x: Seq<char>|
                #[trigger] self.has(x) <==> (old(self).has(x) || x == account_id@) by {
                if self.has(x) {
                    let i = choose|i: int| 0 <= i < self.ids@.len() && self.ids@[i]@ == x;
                    if i < self.ids@.len() - 1 {
                        assert(old(self).ids@[i]@ == x);
                    }
                }
                if old(self).has(x) {
                    let i = choose|i: int|
                        0 <= i < old(self).ids@.len() && old(self).ids@[i]@ == x;
                    assert(self.ids@[i]@ == x);
                }
                if x == account_id@ {
                    assert(self.ids@[self.ids@.len() - 1]@ == x);
                }
            }
        }
    }

    /// Is this account known?
    pub fn contains(&self, account_id: &str) -> (r: bool)
        ensures
            r == self.has(account_id@),
    {
        let mut i: usize = 0;
        while i < self.ids.len()
            invariant
                i <= self.ids@.len(),
                forall|j: int| 0 <= j < i ==> self.ids@[j]@ != account_id@,
            decreases self.ids@.len() - i,
        {
            if str_eq(self.ids[i].as_str(), account_id) {
                return true;
            }
            i = i + 1;
        }
        false
    }
}

} // verus!
