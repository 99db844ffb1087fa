//! Multi-factor enrollment and verification: TOTP and SMS methods, one
//! enrollment row per (account, method), upserted on re-enrollment; SMS
//! codes are single-use challenges in the ephemeral cache.

use vstd::prelude::*;
use vstd::string::StringExecFns;
use crate::cache::{make_sms_key, sms_key, CounterCache};
use crate::error::AppError;
use crate::models::{EnrollMfaRequest, MfaEnrollment, MfaQuery, MfaResponse, VerifyMfaRequest};
use crate::strutil::{clone_opt_string, str_eq};
use crate::totp::{
    base32_decode_of, base32_of, decode_totp_secret, encode_totp_secret, generate_totp_secret,
    totp_check, totp_code_of, totp_provisioning_url, totp_url_of,
};

verus! {

/// Key of one enrollment row.
pub open spec fn row_key(e: MfaEnrollment) -> (Seq<char>, Seq<char>) {
    (e.account_id@, e.mfa_type@)
}

spec fn rows_map(s: Seq<MfaEnrollment>) -> Map<(Seq<char>, Seq<char>), MfaEnrollment>
    decreases s.len(),
{
    if s.len() == 0 {
        Map::empty()
    } else {
        rows_map(s.drop_last()).insert(row_key(s.last()), s.last())
    }
}

spec fn unique_row_keys(s: Seq<MfaEnrollment>) -> bool {
    forall|i: int, j: int| 0 <= i < j < s.len() ==> row_key(s[i]) != row_key(s[j])
}

proof fn lemma_rows_map_domain(s: Seq<MfaEnrollment>, k: (Seq<char>, Seq<char>))
    ensures
        rows_map(s).contains_key(k) <==> exists|i: int| 0 <= i < s.len() && row_key(s[i]) == k,
    decreases s.len(),
{
    if s.len() > 0 {
        lemma_rows_map_domain(s.drop_last(), k);
        if rows_map(s).contains_key(k) && row_key(s.last()) != k {
            let i = choose|i: int|
                0 <= i < s.drop_last().len() && row_key(s.drop_last()[i]) == k;
            assert(row_key(s[i]) == k);
        }
        if exists|i: int| 0 <= i < s.len() && row_key(s[i]) == k {
            let i = choose|i: int| 0 <= i < s.len() && row_key(s[i]) == k;
            if i < s.len() - 1 {
                assert(row_key(s.drop_last()[i]) == k);
            }
        }
    }
}

proof fn lemma_rows_map_index(s: Seq<MfaEnrollment>, i: int)
    requires
        unique_row_keys(s),
        0 <= i < s.len(),
    ensures
        rows_map(s).contains_key(row_key(s[i])),
        rows_map(s)[row_key(s[i])] == s[i],
    decreases s.len(),
{
    if i == s.len() - 1 {
    } else {
        assert(unique_row_keys(s.drop_last()));
        lemma_rows_map_index(s.drop_last(), i);
        assert(s.drop_last()[i] == s[i]);
        assert(row_key(s[i]) != row_key(s.last()));
    }
}

proof fn lemma_rows_map_update(s: Seq<MfaEnrollment>, i: int, e: MfaEnrollment)
    requires
        unique_row_keys(s),
        0 <= i < s.len(),
        row_key(e) == row_key(s[i]),
    ensures
        unique_row_keys(s.update(i, e)),
        rows_map(s.update(i, e)) =~= rows_map(s).insert(row_key(e), e),
    decreases s.len(),
{
    if i == s.len() - 1 {
        assert(s.update(i, e).drop_last() =~= s.drop_last());
        assert(s.update(i, e).last() == e);
    } else {
        assert(unique_row_keys(s.drop_last()));
        lemma_rows_map_update(s.drop_last(), i, e);
        assert(s.update(i, e).drop_last() =~= s.drop_last().update(i, e));
        assert(s.update(i, e).last() == s.last());
        assert(row_key(s[i]) != row_key(s.last()));
    }
}

proof fn lemma_rows_map_push(s: Seq<MfaEnrollment>, e: MfaEnrollment)
    requires
        unique_row_keys(s),
        forall|i: int| 0 <= i < s.len() ==> row_key(s[i]) != row_key(e),
    ensures
        unique_row_keys(s.push(e)),
        rows_map(s.push(e)) =~= rows_map(s).insert(row_key(e), e),
{
    assert(s.push(e).drop_last() =~= s);
    assert(s.push(e).last() == e);
}

/// Copy one enrollment row.
fn clone_row(e: &MfaEnrollment) -> (r: MfaEnrollment)
    ensures
        r == *e,
{
    MfaEnrollment {
        account_id: e.account_id.clone(),
        mfa_type: e.mfa_type.clone(),
        secret: clone_opt_string(&e.secret),
        phone_number: clone_opt_string(&e.phone_number),
        enabled: e.enabled,
    }
}

/// In-memory model of the persistent MFA enrollment store, unique per
/// (account_id, mfa_type).
pub struct MfaStore {
    rows: Vec<MfaEnrollment>,
}

impl MfaStore {
    /// The stored rows, keyed by (account_id, mfa_type).
    pub closed spec fn rows(self) -> Map<(Seq<char>, Seq<char>), MfaEnrollment> {
        rows_map(self.rows@)
    }

    /// The stored rows in insertion order.
    pub closed spec fn rows_seq(self) -> Seq<MfaEnrollment> {
        self.rows@
    }

    pub closed spec fn wf(self) -> bool {
        unique_row_keys(self.rows@)
    }

    pub fn new() -> (r: MfaStore)
        ensures
            r.wf(),
            r.rows() == Map::<(Seq<char>, Seq<char>), MfaEnrollment>::empty(),
            r.rows_seq() == Seq::<MfaEnrollment>::empty(),
    {
        MfaStore { rows: Vec::new() }
    }

    fn find_index(&self, account_id: &str, mfa_type: &str) -> (r: Option<usize>)
        ensures
            match r {
                Some(i) => i < self.rows@.len() && row_key(self.rows@[i as int]) == (
                    account_id@,
                    mfa_type@,
                ),
                None => forall|j: int| 0 <= j < self.rows@.len()
                    ==> row_key(self.rows@[j]) != (account_id@, mfa_type@),
            },
    {
        let mut i: usize = 0;
        while i < self.rows.len()
            invariant
                i <= self.rows@.len(),
                forall|j: int| 0 <= j < i ==> row_key(self.rows@[j]) != (account_id@, mfa_type@),
            decreases self.rows@.len() - i,
        {
            if str_eq(self.rows[i].account_id.as_str(), account_id) && str_eq(
                self.rows[i].mfa_type.as_str(),
                mfa_type,
            ) {
                return Some(i);
            }
            i = i + 1;
        }
        None
    }

    /// Insert or replace the row for (account_id, mfa_type).
    pub fn upsert(&mut self, row: MfaEnrollment)
        requires
            old(self).wf(),
        ensures
            final(self).wf(),
            final(self).rows() == old(self).rows().insert((row.account_id@, row.mfa_type@), row),
            if old(self).rows().contains_key((row.account_id@, row.mfa_type@)) {
                exists|idx: int|
                    #![auto]
                    0 <= idx < old(self).rows_seq().len() && row_key(old(self).rows_seq()[idx]) == (
                        row.account_id@,
                        row.mfa_type@,
                    ) && final(self).rows_seq() == old(self).rows_seq().update(idx, row)
            } else {
                final(self).rows_seq() == old(self).rows_seq().push(row)
            },
    {
        match self.find_index(row.account_id.as_str(), row.mfa_type.as_str()) {
            Some(i) => {
                proof {
                    lemma_rows_map_index(self.rows@, i as int);
                    lemma_rows_map_update(self.rows@, i as int, row);
                }
                self.rows.set(i, row);
                proof {
                    let idx = i as int;
                    assert(0 <= idx < old(self).rows_seq().len());
                    assert(row_key(old(self).rows_seq()[idx]) == (row.account_id@, row.mfa_type@));
                    assert(self.rows_seq() == old(self).rows_seq().update(idx, row));
                }
            },
            None => {
                proof {
                    lemma_rows_map_domain(self.rows@, (row.account_id@, row.mfa_type@));
                    lemma_rows_map_push(self.rows@, row);
                }
                self.rows.push(row);
            },
        }
    }

    /// The row for (account_id, mfa_type), if enrolled.
    pub fn find(&self, account_id: &str, mfa_type: &str) -> (r: Option<MfaEnrollment>)
        requires
            self.wf(),
        ensures
            match r {
                Some(row) => self.rows().contains_key((account_id@, mfa_type@)) && row
                    == self.rows()[(account_id@, mfa_type@)],
                None => !self.rows().contains_key((account_id@, mfa_type@)),
            },
    {
        match self.find_index(account_id, mfa_type) {
            Some(i) => {
                proof {
                    lemma_rows_map_index(self.rows@, i as int);
                }
                Some(clone_row(&self.rows[i]))
            },
            None => {
                proof {
                    lemma_rows_map_domain(self.rows@, (account_id@, mfa_type@));
                }
                None
            },
        }
    }

    /// All rows of one account, in insertion order.
    pub fn list(&self, account_id: &str) -> (r: Vec<MfaEnrollment>)
        ensures
            r@ == self.rows_seq().filter(|e: MfaEnrollment| e.account_id@ == account_id@),
    {
        let mut out: Vec<MfaEnrollment> = Vec::new();
        let mut i: usize = 0;
        proof {
            assert(self.rows@.take(0) =~= Seq::<MfaEnrollment>::empty());
            reveal(Seq::filter);
        }
        while i < self.rows.len()
            invariant
                i <= self.rows@.len(),
                out@ == self.rows@.take(i as int).filter(
                    |e: MfaEnrollment| e.account_id@ == account_id@,
                ),
            decreases self.rows@.len() - i,
        {
            let matches_account = str_eq(self.rows[i].account_id.as_str(), account_id);
            if matches_account {
                out.push(clone_row(&self.rows[i]));
            }
            proof {
                reveal(Seq::filter);
                let p = |e: MfaEnrollment| e.account_id@ == account_id@;
                assert(self.rows@.take(i + 1).drop_last() =~= self.rows@.take(i as int));
                assert(self.rows@.take(i + 1).last() == self.rows@[i as int]);
                assert(out@ =~= self.rows@.take(i + 1).filter(p));
            }
            i = i + 1;
        }
        proof {
            assert(self.rows@.take(self.rows@.len() as int) =~= self.rows@);
        }
        out
    }
}

/// Enroll or re-enroll an MFA method. For TOTP a fresh secret is drawn
/// and a provisioning URI derived; for SMS a phone number is required.
/// Either way the row is upserted with enabled forced to true.
pub fn enroll_mfa(store: &mut MfaStore, req: &EnrollMfaRequest) -> (r: Result<
    MfaResponse,
    AppError,
>)
    requires
        old(store).wf(),
    ensures
        final(store).wf(),
        ({
            let a = req.account_id@;
            let t = req.mfa_type@;
            if t != "totp"@ && t != "sms"@ {
                &&& final(store).rows() == old(store).rows()
                &&& r matches Ok(resp) && !resp.success && resp.message@
                    == "mfa_type must be 'totp' or 'sms'"@ && resp.provisioning_uri is None
            } else if t == "sms"@ && req.phone_number is None {
                &&& final(store).rows() == old(store).rows()
                &&& r matches Ok(resp) && !resp.success && resp.message@
                    == "phone_number is required for SMS enrollment"@ && resp.provisioning_uri
                    is None
            } else if t == "totp"@ {
                if a.contains(':') {
                    &&& final(store).rows() == old(store).rows()
                    &&& r matches Err(e) && e is InternalError
                } else {
                    r matches Ok(resp) && resp.success && resp.message@
                        == "MFA enrolled successfully"@ && exists|sec: Seq<u8>, row: MfaEnrollment|
                        {
                            &&& sec.len() == 20
                            &&& resp.provisioning_uri matches Some(u) && u@ == totp_url_of(sec, a)
                            &&& row.account_id@ == a
                            &&& row.mfa_type@ == t
                            &&& row.secret matches Some(s) && s@ == base32_of(sec)
                            &&& row.phone_number == req.phone_number
                            &&& row.enabled
                            &&& final(store).rows() == old(store).rows().insert((a, t), row)
                        }
                }
            } else {
                r matches Ok(resp) && resp.success && resp.message@ == "MFA enrolled successfully"@
                    && resp.provisioning_uri is None && exists|row: MfaEnrollment|
                    {
                        &&& row.account_id@ == a
                        &&& row.mfa_type@ == t
                        &&& row.secret is None
                        &&& row.phone_number == req.phone_number
                        &&& row.enabled
                        &&& final(store).rows() == old(store).rows().insert((a, t), row)
                    }
            }
        }),
{
    let is_totp = str_eq(req.mfa_type.as_str(), "totp");
    let is_sms = str_eq(req.mfa_type.as_str(), "sms");
    if !is_totp && !is_sms {
        return Ok(MfaResponse {
            success: false,
            message: String::from_str("mfa_type must be 'totp' or 'sms'"),
            provisioning_uri: None,
        });
    }
    if is_sms && req.phone_number.is_none() {
        return Ok(MfaResponse {
            success: false,
            message: String::from_str("phone_number is required for SMS enrollment"),
            provisioning_uri: None,
        });
    }
    if is_totp {
        let secret = generate_totp_secret();
        let uri = match totp_provisioning_url(&secret, req.account_id.as_str()) {
            Some(u) => u,
            None => {
                return Err(AppError::InternalError(String::from_str("Failed to generate TOTP")));
            },
        };
        let encoded = encode_totp_secret(&secret);
        let row = MfaEnrollment {
            account_id: req.account_id.clone(),
            mfa_type: req.mfa_type.clone(),
            secret: Some(encoded),
            phone_number: clone_opt_string(&req.phone_number),
            enabled: true,
        };
        store.upsert(row);
        Ok(MfaResponse {
            success: true,
            message: String::from_str("MFA enrolled successfully"),
            provisioning_uri: Some(uri),
        })
    } else {
        let row = MfaEnrollment {
            account_id: req.account_id.clone(),
            mfa_type: req.mfa_type.clone(),
            secret: None,
            phone_number: clone_opt_string(&req.phone_number),
            enabled: true,
        };
        store.upsert(row);
        Ok(MfaResponse {
            success: true,
            message: String::from_str("MFA enrolled successfully"),
            provisioning_uri: None,
        })
    }
}

/// List all MFA enrollments of an account, read-only.
pub fn get_mfa(store: &MfaStore, query: &MfaQuery) -> (r: Result<Vec<MfaEnrollment>, AppError>)
    requires
        store.wf(),
    ensures
        r matches Ok(rows) && rows@ == store.rows_seq().filter(
            |e: MfaEnrollment| e.account_id@ == query.account_id@,
        ),
{
    Ok(store.list(query.account_id.as_str()))
}

/// Law: a successful SMS verification consumes the challenge. The code
/// store no longer holds the key afterwards, so verifying the same code a
/// second time finds no challenge and fails.
pub proof fn lemma_sms_code_single_use(
    before: CounterCache,
    after: CounterCache,
    account_id: Seq<char>,
    mfa_type: Seq<char>,
    later: usize,
)
    requires
        after.codes() == before.codes().remove(sms_key(account_id, mfa_type)),
    ensures
        after.code_value(sms_key(account_id, mfa_type), later) is None,
{
}

/// Verify an MFA code: TOTP codes against the stored secret with one step
/// of drift tolerance, SMS codes against the single-use challenge store.
pub fn verify_mfa(
    store: &MfaStore,
    cache: &mut CounterCache,
    req: &VerifyMfaRequest,
    now: usize,
) -> (r: Result<MfaResponse, AppError>)
    requires
        store.wf(),
        old(cache).wf(),
        now >= 30,
        now + 30 <= usize::MAX,
    ensures
        final(cache).wf(),
        final(cache).is_available() == old(cache).is_available(),
        final(cache).counters() == old(cache).counters(),
        r matches Ok(resp) ==> resp.provisioning_uri is None,
        ({
            let a = req.account_id@;
            let t = req.mfa_type@;
            let code = req.code@;
            let k = (a, t);
            if !store.rows().contains_key(k) {
                &&& final(cache).codes() == old(cache).codes()
                &&& r matches Ok(resp) && !resp.success && resp.message@
                    == "MFA not enrolled for this account/type"@
            } else {
                let row = store.rows()[k];
                if !row.enabled {
                    &&& final(cache).codes() == old(cache).codes()
                    &&& r matches Ok(resp) && !resp.success && resp.message@
                        == "MFA is disabled for this enrollment"@
                } else if code.len() == 0 {
                    &&& final(cache).codes() == old(cache).codes()
                    &&& r matches Ok(resp) && !resp.success && resp.message@
                        == "Code must not be empty"@
                } else if t == "totp"@ {
                    &&& final(cache).codes() == old(cache).codes()
                    &&& match row.secret {
                        None => r matches Ok(resp) && !resp.success && resp.message@
                            == "TOTP not properly configured"@,
                        Some(s) => match base32_decode_of(s@) {
                            None => r matches Err(e) && e is InternalError,
                            Some(bytes) => if bytes.len() < 16 || a.contains(':') {
                                r matches Err(e) && e is InternalError
                            } else {
                                r matches Ok(resp) && {
                                    let good = exists|st: u64|
                                        (now as u64) / 30 - 1 <= st <= (now as u64) / 30 + 1
                                            && code == totp_code_of(bytes, st);
                                    &&& resp.success == good
                                    &&& good ==> resp.message@ == "MFA verification successful"@
                                    &&& !good ==> resp.message@ == "Invalid verification code"@
                                }
                            },
                        },
                    }
                } else if t == "sms"@ {
                    if !old(cache).is_available() {
                        &&& final(cache).codes() == old(cache).codes()
                        &&& r matches Err(e) && e is InternalError
                    } else {
                        match old(cache).code_value(sms_key(a, t), now) {
                            Some(stored) => if stored == code {
                                &&& final(cache).codes() == old(cache).codes().remove(
                                    sms_key(a, t),
                                )
                                &&& r matches Ok(resp) && resp.success && resp.message@
                                    == "MFA verification successful"@
                            } else {
                                &&& final(cache).codes() == old(cache).codes()
                                &&& r matches Ok(resp) && !resp.success && resp.message@
                                    == "Invalid verification code"@
                            },
                            None => {
                                &&& final(cache).codes() == old(cache).codes()
                                &&& r matches Ok(resp) && !resp.success && resp.message@
                                    == "Invalid verification code"@
                            },
                        }
                    }
                } else {
                    &&& final(cache).codes() == old(cache).codes()
                    &&& r matches Ok(resp) && !resp.success && resp.message@
                        == "Unsupported MFA type"@
                }
            }
        }),
{
    let row = match store.find(req.account_id.as_str(), req.mfa_type.as_str()) {
        Some(row) => row,
        None => {
            return Ok(MfaResponse {
                success: false,
                message: String::from_str("MFA not enrolled for this account/type"),
                provisioning_uri: None,
            });
        },
    };
    if !row.enabled {
        return Ok(MfaResponse {
            success: false,
            message: String::from_str("MFA is disabled for this enrollment"),
            provisioning_uri: None,
        });
    }
    if req.code.as_str().is_empty() {
        return Ok(MfaResponse {
            success: false,
            message: String::from_str("Code must not be empty"),
            provisioning_uri: None,
        });
    }
    if str_eq(req.mfa_type.as_str(), "totp") {
        let encoded = match row.secret {
            Some(s) => s,
            None => {
                return Ok(MfaResponse {
                    success: false,
                    message: String::from_str("TOTP not properly configured"),
                    provisioning_uri: None,
                });
            },
        };
        let secret_bytes = match decode_totp_secret(encoded.as_str()) {
            Some(b) => b,
            None => {
                return Err(AppError::InternalError(String::from_str("Invalid TOTP configuration")));
            },
        };
        let checked = totp_check(&secret_bytes, req.account_id.as_str(), req.code.as_str(), now as u64);
        match checked {
            None => Err(AppError::InternalError(String::from_str("TOTP verification error"))),
            Some(true) => Ok(MfaResponse {
                success: true,
                message: String::from_str("MFA verification successful"),
                provisioning_uri: None,
            }),
            Some(false) => Ok(MfaResponse {
                success: false,
                message: String::from_str("Invalid verification code"),
                provisioning_uri: None,
            }),
        }
    } else if str_eq(req.mfa_type.as_str(), "sms") {
        let key = make_sms_key(req.account_id.as_str(), req.mfa_type.as_str());
        let stored = match cache.get_code(key.as_str(), now) {
            Some(inner) => inner,
            None => {
                return Err(AppError::InternalError(String::from_str("Redis connection error")));
            },
        };
        match stored {
            Some(code) => {
                if code == req.code {
                    cache.delete_code(key.as_str());
                    Ok(MfaResponse {
                        success: true,
                        message: String::from_str("MFA verification successful"),
                        provisioning_uri: None,
                    })
                } else {
                    Ok(MfaResponse {
                        success: false,
                        message: String::from_str("Invalid verification code"),
                        provisioning_uri: None,
                    })
                }
            },
            None => Ok(MfaResponse {
                success: false,
                message: String::from_str("Invalid verification code"),
                provisioning_uri: None,
            }),
        }
    } else {
        Ok(MfaResponse {
            success: false,
            message: String::from_str("Unsupported MFA type"),
            provisioning_uri: None,
        })
    }
}

} // verus!
