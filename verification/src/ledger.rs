//! Durable balance ledger, modeled as a row store keyed by account
//! number.
//!
//! One `Balance` row exists per opened account. `open` creates the
//! zero-balance row and refuses a duplicate key; `apply_delta` is the
//! single-leg read-modify-write primitive a transfer is built from.
//! Amounts are signed integers in minor units, so no rounding drift
//! can occur.

use vstd::prelude::*;

verus! {

/// How far negative an account may in principle go; never enforced by
/// the ledger itself, carried as configuration on each row.
pub const CREDIT_LIMIT: i64 = -50000;

/// One balance row: the running total for one account.
#[derive(Debug, Clone, PartialEq)]
pub struct Balance {
    pub account_no: String,
    pub amount: i64,
    pub limits: i64,
    pub created_at: i64,
    pub updated_at: i64,
}

/// Why a ledger call was refused.
#[derive(Debug, Clone, Copy, PartialEq, Eq, Structural)]
pub enum LedgerError {
    /// `open` found a row under the requested account number.
    AlreadyExists,
    /// `apply_delta` found no row under the requested account number.
    NotFound,
}

impl Balance {
    /// A fresh zero-balance row for `account_no`.
    pub fn new(account_no: String, now: i64) -> (b: Balance)
        ensures
            b.account_no == account_no,
            b.amount == 0,
            b.limits == CREDIT_LIMIT,
            b.created_at == now,
            b.updated_at == now,
    {
        Balance { account_no, amount: 0, limits: CREDIT_LIMIT, created_at: now, updated_at: now }
    }

    /// A field-for-field copy of the row.
    pub fn clone_row(&self) -> (r: Balance)
        ensures
            r == *self,
    {
        Balance {
            account_no: self.account_no.clone(),
            amount: self.amount,
            limits: self.limits,
            created_at: self.created_at,
            updated_at: self.updated_at,
        }
    }
}

/// The balance row store: at most one row per account number.
pub struct LedgerStore {
    pub rows: Vec<Balance>,
}

impl LedgerStore {
    /// Row keys are unique.
    pub open spec fn wf(self) -> bool {
        forall|i: int, j: int|
            0 <= i < j < self.rows@.len() ==> self.rows@[i].account_no@
                != self.rows@[j].account_no@
    }

    /// The rows, in insertion order.
    pub open spec fn spec_rows(self) -> Seq<Balance> {
        self.rows@
    }

    /// Whether a row exists under key `k`.
    pub open spec fn spec_contains(self, k: Seq<char>) -> bool {
        exists|i: int| 0 <= i < self.rows@.len() && self.rows@[i].account_no@ == k
    }

    /// The index of the row under key `k`.
    pub open spec fn spec_idx(self, k: Seq<char>) -> int {
        choose|i: int| 0 <= i < self.rows@.len() && self.rows@[i].account_no@ == k
    }

    /// The row under key `k`.
    pub open spec fn spec_get(self, k: Seq<char>) -> Balance {
        self.rows@[self.spec_idx(k)]
    }

    /// In a well-formed store, any row with key `k` is the row `spec_get`
    /// yields for `k`.
    pub proof fn lemma_unique_get(self, k: Seq<char>, i: int)
        requires
            self.wf(),
            0 <= i < self.spec_rows().len(),
            self.spec_rows()[i].account_no@ == k,
        ensures
            self.spec_contains(k),
            self.spec_idx(k) == i,
            self.spec_get(k) == self.spec_rows()[i],
    {
        assert(self.spec_contains(k));
        let j = self.spec_idx(k);
        assert(0 <= j < self.rows@.len() && self.rows@[j].account_no@ == k);
        if i < j {
            assert(self.rows@[i].account_no@ != self.rows@[j].account_no@);
        } else if j < i {
            assert(self.rows@[j].account_no@ != self.rows@[i].account_no@);
        }
    }

    /// An empty ledger.
    pub fn new() -> (s: Self)
        ensures
            s.wf(),
            s.spec_rows().len() == 0,
            forall|k: Seq<char>| !s.spec_contains(k),
    {
        LedgerStore { rows: Vec::new() }
    }

    /// The index of the row under `account_no`, if any.
    fn find_index(&self, account_no: &String) -> (r: Option<usize>)
        requires
            self.wf(),
        ensures
            match r {
                Some(i) => i < self.spec_rows().len() && self.spec_rows()[i as int].account_no@
                    == account_no@ && self.spec_contains(account_no@) && self.spec_idx(
                    account_no@,
                ) == i,
                None => !self.spec_contains(account_no@),
            },
    {
        let n = self.rows.len();
        let mut i: usize = 0;
        while i < n
            invariant
                self.wf(),
                n == self.spec_rows().len(),
                0 <= i <= n,
                forall|j: int| 0 <= j < i ==> self.spec_rows()[j].account_no@ != account_no@,
            decreases n - i,
        {
            if self.rows[i].account_no == *account_no {
                proof {
                    self.lemma_unique_get(account_no@, i as int);
                }
                return Some(i);
            }
            i = i + 1;
        }
        None
    }

    /// Exact-key lookup of the row under `account_no`.
    pub fn get_balance_by_account_no(&self, account_no: &String) -> (r: Option<Balance>)
        requires
            self.wf(),
        ensures
            match r {
                Some(b) => self.spec_contains(account_no@) && b == self.spec_get(account_no@),
                None => !self.spec_contains(account_no@),
            },
    {
        match self.find_index(account_no) {
            Some(i) => Some(self.rows[i].clone_row()),
            None => None,
        }
    }

    /// Creates the zero-balance row for `account_no`; refused when a row
    /// already exists under that key.
    pub fn open(&mut self, account_no: String, now: i64) -> (r: Result<Balance, LedgerError>)
        requires
            old(self).wf(),
        ensures
            final(self).wf(),
            r is Ok <==> !old(self).spec_contains(account_no@),
            r matches Err(e) ==> e == LedgerError::AlreadyExists && *final(self) == *old(self),
            r matches Ok(b) ==> {
                &&& b.account_no == account_no
                &&& b.amount == 0
                &&& b.limits == CREDIT_LIMIT
                &&& b.created_at == now
                &&& b.updated_at == now
                &&& final(self).spec_rows() == old(self).spec_rows().push(b)
                &&& final(self).spec_contains(account_no@)
                &&& final(self).spec_get(account_no@) == b
            },
            forall|k2: Seq<char>|
                k2 != account_no@ ==> (final(self).spec_contains(k2) == old(self).spec_contains(
                    k2,
                )),
            forall|k2: Seq<char>|
                k2 != account_no@ && old(self).spec_contains(k2) ==> final(self).spec_get(k2)
                    == old(self).spec_get(k2),
    {
        if let Some(_i) = self.find_index(&account_no) {
            return Err(LedgerError::AlreadyExists);
        }
        let b = Balance::new(account_no, now);
        let result = b.clone_row();
        let ghost pre = self.rows@;
        self.rows.push(b);
        proof {
            let k = result.account_no@;
            assert forall|i: int, j: int| 0 <= i < j < self.rows@.len() implies self.rows@[i].account_no@
                != self.rows@[j].account_no@ by {
                if j == pre.len() {
                    assert(self.rows@[i] == pre[i]);
                }
            }
            self.lemma_unique_get(k, pre.len() as int);
            assert forall|k2: Seq<char>| k2 != k implies (self.spec_contains(k2) == old(
                self,
            ).spec_contains(k2)) by {
                if old(self).spec_contains(k2) {
                    let i = old(self).spec_idx(k2);
                    assert(self.rows@[i].account_no@ == k2);
                }
                if self.spec_contains(k2) {
                    let i = self.spec_idx(k2);
                    assert(0 <= i < self.rows@.len() && self.rows@[i].account_no@ == k2);
                    assert(i < pre.len());
                    assert(pre[i].account_no@ == k2);
                }
            }
            assert forall|k2: Seq<char>|
                k2 != k && old(self).spec_contains(k2) implies self.spec_get(k2) == old(
                self,
            ).spec_get(k2) by {
                let i = old(self).spec_idx(k2);
                assert(pre[i].account_no@ == k2);
                assert(self.rows@[i] == pre[i]);
                old(self).lemma_unique_get(k2, i);
                self.lemma_unique_get(k2, i);
            }
        }
        Ok(result)
    }

    /// Adds `delta` to the row under `account_no` and writes the row
    /// back; the single-leg primitive of a transfer.
    pub fn apply_delta(&mut self, account_no: &String, delta: i64, now: i64) -> (r: Result<
        Balance,
        LedgerError,
    >)
        requires
            old(self).wf(),
            old(self).spec_contains(account_no@) ==> i64::MIN <= old(self).spec_get(
                account_no@,
            ).amount + delta <= i64::MAX,
        ensures
            final(self).wf(),
            r is Ok <==> old(self).spec_contains(account_no@),
            r matches Err(e) ==> e == LedgerError::NotFound && *final(self) == *old(self),
            r matches Ok(b) ==> {
                &&& b.account_no@ == account_no@
                &&& b.account_no == old(self).spec_get(account_no@).account_no
                &&& b.amount == old(self).spec_get(account_no@).amount + delta
                &&& b.limits == old(self).spec_get(account_no@).limits
                &&& b.created_at == old(self).spec_get(account_no@).created_at
                &&& b.updated_at == now
                &&& final(self).spec_contains(account_no@)
                &&& final(self).spec_get(account_no@) == b
                &&& final(self).spec_rows().len() == old(self).spec_rows().len()
            },
            forall|k2: Seq<char>| final(self).spec_contains(k2) == old(self).spec_contains(k2),
            forall|k2: Seq<char>|
                k2 != account_no@ && old(self).spec_contains(k2) ==> final(self).spec_get(k2)
                    == old(self).spec_get(k2),
    {
        let i = match self.find_index(account_no) {
            Some(i) => i,
            None => {
                return Err(LedgerError::NotFound);
            },
        };
        let old_row = self.rows[i].clone_row();
        let updated = Balance {
            account_no: old_row.account_no,
            amount: old_row.amount + delta,
            limits: old_row.limits,
            created_at: old_row.created_at,
            updated_at: now,
        };
        let result = updated.clone_row();
        let ghost pre = self.rows@;
        self.rows[i] = updated;
        proof {
            let k = account_no@;
            let ii = i as int;
            assert(self.rows@ == pre.update(ii, result));
            assert forall|a: int, b: int| 0 <= a < b < self.rows@.len() implies self.rows@[a].account_no@
                != self.rows@[b].account_no@ by {
                assert(pre[a].account_no@ != pre[b].account_no@);
            }
            self.lemma_unique_get(k, ii);
            assert forall|k2: Seq<char>| self.spec_contains(k2) == old(self).spec_contains(
                k2,
            ) by {
                if old(self).spec_contains(k2) {
                    let j = old(self).spec_idx(k2);
                    assert(self.rows@[j].account_no@ == k2);
                }
                if self.spec_contains(k2) {
                    let j = self.spec_idx(k2);
                    assert(pre[j].account_no@ == k2);
                }
            }
            assert forall|k2: Seq<char>|
                k2 != k && old(self).spec_contains(k2) implies self.spec_get(k2) == old(
                self,
            ).spec_get(k2) by {
                let j = old(self).spec_idx(k2);
                assert(pre[j].account_no@ == k2);
                assert(j != ii);
                assert(self.rows@[j] == pre[j]);
                old(self).lemma_unique_get(k2, j);
                self.lemma_unique_get(k2, j);
            }
        }
        Ok(result)
    }
}

} // verus!
