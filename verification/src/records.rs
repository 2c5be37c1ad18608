//! Durable saga outcome records.
//!
//! Each saga instance — an account creation or a money transfer — is
//! resolved exactly once; its outcome is written under the originating
//! request id and never overwritten. A stored record with
//! `reason == None` marks success, `Some(text)` the failure reason.
//! These records are the idempotency backstop under at-least-once
//! delivery: a redelivered command finds its record and is absorbed.

use vstd::prelude::*;

verus! {

/// The outcome record of one account-creation saga, keyed by `id`.
#[derive(Debug, Clone, PartialEq)]
pub struct ConfirmedAccount {
    pub id: String,
    pub account_no: String,
    pub account_type: String,
    pub reason: Option<String>,
    pub created_at: i64,
    pub updated_at: i64,
}

/// The outcome record of one money-transfer saga, keyed by `id`.
#[derive(Debug, Clone, PartialEq)]
pub struct ConfirmedTransaction {
    pub id: String,
    pub reason: Option<String>,
    pub created_at: i64,
}

/// A field-for-field copy of an optional reason text.
fn clone_reason(reason: &Option<String>) -> (r: Option<String>)
    ensures
        r == *reason,
{
    match reason {
        Some(s) => Some(s.clone()),
        None => None,
    }
}

impl ConfirmedAccount {
    /// An outcome record with both timestamps set to `now`.
    pub fn new(id: String, account_no: String, tp: String, reason: Option<String>, now: i64) -> (r:
        ConfirmedAccount)
        ensures
            r == (ConfirmedAccount {
                id,
                account_no,
                account_type: tp,
                reason,
                created_at: now,
                updated_at: now,
            }),
    {
        ConfirmedAccount { id, account_no, account_type: tp, reason, created_at: now, updated_at: now }
    }

    /// A field-for-field copy of the record.
    pub fn clone_rec(&self) -> (r: ConfirmedAccount)
        ensures
            r == *self,
    {
        ConfirmedAccount {
            id: self.id.clone(),
            account_no: self.account_no.clone(),
            account_type: self.account_type.clone(),
            reason: clone_reason(&self.reason),
            created_at: self.created_at,
            updated_at: self.updated_at,
        }
    }
}

impl ConfirmedTransaction {
    /// An outcome record created at `now`.
    pub fn new(id: String, reason: Option<String>, now: i64) -> (r: ConfirmedTransaction)
        ensures
            r == (ConfirmedTransaction { id, reason, created_at: now }),
    {
        ConfirmedTransaction { id, reason, created_at: now }
    }

    /// A field-for-field copy of the record.
    pub fn clone_rec(&self) -> (r: ConfirmedTransaction)
        ensures
            r == *self,
    {
        ConfirmedTransaction {
            id: self.id.clone(),
            reason: clone_reason(&self.reason),
            created_at: self.created_at,
        }
    }
}

/// The store of account-creation outcome records: at most one per
/// request id.
pub struct CacStore {
    pub recs: Vec<ConfirmedAccount>,
}

impl CacStore {
    /// Record keys are unique.
    pub open spec fn wf(self) -> bool {
        forall|i: int, j: int|
            0 <= i < j < self.recs@.len() ==> self.recs@[i].id@ != self.recs@[j].id@
    }

    /// The records, in insertion order.
    pub open spec fn spec_recs(self) -> Seq<ConfirmedAccount> {
        self.recs@
    }

    /// Whether a record exists under request id `k`.
    pub open spec fn spec_contains(self, k: Seq<char>) -> bool {
        exists|i: int| 0 <= i < self.recs@.len() && self.recs@[i].id@ == k
    }

    /// The index of the record under request id `k`.
    pub open spec fn spec_idx(self, k: Seq<char>) -> int {
        choose|i: int| 0 <= i < self.recs@.len() && self.recs@[i].id@ == k
    }

    /// The record under request id `k`.
    pub open spec fn spec_get(self, k: Seq<char>) -> ConfirmedAccount {
        self.recs@[self.spec_idx(k)]
    }

    /// In a well-formed store, any record with id `k` is the record
    /// `spec_get` yields for `k`.
    pub proof fn lemma_unique_get(self, k: Seq<char>, i: int)
        requires
            self.wf(),
            0 <= i < self.spec_recs().len(),
            self.spec_recs()[i].id@ == k,
        ensures
            self.spec_contains(k),
            self.spec_idx(k) == i,
            self.spec_get(k) == self.spec_recs()[i],
    {
        assert(self.spec_contains(k));
        let j = self.spec_idx(k);
        assert(0 <= j < self.recs@.len() && self.recs@[j].id@ == k);
        if i < j {
            assert(self.recs@[i].id@ != self.recs@[j].id@);
        } else if j < i {
            assert(self.recs@[j].id@ != self.recs@[i].id@);
        }
    }

    /// An empty store.
    pub fn new() -> (s: Self)
        ensures
            s.wf(),
            s.spec_recs().len() == 0,
            forall|k: Seq<char>| !s.spec_contains(k),
    {
        CacStore { recs: Vec::new() }
    }

    /// Exact-key lookup of the record under request id `id`.
    pub fn get_account_by_id(&self, id: &String) -> (r: Option<ConfirmedAccount>)
        requires
            self.wf(),
        ensures
            match r {
                Some(rec) => self.spec_contains(id@) && rec == self.spec_get(id@),
                None => !self.spec_contains(id@),
            },
    {
        let n = self.recs.len();
        let mut i: usize = 0;
        while i < n
            invariant
                self.wf(),
                n == self.spec_recs().len(),
                0 <= i <= n,
                forall|j: int| 0 <= j < i ==> self.spec_recs()[j].id@ != id@,
            decreases n - i,
        {
            if self.recs[i].id == *id {
                proof {
                    self.lemma_unique_get(id@, i as int);
                }
                return Some(self.recs[i].clone_rec());
            }
            i = i + 1;
        }
        None
    }

    /// Writes the outcome record of a freshly resolved saga; the record
    /// under a given request id is written at most once.
    pub fn insert(&mut self, rec: ConfirmedAccount)
        requires
            old(self).wf(),
            !old(self).spec_contains(rec.id@),
        ensures
            final(self).wf(),
            final(self).spec_recs() == old(self).spec_recs().push(rec),
            final(self).spec_contains(rec.id@),
            final(self).spec_get(rec.id@) == rec,
            forall|k2: Seq<char>|
                k2 != rec.id@ ==> (final(self).spec_contains(k2) == old(self).spec_contains(k2)),
            forall|k2: Seq<char>|
                k2 != rec.id@ && old(self).spec_contains(k2) ==> final(self).spec_get(k2) == old(
                    self,
                ).spec_get(k2),
    {
        let ghost pre = self.recs@;
        let ghost k = rec.id@;
        self.recs.push(rec);
        proof {
            assert forall|i: int, j: int| 0 <= i < j < self.recs@.len() implies self.recs@[i].id@
                != self.recs@[j].id@ by {
                if j == pre.len() {
                    assert(self.recs@[i] == pre[i]);
                }
            }
            self.lemma_unique_get(k, pre.len() as int);
            assert forall|k2: Seq<char>| k2 != k implies (self.spec_contains(k2) == old(
                self,
            ).spec_contains(k2)) by {
                if old(self).spec_contains(k2) {
                    let i = old(self).spec_idx(k2);
                    assert(self.recs@[i].id@ == k2);
                }
                if self.spec_contains(k2) {
                    let i = self.spec_idx(k2);
                    assert(pre[i].id@ == k2);
                }
            }
            assert forall|k2: Seq<char>|
                k2 != k && old(self).spec_contains(k2) implies self.spec_get(k2) == old(
                self,
            ).spec_get(k2) by {
                let i = old(self).spec_idx(k2);
                assert(pre[i].id@ == k2);
                assert(self.recs@[i] == pre[i]);
                old(self).lemma_unique_get(k2, i);
                self.lemma_unique_get(k2, i);
            }
        }
    }
}

/// The store of money-transfer outcome records: at most one per
/// request id.
pub struct CmtStore {
    pub recs: Vec<ConfirmedTransaction>,
}

impl CmtStore {
    /// Record keys are unique.
    pub open spec fn wf(self) -> bool {
        forall|i: int, j: int|
            0 <= i < j < self.recs@.len() ==> self.recs@[i].id@ != self.recs@[j].id@
    }

    /// The records, in insertion order.
    pub open spec fn spec_recs(self) -> Seq<ConfirmedTransaction> {
        self.recs@
    }

    /// Whether a record exists under request id `k`.
    pub open spec fn spec_contains(self, k: Seq<char>) -> bool {
        exists|i: int| 0 <= i < self.recs@.len() && self.recs@[i].id@ == k
    }

    /// The index of the record under request id `k`.
    pub open spec fn spec_idx(self, k: Seq<char>) -> int {
        choose|i: int| 0 <= i < self.recs@.len() && self.recs@[i].id@ == k
    }

    /// The record under request id `k`.
    pub open spec fn spec_get(self, k: Seq<char>) -> ConfirmedTransaction {
        self.recs@[self.spec_idx(k)]
    }

    /// In a well-formed store, any record with id `k` is the record
    /// `spec_get` yields for `k`.
    pub proof fn lemma_unique_get(self, k: Seq<char>, i: int)
        requires
            self.wf(),
            0 <= i < self.spec_recs().len(),
            self.spec_recs()[i].id@ == k,
        ensures
            self.spec_contains(k),
            self.spec_idx(k) == i,
            self.spec_get(k) == self.spec_recs()[i],
    {
        assert(self.spec_contains(k));
        let j = self.spec_idx(k);
        assert(0 <= j < self.recs@.len() && self.recs@[j].id@ == k);
        if i < j {
            assert(self.recs@[i].id@ != self.recs@[j].id@);
        } else if j < i {
            assert(self.recs@[j].id@ != self.recs@[i].id@);
        }
    }

    /// An empty store.
    pub fn new() -> (s: Self)
        ensures
            s.wf(),
            s.spec_recs().len() == 0,
            forall|k: Seq<char>| !s.spec_contains(k),
    {
        CmtStore { recs: Vec::new() }
    }

    /// Exact-key lookup of the record under request id `id`.
    pub fn find_by_id(&self, id: &String) -> (r: Option<ConfirmedTransaction>)
        requires
            self.wf(),
        ensures
            match r {
                Some(rec) => self.spec_contains(id@) && rec == self.spec_get(id@),
                None => !self.spec_contains(id@),
            },
    {
        let n = self.recs.len();
        let mut i: usize = 0;
        while i < n
            invariant
                self.wf(),
                n == self.spec_recs().len(),
                0 <= i <= n,
                forall|j: int| 0 <= j < i ==> self.spec_recs()[j].id@ != id@,
            decreases n - i,
        {
            if self.recs[i].id == *id {
                proof {
                    self.lemma_unique_get(id@, i as int);
                }
                return Some(self.recs[i].clone_rec());
            }
            i = i + 1;
        }
        None
    }

    /// Writes the outcome record of a freshly resolved saga; the record
    /// under a given request id is written at most once.
    pub fn insert(&mut self, rec: ConfirmedTransaction)
        requires
            old(self).wf(),
            !old(self).spec_contains(rec.id@),
        ensures
            final(self).wf(),
            final(self).spec_recs() == old(self).spec_recs().push(rec),
            final(self).spec_contains(rec.id@),
            final(self).spec_get(rec.id@) == rec,
            forall|k2: Seq<char>|
                k2 != rec.id@ ==> (final(self).spec_contains(k2) == old(self).spec_contains(k2)),
            forall|k2: Seq<char>|
                k2 != rec.id@ && old(self).spec_contains(k2) ==> final(self).spec_get(k2) == old(
                    self,
                ).spec_get(k2),
    {
        let ghost pre = self.recs@;
        let ghost k = rec.id@;
        self.recs.push(rec);
        proof {
            assert forall|i: int, j: int| 0 <= i < j < self.recs@.len() implies self.recs@[i].id@
                != self.recs@[j].id@ by {
                if j == pre.len() {
                    assert(self.recs@[i] == pre[i]);
                }
            }
            self.lemma_unique_get(k, pre.len() as int);
            assert forall|k2: Seq<char>| k2 != k implies (self.spec_contains(k2) == old(
                self,
            ).spec_contains(k2)) by {
                if old(self).spec_contains(k2) {
                    let i = old(self).spec_idx(k2);
                    assert(self.recs@[i].id@ == k2);
                }
                if self.spec_contains(k2) {
                    let i = self.spec_idx(k2);
                    assert(pre[i].id@ == k2);
                }
            }
            assert forall|k2: Seq<char>|
                k2 != k && old(self).spec_contains(k2) implies self.spec_get(k2) == old(
                self,
            ).spec_get(k2) by {
                let i = old(self).spec_idx(k2);
                assert(pre[i].id@ == k2);
                assert(self.recs@[i] == pre[i]);
                old(self).lemma_unique_get(k2, i);
                self.lemma_unique_get(k2, i);
            }
        }
    }
}

} // verus!
