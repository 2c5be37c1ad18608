//! The append-only transaction history.
//!
//! Every published `balance_changed` event leaves one history row
//! behind: the account, the signed delta that was applied, the
//! resulting balance, the counterparty, and the direction of the
//! movement. Rows are never changed or removed; the history is an
//! audit trail, not a source of truth.

use vstd::prelude::*;
use crate::clock::now_millis;
use crate::codec::get_id;
use crate::events::{long_of, str_of, DecodeError, FieldValue};

verus! {

/// One history row.
#[derive(Debug, Clone, PartialEq)]
pub struct Transactions {
    pub id: String,
    pub account_no: String,
    pub amount: i64,
    pub new_balance: i64,
    pub account_type: String,
    pub from_to: String,
    pub direction: String,
    pub description: String,
    pub created_at: i64,
}

impl Transactions {
    /// An empty history row for `account_no` under a generated id.
    pub fn new(account_no: String) -> (r: Transactions)
        ensures
            r.account_no == account_no,
            r.id@.len() == 36,
            r.amount == 0,
            r.new_balance == 0,
            r.account_type@.len() == 0,
            r.from_to@.len() == 0,
            r.direction@.len() == 0,
            r.description@.len() == 0,
    {
        Transactions {
            id: get_id(),
            account_no,
            amount: 0,
            new_balance: 0,
            account_type: String::new(),
            from_to: String::new(),
            direction: String::new(),
            description: String::new(),
            created_at: now_millis(),
        }
    }

    /// A field-for-field copy of the row.
    pub fn clone_rec(&self) -> (r: Transactions)
        ensures
            r == *self,
    {
        Transactions {
            id: self.id.clone(),
            account_no: self.account_no.clone(),
            amount: self.amount,
            new_balance: self.new_balance,
            account_type: self.account_type.clone(),
            from_to: self.from_to.clone(),
            direction: self.direction.clone(),
            description: self.description.clone(),
            created_at: self.created_at,
        }
    }
}

/// The first row of `rows` whose id is `k`, front to back.
pub open spec fn spec_find_id(rows: Seq<Transactions>, k: Seq<char>) -> Option<Transactions>
    decreases rows.len(),
{
    if rows.len() == 0 {
        None
    } else if rows[0].id@ == k {
        Some(rows[0])
    } else {
        spec_find_id(rows.drop_first(), k)
    }
}

/// The first row of `rows` under account `k`, front to back.
pub open spec fn spec_find_account(rows: Seq<Transactions>, k: Seq<char>) -> Option<Transactions>
    decreases rows.len(),
{
    if rows.len() == 0 {
        None
    } else if rows[0].account_no@ == k {
        Some(rows[0])
    } else {
        spec_find_account(rows.drop_first(), k)
    }
}

/// Whether a payload matches the `balance_changed` schema.
pub open spec fn bc_shape_ok(vals: Seq<(String, FieldValue)>) -> bool {
    &&& vals.len() >= 5
    &&& vals[0].1 is Str
    &&& vals[1].1 is Long
    &&& vals[2].1 is Long
    &&& vals[3].1 is Str
    &&& vals[4].1 is Str
}

/// The history rows, in the order the events arrived.
pub struct TransactionStore {
    pub rows: Vec<Transactions>,
}

impl TransactionStore {
    /// An empty history.
    pub fn new() -> (s: Self)
        ensures
            s.rows@.len() == 0,
    {
        TransactionStore { rows: Vec::new() }
    }

    /// The oldest row under row id `id`.
    pub fn find_transaction_by_id(&self, id: &str) -> (r: Option<Transactions>)
        ensures
            r == spec_find_id(self.rows@, id@),
    {
        let k = String::from_str(id);
        let n = self.rows.len();
        let mut i: usize = 0;
        assert(self.rows@.subrange(0, n as int) =~= self.rows@);
        while i < n
            invariant
                n == self.rows@.len(),
                0 <= i <= n,
                k@ == id@,
                spec_find_id(self.rows@, id@) == spec_find_id(
                    self.rows@.subrange(i as int, n as int),
                    id@,
                ),
            decreases n - i,
        {
            let ghost tail = self.rows@.subrange(i as int, n as int);
            assert(tail[0] == self.rows@[i as int]);
            if self.rows[i].id == k {
                return Some(self.rows[i].clone_rec());
            }
            proof {
                assert(tail.drop_first() =~= self.rows@.subrange(i as int + 1, n as int));
            }
            i = i + 1;
        }
        None
    }

    /// The oldest row under account `account_no`.
    pub fn find_transactions_by_account_no(&self, account_no: &str) -> (r: Option<Transactions>)
        ensures
            r == spec_find_account(self.rows@, account_no@),
    {
        let k = String::from_str(account_no);
        let n = self.rows.len();
        let mut i: usize = 0;
        assert(self.rows@.subrange(0, n as int) =~= self.rows@);
        while i < n
            invariant
                n == self.rows@.len(),
                0 <= i <= n,
                k@ == account_no@,
                spec_find_account(self.rows@, account_no@) == spec_find_account(
                    self.rows@.subrange(i as int, n as int),
                    account_no@,
                ),
            decreases n - i,
        {
            let ghost tail = self.rows@.subrange(i as int, n as int);
            assert(tail[0] == self.rows@[i as int]);
            if self.rows[i].account_no == k {
                return Some(self.rows[i].clone_rec());
            }
            proof {
                assert(tail.drop_first() =~= self.rows@.subrange(i as int + 1, n as int));
            }
            i = i + 1;
        }
        None
    }

    /// Every history row, oldest first.
    pub fn find_all_last_transactions(&self) -> (r: Option<Vec<Transactions>>)
        ensures
            r matches Some(v) && v@ == self.rows@,
    {
        let n = self.rows.len();
        let mut out: Vec<Transactions> = Vec::new();
        let mut i: usize = 0;
        while i < n
            invariant
                n == self.rows@.len(),
                0 <= i <= n,
                out@ == self.rows@.subrange(0, i as int),
            decreases n - i,
        {
            out.push(self.rows[i].clone_rec());
            proof {
                assert(out@ =~= self.rows@.subrange(0, i as int + 1));
            }
            i = i + 1;
        }
        assert(self.rows@.subrange(0, n as int) =~= self.rows@);
        Some(out)
    }

    /// Consumes one `balance_changed` delivery: appends the history row
    /// it describes and returns a copy of it. The direction is `debit`
    /// for a negative delta and `credit` otherwise.
    pub fn handle_bc(&mut self, values: &Vec<(String, FieldValue)>) -> (r: Result<
        Transactions,
        DecodeError,
    >)
        ensures
            r is Ok <==> bc_shape_ok(values@),
            r matches Err(e) ==> *final(self) == *old(self) && (e == DecodeError::MissingField
                <==> values@.len() < 5),
            r matches Ok(t) ==> {
                &&& t.account_no@ == str_of(values@[0].1)
                &&& t.new_balance as int == long_of(values@[1].1)
                &&& t.amount as int == long_of(values@[2].1)
                &&& t.from_to@ == str_of(values@[3].1)
                &&& t.description@ == str_of(values@[4].1)
                &&& t.account_type@.len() == 0
                &&& t.id@.len() == 36
                &&& (long_of(values@[2].1) < 0 ==> t.direction@ == "debit"@)
                &&& (long_of(values@[2].1) >= 0 ==> t.direction@ == "credit"@)
                &&& final(self).rows@ == old(self).rows@.push(t)
            },
    {
        if values.len() < 5 {
            return Err(DecodeError::MissingField);
        }
        let account_no = match &values[0].1 {
            FieldValue::Str(s) => s.clone(),
            FieldValue::Long(_) => {
                return Err(DecodeError::WrongShape);
            },
        };
        let new_balance = match &values[1].1 {
            FieldValue::Long(v) => *v,
            FieldValue::Str(_) => {
                return Err(DecodeError::WrongShape);
            },
        };
        let amount = match &values[2].1 {
            FieldValue::Long(v) => *v,
            FieldValue::Str(_) => {
                return Err(DecodeError::WrongShape);
            },
        };
        let from_to = match &values[3].1 {
            FieldValue::Str(s) => s.clone(),
            FieldValue::Long(_) => {
                return Err(DecodeError::WrongShape);
            },
        };
        let description = match &values[4].1 {
            FieldValue::Str(s) => s.clone(),
            FieldValue::Long(_) => {
                return Err(DecodeError::WrongShape);
            },
        };
        let direction = if amount < 0 {
            String::from_str("debit")
        } else {
            String::from_str("credit")
        };
        let row = Transactions {
            id: get_id(),
            account_no,
            amount,
            new_balance,
            account_type: String::new(),
            from_to,
            direction,
            description,
            created_at: now_millis(),
        };
        let out = row.clone_rec();
        self.rows.push(row);
        Ok(out)
    }
}

} // verus!
