//! Session accounts of the transfer-initiating service.
//!
//! This service keeps one row per logged-in identity and forwards its
//! id as the request id of an account-creation saga. It also consumes
//! the creation results: a failed creation with an empty reason text
//! removes the session row again, everything else only has its shape
//! checked.

use vstd::prelude::*;
use crate::clock::now_millis;
use crate::codec::get_id;
use crate::events::{
    field_is_long, field_is_str, str_of, DecodeError, FieldValue, ProducerData, TransferCommand,
};

verus! {

/// One session identity row.
#[derive(Debug, Clone, PartialEq)]
pub struct Account {
    pub id: String,
    pub username: String,
    pub password: String,
    pub created_at: i64,
}

impl Account {
    /// A fresh identity row under a generated id.
    pub fn new(username: String, password: String) -> (r: Account)
        ensures
            r.username == username,
            r.password == password,
            r.id@.len() == 36,
    {
        Account { id: get_id(), username, password, created_at: now_millis() }
    }

    /// A field-for-field copy of the row.
    pub fn clone_rec(&self) -> (r: Account)
        ensures
            r == *self,
    {
        Account {
            id: self.id.clone(),
            username: self.username.clone(),
            password: self.password.clone(),
            created_at: self.created_at,
        }
    }
}

/// The first row of `rows` whose username is `u`, front to back.
pub open spec fn spec_find_user(rows: Seq<Account>, u: Seq<char>) -> Option<Account>
    decreases rows.len(),
{
    if rows.len() == 0 {
        None
    } else if rows[0].username@ == u {
        Some(rows[0])
    } else {
        spec_find_user(rows.drop_first(), u)
    }
}

/// The rows of `rows` whose id is not `id`, in order.
pub open spec fn without_id(rows: Seq<Account>, id: Seq<char>) -> Seq<Account> {
    rows.filter(|a: Account| a.id@ != id)
}

/// The session account rows, in insertion order; usernames and ids may
/// repeat, lookups return the oldest match and removal takes every
/// row under the id.
pub struct AccountStore {
    pub rows: Vec<Account>,
}

impl AccountStore {
    /// An empty store.
    pub fn new() -> (s: Self)
        ensures
            s.rows@.len() == 0,
    {
        AccountStore { rows: Vec::new() }
    }

    /// The oldest row under `username`.
    pub fn find_account_by_username(&self, username: &str) -> (r: Option<Account>)
        ensures
            r == spec_find_user(self.rows@, username@),
    {
        let u = String::from_str(username);
        let n = self.rows.len();
        let mut i: usize = 0;
        assert(self.rows@.subrange(0, n as int) =~= self.rows@);
        while i < n
            invariant
                n == self.rows@.len(),
                0 <= i <= n,
                u@ == username@,
                spec_find_user(self.rows@, username@) == spec_find_user(
                    self.rows@.subrange(i as int, n as int),
                    username@,
                ),
            decreases n - i,
        {
            let ghost tail = self.rows@.subrange(i as int, n as int);
            assert(tail[0] == self.rows@[i as int]);
            if self.rows[i].username == u {
                return Some(self.rows[i].clone_rec());
            }
            proof {
                assert(tail.drop_first() =~= self.rows@.subrange(i as int + 1, n as int));
            }
            i = i + 1;
        }
        None
    }

    /// Appends a row as it stands; the caller decides about duplicates.
    pub fn insert_account(&mut self, acc: Account) -> (r: Account)
        ensures
            r == acc,
            final(self).rows@ == old(self).rows@.push(acc),
    {
        let out = acc.clone_rec();
        self.rows.push(acc);
        out
    }

    /// Removes every row under `id`.
    pub fn remove_account(&mut self, id: String)
        ensures
            final(self).rows@ == without_id(old(self).rows@, id@),
    {
        let mut kept: Vec<Account> = Vec::new();
        let n = self.rows.len();
        let mut i: usize = 0;
        proof {
            reveal(Seq::filter);
            assert(self.rows@.subrange(0, 0) =~= Seq::<Account>::empty());
        }
        while i < n
            invariant
                n == self.rows@.len(),
                0 <= i <= n,
                kept@ == without_id(self.rows@.subrange(0, i as int), id@),
            decreases n - i,
        {
            proof {
                reveal(Seq::filter);
                let pre = self.rows@.subrange(0, i as int);
                let post = self.rows@.subrange(0, i as int + 1);
                assert(post.drop_last() =~= pre);
                assert(post.last() == self.rows@[i as int]);
            }
            if !(self.rows[i].id == id) {
                kept.push(self.rows[i].clone_rec());
            }
            i = i + 1;
        }
        assert(self.rows@.subrange(0, n as int) =~= self.rows@);
        self.rows = kept;
    }

    /// The row under `username`, created on first sight. A login
    /// resolves this way; the password of an existing row is never
    /// checked.
    pub fn get_account(&mut self, username: String, password: String) -> (r: Account)
        ensures
            old(self).rows@.len() <= final(self).rows@.len(),
            spec_find_user(old(self).rows@, username@) matches Some(a) ==> r == a && *final(self)
                == *old(self),
            spec_find_user(old(self).rows@, username@) is None ==> {
                &&& r.username == username
                &&& r.password == password
                &&& r.id@.len() == 36
                &&& final(self).rows@ == old(self).rows@.push(r)
            },
    {
        match self.find_account_by_username(username.as_str()) {
            Some(v) => v,
            None => self.insert_account(Account::new(username, password)),
        }
    }

    /// Resolves a login and builds the `confirm_account_creation`
    /// command the front door sends for it, keyed by the session
    /// account's id.
    pub fn login(&mut self, username: String, password: String) -> (r: (Account, ProducerData))
        ensures
            spec_find_user(old(self).rows@, username@) matches Some(a) ==> r.0 == a && *final(self)
                == *old(self),
            spec_find_user(old(self).rows@, username@) is None ==> {
                &&& r.0.username == username
                &&& r.0.password == password
                &&& r.0.id@.len() == 36
                &&& final(self).rows@ == old(self).rows@.push(r.0)
            },
            r.1.topic@ == "confirm_account_creation"@,
            r.1.key == r.0.id,
            r.1.values@.len() == 2,
            field_is_str(r.1.values@[0], "id"@, r.0.id@),
            field_is_str(r.1.values@[1], "_type"@, "MANUAL"@),
    {
        let acc = self.get_account(username, password);
        let key = acc.id.clone();
        let mut values: Vec<(&'static str, FieldValue)> = Vec::new();
        values.push(("id", FieldValue::Str(acc.id.clone())));
        values.push(("_type", FieldValue::Str(String::from_str("MANUAL"))));
        let pd = ProducerData { topic: "confirm_account_creation", key, values };
        (acc, pd)
    }

    /// Consumes one `account_creation_failed` delivery: an empty reason
    /// text removes the session rows under the event's id, any other
    /// reason leaves the store alone.
    pub fn handle_acf(&mut self, values: &Vec<(String, FieldValue)>) -> (r: Result<
        (),
        DecodeError,
    >)
        ensures
            r is Ok <==> values@.len() >= 2 && values@[0].1 is Str && values@[1].1 is Str,
            r matches Err(e) ==> *final(self) == *old(self) && (e == DecodeError::MissingField
                <==> values@.len() < 2),
            r is Ok && str_of(values@[1].1).len() == 0 ==> final(self).rows@ == without_id(
                old(self).rows@,
                str_of(values@[0].1),
            ),
            r is Ok && str_of(values@[1].1).len() != 0 ==> *final(self) == *old(self),
    {
        if values.len() < 2 {
            return Err(DecodeError::MissingField);
        }
        let id = match &values[0].1 {
            FieldValue::Str(s) => s.clone(),
            FieldValue::Long(_) => {
                return Err(DecodeError::WrongShape);
            },
        };
        let reason = match &values[1].1 {
            FieldValue::Str(s) => s.clone(),
            FieldValue::Long(_) => {
                return Err(DecodeError::WrongShape);
            },
        };
        if reason.as_str().is_empty() {
            self.remove_account(id);
        }
        Ok(())
    }
}

/// Builds the `confirm_money_transfer` command the front door sends
/// for a submitted transfer, keyed by the request id.
pub fn transact(data: &TransferCommand) -> (r: ProducerData)
    ensures
        r.topic@ == "confirm_money_transfer"@,
        r.key == data.id,
        r.values@.len() == 6,
        field_is_str(r.values@[0], "id"@, data.id@),
        field_is_str(r.values@[1], "token"@, data.token@),
        field_is_long(r.values@[2], "amount"@, data.amount as int),
        field_is_str(r.values@[3], "from"@, data.from@),
        field_is_str(r.values@[4], "to"@, data.to@),
        field_is_str(r.values@[5], "description"@, data.description@),
{
    let mut values: Vec<(&'static str, FieldValue)> = Vec::new();
    values.push(("id", FieldValue::Str(data.id.clone())));
    values.push(("token", FieldValue::Str(data.token.clone())));
    values.push(("amount", FieldValue::Long(data.amount)));
    values.push(("from", FieldValue::Str(data.from.clone())));
    values.push(("to", FieldValue::Str(data.to.clone())));
    values.push(("description", FieldValue::Str(data.description.clone())));
    ProducerData { topic: "confirm_money_transfer", key: data.id.clone(), values }
}

/// Consumes one `account_creation_confirmed` delivery: the service
/// only checks the payload shape — id, account number, account type —
/// and takes no further action.
pub fn handle_acc(values: &Vec<(String, FieldValue)>) -> (r: Result<(), DecodeError>)
    ensures
        r is Ok <==> values@.len() >= 3 && values@[0].1 is Str && values@[1].1 is Str
            && values@[2].1 is Str,
        r matches Err(e) ==> (e == DecodeError::MissingField <==> values@.len() < 3),
{
    if values.len() < 3 {
        return Err(DecodeError::MissingField);
    }
    let mut i: usize = 0;
    while i < 3
        invariant
            values@.len() >= 3,
            0 <= i <= 3,
            forall|j: int| 0 <= j < i ==> values@[j].1 is Str,
        decreases 3 - i,
    {
        match &values[i].1 {
            FieldValue::Str(_s) => {},
            FieldValue::Long(_) => {
                return Err(DecodeError::WrongShape);
            },
        }
        i = i + 1;
    }
    Ok(())
}

/// Consumes one `money_transfer_confirmed` delivery: shape check only.
pub fn handle_mtc(values: &Vec<(String, FieldValue)>) -> (r: Result<(), DecodeError>)
    ensures
        r is Ok <==> values@.len() >= 1 && values@[0].1 is Str,
        r matches Err(e) ==> (e == DecodeError::MissingField <==> values@.len() < 1),
{
    if values.len() < 1 {
        return Err(DecodeError::MissingField);
    }
    match &values[0].1 {
        FieldValue::Str(_s) => Ok(()),
        FieldValue::Long(_) => Err(DecodeError::WrongShape),
    }
}

/// Consumes one `money_transfer_failed` delivery: shape check only.
pub fn handle_mtf(values: &Vec<(String, FieldValue)>) -> (r: Result<(), DecodeError>)
    ensures
        r is Ok <==> values@.len() >= 1 && values@[0].1 is Str,
        r matches Err(e) ==> (e == DecodeError::MissingField <==> values@.len() < 1),
{
    if values.len() < 1 {
        return Err(DecodeError::MissingField);
    }
    match &values[0].1 {
        FieldValue::Str(_s) => Ok(()),
        FieldValue::Long(_) => Err(DecodeError::WrongShape),
    }
}

} // verus!
