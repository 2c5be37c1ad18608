//! Typed command decode and outgoing event descriptors.
//!
//! Inbound command events arrive as ordered lists of named field
//! values; the decoders below turn them into typed commands and report
//! a shape mismatch as a tagged error instead of failing midway.
//! Outbound events are descriptors — topic, partition key, field list —
//! handed to the publisher.

use vstd::prelude::*;

verus! {

/// One wire field value: the two shapes the command and result topics
/// carry, text and 64-bit integers (amounts in minor units).
#[derive(Debug, Clone, PartialEq)]
pub enum FieldValue {
    Str(String),
    Long(i64),
}

/// An outgoing event descriptor: topic, partition key, payload fields.
#[derive(Debug, Clone, PartialEq)]
pub struct ProducerData {
    pub topic: &'static str,
    pub key: String,
    pub values: Vec<(&'static str, FieldValue)>,
}

/// Why an inbound payload was refused. A mismatch here means a
/// serialization/version skew upstream and is treated as fatal by the
/// process around the core.
#[derive(Debug, Clone, Copy, PartialEq, Eq, Structural)]
pub enum DecodeError {
    /// The payload holds fewer fields than the topic's schema.
    MissingField,
    /// A field holds a value of the wrong shape.
    WrongShape,
}

/// The decoded `confirm_account_creation` command.
#[derive(Debug, Clone, PartialEq)]
pub struct CreationCommand {
    pub id: String,
    pub account_type: String,
}

/// The decoded `confirm_money_transfer` command.
#[derive(Debug, Clone, PartialEq)]
pub struct TransferCommand {
    pub id: String,
    pub token: String,
    pub amount: i64,
    pub from: String,
    pub to: String,
    pub description: String,
}

/// An outbound field holding the text `content` under `name`.
pub open spec fn field_is_str(f: (&str, FieldValue), name: Seq<char>, content: Seq<char>) -> bool {
    f.0@ == name && (f.1 matches FieldValue::Str(s) && s@ == content)
}

/// An outbound field holding the integer `n` under `name`.
pub open spec fn field_is_long(f: (&str, FieldValue), name: Seq<char>, n: int) -> bool {
    f.0@ == name && (f.1 matches FieldValue::Long(v) && v == n)
}

/// The text carried by an inbound field, when it is text.
pub open spec fn str_of(v: FieldValue) -> Seq<char> {
    match v {
        FieldValue::Str(s) => s@,
        FieldValue::Long(_) => Seq::empty(),
    }
}

/// The integer carried by an inbound field, when it is an integer.
pub open spec fn long_of(v: FieldValue) -> int {
    match v {
        FieldValue::Long(n) => n as int,
        FieldValue::Str(_) => 0,
    }
}

/// Whether an inbound payload matches the `confirm_account_creation`
/// schema: at least an id and an account type, both text.
pub open spec fn cac_shape_ok(vals: Seq<(String, FieldValue)>) -> bool {
    &&& vals.len() >= 2
    &&& vals[0].1 is Str
    &&& vals[1].1 is Str
}

/// Whether an inbound payload matches the `confirm_money_transfer`
/// schema: id, token, amount, from, to, description.
pub open spec fn cmt_shape_ok(vals: Seq<(String, FieldValue)>) -> bool {
    &&& vals.len() >= 6
    &&& vals[0].1 is Str
    &&& vals[1].1 is Str
    &&& vals[2].1 is Long
    &&& vals[3].1 is Str
    &&& vals[4].1 is Str
    &&& vals[5].1 is Str
}

/// An `account_creation_confirmed` event for request `id`.
pub open spec fn is_acc_confirmed(
    pd: ProducerData,
    id: Seq<char>,
    account_no: Seq<char>,
    tp: Seq<char>,
) -> bool {
    &&& pd.topic@ == "account_creation_confirmed"@
    &&& pd.key@ == id
    &&& pd.values@.len() == 3
    &&& field_is_str(pd.values@[0], "id"@, id)
    &&& field_is_str(pd.values@[1], "account_no"@, account_no)
    &&& field_is_str(pd.values@[2], "_type"@, tp)
}

/// An `account_creation_failed` event for request `id`.
pub open spec fn is_acc_failed(pd: ProducerData, id: Seq<char>, reason: Seq<char>) -> bool {
    &&& pd.topic@ == "account_creation_failed"@
    &&& pd.key@ == id
    &&& pd.values@.len() == 2
    &&& field_is_str(pd.values@[0], "id"@, id)
    &&& field_is_str(pd.values@[1], "reason"@, reason)
}

/// A `money_transfer_confirmed` event for request `id`.
pub open spec fn is_mtc(pd: ProducerData, id: Seq<char>) -> bool {
    &&& pd.topic@ == "money_transfer_confirmed"@
    &&& pd.key@ == id
    &&& pd.values@.len() == 1
    &&& field_is_str(pd.values@[0], "id"@, id)
}

/// A `money_transfer_failed` event for request `id`.
pub open spec fn is_mtf(pd: ProducerData, id: Seq<char>, reason: Seq<char>) -> bool {
    &&& pd.topic@ == "money_transfer_failed"@
    &&& pd.key@ == id
    &&& pd.values@.len() == 2
    &&& field_is_str(pd.values@[0], "id"@, id)
    &&& field_is_str(pd.values@[1], "reason"@, reason)
}

/// A `balance_changed` event, keyed by the account whose balance moved.
pub open spec fn is_bc(
    pd: ProducerData,
    account_no: Seq<char>,
    new_balance: int,
    changed_by: int,
    from_to: Seq<char>,
    description: Seq<char>,
) -> bool {
    &&& pd.topic@ == "balance_changed"@
    &&& pd.key@ == account_no
    &&& pd.values@.len() == 5
    &&& field_is_str(pd.values@[0], "account_no"@, account_no)
    &&& field_is_long(pd.values@[1], "new_balance"@, new_balance)
    &&& field_is_long(pd.values@[2], "changed_by"@, changed_by)
    &&& field_is_str(pd.values@[3], "from_to"@, from_to)
    &&& field_is_str(pd.values@[4], "description"@, description)
}

/// A copy of the text an inbound field carries; refused when the field
/// holds something else.
fn take_str(v: &FieldValue) -> (r: Result<String, DecodeError>)
    ensures
        r is Ok <==> v is Str,
        r matches Ok(s) ==> s@ == str_of(*v),
        r matches Err(e) ==> e == DecodeError::WrongShape,
{
    match v {
        FieldValue::Str(s) => Ok(s.clone()),
        FieldValue::Long(_) => Err(DecodeError::WrongShape),
    }
}

/// The integer an inbound field carries; refused when the field holds
/// something else.
fn take_long(v: &FieldValue) -> (r: Result<i64, DecodeError>)
    ensures
        r is Ok <==> v is Long,
        r matches Ok(n) ==> n as int == long_of(*v),
        r matches Err(e) ==> e == DecodeError::WrongShape,
{
    match v {
        FieldValue::Long(n) => Ok(*n),
        FieldValue::Str(_) => Err(DecodeError::WrongShape),
    }
}

/// Decodes a `confirm_account_creation` payload.
pub fn decode_cac(values: &Vec<(String, FieldValue)>) -> (r: Result<CreationCommand, DecodeError>)
    ensures
        r is Ok <==> cac_shape_ok(values@),
        r matches Ok(c) ==> c.id@ == str_of(values@[0].1) && c.account_type@ == str_of(
            values@[1].1,
        ),
        r matches Err(e) ==> (e == DecodeError::MissingField <==> values@.len() < 2),
{
    if values.len() < 2 {
        return Err(DecodeError::MissingField);
    }
    let id = match take_str(&values[0].1) {
        Ok(s) => s,
        Err(e) => {
            return Err(e);
        },
    };
    let account_type = match take_str(&values[1].1) {
        Ok(s) => s,
        Err(e) => {
            return Err(e);
        },
    };
    Ok(CreationCommand { id, account_type })
}

/// Decodes a `confirm_money_transfer` payload.
pub fn decode_cmt(values: &Vec<(String, FieldValue)>) -> (r: Result<TransferCommand, DecodeError>)
    ensures
        r is Ok <==> cmt_shape_ok(values@),
        r matches Ok(c) ==> {
            &&& c.id@ == str_of(values@[0].1)
            &&& c.token@ == str_of(values@[1].1)
            &&& c.amount as int == long_of(values@[2].1)
            &&& c.from@ == str_of(values@[3].1)
            &&& c.to@ == str_of(values@[4].1)
            &&& c.description@ == str_of(values@[5].1)
        },
        r matches Err(e) ==> (e == DecodeError::MissingField <==> values@.len() < 6),
{
    if values.len() < 6 {
        return Err(DecodeError::MissingField);
    }
    let id = match take_str(&values[0].1) {
        Ok(s) => s,
        Err(e) => {
            return Err(e);
        },
    };
    let token = match take_str(&values[1].1) {
        Ok(s) => s,
        Err(e) => {
            return Err(e);
        },
    };
    let amount = match take_long(&values[2].1) {
        Ok(n) => n,
        Err(e) => {
            return Err(e);
        },
    };
    let from = match take_str(&values[3].1) {
        Ok(s) => s,
        Err(e) => {
            return Err(e);
        },
    };
    let to = match take_str(&values[4].1) {
        Ok(s) => s,
        Err(e) => {
            return Err(e);
        },
    };
    let description = match take_str(&values[5].1) {
        Ok(s) => s,
        Err(e) => {
            return Err(e);
        },
    };
    Ok(TransferCommand { id, token, amount, from, to, description })
}

/// The payload of `account_creation_confirmed`: the request id, the
/// generated account number, and the account type.
pub fn acc_vec(id: &String, account_no: &String, tp: &String) -> (r: Vec<(&'static str, FieldValue)>)
    ensures
        r@.len() == 3,
        field_is_str(r@[0], "id"@, id@),
        field_is_str(r@[1], "account_no"@, account_no@),
        field_is_str(r@[2], "_type"@, tp@),
{
    let mut r: Vec<(&'static str, FieldValue)> = Vec::new();
    r.push(("id", FieldValue::Str(id.clone())));
    r.push(("account_no", FieldValue::Str(account_no.clone())));
    r.push(("_type", FieldValue::Str(tp.clone())));
    r
}

/// The payload of a failure event: the request id and the reason.
pub fn fail_vec(id: &String, reason: &String) -> (r: Vec<(&'static str, FieldValue)>)
    ensures
        r@.len() == 2,
        field_is_str(r@[0], "id"@, id@),
        field_is_str(r@[1], "reason"@, reason@),
{
    let mut r: Vec<(&'static str, FieldValue)> = Vec::new();
    r.push(("id", FieldValue::Str(id.clone())));
    r.push(("reason", FieldValue::Str(reason.clone())));
    r
}

/// The payload of `money_transfer_confirmed`: the request id alone.
pub fn mtc_vec(id: &String) -> (r: Vec<(&'static str, FieldValue)>)
    ensures
        r@.len() == 1,
        field_is_str(r@[0], "id"@, id@),
{
    let mut r: Vec<(&'static str, FieldValue)> = Vec::new();
    r.push(("id", FieldValue::Str(id.clone())));
    r
}

/// The payload of `balance_changed`: the account, its new balance, the
/// signed delta that was applied, the counterparty, and the caller's
/// description.
pub fn bc_vec(
    account_no: &String,
    new_balance: i64,
    changed_by: i64,
    from_to: &String,
    description: &String,
) -> (r: Vec<(&'static str, FieldValue)>)
    ensures
        r@.len() == 5,
        field_is_str(r@[0], "account_no"@, account_no@),
        field_is_long(r@[1], "new_balance"@, new_balance as int),
        field_is_long(r@[2], "changed_by"@, changed_by as int),
        field_is_str(r@[3], "from_to"@, from_to@),
        field_is_str(r@[4], "description"@, description@),
{
    let mut r: Vec<(&'static str, FieldValue)> = Vec::new();
    r.push(("account_no", FieldValue::Str(account_no.clone())));
    r.push(("new_balance", FieldValue::Long(new_balance)));
    r.push(("changed_by", FieldValue::Long(changed_by)));
    r.push(("from_to", FieldValue::Str(from_to.clone())));
    r.push(("description", FieldValue::Str(description.clone())));
    r
}

} // verus!
