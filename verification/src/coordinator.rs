//! The saga coordinator: the business-logic core.
//!
//! Given a decoded command event, the coordinator looks up or creates
//! the saga's outcome record, performs the ledger mutation, and returns
//! the list of events to emit, in order. Idempotency is the correctness
//! backstop under at-least-once delivery: a request id that already has
//! an outcome record is absorbed — no ledger mutation, no emission.

use vstd::prelude::*;
use crate::clock::now_millis;
use crate::codec::{invalid_from, new_account, spec_valid_account, spec_valid_from, valid_open_account};
use crate::events::{
    acc_vec, bc_vec, cac_shape_ok, cmt_shape_ok, decode_cac, decode_cmt, fail_vec, is_acc_confirmed,
    is_acc_failed, is_bc, is_mtc, is_mtf, long_of, mtc_vec, str_of, DecodeError, FieldValue,
    ProducerData, TransferCommand,
};
use crate::ledger::{Balance, LedgerStore, CREDIT_LIMIT};
use crate::records::{CacStore, CmtStore, ConfirmedAccount, ConfirmedTransaction};

verus! {

/// The failure reason recorded when the freshly generated account
/// number is already bound to a balance row.
pub open spec fn collision_reason() -> Seq<char> {
    "generated account no already exists, try again"@
}

/// The failure reason recorded when the paying side of a transfer is
/// neither the cash sentinel nor a well-formed account number.
pub open spec fn invalid_from_reason() -> Seq<char> {
    "from is invalid"@
}

/// The failure reason recorded when both sides of a transfer name the
/// same account.
pub open spec fn same_account_reason() -> Seq<char> {
    "from and to can't be same for transfer"@
}

/// How a transfer command resolves before any ledger work: the paying
/// side must be acceptable, and the two sides must differ.
pub open spec fn transfer_reason(from: Seq<char>, to: Seq<char>) -> Option<Seq<char>> {
    if !spec_valid_from(from) {
        Some(invalid_from_reason())
    } else if from == to {
        Some(same_account_reason())
    } else {
        None
    }
}

/// Whether the debit leg applies: the paying side is a well-formed
/// account number (so not the cash sentinel) with an existing row.
/// A missing row is deliberately lenient: the leg is skipped, the saga
/// still succeeds.
pub open spec fn from_leg_applies(ledger: LedgerStore, from: Seq<char>) -> bool {
    spec_valid_account(from) && ledger.spec_contains(from)
}

/// Whether the credit leg applies; the same leniency as the debit leg.
pub open spec fn to_leg_applies(ledger: LedgerStore, to: Seq<char>) -> bool {
    spec_valid_account(to) && ledger.spec_contains(to)
}

/// The machine-width bounds a transfer's two read-modify-write legs
/// need on the rows they touch.
pub open spec fn transfer_fits(ledger: LedgerStore, from: Seq<char>, to: Seq<char>, amount: int) -> bool {
    &&& (from_leg_applies(ledger, from) ==> {
        &&& i64::MIN < amount
        &&& i64::MIN <= ledger.spec_get(from).amount - amount <= i64::MAX
    })
    &&& (to_leg_applies(ledger, to) ==> i64::MIN <= ledger.spec_get(to).amount + amount
        <= i64::MAX)
}

/// The bounds a decoded transfer command needs before it is handled;
/// vacuous whenever validation resolves the saga without ledger work.
pub open spec fn cmd_fits(ledger: LedgerStore, from: Seq<char>, to: Seq<char>, amount: int) -> bool {
    transfer_reason(from, to) is None ==> transfer_fits(ledger, from, to, amount)
}

/// The bounds `handle_cmt` needs, stated over the raw payload.
pub open spec fn payload_fits(s: SagaCoordinator, vals: Seq<(String, FieldValue)>) -> bool {
    cmt_shape_ok(vals) && !s.cmts.spec_contains(str_of(vals[0].1)) ==> cmd_fits(
        s.ledger,
        str_of(vals[3].1),
        str_of(vals[4].1),
        long_of(vals[2].1),
    )
}

/// The coordinator owns the ledger and both outcome-record stores; the
/// event bus around it hands in decoded payloads and publishes what
/// comes back.
pub struct SagaCoordinator {
    pub ledger: LedgerStore,
    pub cacs: CacStore,
    pub cmts: CmtStore,
}

/// What resolving a fresh account-creation saga did: the record `r` is
/// stored under `id`, a zero balance was opened under the generated
/// number unless that number collided with an existing row — in which
/// case the record carries no account number at all — and nothing else
/// moved.
pub open spec fn cac_resolved(
    pre: SagaCoordinator,
    post: SagaCoordinator,
    id: Seq<char>,
    tp: Seq<char>,
    r: ConfirmedAccount,
) -> bool {
    &&& r.id@ == id
    &&& r.account_type@ == tp
    &&& r.updated_at == r.created_at
    &&& post.cacs.spec_recs() == pre.cacs.spec_recs().push(r)
    &&& post.cacs.spec_contains(id)
    &&& post.cacs.spec_get(id) == r
    &&& post.cmts == pre.cmts
    &&& (r.reason matches Some(s) ==> {
        &&& s@ == collision_reason()
        &&& r.account_no@.len() == 0
        &&& post.ledger == pre.ledger
        &&& exists|g: Seq<char>| spec_valid_account(g) && pre.ledger.spec_contains(g)
    })
    &&& (r.reason is None ==> {
        &&& spec_valid_account(r.account_no@)
        &&& !pre.ledger.spec_contains(r.account_no@)
        &&& post.ledger.spec_contains(r.account_no@)
        &&& post.ledger.spec_get(r.account_no@) == (Balance {
            account_no: r.account_no,
            amount: 0,
            limits: CREDIT_LIMIT,
            created_at: r.created_at,
            updated_at: r.created_at,
        })
        &&& forall|k2: Seq<char>|
            k2 != r.account_no@ ==> post.ledger.spec_contains(k2) == pre.ledger.spec_contains(k2)
        &&& forall|k2: Seq<char>|
            k2 != r.account_no@ && pre.ledger.spec_contains(k2) ==> post.ledger.spec_get(k2)
                == pre.ledger.spec_get(k2)
    })
}

/// How the ledger looks after the two legs of a transfer of `amount`
/// from `from` to `to` were attempted at time `now`: an applying leg
/// moved its row's amount and refreshed its timestamp, a skipped leg
/// and every other row are untouched, and no row appeared or vanished.
pub open spec fn ledger_after_legs(
    pre: LedgerStore,
    post: LedgerStore,
    from: Seq<char>,
    to: Seq<char>,
    amount: int,
    now: i64,
) -> bool {
    &&& forall|k: Seq<char>| post.spec_contains(k) == pre.spec_contains(k)
    &&& (from_leg_applies(pre, from) ==> post.spec_get(from) == (Balance {
        amount: (pre.spec_get(from).amount - amount) as i64,
        updated_at: now,
        ..pre.spec_get(from)
    }))
    &&& (!from_leg_applies(pre, from) && pre.spec_contains(from) ==> post.spec_get(from)
        == pre.spec_get(from))
    &&& (to_leg_applies(pre, to) ==> post.spec_get(to) == (Balance {
        amount: (pre.spec_get(to).amount + amount) as i64,
        updated_at: now,
        ..pre.spec_get(to)
    }))
    &&& (!to_leg_applies(pre, to) && pre.spec_contains(to) ==> post.spec_get(to) == pre.spec_get(
        to,
    ))
    &&& forall|k: Seq<char>|
        k != from && k != to && pre.spec_contains(k) ==> post.spec_get(k) == pre.spec_get(k)
}

/// What the two legs a transfer handed back: nothing when validation
/// already resolved the saga, otherwise exactly the updated row of
/// each leg that applied.
pub open spec fn cmt_legs(
    pre: LedgerStore,
    post: LedgerStore,
    from: Seq<char>,
    to: Seq<char>,
    reasoned: bool,
    b_from: Option<Balance>,
    b_to: Option<Balance>,
) -> bool {
    if reasoned {
        b_from is None && b_to is None
    } else {
        &&& (b_from is Some <==> from_leg_applies(pre, from))
        &&& (b_from matches Some(b) ==> b == post.spec_get(from))
        &&& (b_to is Some <==> to_leg_applies(pre, to))
        &&& (b_to matches Some(b) ==> b == post.spec_get(to))
    }
}

/// What resolving a fresh money-transfer saga did: the record `rec` is
/// stored under `id`; a validation failure left the ledger untouched
/// and recorded its reason, and success applied whichever legs had a
/// balance row.
pub open spec fn cmt_resolved(
    pre: SagaCoordinator,
    post: SagaCoordinator,
    id: Seq<char>,
    amount: int,
    from: Seq<char>,
    to: Seq<char>,
    rec: ConfirmedTransaction,
) -> bool {
    &&& rec.id@ == id
    &&& post.cmts.spec_recs() == pre.cmts.spec_recs().push(rec)
    &&& post.cmts.spec_contains(id)
    &&& post.cmts.spec_get(id) == rec
    &&& post.cacs == pre.cacs
    &&& (match transfer_reason(from, to) {
        Some(t) => (rec.reason matches Some(s) && s@ == t) && post.ledger == pre.ledger,
        None => rec.reason is None && ledger_after_legs(
            pre.ledger,
            post.ledger,
            from,
            to,
            amount,
            rec.created_at,
        ),
    })
}

impl SagaCoordinator {
    /// All three stores are well formed.
    pub open spec fn wf(self) -> bool {
        self.ledger.wf() && self.cacs.wf() && self.cmts.wf()
    }

    /// A coordinator over empty stores.
    pub fn new() -> (s: Self)
        ensures
            s.wf(),
            s.ledger.spec_rows().len() == 0,
            s.cacs.spec_recs().len() == 0,
            s.cmts.spec_recs().len() == 0,
            forall|k: Seq<char>| !s.ledger.spec_contains(k),
            forall|k: Seq<char>| !s.cacs.spec_contains(k),
            forall|k: Seq<char>| !s.cmts.spec_contains(k),
    {
        SagaCoordinator { ledger: LedgerStore::new(), cacs: CacStore::new(), cmts: CmtStore::new() }
    }

    /// Resolves a fresh account-creation saga: generates an account
    /// number and opens its zero balance, unless the number is already
    /// bound — then the outcome keeps the reason and no account number
    /// at all. Either way the record is persisted under the request id.
    pub fn create_cac(&mut self, id: String, tp: String) -> (r: ConfirmedAccount)
        requires
            old(self).wf(),
            !old(self).cacs.spec_contains(id@),
        ensures
            final(self).wf(),
            cac_resolved(*old(self), *final(self), id@, tp@, r),
    {
        let account_no = new_account();
        let now = now_millis();
        let rec = match self.ledger.get_balance_by_account_no(&account_no) {
            Some(_v) => {
                let reason = String::from_str("generated account no already exists, try again");
                ConfirmedAccount::new(id, String::new(), tp, Some(reason), now)
            },
            None => {
                let opened = self.ledger.open(account_no.clone(), now);
                proof {
                    assert(opened is Ok);
                }
                ConfirmedAccount::new(id, account_no, tp, None, now)
            },
        };
        let out = rec.clone_rec();
        self.cacs.insert(rec);
        out
    }

    /// Looks up or creates the account-creation outcome for `id`: an
    /// existing record is returned unchanged — the idempotent replay —
    /// and only a missing one is resolved.
    pub fn get_cac(&mut self, id: String, tp: String) -> (r: ConfirmedAccount)
        requires
            old(self).wf(),
        ensures
            final(self).wf(),
            old(self).cacs.spec_contains(id@) ==> *final(self) == *old(self) && r == old(
                self,
            ).cacs.spec_get(id@),
            !old(self).cacs.spec_contains(id@) ==> cac_resolved(
                *old(self),
                *final(self),
                id@,
                tp@,
                r,
            ),
    {
        match self.cacs.get_account_by_id(&id) {
            Some(v) => v,
            None => self.create_cac(id, tp),
        }
    }

    /// Consumes one `confirm_account_creation` delivery: decodes the
    /// payload, absorbs a replayed request id without mutation or
    /// emission, and otherwise resolves the saga and returns the single
    /// confirmation or failure event to emit.
    pub fn handle_cac(&mut self, values: &Vec<(String, FieldValue)>) -> (r: Result<
        Vec<ProducerData>,
        DecodeError,
    >)
        requires
            old(self).wf(),
        ensures
            final(self).wf(),
            r is Ok <==> cac_shape_ok(values@),
            r matches Err(e) ==> *final(self) == *old(self) && (e == DecodeError::MissingField
                <==> values@.len() < 2),
            r matches Ok(events) ==> {
                let id = str_of(values@[0].1);
                let tp = str_of(values@[1].1);
                &&& (old(self).cacs.spec_contains(id) ==> *final(self) == *old(self)
                    && events@.len() == 0)
                &&& (!old(self).cacs.spec_contains(id) ==> {
                    let rec = final(self).cacs.spec_get(id);
                    &&& cac_resolved(*old(self), *final(self), id, tp, rec)
                    &&& events@.len() == 1
                    &&& (rec.reason is None ==> is_acc_confirmed(
                        events@[0],
                        id,
                        rec.account_no@,
                        tp,
                    ))
                    &&& (rec.reason matches Some(s) ==> is_acc_failed(events@[0], id, s@))
                })
            },
    {
        let cmd = match decode_cac(values) {
            Ok(c) => c,
            Err(e) => {
                return Err(e);
            },
        };
        match self.cacs.get_account_by_id(&cmd.id) {
            Some(_v) => Ok(Vec::new()),
            None => {
                let rec = self.create_cac(cmd.id.clone(), cmd.account_type.clone());
                let mut events: Vec<ProducerData> = Vec::new();
                match &rec.reason {
                    None => {
                        events.push(
                            ProducerData {
                                topic: "account_creation_confirmed",
                                key: cmd.id.clone(),
                                values: acc_vec(&cmd.id, &rec.account_no, &cmd.account_type),
                            },
                        );
                    },
                    Some(v) => {
                        events.push(
                            ProducerData {
                                topic: "account_creation_failed",
                                key: cmd.id.clone(),
                                values: fail_vec(&cmd.id, v),
                            },
                        );
                    },
                }
                Ok(events)
            },
        }
    }

    /// Attempts the two legs of a validated transfer: debit `from`,
    /// then credit `to`. A leg whose side is not a well-formed account
    /// number, or has no balance row, is skipped without failing the
    /// saga. Returns the reason slot the legs filled (never, by
    /// construction) and each leg's updated row.
    pub fn transfer(&mut self, amount: i64, from: String, to: String, now: i64) -> (r: (
        Option<String>,
        Option<Balance>,
        Option<Balance>,
    ))
        requires
            old(self).wf(),
            from@ != to@,
            transfer_fits(old(self).ledger, from@, to@, amount as int),
        ensures
            final(self).wf(),
            final(self).cacs == old(self).cacs,
            final(self).cmts == old(self).cmts,
            r.0 is None,
            ledger_after_legs(old(self).ledger, final(self).ledger, from@, to@, amount as int, now),
            cmt_legs(old(self).ledger, final(self).ledger, from@, to@, false, r.1, r.2),
            r.1 matches Some(b) ==> b.account_no@ == from@,
            r.2 matches Some(b) ==> b.account_no@ == to@,
    {
        let (reason, b_from): (Option<String>, Option<Balance>) = if valid_open_account(
            from.clone(),
        ) {
            match self.ledger.get_balance_by_account_no(&from) {
                Some(_v) => {
                    let neg: i64 = -amount;
                    match self.ledger.apply_delta(&from, neg, now) {
                        Ok(v) => (None, Some(v)),
                        Err(_e) => (None, None),
                    }
                },
                None => (None, None),
            }
        } else {
            (None, None)
        };
        let b_to: Option<Balance> = match reason {
            None => {
                if valid_open_account(to.clone()) {
                    match self.ledger.get_balance_by_account_no(&to) {
                        Some(_v) => match self.ledger.apply_delta(&to, amount, now) {
                            Ok(v) => Some(v),
                            Err(_e) => None,
                        },
                        None => None,
                    }
                } else {
                    None
                }
            },
            Some(_) => None,
        };
        (None, b_from, b_to)
    }

    /// Resolves a fresh money-transfer saga: validates the command,
    /// attempts the legs when validation passes, and persists the
    /// outcome record under the request id.
    pub fn create_cmt(&mut self, cmd: &TransferCommand, now: i64) -> (r: (
        ConfirmedTransaction,
        Option<Balance>,
        Option<Balance>,
    ))
        requires
            old(self).wf(),
            !old(self).cmts.spec_contains(cmd.id@),
            cmd_fits(old(self).ledger, cmd.from@, cmd.to@, cmd.amount as int),
        ensures
            final(self).wf(),
            r.0.created_at == now,
            cmt_resolved(
                *old(self),
                *final(self),
                cmd.id@,
                cmd.amount as int,
                cmd.from@,
                cmd.to@,
                r.0,
            ),
            cmt_legs(
                old(self).ledger,
                final(self).ledger,
                cmd.from@,
                cmd.to@,
                transfer_reason(cmd.from@, cmd.to@) is Some,
                r.1,
                r.2,
            ),
            r.1 matches Some(b) ==> b.account_no@ == cmd.from@,
            r.2 matches Some(b) ==> b.account_no@ == cmd.to@,
    {
        let (reason, b_from, b_to): (Option<String>, Option<Balance>, Option<Balance>) = if invalid_from(
            cmd.from.clone(),
        ) {
            (Some(String::from_str("from is invalid")), None, None)
        } else if cmd.from == cmd.to {
            (Some(String::from_str("from and to can't be same for transfer")), None, None)
        } else {
            self.transfer(cmd.amount, cmd.from.clone(), cmd.to.clone(), now)
        };
        let rec = ConfirmedTransaction::new(cmd.id.clone(), reason, now);
        let out = rec.clone_rec();
        self.cmts.insert(rec);
        (out, b_from, b_to)
    }

    /// Looks up or creates the money-transfer outcome for the command's
    /// request id: an existing record is returned unchanged with no
    /// ledger work — the idempotent replay — and only a missing one is
    /// resolved.
    pub fn get_cmt(&mut self, cmd: &TransferCommand) -> (r: (
        ConfirmedTransaction,
        Option<Balance>,
        Option<Balance>,
    ))
        requires
            old(self).wf(),
            !old(self).cmts.spec_contains(cmd.id@) ==> cmd_fits(
                old(self).ledger,
                cmd.from@,
                cmd.to@,
                cmd.amount as int,
            ),
        ensures
            final(self).wf(),
            old(self).cmts.spec_contains(cmd.id@) ==> *final(self) == *old(self) && r.0 == old(
                self,
            ).cmts.spec_get(cmd.id@) && r.1 is None && r.2 is None,
            !old(self).cmts.spec_contains(cmd.id@) ==> {
                &&& cmt_resolved(
                    *old(self),
                    *final(self),
                    cmd.id@,
                    cmd.amount as int,
                    cmd.from@,
                    cmd.to@,
                    r.0,
                )
                &&& cmt_legs(
                    old(self).ledger,
                    final(self).ledger,
                    cmd.from@,
                    cmd.to@,
                    transfer_reason(cmd.from@, cmd.to@) is Some,
                    r.1,
                    r.2,
                )
            },
    {
        match self.cmts.find_by_id(&cmd.id) {
            Some(v) => (v, None, None),
            None => {
                let now = now_millis();
                self.create_cmt(cmd, now)
            },
        }
    }

    /// Consumes one `confirm_money_transfer` delivery: decodes the
    /// payload, absorbs a replayed request id without mutation or
    /// emission, and otherwise resolves the saga and returns the
    /// outcome event followed by one `balance_changed` event per leg
    /// that updated a row — the debit leg's delta negated, the credit
    /// leg's positive.
    pub fn handle_cmt(&mut self, values: &Vec<(String, FieldValue)>) -> (r: Result<
        Vec<ProducerData>,
        DecodeError,
    >)
        requires
            old(self).wf(),
            payload_fits(*old(self), values@),
        ensures
            final(self).wf(),
            r is Ok <==> cmt_shape_ok(values@),
            r matches Err(e) ==> *final(self) == *old(self) && (e == DecodeError::MissingField
                <==> values@.len() < 6),
            r matches Ok(events) ==> {
                let id = str_of(values@[0].1);
                let amount = long_of(values@[2].1);
                let from = str_of(values@[3].1);
                let to = str_of(values@[4].1);
                let desc = str_of(values@[5].1);
                let fl = transfer_reason(from, to) is None && from_leg_applies(
                    old(self).ledger,
                    from,
                );
                let tl = transfer_reason(from, to) is None && to_leg_applies(old(self).ledger, to);
                &&& (old(self).cmts.spec_contains(id) ==> *final(self) == *old(self)
                    && events@.len() == 0)
                &&& (!old(self).cmts.spec_contains(id) ==> {
                    let rec = final(self).cmts.spec_get(id);
                    &&& cmt_resolved(*old(self), *final(self), id, amount, from, to, rec)
                    &&& events@.len() == 1 + (if fl { 1int } else { 0int }) + (if tl {
                        1int
                    } else {
                        0int
                    })
                    &&& (rec.reason is None ==> is_mtc(events@[0], id))
                    &&& (rec.reason matches Some(s) ==> is_mtf(events@[0], id, s@))
                    &&& (fl ==> is_bc(
                        events@[1],
                        from,
                        old(self).ledger.spec_get(from).amount - amount,
                        -amount,
                        to,
                        desc,
                    ))
                    &&& (tl ==> is_bc(
                        events@[1 + (if fl { 1int } else { 0int })],
                        to,
                        old(self).ledger.spec_get(to).amount + amount,
                        amount,
                        from,
                        desc,
                    ))
                })
            },
    {
        let cmd = match decode_cmt(values) {
            Ok(c) => c,
            Err(e) => {
                return Err(e);
            },
        };
        match self.cmts.find_by_id(&cmd.id) {
            Some(_v) => Ok(Vec::new()),
            None => {
                let now = now_millis();
                let (rec, b_from, b_to) = self.create_cmt(&cmd, now);
                let mut events: Vec<ProducerData> = Vec::new();
                match &rec.reason {
                    None => {
                        events.push(
                            ProducerData {
                                topic: "money_transfer_confirmed",
                                key: cmd.id.clone(),
                                values: mtc_vec(&cmd.id),
                            },
                        );
                    },
                    Some(v) => {
                        events.push(
                            ProducerData {
                                topic: "money_transfer_failed",
                                key: cmd.id.clone(),
                                values: fail_vec(&cmd.id, v),
                            },
                        );
                    },
                }
                if let Some(b) = b_from {
                    let neg: i64 = -cmd.amount;
                    events.push(
                        ProducerData {
                            topic: "balance_changed",
                            key: b.account_no.clone(),
                            values: bc_vec(&b.account_no, b.amount, neg, &cmd.to, &cmd.description),
                        },
                    );
                }
                if let Some(b) = b_to {
                    events.push(
                        ProducerData {
                            topic: "balance_changed",
                            key: b.account_no.clone(),
                            values: bc_vec(
                                &b.account_no,
                                b.amount,
                                cmd.amount,
                                &cmd.from,
                                &cmd.description,
                            ),
                        },
                    );
                }
                Ok(events)
            },
        }
    }
}

} // verus!
