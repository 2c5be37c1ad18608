use bank_saga::coordinator::SagaCoordinator;
use bank_saga::events::{DecodeError, FieldValue, ProducerData};

fn cac_values(id: &str) -> Vec<(String, FieldValue)> {
    vec![
        (String::from("id"), FieldValue::Str(String::from(id))),
        (String::from("_type"), FieldValue::Str(String::from("MANUAL"))),
    ]
}

fn cmt_values(id: &str, amount: i64, from: &str, to: &str) -> Vec<(String, FieldValue)> {
    vec![
        (String::from("id"), FieldValue::Str(String::from(id))),
        (String::from("token"), FieldValue::Str(String::from("tok"))),
        (String::from("amount"), FieldValue::Long(amount)),
        (String::from("from"), FieldValue::Str(String::from(from))),
        (String::from("to"), FieldValue::Str(String::from(to))),
        (String::from("description"), FieldValue::Str(String::from("rent"))),
    ]
}

fn str_field(v: &FieldValue) -> String {
    match v {
        FieldValue::Str(s) => s.clone(),
        FieldValue::Long(_) => panic!("expected a text field"),
    }
}

fn long_field(v: &FieldValue) -> i64 {
    match v {
        FieldValue::Long(n) => *n,
        FieldValue::Str(_) => panic!("expected an integer field"),
    }
}

fn open_account(c: &mut SagaCoordinator, req: &str) -> String {
    let events = c.handle_cac(&cac_values(req)).unwrap();
    assert_eq!(events[0].topic, "account_creation_confirmed");
    str_field(&events[0].values[1].1)
}

fn assert_bc(pd: &ProducerData, account: &str, new_balance: i64, changed_by: i64, from_to: &str) {
    assert_eq!(pd.topic, "balance_changed");
    assert_eq!(pd.key, account);
    assert_eq!(pd.values[0].0, "account_no");
    assert_eq!(str_field(&pd.values[0].1), account);
    assert_eq!(pd.values[1].0, "new_balance");
    assert_eq!(long_field(&pd.values[1].1), new_balance);
    assert_eq!(pd.values[2].0, "changed_by");
    assert_eq!(long_field(&pd.values[2].1), changed_by);
    assert_eq!(pd.values[3].0, "from_to");
    assert_eq!(str_field(&pd.values[3].1), from_to);
    assert_eq!(pd.values[4].0, "description");
    assert_eq!(str_field(&pd.values[4].1), "rent");
}

#[test]
fn transfer_between_two_open_accounts() {
    // Open A and B at zero, move 100 from A to B: A at -100, B at +100,
    // one confirmation and two balance_changed events with signed deltas.
    let mut c = SagaCoordinator::new();
    let a = open_account(&mut c, "open-a");
    let b = open_account(&mut c, "open-b");

    let events = c.handle_cmt(&cmt_values("tx-1", 100, &a, &b)).unwrap();
    assert_eq!(events.len(), 3);
    assert_eq!(events[0].topic, "money_transfer_confirmed");
    assert_eq!(events[0].key, "tx-1");
    assert_eq!(events[0].values.len(), 1);
    assert_eq!(str_field(&events[0].values[0].1), "tx-1");
    assert_bc(&events[1], &a, -100, -100, &b);
    assert_bc(&events[2], &b, 100, 100, &a);

    assert_eq!(c.ledger.get_balance_by_account_no(&a).unwrap().amount, -100);
    assert_eq!(c.ledger.get_balance_by_account_no(&b).unwrap().amount, 100);

    let rec = c.cmts.find_by_id(&String::from("tx-1")).unwrap();
    assert_eq!(rec.reason, None);
}

#[test]
fn transfer_same_account_is_refused() {
    // Same from and to: the fixed reason, no balance_changed, no mutation.
    let mut c = SagaCoordinator::new();
    let a = open_account(&mut c, "open-a");

    let events = c.handle_cmt(&cmt_values("tx-2", 100, &a, &a)).unwrap();
    assert_eq!(events.len(), 1);
    assert_eq!(events[0].topic, "money_transfer_failed");
    assert_eq!(events[0].key, "tx-2");
    assert_eq!(str_field(&events[0].values[0].1), "tx-2");
    assert_eq!(
        str_field(&events[0].values[1].1),
        "from and to can't be same for transfer"
    );
    assert_eq!(c.ledger.get_balance_by_account_no(&a).unwrap().amount, 0);

    let rec = c.cmts.find_by_id(&String::from("tx-2")).unwrap();
    assert_eq!(rec.reason, Some(String::from("from and to can't be same for transfer")));
}

#[test]
fn transfer_invalid_from_is_refused() {
    // A from that fails the checksum: reason "from is invalid", zero
    // ledger mutations, zero balance_changed events.
    let mut c = SagaCoordinator::new();
    let b = open_account(&mut c, "open-b");

    let events = c.handle_cmt(&cmt_values("tx-3", 100, "NL81OPEN0123456789", &b)).unwrap();
    assert_eq!(events.len(), 1);
    assert_eq!(events[0].topic, "money_transfer_failed");
    assert_eq!(str_field(&events[0].values[1].1), "from is invalid");
    assert_eq!(c.ledger.get_balance_by_account_no(&b).unwrap().amount, 0);
}

#[test]
fn transfer_from_without_balance_row_is_lenient() {
    // A well-formed from with no balance row: its leg is skipped, the
    // to leg applies and emits, and the saga still succeeds.
    let mut c = SagaCoordinator::new();
    let b = open_account(&mut c, "open-b");
    let absent_from = "NL80OPEN0123456789";
    assert!(c.ledger.get_balance_by_account_no(&String::from(absent_from)).is_none());

    let events = c.handle_cmt(&cmt_values("tx-4", 100, absent_from, &b)).unwrap();
    assert_eq!(events.len(), 2);
    assert_eq!(events[0].topic, "money_transfer_confirmed");
    assert_bc(&events[1], &b, 100, 100, absent_from);
    assert_eq!(c.ledger.get_balance_by_account_no(&b).unwrap().amount, 100);
    assert!(c.ledger.get_balance_by_account_no(&String::from(absent_from)).is_none());

    let rec = c.cmts.find_by_id(&String::from("tx-4")).unwrap();
    assert_eq!(rec.reason, None);
}

#[test]
fn transfer_from_cash_credits_only() {
    let mut c = SagaCoordinator::new();
    let b = open_account(&mut c, "open-b");

    let events = c.handle_cmt(&cmt_values("tx-5", 250, "cash", &b)).unwrap();
    assert_eq!(events.len(), 2);
    assert_eq!(events[0].topic, "money_transfer_confirmed");
    assert_bc(&events[1], &b, 250, 250, "cash");
    assert_eq!(c.ledger.get_balance_by_account_no(&b).unwrap().amount, 250);
}

#[test]
fn transfer_is_idempotent() {
    // Redelivery of the same request id: no second mutation, no events.
    let mut c = SagaCoordinator::new();
    let a = open_account(&mut c, "open-a");
    let b = open_account(&mut c, "open-b");

    let first = c.handle_cmt(&cmt_values("tx-6", 100, &a, &b)).unwrap();
    assert_eq!(first.len(), 3);
    let second = c.handle_cmt(&cmt_values("tx-6", 100, &a, &b)).unwrap();
    assert_eq!(second.len(), 0);
    assert_eq!(c.ledger.get_balance_by_account_no(&a).unwrap().amount, -100);
    assert_eq!(c.ledger.get_balance_by_account_no(&b).unwrap().amount, 100);
    assert_eq!(c.cmts.recs.len(), 1);
}

#[test]
fn transfer_decode_missing_field() {
    let mut c = SagaCoordinator::new();
    let r = c.handle_cmt(&vec![(String::from("id"), FieldValue::Str(String::from("x")))]);
    assert_eq!(r, Err(DecodeError::MissingField));
}

#[test]
fn transfer_decode_wrong_shape() {
    let mut c = SagaCoordinator::new();
    let mut values = cmt_values("tx-7", 100, "cash", "NL80OPEN0123456789");
    values[2].1 = FieldValue::Str(String::from("100"));
    let r = c.handle_cmt(&values);
    assert_eq!(r, Err(DecodeError::WrongShape));
}

#[test]
fn transfer_to_unknown_account_applies_nothing() {
    // Both sides lenient: from is cash, to has no row; the saga still
    // resolves as confirmed with no balance_changed at all.
    let mut c = SagaCoordinator::new();
    let events = c.handle_cmt(&cmt_values("tx-8", 40, "cash", "NL80OPEN0123456789")).unwrap();
    assert_eq!(events.len(), 1);
    assert_eq!(events[0].topic, "money_transfer_confirmed");
    assert_eq!(c.ledger.rows.len(), 0);
}
