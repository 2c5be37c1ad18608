use bank_saga::coordinator::SagaCoordinator;
use bank_saga::codec::valid_open_account;
use bank_saga::events::{DecodeError, FieldValue};

fn cac_values(id: &str, tp: &str) -> Vec<(String, FieldValue)> {
    vec![
        (String::from("id"), FieldValue::Str(String::from(id))),
        (String::from("_type"), FieldValue::Str(String::from(tp))),
    ]
}

fn str_field(v: &FieldValue) -> String {
    match v {
        FieldValue::Str(s) => s.clone(),
        FieldValue::Long(_) => panic!("expected a text field"),
    }
}

#[test]
fn creation_opens_zero_balance_and_confirms() {
    let mut c = SagaCoordinator::new();
    let events = c.handle_cac(&cac_values("req-1", "MANUAL")).unwrap();
    assert_eq!(events.len(), 1);
    assert_eq!(events[0].topic, "account_creation_confirmed");
    assert_eq!(events[0].key, "req-1");
    assert_eq!(events[0].values.len(), 3);
    assert_eq!(events[0].values[0].0, "id");
    assert_eq!(str_field(&events[0].values[0].1), "req-1");
    assert_eq!(events[0].values[1].0, "account_no");
    let account_no = str_field(&events[0].values[1].1);
    assert!(valid_open_account(account_no.clone()));
    assert_eq!(events[0].values[2].0, "_type");
    assert_eq!(str_field(&events[0].values[2].1), "MANUAL");

    let balance = c.ledger.get_balance_by_account_no(&account_no).unwrap();
    assert_eq!(balance.amount, 0);
    assert_eq!(balance.limits, -50000);

    let rec = c.cacs.get_account_by_id(&String::from("req-1")).unwrap();
    assert_eq!(rec.account_no, account_no);
    assert_eq!(rec.account_type, "MANUAL");
    assert_eq!(rec.reason, None);
}

#[test]
fn creation_is_idempotent() {
    // The same request id a second time: the identical outcome record,
    // no second event, no second ledger row.
    let mut c = SagaCoordinator::new();
    let first = c.handle_cac(&cac_values("req-7", "MANUAL")).unwrap();
    assert_eq!(first.len(), 1);
    let rec1 = c.cacs.get_account_by_id(&String::from("req-7")).unwrap();
    let rows_before = c.ledger.rows.len();

    let second = c.handle_cac(&cac_values("req-7", "MANUAL")).unwrap();
    assert_eq!(second.len(), 0);
    let rec2 = c.cacs.get_account_by_id(&String::from("req-7")).unwrap();
    assert_eq!(rec1, rec2);
    assert_eq!(c.ledger.rows.len(), rows_before);
    assert_eq!(c.cacs.recs.len(), 1);
}

#[test]
fn get_cac_returns_stored_record_on_replay() {
    let mut c = SagaCoordinator::new();
    let first = c.get_cac(String::from("req-9"), String::from("MANUAL"));
    let again = c.get_cac(String::from("req-9"), String::from("OTHER"));
    assert_eq!(first, again);
}

#[test]
fn creation_decode_missing_field() {
    let mut c = SagaCoordinator::new();
    let r = c.handle_cac(&vec![(String::from("id"), FieldValue::Str(String::from("x")))]);
    assert_eq!(r, Err(DecodeError::MissingField));
}

#[test]
fn creation_decode_wrong_shape() {
    let mut c = SagaCoordinator::new();
    let r = c.handle_cac(&vec![
        (String::from("id"), FieldValue::Long(4)),
        (String::from("_type"), FieldValue::Str(String::from("MANUAL"))),
    ]);
    assert_eq!(r, Err(DecodeError::WrongShape));
}

#[test]
fn distinct_requests_open_distinct_accounts() {
    let mut c = SagaCoordinator::new();
    let e1 = c.handle_cac(&cac_values("req-a", "MANUAL")).unwrap();
    let e2 = c.handle_cac(&cac_values("req-b", "MANUAL")).unwrap();
    let a1 = str_field(&e1[0].values[1].1);
    let a2 = str_field(&e2[0].values[1].1);
    assert_ne!(a1, a2);
    assert_eq!(c.ledger.rows.len(), 2);
}
