use bank_saga::events::{decode_cmt, DecodeError, FieldValue, TransferCommand};
use bank_saga::session::{handle_acc, handle_mtc, handle_mtf, transact, Account, AccountStore};

#[test]
fn login_creates_then_reuses_account() {
    let mut store = AccountStore::new();
    let first = store.get_account(String::from("alex"), String::from("pw1"));
    assert_eq!(first.username, "alex");
    assert_eq!(first.id.len(), 36);
    assert_eq!(store.rows.len(), 1);

    // A second login under the same username returns the stored row,
    // whatever password comes with it.
    let again = store.get_account(String::from("alex"), String::from("other"));
    assert_eq!(first, again);
    assert_eq!(store.rows.len(), 1);
}

#[test]
fn find_account_by_username_misses_unknown() {
    let store = AccountStore::new();
    assert!(store.find_account_by_username("nobody").is_none());
}

#[test]
fn remove_account_removes_by_id() {
    let mut store = AccountStore::new();
    let a = store.insert_account(Account::new(String::from("alex"), String::from("pw")));
    let _b = store.insert_account(Account::new(String::from("blake"), String::from("pw")));
    assert_eq!(store.rows.len(), 2);
    store.remove_account(a.id.clone());
    assert_eq!(store.rows.len(), 1);
    assert!(store.find_account_by_username("alex").is_none());
    assert!(store.find_account_by_username("blake").is_some());
}

#[test]
fn acf_with_empty_reason_removes_the_session_row() {
    let mut store = AccountStore::new();
    let a = store.insert_account(Account::new(String::from("alex"), String::from("pw")));
    let values = vec![
        (String::from("id"), FieldValue::Str(a.id.clone())),
        (String::from("reason"), FieldValue::Str(String::new())),
    ];
    assert_eq!(store.handle_acf(&values), Ok(()));
    assert_eq!(store.rows.len(), 0);
}

#[test]
fn acf_with_reason_text_keeps_the_session_row() {
    let mut store = AccountStore::new();
    let a = store.insert_account(Account::new(String::from("alex"), String::from("pw")));
    let values = vec![
        (String::from("id"), FieldValue::Str(a.id.clone())),
        (String::from("reason"), FieldValue::Str(String::from("collision"))),
    ];
    assert_eq!(store.handle_acf(&values), Ok(()));
    assert_eq!(store.rows.len(), 1);
}

#[test]
fn acf_decode_errors() {
    let mut store = AccountStore::new();
    let short = vec![(String::from("id"), FieldValue::Str(String::from("x")))];
    assert_eq!(store.handle_acf(&short), Err(DecodeError::MissingField));
    let wrong = vec![
        (String::from("id"), FieldValue::Long(1)),
        (String::from("reason"), FieldValue::Str(String::new())),
    ];
    assert_eq!(store.handle_acf(&wrong), Err(DecodeError::WrongShape));
}

#[test]
fn login_emits_the_creation_command() {
    let mut store = AccountStore::new();
    let (acc, pd) = store.login(String::from("alex"), String::from("pw"));
    assert_eq!(pd.topic, "confirm_account_creation");
    assert_eq!(pd.key, acc.id);
    assert_eq!(pd.values.len(), 2);
    assert_eq!(pd.values[0].0, "id");
    assert_eq!(pd.values[0].1, FieldValue::Str(acc.id.clone()));
    assert_eq!(pd.values[1].0, "_type");
    assert_eq!(pd.values[1].1, FieldValue::Str(String::from("MANUAL")));
    assert_eq!(store.rows.len(), 1);
}

#[test]
fn transact_round_trips_through_decode() {
    let cmd = TransferCommand {
        id: String::from("tx-1"),
        token: String::from("tok"),
        amount: 125,
        from: String::from("cash"),
        to: String::from("NL80OPEN0123456789"),
        description: String::from("rent"),
    };
    let pd = transact(&cmd);
    assert_eq!(pd.topic, "confirm_money_transfer");
    assert_eq!(pd.key, "tx-1");
    let inbound: Vec<(String, FieldValue)> = pd
        .values
        .iter()
        .map(|(name, value)| (String::from(*name), value.clone()))
        .collect();
    let decoded = decode_cmt(&inbound).unwrap();
    assert_eq!(decoded, cmd);
}

#[test]
fn acc_checks_payload_shape() {
    let good = vec![
        (String::from("id"), FieldValue::Str(String::from("r"))),
        (String::from("account_no"), FieldValue::Str(String::from("n"))),
        (String::from("_type"), FieldValue::Str(String::from("MANUAL"))),
    ];
    assert_eq!(handle_acc(&good), Ok(()));
    let short = vec![(String::from("id"), FieldValue::Str(String::from("r")))];
    assert_eq!(handle_acc(&short), Err(DecodeError::MissingField));
    let mut wrong = good.clone();
    wrong[2].1 = FieldValue::Long(9);
    assert_eq!(handle_acc(&wrong), Err(DecodeError::WrongShape));
}

#[test]
fn mtc_and_mtf_check_payload_shape() {
    let good = vec![(String::from("id"), FieldValue::Str(String::from("r")))];
    assert_eq!(handle_mtc(&good), Ok(()));
    assert_eq!(handle_mtf(&good), Ok(()));
    let empty: Vec<(String, FieldValue)> = vec![];
    assert_eq!(handle_mtc(&empty), Err(DecodeError::MissingField));
    assert_eq!(handle_mtf(&empty), Err(DecodeError::MissingField));
    let wrong = vec![(String::from("id"), FieldValue::Long(2))];
    assert_eq!(handle_mtc(&wrong), Err(DecodeError::WrongShape));
    assert_eq!(handle_mtf(&wrong), Err(DecodeError::WrongShape));
}
