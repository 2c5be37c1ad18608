use bank_saga::audit::TransactionStore;
use bank_saga::coordinator::SagaCoordinator;
use bank_saga::events::{FieldValue, ProducerData, TransferCommand};
use bank_saga::session::{handle_acc, handle_mtc, handle_mtf, transact, AccountStore};

fn to_inbound(pd: &ProducerData) -> Vec<(String, FieldValue)> {
    pd.values
        .iter()
        .map(|(name, value)| (String::from(*name), value.clone()))
        .collect()
}

fn consume_result(pd: &ProducerData, sessions: &mut AccountStore, history: &mut TransactionStore) {
    let inbound = to_inbound(pd);
    let outcome = match pd.topic {
        "account_creation_confirmed" => handle_acc(&inbound),
        "account_creation_failed" => sessions.handle_acf(&inbound),
        "money_transfer_confirmed" => handle_mtc(&inbound),
        "money_transfer_failed" => handle_mtf(&inbound),
        "balance_changed" => history.handle_bc(&inbound).map(|_row| ()),
        other => panic!("unexpected topic {}", other),
    };
    assert_eq!(outcome, Ok(()));
}

fn account_no_of(pd: &ProducerData) -> String {
    assert_eq!(pd.topic, "account_creation_confirmed");
    match &pd.values[1].1 {
        FieldValue::Str(s) => s.clone(),
        FieldValue::Long(_) => panic!("expected a text field"),
    }
}

#[test]
fn two_logins_then_a_transfer_flow_end_to_end() {
    // Both services in one process: logins produce creation commands,
    // the coordinator resolves them, the result events feed the session
    // service's consumers, and a transfer leaves its audit rows behind.
    let mut coordinator = SagaCoordinator::new();
    let mut sessions = AccountStore::new();
    let mut history = TransactionStore::new();

    let (acc_a, cmd_a) = sessions.login(String::from("alex"), String::from("pw-a"));
    let events_a = coordinator.handle_cac(&to_inbound(&cmd_a)).unwrap();
    assert_eq!(events_a.len(), 1);
    let number_a = account_no_of(&events_a[0]);
    for pd in &events_a {
        consume_result(pd, &mut sessions, &mut history);
    }

    let (acc_b, cmd_b) = sessions.login(String::from("blake"), String::from("pw-b"));
    let events_b = coordinator.handle_cac(&to_inbound(&cmd_b)).unwrap();
    let number_b = account_no_of(&events_b[0]);
    for pd in &events_b {
        consume_result(pd, &mut sessions, &mut history);
    }

    assert_ne!(acc_a.id, acc_b.id);
    assert_eq!(sessions.rows.len(), 2);

    let transfer = transact(&TransferCommand {
        id: String::from("tx-sys"),
        token: String::from("tok"),
        amount: 100,
        from: number_a.clone(),
        to: number_b.clone(),
        description: String::from("settle"),
    });
    let events_t = coordinator.handle_cmt(&to_inbound(&transfer)).unwrap();
    assert_eq!(events_t.len(), 3);
    for pd in &events_t {
        consume_result(pd, &mut sessions, &mut history);
    }

    assert_eq!(coordinator.ledger.get_balance_by_account_no(&number_a).unwrap().amount, -100);
    assert_eq!(coordinator.ledger.get_balance_by_account_no(&number_b).unwrap().amount, 100);

    // The audit trail holds one row per balance_changed event.
    assert_eq!(history.rows.len(), 2);
    let row_a = history.find_transactions_by_account_no(&number_a).unwrap();
    assert_eq!(row_a.amount, -100);
    assert_eq!(row_a.new_balance, -100);
    assert_eq!(row_a.direction, "debit");
    assert_eq!(row_a.from_to, number_b);
    let row_b = history.find_transactions_by_account_no(&number_b).unwrap();
    assert_eq!(row_b.amount, 100);
    assert_eq!(row_b.new_balance, 100);
    assert_eq!(row_b.direction, "credit");
    assert_eq!(row_b.from_to, number_a);

    // The sessions are untouched by a successful flow.
    assert_eq!(sessions.rows.len(), 2);
}
