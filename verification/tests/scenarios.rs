use bit_wallet::engine::{classify, LedgerEngine, Outcome};
use bit_wallet::errors::WalletError;
use bit_wallet::ledger::RecordStatus;
use bit_wallet::store::WalletStore;

#[test]
fn scenario_create_then_grant() {
    let mut e = LedgerEngine::new();
    let w = e.create(1).unwrap();
    assert_eq!(w.account_id, 1);
    assert_eq!(w.balance, 0);

    let outcome = e.apply(1, 100, "grant".to_string());
    assert_eq!(outcome, Outcome::Completed(100));

    assert_eq!(e.ledger.records.len(), 1);
    let rec = &e.ledger.records[0];
    assert!(rec.success());
    assert_eq!(rec.account_id, 1);
    assert_eq!(rec.amount, 100);
    assert_eq!(rec.reason, "grant");
}

#[test]
fn scenario_rejected_purchase_is_recorded() {
    let mut e = LedgerEngine::new();
    e.create(1).unwrap();
    assert_eq!(e.apply(1, 100, "grant".to_string()), Outcome::Completed(100));

    let outcome = e.apply(1, -150, "purchase".to_string());
    assert_eq!(outcome, Outcome::Rejected);

    assert_eq!(e.ledger.records.len(), 2);
    let rec = &e.ledger.records[1];
    assert!(!rec.success());
    assert_eq!(rec.amount, -150);
    match &rec.status {
        RecordStatus::Failed(message) => assert!(!message.is_empty()),
        RecordStatus::Succeeded => panic!("rejected attempt recorded as a success"),
    }
    assert_eq!(e.get(1).unwrap().balance, 100);
}

#[test]
fn scenario_accepted_purchase() {
    let mut e = LedgerEngine::new();
    e.create(1).unwrap();
    assert_eq!(e.apply(1, 100, "grant".to_string()), Outcome::Completed(100));

    let outcome = e.apply(1, -50, "purchase".to_string());
    assert_eq!(outcome, Outcome::Completed(50));

    let rec = &e.ledger.records[1];
    assert!(rec.success());
    assert_eq!(rec.amount, -50);
    assert_eq!(e.get(1).unwrap().balance, 50);
}

#[test]
fn scenario_get_unknown_account() {
    let e = LedgerEngine::new();
    assert_eq!(e.get(9), Err(WalletError::NotFound));
    assert_eq!(e.store.wallets.len(), 0);
    assert_eq!(e.ledger.records.len(), 0);
}

#[test]
fn scenario_debit_applied_but_not_logged() {
    let mut store = WalletStore::new();
    store.create(1).unwrap();
    store.apply_delta(1, 100).unwrap();

    // The debit commits, then recording it fails on the storage side.
    let mutation = store.apply_delta(1, -50);
    assert_eq!(mutation.unwrap().balance, 50);

    let outcome = classify(mutation, false);
    assert_eq!(outcome, Outcome::CompletedUnlogged);
    // The wallet keeps the post-debit value: the money moved, unrecorded.
    assert_eq!(store.get(1).unwrap().balance, 50);
}
