use bit_wallet::engine::{classify, LedgerEngine, Outcome};
use bit_wallet::errors::WalletError;
use bit_wallet::store::Wallet;

#[test]
fn balance_never_negative_under_random_deltas() {
    let mut e = LedgerEngine::new();
    e.create(1).unwrap();
    let mut seed: u64 = 0x2545F4914F6CDD1D;
    for _ in 0..500 {
        seed = seed.wrapping_mul(6364136223846793005).wrapping_add(1442695040888963407);
        let delta = ((seed >> 33) as i128 % 201) - 100;
        let before = e.get(1).unwrap().balance;
        let outcome = e.apply(1, delta, "random".to_string());
        let after = e.get(1).unwrap().balance;
        assert!(after >= 0);
        match outcome {
            Outcome::Completed(b) => {
                assert_eq!(b, before + delta);
                assert_eq!(after, before + delta);
            }
            Outcome::Rejected => {
                assert!(before + delta < 0);
                assert_eq!(after, before);
            }
            _ => panic!("in-memory apply cannot lose the record"),
        }
    }
}

#[test]
fn exactly_one_record_per_apply() {
    let mut e = LedgerEngine::new();
    e.create(1).unwrap();
    let deltas: [i128; 6] = [100, -30, -200, 50, -120, 0];
    for (k, delta) in deltas.iter().enumerate() {
        let before = e.get(1).unwrap().balance;
        e.apply(1, *delta, "attempt".to_string());
        let after = e.get(1).unwrap().balance;
        assert_eq!(e.ledger.records.len(), k + 1);
        let rec = &e.ledger.records[k];
        // success exactly when the balance changed by the requested amount
        assert_eq!(rec.success(), after == before + *delta && before + *delta >= 0);
        assert_eq!(rec.amount, *delta);
    }
}

#[test]
fn get_is_idempotent() {
    let mut e = LedgerEngine::new();
    e.create(1).unwrap();
    e.apply(1, 75, "grant".to_string());
    let first = e.get(1);
    let second = e.get(1);
    assert_eq!(first, second);
    assert_eq!(first.unwrap().balance, 75);

    let missing_first = e.get(2);
    let missing_second = e.get(2);
    assert_eq!(missing_first, missing_second);
    assert_eq!(missing_first, Err(WalletError::NotFound));
}

#[test]
fn all_deltas_with_nonnegative_prefix_sums_succeed() {
    let mut e = LedgerEngine::new();
    e.create(1).unwrap();
    let deltas: [i128; 5] = [50, -30, 40, -60, 10];
    let mut expected: i128 = 0;
    for delta in deltas.iter() {
        expected += *delta;
        let outcome = e.apply(1, *delta, "transfer".to_string());
        assert_eq!(outcome, Outcome::Completed(expected));
    }
    assert_eq!(e.get(1).unwrap().balance, deltas.iter().sum::<i128>());
}

#[test]
fn final_balance_is_the_sum_of_accepted_deltas() {
    let mut e = LedgerEngine::new();
    e.create(1).unwrap();
    let deltas: [i128; 5] = [50, -80, 20, -60, -10];
    let mut accepted_sum: i128 = 0;
    for delta in deltas.iter() {
        let outcome = e.apply(1, *delta, "transfer".to_string());
        if accepted_sum + *delta >= 0 {
            accepted_sum += *delta;
            assert_eq!(outcome, Outcome::Completed(accepted_sum));
        } else {
            assert_eq!(outcome, Outcome::Rejected);
        }
    }
    assert_eq!(accepted_sum, 0);
    assert_eq!(e.get(1).unwrap().balance, 0);
}

#[test]
fn classification_table() {
    let w = Wallet { account_id: 1, balance: 42 };
    assert_eq!(classify(Ok(w), true), Outcome::Completed(42));
    assert_eq!(classify(Err(WalletError::InsufficientBalance), true), Outcome::Rejected);
    assert_eq!(classify(Ok(w), false), Outcome::CompletedUnlogged);
    assert_eq!(classify(Err(WalletError::PersistenceError), false), Outcome::Failed);
}
