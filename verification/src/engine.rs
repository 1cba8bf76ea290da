use vstd::prelude::*;

use crate::deltas;
use crate::errors::WalletError;
use crate::ledger::RecordStatus;
use crate::ledger::TransactionLedger;
use crate::store::Wallet;
use crate::store::WalletStore;

verus! {

/// The four classifications of one `apply` call. `CompletedUnlogged` — the
/// balance changed but the audit record is missing — is deliberately distinct
/// from `Failed`: money moved with no record, which downstream callers must
/// be able to tell apart from an attempt that changed nothing.
#[derive(Clone, Copy, Debug, PartialEq, Eq, Structural)]
pub enum Outcome {
    /// Balance mutation and ledger record both succeeded; carries the new
    /// balance.
    Completed(i128),
    /// The mutation was rejected (a business failure), and the rejection was
    /// correctly recorded.
    Rejected,
    /// The balance changed but recording the attempt failed: a
    /// data-integrity emergency, never to be folded into an ordinary error.
    CompletedUnlogged,
    /// Neither the mutation nor the record succeeded.
    Failed,
}

/// Combine the result of the balance mutation with the fate of the ledger
/// append into exactly one of the four outcomes.
pub fn classify(mutation: Result<Wallet, WalletError>, logged: bool) -> (r: Outcome)
    ensures
        mutation matches Ok(w) ==> r == (if logged {
            Outcome::Completed(w.balance)
        } else {
            Outcome::CompletedUnlogged
        }),
        mutation is Err ==> r == (if logged {
            Outcome::Rejected
        } else {
            Outcome::Failed
        }),
{
    match (mutation, logged) {
        (Ok(w), true) => Outcome::Completed(w.balance),
        (Err(_), true) => Outcome::Rejected,
        (Ok(_), false) => Outcome::CompletedUnlogged,
        (Err(_), false) => Outcome::Failed,
    }
}

/// The engine that composes the wallet store and the transaction ledger:
/// every attempted mutation is applied-or-rejected against the current
/// balance and then recorded, whatever its outcome.
pub struct LedgerEngine {
    pub store: WalletStore,
    pub ledger: TransactionLedger,
}

impl LedgerEngine {
    /// Both components well-formed.
    pub open spec fn wf(self) -> bool {
        self.store.wf() && self.ledger.wf()
    }

    /// True when the delta would be accepted against the current state.
    pub open spec fn accepts(self, account_id: u128, amount: i128) -> bool {
        self.store.spec_contains(account_id) && deltas::delta_accepted(
            self.store.spec_balance(account_id),
            amount as int,
        )
    }

    /// A fresh engine: no accounts, no history.
    pub fn new() -> (r: LedgerEngine)
        ensures
            r.wf(),
            r.store.wallets@.len() == 0,
            r.ledger.records@.len() == 0,
    {
        LedgerEngine { store: WalletStore::new(), ledger: TransactionLedger::new() }
    }

    /// Create a wallet for a new account. Creation is not an attempted
    /// balance mutation, so it leaves the ledger untouched.
    pub fn create(&mut self, account_id: u128) -> (r: Result<Wallet, WalletError>)
        requires
            old(self).wf(),
        ensures
            final(self).wf(),
            WalletStore::create_post(old(self).store, final(self).store, account_id, r),
            final(self).ledger.records@ == old(self).ledger.records@,
    {
        self.store.create(account_id)
    }

    /// Read the account's current wallet without changing anything.
    pub fn get(&self, account_id: u128) -> (r: Result<Wallet, WalletError>)
        requires
            self.wf(),
        ensures
            WalletStore::get_post(self.store, account_id, r),
    {
        self.store.get(account_id)
    }

    /// Everything one `apply` call does: exactly one record is appended for
    /// the attempt, successful exactly when the balance actually changed by
    /// `amount`; the store moves by the accepted delta or not at all; and the
    /// caller learns which of the four outcomes took place.
    pub open spec fn apply_post(
        pre: LedgerEngine,
        post: LedgerEngine,
        account_id: u128,
        amount: i128,
        reason: Seq<char>,
        r: Outcome,
    ) -> bool {
        &&& WalletStore::apply_delta_post(
            pre.store,
            post.store,
            account_id,
            amount,
            if pre.accepts(account_id, amount) {
                Ok((Wallet {
                    account_id,
                    balance: (pre.store.spec_balance(account_id) + amount) as i128,
                }))
            } else if pre.store.spec_contains(account_id) {
                Err(WalletError::InsufficientBalance)
            } else {
                Err(WalletError::NotFound)
            },
        )
        &&& post.ledger.records@.len() == pre.ledger.records@.len() + 1
        &&& forall|i: int|
            0 <= i < pre.ledger.records@.len() ==> #[trigger] post.ledger.records@[i]
                == pre.ledger.records@[i]
        &&& post.ledger.records@.last().account_id == account_id
        &&& post.ledger.records@.last().amount == amount
        &&& post.ledger.records@.last().reason@ == reason
        &&& post.ledger.records@.last().spec_success() <==> pre.accepts(account_id, amount)
        &&& !pre.accepts(account_id, amount) ==> (post.ledger.records@.last().status matches
            RecordStatus::Failed(t) && t@ == (if pre.store.spec_contains(account_id) {
            WalletError::InsufficientBalance
        } else {
            WalletError::NotFound
        }).spec_describe())
        &&& r == if pre.accepts(account_id, amount) {
            Outcome::Completed((pre.store.spec_balance(account_id) + amount) as i128)
        } else {
            Outcome::Rejected
        }
    }

    /// Attempt the balance mutation, then unconditionally record the
    /// attempt, and classify the combined result. With in-memory storage the
    /// append cannot fail, so the outcome is `Completed` or `Rejected`; the
    /// storage-failure rows of the classification live in `classify`.
    pub fn apply(&mut self, account_id: u128, amount: i128, reason: String) -> (r: Outcome)
        requires
            old(self).wf(),
            old(self).store.spec_contains(account_id) ==> old(self).store.spec_balance(account_id)
                + amount <= i128::MAX,
        ensures
            final(self).wf(),
            Self::apply_post(*old(self), *final(self), account_id, amount, reason@, r),
    {
        let mutation = self.store.apply_delta(account_id, amount);
        let error_message: Option<String> = match &mutation {
            Ok(_) => Option::None,
            Err(e) => Option::Some(e.describe()),
        };
        let _record = self.ledger.append(account_id, amount, reason, error_message);
        classify(mutation, true)
    }
}

} // verus!
