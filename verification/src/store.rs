use vstd::prelude::*;

use crate::deltas;
use crate::errors::WalletError;

verus! {

/// The current balance record for one account: the account's identifier and
/// its balance in exact integer units.
#[derive(Clone, Copy, Debug, PartialEq, Eq, Structural)]
pub struct Wallet {
    pub account_id: u128,
    pub balance: i128,
}

/// The single source of truth for current balances: at most one wallet per
/// account, every balance non-negative, mutated only through `apply_delta`.
pub struct WalletStore {
    pub wallets: Vec<Wallet>,
}

impl WalletStore {
    /// True when the account has a wallet.
    pub open spec fn spec_contains(self, account_id: u128) -> bool {
        exists|i: int| 0 <= i < self.wallets@.len() && self.wallets@[i].account_id == account_id
    }

    /// The index of the account's wallet.
    pub open spec fn index_of(self, account_id: u128) -> int {
        choose|i: int| 0 <= i < self.wallets@.len() && self.wallets@[i].account_id == account_id
    }

    /// The account's current balance.
    pub open spec fn spec_balance(self, account_id: u128) -> int {
        self.wallets@[self.index_of(account_id)].balance as int
    }

    /// Well-formed: one wallet per account, every balance non-negative.
    pub open spec fn wf(self) -> bool {
        &&& forall|i: int, j: int|
            0 <= i < j < self.wallets@.len() ==> (#[trigger] self.wallets@[i]).account_id != (
            #[trigger] self.wallets@[j]).account_id
        &&& forall|i: int|
            0 <= i < self.wallets@.len() ==> (#[trigger] self.wallets@[i]).balance >= 0
    }

    /// Under `wf`, any index holding the account is the one `index_of` picks.
    proof fn lemma_index_of(self, account_id: u128, i: int)
        requires
            self.wf(),
            0 <= i < self.wallets@.len(),
            self.wallets@[i].account_id == account_id,
        ensures
            self.spec_contains(account_id),
            self.index_of(account_id) == i,
    {
        assert(self.spec_contains(account_id));
        let j = self.index_of(account_id);
        assert(0 <= j < self.wallets@.len() && self.wallets@[j].account_id == account_id);
    }

    /// An empty store: no accounts yet.
    pub fn new() -> (r: WalletStore)
        ensures
            r.wf(),
            r.wallets@.len() == 0,
    {
        WalletStore { wallets: Vec::new() }
    }

    /// The index of the account's wallet, by linear search.
    fn find(&self, account_id: u128) -> (r: Option<usize>)
        requires
            self.wf(),
        ensures
            match r {
                Some(i) => {
                    &&& i < self.wallets@.len()
                    &&& self.wallets@[i as int].account_id == account_id
                    &&& self.spec_contains(account_id)
                    &&& self.index_of(account_id) == i
                },
                None => !self.spec_contains(account_id),
            },
    {
        let mut k: usize = 0;
        while k < self.wallets.len()
            invariant
                self.wf(),
                k <= self.wallets@.len(),
                forall|j: int| 0 <= j < k ==> (#[trigger] self.wallets@[j]).account_id != account_id,
            decreases self.wallets@.len() - k,
        {
            if self.wallets[k].account_id == account_id {
                proof {
                    self.lemma_index_of(account_id, k as int);
                }
                return Some(k);
            }
            k += 1;
        }
        None
    }

    /// Everything `create` promises of the store it leaves behind.
    pub open spec fn create_post(
        pre: WalletStore,
        post: WalletStore,
        account_id: u128,
        r: Result<Wallet, WalletError>,
    ) -> bool {
        &&& pre.spec_contains(account_id) ==> r == Err::<Wallet, WalletError>(
            WalletError::DuplicateAccount,
        ) && post.wallets@ == pre.wallets@
        &&& !pre.spec_contains(account_id) ==> {
            &&& r == Ok::<Wallet, WalletError>((Wallet { account_id, balance: 0 }))
            &&& post.wallets@ == pre.wallets@.push((Wallet { account_id, balance: 0 }))
            &&& post.spec_contains(account_id)
            &&& post.spec_balance(account_id) == 0
        }
        &&& forall|b: u128|
            b != account_id ==> (#[trigger] post.spec_contains(b) <==> pre.spec_contains(b))
        &&& forall|b: u128|
            b != account_id && pre.spec_contains(b) ==> #[trigger] post.spec_balance(b)
                == pre.spec_balance(b)
    }

    /// Create a wallet for a new account, with the initial balance of zero.
    /// Fails, changing nothing, when the account already has one.
    pub fn create(&mut self, account_id: u128) -> (r: Result<Wallet, WalletError>)
        requires
            old(self).wf(),
        ensures
            final(self).wf(),
            Self::create_post(*old(self), *final(self), account_id, r),
    {
        match self.find(account_id) {
            Some(_) => Err(WalletError::DuplicateAccount),
            None => {
                let w = Wallet { account_id, balance: 0 };
                self.wallets.push(w);
                proof {
                    self.lemma_frame(*old(self), account_id);
                    self.lemma_index_of(account_id, self.wallets@.len() - 1);
                }
                Ok(w)
            },
        }
    }

    /// When every wallet of `pre` reappears unchanged at its index in `post`
    /// and any extra or rewritten index holds `account_id`, membership and
    /// balances of every other account carry over.
    proof fn lemma_frame(self, pre: WalletStore, account_id: u128)
        requires
            pre.wf(),
            self.wf(),
            forall|i: int|
                0 <= i < self.wallets@.len() && (#[trigger] self.wallets@[i]).account_id
                    != account_id ==> i < pre.wallets@.len() && self.wallets@[i] == pre.wallets@[i],
            forall|i: int|
                0 <= i < pre.wallets@.len() && (#[trigger] pre.wallets@[i]).account_id != account_id
                    ==> i < self.wallets@.len() && self.wallets@[i] == pre.wallets@[i],
        ensures
            forall|b: u128|
                b != account_id ==> (#[trigger] self.spec_contains(b) <==> pre.spec_contains(b)),
            forall|b: u128|
                b != account_id && pre.spec_contains(b) ==> #[trigger] self.spec_balance(b)
                    == pre.spec_balance(b),
    {
        assert forall|b: u128| b != account_id implies (#[trigger] self.spec_contains(b)
            <==> pre.spec_contains(b)) by {
            if pre.spec_contains(b) {
                let i = pre.index_of(b);
                assert(self.wallets@[i].account_id == b);
                assert(self.spec_contains(b));
            }
            if self.spec_contains(b) {
                let i = self.index_of(b);
                assert(pre.wallets@[i].account_id == b);
                assert(pre.spec_contains(b));
            }
        }
        assert forall|b: u128| b != account_id && pre.spec_contains(b) implies
            #[trigger] self.spec_balance(b) == pre.spec_balance(b) by {
            let i = pre.index_of(b);
            assert(0 <= i < pre.wallets@.len() && pre.wallets@[i].account_id == b);
            pre.lemma_index_of(b, i);
            assert(self.wallets@[i] == pre.wallets@[i]);
            self.lemma_index_of(b, i);
        }
    }

    /// Everything `get` promises: the result is a function of the state.
    pub open spec fn get_post(s: WalletStore, account_id: u128, r: Result<Wallet, WalletError>) -> bool {
        &&& s.spec_contains(account_id) ==> r == Ok::<Wallet, WalletError>(
            (Wallet { account_id, balance: s.spec_balance(account_id) as i128 }),
        )
        &&& !s.spec_contains(account_id) ==> r == Err::<Wallet, WalletError>(WalletError::NotFound)
    }

    /// Return the account's current wallet; fails when none exists. Reading
    /// never changes the store.
    pub fn get(&self, account_id: u128) -> (r: Result<Wallet, WalletError>)
        requires
            self.wf(),
        ensures
            Self::get_post(*self, account_id, r),
    {
        match self.find(account_id) {
            Some(i) => Ok(self.wallets[i]),
            None => Err(WalletError::NotFound),
        }
    }

    /// Repeated reads with no intervening mutation return identical results:
    /// `get`'s contract pins its result as a function of the state alone.
    pub proof fn lemma_get_idempotent(
        s: WalletStore,
        account_id: u128,
        r1: Result<Wallet, WalletError>,
        r2: Result<Wallet, WalletError>,
    )
        requires
            Self::get_post(s, account_id, r1),
            Self::get_post(s, account_id, r2),
        ensures
            r1 == r2,
    {
    }

    /// Everything `apply_delta` promises of the store it leaves behind.
    pub open spec fn apply_delta_post(
        pre: WalletStore,
        post: WalletStore,
        account_id: u128,
        amount: i128,
        r: Result<Wallet, WalletError>,
    ) -> bool {
        &&& r is Ok <==> pre.spec_contains(account_id) && deltas::delta_accepted(
            pre.spec_balance(account_id),
            amount as int,
        )
        &&& !pre.spec_contains(account_id) ==> r == Err::<Wallet, WalletError>(
            WalletError::NotFound,
        ) && post.wallets@ == pre.wallets@
        &&& pre.spec_contains(account_id) && !deltas::delta_accepted(
            pre.spec_balance(account_id),
            amount as int,
        ) ==> r == Err::<Wallet, WalletError>(WalletError::InsufficientBalance) && post.wallets@
            == pre.wallets@
        &&& pre.spec_contains(account_id) && deltas::delta_accepted(
            pre.spec_balance(account_id),
            amount as int,
        ) ==> {
            &&& r == Ok::<Wallet, WalletError>(
                (Wallet {
                    account_id,
                    balance: (pre.spec_balance(account_id) + amount) as i128,
                }),
            )
            &&& post.wallets@.len() == pre.wallets@.len()
        }
        &&& pre.spec_contains(account_id) ==> post.spec_balance(account_id)
            == deltas::next_balance(pre.spec_balance(account_id), amount as int)
        &&& forall|b: u128| #[trigger] post.spec_contains(b) <==> pre.spec_contains(b)
        &&& forall|b: u128|
            b != account_id && pre.spec_contains(b) ==> #[trigger] post.spec_balance(b)
                == pre.spec_balance(b)
    }

    /// The single write path for balances: read the current balance, add
    /// `amount` exactly, and commit the result only when it is non-negative.
    /// A rejected or failed attempt leaves the store exactly as it was.
    pub fn apply_delta(&mut self, account_id: u128, amount: i128) -> (r: Result<
        Wallet,
        WalletError,
    >)
        requires
            old(self).wf(),
            old(self).spec_contains(account_id) ==> old(self).spec_balance(account_id) + amount
                <= i128::MAX,
        ensures
            final(self).wf(),
            Self::apply_delta_post(*old(self), *final(self), account_id, amount, r),
    {
        let idx = match self.find(account_id) {
            None => {
                return Err(WalletError::NotFound);
            },
            Some(i) => i,
        };
        let balance: i128 = self.wallets[idx].balance;
        match deltas::validate_delta(balance, amount) {
            Err(e) => Err(e),
            Ok(new_balance) => {
                let w = Wallet { account_id, balance: new_balance };
                self.wallets.set(idx, w);
                proof {
                    assert forall|b: u128| #[trigger] self.spec_contains(b) <==> old(
                        self,
                    ).spec_contains(b) by {
                        if old(self).spec_contains(b) {
                            let i = old(self).index_of(b);
                            assert(self.wallets@[i].account_id == b);
                        }
                        if self.spec_contains(b) {
                            let i = self.index_of(b);
                            assert(old(self).wallets@[i].account_id == b);
                        }
                    }
                    self.lemma_frame(*old(self), account_id);
                    self.lemma_index_of(account_id, idx as int);
                }
                Ok(w)
            },
        }
    }
}

} // verus!
