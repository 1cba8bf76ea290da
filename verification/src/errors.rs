use vstd::prelude::*;

verus! {

/// Why a wallet operation failed.
#[derive(Clone, Copy, Debug, PartialEq, Eq, Structural)]
pub enum WalletError {
    /// A wallet already exists for the account.
    DuplicateAccount,
    /// No wallet exists for the account.
    NotFound,
    /// The requested delta would drive the balance below zero.
    InsufficientBalance,
    /// The storage layer failed.
    PersistenceError,
}

impl WalletError {
    /// The text recorded in the ledger when an attempt fails for this reason.
    pub open spec fn spec_describe(self) -> Seq<char> {
        match self {
            WalletError::DuplicateAccount => "duplicate account"@,
            WalletError::NotFound => "account not found"@,
            WalletError::InsufficientBalance => "insufficient balance"@,
            WalletError::PersistenceError => "persistence error"@,
        }
    }

    /// A short description of the failure, suitable as a ledger error message.
    pub fn describe(&self) -> (r: String)
        ensures
            r@ == self.spec_describe(),
    {
        match self {
            WalletError::DuplicateAccount => "duplicate account".to_owned(),
            WalletError::NotFound => "account not found".to_owned(),
            WalletError::InsufficientBalance => "insufficient balance".to_owned(),
            WalletError::PersistenceError => "persistence error".to_owned(),
        }
    }
}

} // verus!
