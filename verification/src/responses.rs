use vstd::prelude::*;

use crate::store::Wallet;

verus! {

/// A plain-text message returned to a caller of the service.
pub struct MessageResponse {
    pub message: String,
}

impl MessageResponse {
    /// A response carrying the given message.
    pub fn new(message: &str) -> (r: MessageResponse)
        ensures
            r.message@ == message@,
    {
        MessageResponse { message: message.to_owned() }
    }

    /// The response sent when a bearer token cannot be authenticated.
    pub fn token_auth_failure() -> (r: MessageResponse)
        ensures
            r.message@ == "Token authentication failed."@,
    {
        MessageResponse::new("Token authentication failed.")
    }
}

/// The balance reported to a caller after a completed transaction.
pub struct BalanceResponse {
    pub balance: u128,
}

impl BalanceResponse {
    /// The response reporting a wallet's current balance.
    ///
    /// A balance is non-negative between operations, so the unsigned report
    /// is exact.
    pub fn for_wallet(w: &Wallet) -> (r: BalanceResponse)
        requires
            w.balance >= 0,
        ensures
            r.balance == w.balance,
    {
        BalanceResponse { balance: w.balance as u128 }
    }
}

} // verus!
