use vstd::prelude::*;

verus! {

/// The recorded outcome of one attempted balance mutation: success, or
/// failure with the reason. Pairing the flag and the message in one variant
/// makes "an error message is present if and only if the attempt failed" a
/// structural fact rather than a runtime convention.
#[derive(Debug)]
pub enum RecordStatus {
    Succeeded,
    Failed(String),
}

/// One immutable entry of the transaction history.
#[derive(Debug)]
pub struct TransactionRecord {
    /// Unique identifier, assigned by the ledger at append time.
    pub id: u128,
    /// The wallet affected.
    pub account_id: u128,
    /// The requested delta, stored exactly as requested even on failure.
    pub amount: i128,
    /// Creation time, assigned by the ledger at append time; later records
    /// always carry strictly later timestamps.
    pub timestamp: u64,
    /// Why the mutation was requested.
    pub reason: String,
    /// The outcome of the attempt.
    pub status: RecordStatus,
}

impl TransactionRecord {
    /// The outcome flag the data model derives from the status.
    pub open spec fn spec_success(self) -> bool {
        self.status is Succeeded
    }

    /// Whether the recorded attempt succeeded.
    pub fn success(&self) -> (r: bool)
        ensures
            r == self.spec_success(),
    {
        match &self.status {
            RecordStatus::Succeeded => true,
            RecordStatus::Failed(_) => false,
        }
    }
}

/// The append-only history of transaction attempts. Records are only ever
/// added at the end, never updated or removed.
pub struct TransactionLedger {
    pub records: Vec<TransactionRecord>,
}

impl TransactionLedger {
    /// Well-formed: ids and timestamps mirror the insertion order, so ids are
    /// unique and timestamps sort the history exactly as it was written.
    pub open spec fn wf(self) -> bool {
        forall|i: int|
            0 <= i < self.records@.len() ==> (#[trigger] self.records@[i]).id == i as u128
                && self.records@[i].timestamp == i as u64
    }

    /// An empty history.
    pub fn new() -> (r: TransactionLedger)
        ensures
            r.wf(),
            r.records@.len() == 0,
    {
        TransactionLedger { records: Vec::new() }
    }

    /// How many attempts have been recorded.
    pub fn len(&self) -> (r: usize)
        ensures
            r == self.records@.len(),
    {
        self.records.len()
    }

    /// Everything `append` adds: exactly one new record at the end, carrying
    /// the given fields, successful exactly when no error message was given;
    /// every earlier record is untouched.
    pub open spec fn append_post(
        pre: TransactionLedger,
        post: TransactionLedger,
        account_id: u128,
        amount: i128,
        reason: Seq<char>,
        error_message: Option<String>,
        r: TransactionRecord,
    ) -> bool {
        &&& post.records@.len() == pre.records@.len() + 1
        &&& forall|i: int|
            0 <= i < pre.records@.len() ==> #[trigger] post.records@[i] == pre.records@[i]
        &&& post.records@.last() == r
        &&& r.id == pre.records@.len() as u128
        &&& r.timestamp == pre.records@.len() as u64
        &&& r.account_id == account_id
        &&& r.amount == amount
        &&& r.reason@ == reason
        &&& r.spec_success() <==> error_message is None
        &&& error_message matches Some(m) ==> r.status matches RecordStatus::Failed(t) && t@ == m@
    }

    /// Record one attempt, successful or not. The ledger assigns the id and
    /// the timestamp; `success` is derived as the absence of an error
    /// message. In-memory storage cannot fail, so this always appends.
    pub fn append(
        &mut self,
        account_id: u128,
        amount: i128,
        reason: String,
        error_message: Option<String>,
    ) -> (r: TransactionRecord)
        requires
            old(self).wf(),
        ensures
            final(self).wf(),
            Self::append_post(
                *old(self),
                *final(self),
                account_id,
                amount,
                reason@,
                error_message,
                r,
            ),
    {
        let id: u128 = self.records.len() as u128;
        let timestamp: u64 = self.records.len() as u64;
        let status: RecordStatus = match error_message {
            Option::None => RecordStatus::Succeeded,
            Option::Some(m) => RecordStatus::Failed(m),
        };
        let status_copy: RecordStatus = match &status {
            RecordStatus::Succeeded => RecordStatus::Succeeded,
            RecordStatus::Failed(m) => RecordStatus::Failed(m.clone()),
        };
        let record = TransactionRecord {
            id,
            account_id,
            amount,
            timestamp,
            reason: reason.clone(),
            status,
        };
        let returned = TransactionRecord {
            id,
            account_id,
            amount,
            timestamp,
            reason,
            status: status_copy,
        };
        self.records.push(record);
        returned
    }
}

} // verus!
