use vstd::prelude::*;

verus! {

/// What a transaction record asks for.
#[derive(Clone, Copy, Debug, PartialEq, Eq)]
pub enum TransactionType {
    Deposit,
    Withdrawal,
    Dispute,
    Resolve,
    Chargeback,
}

/// One record of the input stream.
///
/// A deposit or a withdrawal carries its own `amount`; where it is absent the
/// amount counts as zero. A dispute, a resolve or a chargeback names in `tx`
/// the deposit or withdrawal that it is about, and its own `amount` is not
/// read.
#[derive(Clone, Copy, Debug, PartialEq, Eq)]
pub struct Transaction {
    pub transaction_type: TransactionType,
    pub client: u16,
    pub tx: u32,
    pub amount: Option<u64>,
}

/// Where a recorded deposit or withdrawal stands in the dispute lifecycle.
///
/// `Recorded` becomes `Disputed` by a dispute. A resolve closes a disputed
/// transaction, and its ledger entry is removed. A chargeback ends a disputed
/// transaction as `ChargedBack`: the entry stays in the ledger, so that the
/// identifier is still known, and accepts no further dispute, resolve or
/// chargeback.
#[derive(Clone, Copy, Debug, PartialEq, Eq)]
pub enum DisputeStatus {
    Recorded,
    Disputed,
    ChargedBack,
}

/// What the ledger keeps of a deposit or withdrawal: who made it, for how
/// much, and where it stands in the dispute lifecycle.
#[derive(Clone, Copy, Debug, PartialEq, Eq)]
pub struct TransactionState {
    pub client: u16,
    pub amount: Option<u64>,
    pub status: DisputeStatus,
}

impl Transaction {
    /// Deposits and withdrawals are the records that enter the ledger.
    pub open spec fn is_recording(&self) -> bool {
        self.transaction_type is Deposit || self.transaction_type is Withdrawal
    }

    /// The ledger entry that this record leaves when its identifier is new.
    pub open spec fn entry(&self) -> TransactionState {
        TransactionState { client: self.client, amount: self.amount, status: DisputeStatus::Recorded }
    }
}

} // verus!
