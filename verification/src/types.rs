//! Record types shared by the engine, its mathematical model, and its callers.

use vstd::prelude::*;

verus! {

/// Lifecycle stage of a treasury transaction.
///
/// `Pending` may move to `Approved`, `Rejected` or `Expired`; `Approved`
/// may move to `Executed`; `Executed`, `Rejected` and `Expired` are
/// terminal.
#[derive(Clone, Copy, PartialEq, Eq, Structural, Debug)]
pub enum TxStatus {
    Pending,
    Approved,
    Executed,
    Rejected,
    Expired,
}

/// Why a treasury operation was refused.
///
/// `Unauthorized` reports a failed caller-authorization verdict from the
/// host; `TransferFailed` is reserved for the host-side asset transfer,
/// which the engine itself never performs.
#[derive(Clone, Copy, PartialEq, Eq, Structural, Debug)]
pub enum TreasuryError {
    AlreadyInitialized,
    InvalidQuorum,
    NotSigner,
    InvalidAmount,
    NotFound,
    AlreadyVoted,
    InvalidStatus,
    Expired,
    Unauthorized,
    TransferFailed,
}

/// One proposed transfer, with its vote counters and quorum snapshot.
///
/// Accounts (proposer, recipient, token) are carried as plain numeric
/// identifiers; the host maps them to whatever address form it uses.
#[derive(PartialEq, Eq, Debug)]
pub struct TreasuryTx {
    pub tx_id: u64,
    pub proposer: u64,
    pub recipient: u64,
    pub token: u64,
    pub amount: i128,
    pub description: String,
    pub status: TxStatus,
    pub approvals: u32,
    pub rejections: u32,
    pub required_approvals: u32,
    pub created_at: u64,
    pub expires_at: u64,
    pub executed_at: Option<u64>,
}

/// The mathematical image of a [`TreasuryTx`] record.
#[verifier::ext_equal]
pub struct TxModel {
    pub tx_id: u64,
    pub proposer: u64,
    pub recipient: u64,
    pub token: u64,
    pub amount: i128,
    pub description: Seq<char>,
    pub status: TxStatus,
    pub approvals: u32,
    pub rejections: u32,
    pub required_approvals: u32,
    pub created_at: u64,
    pub expires_at: u64,
    pub executed_at: Option<u64>,
}

impl View for TreasuryTx {
    type V = TxModel;

    open spec fn view(&self) -> TxModel {
        TxModel {
            tx_id: self.tx_id,
            proposer: self.proposer,
            recipient: self.recipient,
            token: self.token,
            amount: self.amount,
            description: self.description@,
            status: self.status,
            approvals: self.approvals,
            rejections: self.rejections,
            required_approvals: self.required_approvals,
            created_at: self.created_at,
            expires_at: self.expires_at,
            executed_at: self.executed_at,
        }
    }
}

impl Clone for TreasuryTx {
    fn clone(&self) -> (r: Self)
        ensures
            r == *self,
    {
        TreasuryTx {
            tx_id: self.tx_id,
            proposer: self.proposer,
            recipient: self.recipient,
            token: self.token,
            amount: self.amount,
            description: self.description.clone(),
            status: self.status,
            approvals: self.approvals,
            rejections: self.rejections,
            required_approvals: self.required_approvals,
            created_at: self.created_at,
            expires_at: self.expires_at,
            executed_at: self.executed_at,
        }
    }
}

/// The transfer the host must perform when an execution is granted:
/// move `amount` of `token` from the treasury's own custody to
/// `recipient`.
#[derive(Clone, Copy, PartialEq, Eq, Structural, Debug)]
pub struct TransferOrder {
    pub token: u64,
    pub recipient: u64,
    pub amount: i128,
}

} // verus!
