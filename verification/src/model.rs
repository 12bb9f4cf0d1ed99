//! The mathematical model of the engine's state and of every transition.
//!
//! Each mutating operation of the engine is specified as a function from
//! a [`TreasuryModel`] and the operation's inputs to the next model and
//! the operation's outcome. The executable engine is proved to follow
//! these functions exactly, and the laws in [`crate::laws`] are proved
//! about them.

use crate::types::{TreasuryError, TxModel, TxStatus};
use vstd::prelude::*;

verus! {

/// The whole engine state: roster configuration, every transaction ever
/// proposed (`transactions[i]` carries id `i + 1`), and the approval
/// vote records, in the order they were written.
#[verifier::ext_equal]
pub struct TreasuryModel {
    pub initialized: bool,
    pub admin: u64,
    pub signers: Seq<u64>,
    pub required: u32,
    pub transactions: Seq<TxModel>,
    pub votes: Seq<(u64, u64)>,
}

/// The state of an engine on which `initialize` has not yet succeeded.
pub open spec fn fresh(v: TreasuryModel) -> bool {
    &&& !v.initialized
    &&& v.signers.len() == 0
    &&& v.transactions.len() == 0
    &&& v.votes.len() == 0
}

pub open spec fn is_signer(v: TreasuryModel, who: u64) -> bool {
    v.signers.contains(who)
}

/// Ids are handed out contiguously from 1, so a record exists exactly
/// for ids up to the number of proposals made.
pub open spec fn tx_exists(v: TreasuryModel, tx_id: u64) -> bool {
    1 <= tx_id <= v.transactions.len()
}

pub open spec fn tx_at(v: TreasuryModel, tx_id: u64) -> TxModel {
    v.transactions[tx_id - 1]
}

/// Whether signer `signer` holds a vote record for transaction `tx_id`.
/// A record is written only by a successful approval.
pub open spec fn has_vote(v: TreasuryModel, tx_id: u64, signer: u64) -> bool {
    v.votes.contains((tx_id, signer))
}

/// How many vote records transaction `tx_id` holds.
pub open spec fn count_votes(votes: Seq<(u64, u64)>, tx_id: u64) -> nat
    decreases votes.len(),
{
    if votes.len() == 0 {
        0
    } else {
        count_votes(votes.drop_last(), tx_id) + (if votes.last().0 == tx_id {
            1nat
        } else {
            0nat
        })
    }
}

pub proof fn lemma_count_votes_push(votes: Seq<(u64, u64)>, vote: (u64, u64), tx_id: u64)
    ensures
        count_votes(votes.push(vote), tx_id) == count_votes(votes, tx_id) + (if vote.0 == tx_id {
            1nat
        } else {
            0nat
        }),
{
    assert(votes.push(vote).drop_last() =~= votes);
}

pub proof fn lemma_count_votes_absent(votes: Seq<(u64, u64)>, tx_id: u64)
    requires
        forall|k: int| 0 <= k < votes.len() ==> (#[trigger] votes[k]).0 != tx_id,
    ensures
        count_votes(votes, tx_id) == 0,
    decreases votes.len(),
{
    if votes.len() > 0 {
        lemma_count_votes_absent(votes.drop_last(), tx_id);
    }
}

/// The roster was set once by a successful `initialize` and is
/// well-formed: distinct members, and a quorum between one and the
/// roster size.
pub open spec fn roster_wf(v: TreasuryModel) -> bool {
    &&& v.initialized
    &&& 1 <= v.required <= v.signers.len()
    &&& v.signers.len() <= u32::MAX
    &&& forall|i: int, j: int|
        0 <= i < j < v.signers.len() ==> v.signers[i] != v.signers[j]
}

/// Every vote record names an existing transaction and a roster member,
/// and no (transaction, signer) pair is recorded twice.
pub open spec fn votes_wf(v: TreasuryModel) -> bool {
    &&& forall|k: int|
        0 <= k < v.votes.len() ==> tx_exists(v, (#[trigger] v.votes[k]).0) && is_signer(
            v,
            v.votes[k].1,
        )
    &&& forall|k: int, l: int| 0 <= k < l < v.votes.len() ==> v.votes[k] != v.votes[l]
}

/// Per-record invariant. The status clauses carry the whole history of
/// a record in its counters:
/// - while `Pending`, the quorum has not been met and is still
///   reachable (`rejections + required <= |roster|`);
/// - `Approved` and `Executed` hold exactly the quorum snapshot in
///   `approvals`, since counting stops at the transition;
/// - `Rejected` is entered by the first rejection that makes the quorum
///   unreachable, so `rejections` lands exactly one past the reachable
///   bound;
/// - `Expired` freezes the counters of the pending record it was
///   flipped from.
pub open spec fn tx_wf(v: TreasuryModel, i: int) -> bool {
    let t = v.transactions[i];
    let n = v.signers.len();
    &&& t.tx_id == i + 1
    &&& t.required_approvals == v.required
    &&& t.approvals == count_votes(v.votes, t.tx_id)
    &&& t.created_at <= t.expires_at
    &&& (t.executed_at is Some <==> t.status == TxStatus::Executed)
    &&& match t.status {
        TxStatus::Pending => t.approvals < t.required_approvals && t.rejections
            + t.required_approvals <= n,
        TxStatus::Approved => t.approvals == t.required_approvals && t.rejections
            + t.required_approvals <= n,
        TxStatus::Executed => t.approvals == t.required_approvals && t.rejections
            + t.required_approvals <= n,
        TxStatus::Rejected => t.approvals < t.required_approvals && t.rejections
            + t.required_approvals == n + 1,
        TxStatus::Expired => t.approvals < t.required_approvals && t.rejections
            + t.required_approvals <= n,
    }
}

/// Well-formedness of an initialized engine: every operation below
/// preserves it, and every law in [`crate::laws`] is proved from it.
pub open spec fn wf(v: TreasuryModel) -> bool {
    &&& roster_wf(v)
    &&& votes_wf(v)
    &&& forall|i: int| 0 <= i < v.transactions.len() ==> tx_wf(v, i)
}

/// One-time setup: record the admin, the signer roster and the quorum,
/// with no transactions yet.
pub open spec fn spec_initialize(
    v: TreasuryModel,
    admin: u64,
    signers: Seq<u64>,
    required: u32,
) -> (TreasuryModel, Result<(), TreasuryError>) {
    if v.initialized {
        (v, Err(TreasuryError::AlreadyInitialized))
    } else if required == 0 || required > signers.len() {
        (v, Err(TreasuryError::InvalidQuorum))
    } else {
        (
            TreasuryModel {
                initialized: true,
                admin,
                signers,
                required,
                transactions: Seq::empty(),
                votes: Seq::empty(),
            },
            Ok(()),
        )
    }
}

/// The record a successful proposal appends: next id, quorum
/// snapshotted from the current configuration, zero counters, pending.
pub open spec fn proposed_tx(
    v: TreasuryModel,
    proposer: u64,
    recipient: u64,
    token: u64,
    amount: i128,
    description: Seq<char>,
    expires_in: u64,
    now: u64,
) -> TxModel {
    TxModel {
        tx_id: (v.transactions.len() + 1) as u64,
        proposer,
        recipient,
        token,
        amount,
        description,
        status: TxStatus::Pending,
        approvals: 0,
        rejections: 0,
        required_approvals: v.required,
        created_at: now,
        expires_at: (now + expires_in) as u64,
        executed_at: None,
    }
}

/// A roster member proposes a transfer of a positive amount; the new
/// record's id is returned.
pub open spec fn spec_propose(
    v: TreasuryModel,
    proposer: u64,
    recipient: u64,
    token: u64,
    amount: i128,
    description: Seq<char>,
    expires_in: u64,
    now: u64,
) -> (TreasuryModel, Result<u64, TreasuryError>) {
    if !is_signer(v, proposer) {
        (v, Err(TreasuryError::NotSigner))
    } else if amount <= 0 {
        (v, Err(TreasuryError::InvalidAmount))
    } else {
        (
            TreasuryModel {
                transactions: v.transactions.push(
                    proposed_tx(v, proposer, recipient, token, amount, description, expires_in, now),
                ),
                ..v
            },
            Ok((v.transactions.len() + 1) as u64),
        )
    }
}

/// A roster member approves a pending transaction. The checks run in
/// this order: roster membership, vote uniqueness, existence, pending
/// status, then expiry against the clock. A stale record is flipped to
/// `Expired` and the call still fails: that persisted flip is the one
/// state change an erring operation makes. Otherwise the approval is
/// counted, the vote record written, and the record becomes `Approved`
/// the moment the quorum snapshot is met.
pub open spec fn spec_approve(
    v: TreasuryModel,
    signer: u64,
    tx_id: u64,
    now: u64,
) -> (TreasuryModel, Result<(), TreasuryError>) {
    if !is_signer(v, signer) {
        (v, Err(TreasuryError::NotSigner))
    } else if has_vote(v, tx_id, signer) {
        (v, Err(TreasuryError::AlreadyVoted))
    } else if !tx_exists(v, tx_id) {
        (v, Err(TreasuryError::NotFound))
    } else {
        let t = tx_at(v, tx_id);
        if t.status != TxStatus::Pending {
            (v, Err(TreasuryError::InvalidStatus))
        } else if now > t.expires_at {
            (
                TreasuryModel {
                    transactions: v.transactions.update(
                        tx_id - 1,
                        TxModel { status: TxStatus::Expired, ..t },
                    ),
                    ..v
                },
                Err(TreasuryError::Expired),
            )
        } else {
            (
                TreasuryModel {
                    transactions: v.transactions.update(
                        tx_id - 1,
                        TxModel {
                            approvals: (t.approvals + 1) as u32,
                            status: if t.approvals + 1 >= t.required_approvals {
                                TxStatus::Approved
                            } else {
                                TxStatus::Pending
                            },
                            ..t
                        },
                    ),
                    votes: v.votes.push((tx_id, signer)),
                    ..v
                },
                Ok(()),
            )
        }
    }
}

/// A roster member rejects a pending transaction. No vote record is
/// written or consulted: rejections are bare counter increments. The
/// record is killed the instant the quorum snapshot becomes
/// unreachable, that is when fewer than `required_approvals` signers
/// could still approve.
pub open spec fn spec_reject(
    v: TreasuryModel,
    signer: u64,
    tx_id: u64,
) -> (TreasuryModel, Result<(), TreasuryError>) {
    if !is_signer(v, signer) {
        (v, Err(TreasuryError::NotSigner))
    } else if !tx_exists(v, tx_id) {
        (v, Err(TreasuryError::NotFound))
    } else {
        let t = tx_at(v, tx_id);
        if t.status != TxStatus::Pending {
            (v, Err(TreasuryError::InvalidStatus))
        } else {
            let rejections = (t.rejections + 1) as u32;
            let unreachable_quorum = v.signers.len() - rejections < t.required_approvals;
            (
                TreasuryModel {
                    transactions: v.transactions.update(
                        tx_id - 1,
                        TxModel {
                            rejections,
                            status: if unreachable_quorum {
                                TxStatus::Rejected
                            } else {
                                TxStatus::Pending
                            },
                            ..t
                        },
                    ),
                    ..v
                },
                Ok(()),
            )
        }
    }
}

/// The execution decision: a roster member may execute an `Approved`
/// transaction, and the engine then directs the host to move the funds.
/// Nothing is mutated here; the record moves to `Executed` only through
/// [`spec_confirm_execution`], once the host reports the transfer done.
pub open spec fn spec_execute(v: TreasuryModel, caller: u64, tx_id: u64) -> Result<
    crate::types::TransferOrder,
    TreasuryError,
> {
    if !is_signer(v, caller) {
        Err(TreasuryError::NotSigner)
    } else if !tx_exists(v, tx_id) {
        Err(TreasuryError::NotFound)
    } else {
        let t = tx_at(v, tx_id);
        if t.status != TxStatus::Approved {
            Err(TreasuryError::InvalidStatus)
        } else {
            Ok(crate::types::TransferOrder { token: t.token, recipient: t.recipient, amount: t.amount })
        }
    }
}

/// Recording a completed execution: the approved record is stamped and
/// becomes terminal.
pub open spec fn spec_confirm_execution(
    v: TreasuryModel,
    tx_id: u64,
    now: u64,
) -> (TreasuryModel, Result<(), TreasuryError>) {
    if !tx_exists(v, tx_id) {
        (v, Err(TreasuryError::NotFound))
    } else {
        let t = tx_at(v, tx_id);
        if t.status != TxStatus::Approved {
            (v, Err(TreasuryError::InvalidStatus))
        } else {
            (
                TreasuryModel {
                    transactions: v.transactions.update(
                        tx_id - 1,
                        TxModel { status: TxStatus::Executed, executed_at: Some(now), ..t },
                    ),
                    ..v
                },
                Ok(()),
            )
        }
    }
}

} // verus!
