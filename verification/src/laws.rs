//! Proved laws of the approval engine.
//!
//! The first group shows that every transition of [`crate::model`]
//! preserves the well-formedness invariant [`wf`]; the executable
//! engine calls these, so the invariant holds at every observed point.
//! The second group states the engine's governing properties over the
//! model alone.

use crate::model::{
    count_votes, has_vote, is_signer, lemma_count_votes_absent, lemma_count_votes_push,
    spec_approve, spec_confirm_execution, spec_execute, spec_initialize, spec_propose, spec_reject,
    tx_at, tx_exists, tx_wf, wf, TreasuryModel,
};
use crate::types::{TreasuryError, TxStatus};
use vstd::prelude::*;

verus! {

/// A successful initialization yields a well-formed engine; a failed
/// one changes nothing. The roster handed in must be duplicate-free.
pub proof fn lemma_initialize_wf(v: TreasuryModel, admin: u64, signers: Seq<u64>, required: u32)
    requires
        signers.len() <= u32::MAX,
        forall|i: int, j: int| 0 <= i < j < signers.len() ==> signers[i] != signers[j],
    ensures
        ({
            let (v2, res) = spec_initialize(v, admin, signers, required);
            &&& (res is Ok ==> wf(v2))
            &&& (res is Err ==> v2 == v)
        }),
{
}

/// A proposal preserves well-formedness: the appended record is
/// pending, carries the quorum snapshot, and holds no votes yet.
pub proof fn lemma_propose_wf(
    v: TreasuryModel,
    proposer: u64,
    recipient: u64,
    token: u64,
    amount: i128,
    description: Seq<char>,
    expires_in: u64,
    now: u64,
)
    requires
        wf(v),
        now + expires_in <= u64::MAX,
        v.transactions.len() < u64::MAX,
    ensures
        ({
            let (v2, res) = spec_propose(
                v,
                proposer,
                recipient,
                token,
                amount,
                description,
                expires_in,
                now,
            );
            &&& wf(v2)
            &&& (res is Err ==> v2 == v)
        }),
{
    let (v2, res) = spec_propose(v, proposer, recipient, token, amount, description, expires_in, now);
    if res is Ok {
        let n = v.transactions.len() as int;
        assert forall|i: int| 0 <= i < v2.transactions.len() implies tx_wf(v2, i) by {
            if i < n {
                assert(tx_wf(v, i));
            } else {
                assert forall|k: int| 0 <= k < v.votes.len() implies (#[trigger] v.votes[k]).0
                    != v2.transactions[i].tx_id by {
                    assert(tx_exists(v, v.votes[k].0));
                }
                lemma_count_votes_absent(v.votes, v2.transactions[i].tx_id);
            }
        }
    }
}

/// An approval preserves well-formedness on every path, the lazy
/// expiry flip included.
pub proof fn lemma_approve_wf(v: TreasuryModel, signer: u64, tx_id: u64, now: u64)
    requires
        wf(v),
    ensures
        wf(spec_approve(v, signer, tx_id, now).0),
{
    let v2 = spec_approve(v, signer, tx_id, now).0;
    if is_signer(v, signer) && !has_vote(v, tx_id, signer) && tx_exists(v, tx_id) {
        let i = tx_id - 1;
        let t = tx_at(v, tx_id);
        assert(tx_wf(v, i));
        if t.status == TxStatus::Pending {
            if now > t.expires_at {
                assert forall|j: int| 0 <= j < v2.transactions.len() implies tx_wf(v2, j) by {
                    assert(tx_wf(v, j));
                }
            } else {
                let pair = (tx_id, signer);
                assert forall|j: int| 0 <= j < v2.transactions.len() implies tx_wf(v2, j) by {
                    assert(tx_wf(v, j));
                    lemma_count_votes_push(v.votes, pair, v2.transactions[j].tx_id);
                }
                assert forall|k: int, l: int|
                    0 <= k < l < v2.votes.len() implies v2.votes[k] != v2.votes[l] by {
                    if l < v.votes.len() {
                        assert(v.votes[k] != v.votes[l]);
                    } else {
                        if v2.votes[k] == pair {
                            assert(v.votes.contains(pair));
                        }
                    }
                }
                assert(votes_wf_helper(v2));
            }
        }
    }
}

/// The membership and existence clauses of `votes_wf`, named so the
/// proof above can establish them pointwise.
spec fn votes_wf_helper(v: TreasuryModel) -> bool {
    forall|k: int|
        0 <= k < v.votes.len() ==> tx_exists(v, (#[trigger] v.votes[k]).0) && is_signer(
            v,
            v.votes[k].1,
        )
}

/// A rejection preserves well-formedness: the counter increment cannot
/// pass the roster size, and the early kill lands exactly one past the
/// reachable bound.
pub proof fn lemma_reject_wf(v: TreasuryModel, signer: u64, tx_id: u64)
    requires
        wf(v),
    ensures
        wf(spec_reject(v, signer, tx_id).0),
{
    let v2 = spec_reject(v, signer, tx_id).0;
    if is_signer(v, signer) && tx_exists(v, tx_id) {
        assert(tx_wf(v, tx_id - 1));
        if tx_at(v, tx_id).status == TxStatus::Pending {
            assert forall|j: int| 0 <= j < v2.transactions.len() implies tx_wf(v2, j) by {
                assert(tx_wf(v, j));
            }
        }
    }
}

/// Recording an execution preserves well-formedness.
pub proof fn lemma_confirm_execution_wf(v: TreasuryModel, tx_id: u64, now: u64)
    requires
        wf(v),
    ensures
        wf(spec_confirm_execution(v, tx_id, now).0),
{
    let v2 = spec_confirm_execution(v, tx_id, now).0;
    if tx_exists(v, tx_id) {
        assert(tx_wf(v, tx_id - 1));
        if tx_at(v, tx_id).status == TxStatus::Approved {
            assert forall|j: int| 0 <= j < v2.transactions.len() implies tx_wf(v2, j) by {
                assert(tx_wf(v, j));
            }
        }
    }
}

/// A transaction stands `Approved` or `Executed` exactly when its
/// distinct-signer approval count has reached the quorum snapshotted
/// at its creation; and while it got there, rejections had not made
/// that quorum unreachable. Each vote record is a distinct signer:
/// no (transaction, signer) pair is recorded twice.
pub proof fn lemma_approved_iff_quorum(v: TreasuryModel, tx_id: u64)
    requires
        wf(v),
        tx_exists(v, tx_id),
    ensures
        tx_at(v, tx_id).approvals == count_votes(v.votes, tx_id),
        (tx_at(v, tx_id).status == TxStatus::Approved || tx_at(v, tx_id).status
            == TxStatus::Executed) <==> count_votes(v.votes, tx_id) >= tx_at(
            v,
            tx_id,
        ).required_approvals,
        tx_at(v, tx_id).status == TxStatus::Approved ==> tx_at(v, tx_id).rejections + tx_at(
            v,
            tx_id,
        ).required_approvals <= v.signers.len(),
        tx_at(v, tx_id).status == TxStatus::Rejected ==> v.signers.len() < tx_at(
            v,
            tx_id,
        ).rejections + tx_at(v, tx_id).required_approvals,
        forall|k: int, l: int|
            0 <= k < l < v.votes.len() && (#[trigger] v.votes[k]).0 == tx_id && (
            #[trigger] v.votes[l]).0 == tx_id ==> v.votes[k].1 != v.votes[l].1,
{
    assert(tx_wf(v, tx_id - 1));
    assert(tx_at(v, tx_id).tx_id == tx_id);
}

/// At every observed point, a transaction's approvals and rejections
/// together never exceed the roster size.
pub proof fn lemma_vote_total_bounded(v: TreasuryModel, tx_id: u64)
    requires
        wf(v),
        tx_exists(v, tx_id),
    ensures
        tx_at(v, tx_id).approvals + tx_at(v, tx_id).rejections <= v.signers.len(),
{
    assert(tx_wf(v, tx_id - 1));
}

/// No signer approves the same transaction twice: on the state a
/// successful approval leaves, a second approval attempt by the same
/// signer on the same transaction fails with `AlreadyVoted`, whatever
/// the clock then reads.
pub proof fn lemma_no_double_approval(v: TreasuryModel, signer: u64, tx_id: u64, now1: u64, now2: u64)
    requires
        wf(v),
        spec_approve(v, signer, tx_id, now1).1 is Ok,
    ensures
        spec_approve(spec_approve(v, signer, tx_id, now1).0, signer, tx_id, now2).1 == Err::<
            (),
            TreasuryError,
        >(TreasuryError::AlreadyVoted),
{
    let v2 = spec_approve(v, signer, tx_id, now1).0;
    assert(v2.votes.last() == (tx_id, signer));
    assert(has_vote(v2, tx_id, signer));
}

/// Execution is granted exactly for a roster member on an existing
/// `Approved` transaction; every other status is refused with
/// `InvalidStatus`, and no transfer order is emitted.
pub proof fn lemma_execute_only_from_approved(v: TreasuryModel, caller: u64, tx_id: u64)
    ensures
        spec_execute(v, caller, tx_id) is Ok <==> is_signer(v, caller) && tx_exists(v, tx_id)
            && tx_at(v, tx_id).status == TxStatus::Approved,
        is_signer(v, caller) && tx_exists(v, tx_id) && tx_at(v, tx_id).status != TxStatus::Approved
            ==> spec_execute(v, caller, tx_id) == Err::<crate::types::TransferOrder, TreasuryError>(
            TreasuryError::InvalidStatus,
        ),
{
}

/// Reads return the last write: a successful approval leaves exactly
/// the record it wrote at `tx_id` — the approval counted, the vote
/// recorded, the status raised to `Approved` precisely when the quorum
/// snapshot is met — and every other record untouched, so a
/// `get_transaction` after it returns that record and nothing else.
pub proof fn lemma_read_back_approval(v: TreasuryModel, signer: u64, tx_id: u64, now: u64)
    requires
        wf(v),
        spec_approve(v, signer, tx_id, now).1 is Ok,
    ensures
        ({
            let v2 = spec_approve(v, signer, tx_id, now).0;
            let t = tx_at(v, tx_id);
            &&& tx_exists(v, tx_id)
            &&& v2.transactions.len() == v.transactions.len()
            &&& tx_at(v2, tx_id) == crate::types::TxModel {
                approvals: (t.approvals + 1) as u32,
                status: if t.approvals + 1 >= t.required_approvals {
                    TxStatus::Approved
                } else {
                    TxStatus::Pending
                },
                ..t
            }
            &&& forall|other: u64|
                tx_exists(v, other) && other != tx_id ==> tx_at(v2, other) == tx_at(v, other)
            &&& has_vote(v2, tx_id, signer)
        }),
{
    let v2 = spec_approve(v, signer, tx_id, now).0;
    assert(v2.votes.last() == (tx_id, signer));
}

/// A terminal record is immutable: once a transaction is `Executed`,
/// `Rejected` or `Expired`, no approval, rejection or execution
/// confirmation changes the stored state in any way.
pub proof fn lemma_terminal_immutable(
    v: TreasuryModel,
    signer: u64,
    tx_id: u64,
    now: u64,
)
    requires
        wf(v),
        tx_exists(v, tx_id),
        tx_at(v, tx_id).status == TxStatus::Executed || tx_at(v, tx_id).status
            == TxStatus::Rejected || tx_at(v, tx_id).status == TxStatus::Expired,
    ensures
        spec_approve(v, signer, tx_id, now).0 == v,
        spec_reject(v, signer, tx_id).0 == v,
        spec_confirm_execution(v, tx_id, now).0 == v,
{
}

} // verus!
