//! The executable approval engine.
//!
//! Every method is proved to follow the transition functions of
//! [`crate::model`] exactly. The host around the engine supplies what
//! the engine cannot decide for itself: the clock reading `now`, the
//! caller-authorization verdict `authorized`, the asset transfer named
//! by a returned [`TransferOrder`], and durable storage for the engine
//! value between invocations.

use crate::laws::{
    lemma_approve_wf, lemma_confirm_execution_wf, lemma_initialize_wf, lemma_propose_wf,
    lemma_reject_wf,
};
use crate::model::{
    fresh, spec_approve, spec_confirm_execution, spec_execute, spec_initialize, spec_propose,
    spec_reject, tx_at, tx_exists, wf, TreasuryModel,
};
use crate::types::{TransferOrder, TreasuryError, TreasuryTx, TxStatus};
use vstd::pervasive::VecAdditionalExecFns;
use vstd::prelude::*;

verus! {

/// The approval transaction engine: the signer roster and quorum set
/// at initialization, every transaction ever proposed (`tx_id` `i + 1`
/// at position `i`), and one vote record per successful approval.
pub struct MultisigTreasuryContract {
    initialized: bool,
    admin: u64,
    signers: Vec<u64>,
    required: u32,
    transactions: Vec<TreasuryTx>,
    votes: Vec<(u64, u64)>,
}

impl View for MultisigTreasuryContract {
    type V = TreasuryModel;

    closed spec fn view(&self) -> TreasuryModel {
        TreasuryModel {
            initialized: self.initialized,
            admin: self.admin,
            signers: self.signers@,
            required: self.required,
            transactions: self.transactions@.map_values(|t: TreasuryTx| t@),
            votes: self.votes@,
        }
    }
}

fn roster_contains(signers: &Vec<u64>, who: u64) -> (r: bool)
    ensures
        r == signers@.contains(who),
{
    let mut k: usize = 0;
    while k < signers.len()
        invariant
            k <= signers@.len(),
            forall|j: int| 0 <= j < k ==> signers@[j] != who,
        decreases signers@.len() - k,
    {
        if signers[k] == who {
            return true;
        }
        k += 1;
    }
    false
}

fn vote_recorded(votes: &Vec<(u64, u64)>, tx_id: u64, signer: u64) -> (r: bool)
    ensures
        r == votes@.contains((tx_id, signer)),
{
    let mut k: usize = 0;
    while k < votes.len()
        invariant
            k <= votes@.len(),
            forall|j: int| 0 <= j < k ==> votes@[j] != (tx_id, signer),
        decreases votes@.len() - k,
    {
        if votes[k].0 == tx_id && votes[k].1 == signer {
            assert(votes@.contains((tx_id, signer)));
            return true;
        }
        k += 1;
    }
    false
}

impl MultisigTreasuryContract {
    /// The invariant carried by every engine value: either still
    /// untouched, or initialized and well-formed.
    pub open spec fn inv(self) -> bool {
        fresh(self@) || wf(self@)
    }

    /// A fresh, uninitialized engine.
    pub fn new() -> (r: Self)
        ensures
            r.inv(),
            fresh(r@),
    {
        MultisigTreasuryContract {
            initialized: false,
            admin: 0,
            signers: Vec::new(),
            required: 0,
            transactions: Vec::new(),
            votes: Vec::new(),
        }
    }

    /// Whether `initialize` has succeeded on this engine. Every other
    /// operation demands that it has.
    pub fn is_initialized(&self) -> (r: bool)
        ensures
            r == self@.initialized,
    {
        self.initialized
    }

    /// One-time setup of admin, roster and quorum. Fails with
    /// `AlreadyInitialized` on a second call (checked before the
    /// authorization verdict), and with `InvalidQuorum` when `required`
    /// is zero or larger than the roster. The roster handed in must be
    /// duplicate-free and of a size a vote counter can hold.
    pub fn initialize(
        &mut self,
        admin: u64,
        authorized: bool,
        initial_signers: Vec<u64>,
        required: u32,
    ) -> (r: Result<(), TreasuryError>)
        requires
            old(self).inv(),
            forall|i: int, j: int|
                0 <= i < j < initial_signers@.len() ==> initial_signers@[i] != initial_signers@[j],
            initial_signers@.len() <= u32::MAX,
        ensures
            final(self).inv(),
            old(self)@.initialized ==> final(self)@ == old(self)@ && r == Err::<(), TreasuryError>(
                TreasuryError::AlreadyInitialized,
            ),
            !old(self)@.initialized && !authorized ==> final(self)@ == old(self)@ && r == Err::<
                (),
                TreasuryError,
            >(TreasuryError::Unauthorized),
            !old(self)@.initialized && authorized ==> ({
                let (v2, res) = spec_initialize(old(self)@, admin, initial_signers@, required);
                final(self)@ == v2 && r == res
            }),
    {
        if self.initialized {
            return Err(TreasuryError::AlreadyInitialized);
        }
        if !authorized {
            return Err(TreasuryError::Unauthorized);
        }
        if required == 0 || required as usize > initial_signers.len() {
            return Err(TreasuryError::InvalidQuorum);
        }
        proof {
            lemma_initialize_wf(self@, admin, initial_signers@, required);
        }
        self.initialized = true;
        self.admin = admin;
        self.signers = initial_signers;
        self.required = required;
        proof {
            let (v2, res) = spec_initialize(old(self)@, admin, initial_signers@, required);
            assert(self@ =~= v2);
        }
        Ok(())
    }

    /// The roster, in the order given at initialization.
    pub fn get_signers(&self) -> (r: Vec<u64>)
        requires
            self@.initialized,
        ensures
            r@ == self@.signers,
    {
        let mut out: Vec<u64> = Vec::new();
        let mut k: usize = 0;
        while k < self.signers.len()
            invariant
                k <= self.signers@.len(),
                out@.len() == k,
                forall|j: int| 0 <= j < k ==> out@[j] == self.signers@[j],
            decreases self.signers@.len() - k,
        {
            out.push(self.signers[k]);
            k += 1;
        }
        proof {
            assert(out@ =~= self@.signers);
        }
        out
    }

    /// A roster member proposes a transfer of a strictly positive
    /// amount. The new record takes the next id, snapshots the quorum
    /// from the current configuration, and starts `Pending` with zero
    /// counters and `expires_at` of `now + expires_in`. The caller
    /// keeps the clock sum within `u64` and the id count below its
    /// ceiling.
    pub fn propose_transaction(
        &mut self,
        proposer: u64,
        authorized: bool,
        recipient: u64,
        token: u64,
        amount: i128,
        description: String,
        expires_in: u64,
        now: u64,
    ) -> (r: Result<u64, TreasuryError>)
        requires
            old(self).inv(),
            old(self)@.initialized,
            now + expires_in <= u64::MAX,
            old(self)@.transactions.len() < u64::MAX,
        ensures
            final(self).inv(),
            !authorized ==> final(self)@ == old(self)@ && r == Err::<u64, TreasuryError>(
                TreasuryError::Unauthorized,
            ),
            authorized ==> ({
                let (v2, res) = spec_propose(
                    old(self)@,
                    proposer,
                    recipient,
                    token,
                    amount,
                    description@,
                    expires_in,
                    now,
                );
                final(self)@ == v2 && r == res
            }),
    {
        if !authorized {
            return Err(TreasuryError::Unauthorized);
        }
        if !roster_contains(&self.signers, proposer) {
            return Err(TreasuryError::NotSigner);
        }
        if amount <= 0 {
            return Err(TreasuryError::InvalidAmount);
        }
        proof {
            lemma_propose_wf(
                self@,
                proposer,
                recipient,
                token,
                amount,
                description@,
                expires_in,
                now,
            );
        }
        let tx_id = self.transactions.len() as u64 + 1;
        let tx = TreasuryTx {
            tx_id,
            proposer,
            recipient,
            token,
            amount,
            description,
            status: TxStatus::Pending,
            approvals: 0,
            rejections: 0,
            required_approvals: self.required,
            created_at: now,
            expires_at: now + expires_in,
            executed_at: None,
        };
        self.transactions.push(tx);
        proof {
            let (v2, res) = spec_propose(
                old(self)@,
                proposer,
                recipient,
                token,
                amount,
                description@,
                expires_in,
                now,
            );
            assert(self@.transactions =~= v2.transactions);
            assert(self@ =~= v2);
        }
        Ok(tx_id)
    }

    /// A roster member approves a pending transaction. Checks run in
    /// this order: authorization verdict, roster membership
    /// (`NotSigner`), vote uniqueness (`AlreadyVoted`), existence
    /// (`NotFound`), pending status (`InvalidStatus`), and last the
    /// clock. A record whose deadline has passed is flipped to
    /// `Expired`, that flip is kept, and the call still fails with
    /// `Expired`: the one state change an erring call makes. Otherwise
    /// the approval is counted, the vote record written, and the
    /// record becomes `Approved` the moment the quorum snapshot is
    /// met.
    pub fn approve_transaction(
        &mut self,
        signer: u64,
        authorized: bool,
        tx_id: u64,
        now: u64,
    ) -> (r: Result<(), TreasuryError>)
        requires
            old(self).inv(),
            old(self)@.initialized,
        ensures
            final(self).inv(),
            !authorized ==> final(self)@ == old(self)@ && r == Err::<(), TreasuryError>(
                TreasuryError::Unauthorized,
            ),
            authorized ==> ({
                let (v2, res) = spec_approve(old(self)@, signer, tx_id, now);
                final(self)@ == v2 && r == res
            }),
    {
        if !authorized {
            return Err(TreasuryError::Unauthorized);
        }
        proof {
            lemma_approve_wf(self@, signer, tx_id, now);
        }
        if !roster_contains(&self.signers, signer) {
            return Err(TreasuryError::NotSigner);
        }
        if vote_recorded(&self.votes, tx_id, signer) {
            return Err(TreasuryError::AlreadyVoted);
        }
        if tx_id == 0 || tx_id > self.transactions.len() as u64 {
            return Err(TreasuryError::NotFound);
        }
        let i = (tx_id - 1) as usize;
        if self.transactions[i].status != TxStatus::Pending {
            return Err(TreasuryError::InvalidStatus);
        }
        assert(crate::model::tx_wf(self@, i as int));
        if now > self.transactions[i].expires_at {
            let mut t = self.transactions[i].clone();
            t.status = TxStatus::Expired;
            self.transactions.set(i, t);
            proof {
                let (v2, res) = spec_approve(old(self)@, signer, tx_id, now);
                assert(self@.transactions =~= v2.transactions);
                assert(self@ =~= v2);
            }
            return Err(TreasuryError::Expired);
        }
        let mut t = self.transactions[i].clone();
        t.approvals = t.approvals + 1;
        if t.approvals >= t.required_approvals {
            t.status = TxStatus::Approved;
        }
        self.transactions.set(i, t);
        self.votes.push((tx_id, signer));
        proof {
            let (v2, res) = spec_approve(old(self)@, signer, tx_id, now);
            assert(self@.transactions =~= v2.transactions);
            assert(self@ =~= v2);
        }
        Ok(())
    }

    /// A roster member rejects a pending transaction. No vote record
    /// is consulted or written: rejections are bare counter
    /// increments. The record is killed (`Rejected`) the instant the
    /// quorum snapshot becomes unreachable, that is when fewer than
    /// `required_approvals` signers could still approve.
    pub fn reject_transaction(
        &mut self,
        signer: u64,
        authorized: bool,
        tx_id: u64,
    ) -> (r: Result<(), TreasuryError>)
        requires
            old(self).inv(),
            old(self)@.initialized,
        ensures
            final(self).inv(),
            !authorized ==> final(self)@ == old(self)@ && r == Err::<(), TreasuryError>(
                TreasuryError::Unauthorized,
            ),
            authorized ==> ({
                let (v2, res) = spec_reject(old(self)@, signer, tx_id);
                final(self)@ == v2 && r == res
            }),
    {
        if !authorized {
            return Err(TreasuryError::Unauthorized);
        }
        proof {
            lemma_reject_wf(self@, signer, tx_id);
        }
        if !roster_contains(&self.signers, signer) {
            return Err(TreasuryError::NotSigner);
        }
        if tx_id == 0 || tx_id > self.transactions.len() as u64 {
            return Err(TreasuryError::NotFound);
        }
        let i = (tx_id - 1) as usize;
        if self.transactions[i].status != TxStatus::Pending {
            return Err(TreasuryError::InvalidStatus);
        }
        assert(crate::model::tx_wf(self@, i as int));
        let mut t = self.transactions[i].clone();
        t.rejections = t.rejections + 1;
        let max_possible_approvals = self.signers.len() as u32 - t.rejections;
        if max_possible_approvals < t.required_approvals {
            t.status = TxStatus::Rejected;
        }
        self.transactions.set(i, t);
        proof {
            let (v2, res) = spec_reject(old(self)@, signer, tx_id);
            assert(self@.transactions =~= v2.transactions);
            assert(self@ =~= v2);
        }
        Ok(())
    }

    /// The execution decision. A roster member may execute an
    /// `Approved` transaction: the engine grants a [`TransferOrder`]
    /// directing the host to move the amount from the treasury's
    /// custody to the recipient. Nothing is mutated and nothing is
    /// granted on any other status, so no transfer can happen for a
    /// transaction that is not `Approved`. Once the host reports the
    /// transfer done, [`Self::confirm_execution`] records it; if the
    /// transfer fails, the host records nothing, the record stays
    /// `Approved`, and the execution can be retried.
    pub fn execute_transaction(&self, caller: u64, authorized: bool, tx_id: u64) -> (r: Result<
        TransferOrder,
        TreasuryError,
    >)
        requires
            self.inv(),
            self@.initialized,
        ensures
            !authorized ==> r == Err::<TransferOrder, TreasuryError>(TreasuryError::Unauthorized),
            authorized ==> r == spec_execute(self@, caller, tx_id),
    {
        if !authorized {
            return Err(TreasuryError::Unauthorized);
        }
        if !roster_contains(&self.signers, caller) {
            return Err(TreasuryError::NotSigner);
        }
        if tx_id == 0 || tx_id > self.transactions.len() as u64 {
            return Err(TreasuryError::NotFound);
        }
        let i = (tx_id - 1) as usize;
        if self.transactions[i].status != TxStatus::Approved {
            return Err(TreasuryError::InvalidStatus);
        }
        Ok(TransferOrder {
            token: self.transactions[i].token,
            recipient: self.transactions[i].recipient,
            amount: self.transactions[i].amount,
        })
    }

    /// Records a transfer the host has completed for an `Approved`
    /// transaction: the record moves to `Executed`, its one terminal
    /// stamp `executed_at` set to `now`.
    pub fn confirm_execution(&mut self, tx_id: u64, now: u64) -> (r: Result<(), TreasuryError>)
        requires
            old(self).inv(),
            old(self)@.initialized,
        ensures
            final(self).inv(),
            ({
                let (v2, res) = spec_confirm_execution(old(self)@, tx_id, now);
                final(self)@ == v2 && r == res
            }),
    {
        proof {
            lemma_confirm_execution_wf(self@, tx_id, now);
        }
        if tx_id == 0 || tx_id > self.transactions.len() as u64 {
            return Err(TreasuryError::NotFound);
        }
        let i = (tx_id - 1) as usize;
        if self.transactions[i].status != TxStatus::Approved {
            return Err(TreasuryError::InvalidStatus);
        }
        let mut t = self.transactions[i].clone();
        t.status = TxStatus::Executed;
        t.executed_at = Some(now);
        self.transactions.set(i, t);
        proof {
            let (v2, res) = spec_confirm_execution(old(self)@, tx_id, now);
            assert(self@.transactions =~= v2.transactions);
            assert(self@ =~= v2);
        }
        Ok(())
    }

    /// The current persisted snapshot of a transaction, or `None` for
    /// an id never handed out. No authorization is required to read.
    pub fn get_transaction(&self, tx_id: u64) -> (r: Option<TreasuryTx>)
        ensures
            match r {
                Some(t) => tx_exists(self@, tx_id) && t@ == tx_at(self@, tx_id),
                None => !tx_exists(self@, tx_id),
            },
    {
        if tx_id == 0 || tx_id > self.transactions.len() as u64 {
            return None;
        }
        let i = (tx_id - 1) as usize;
        Some(self.transactions[i].clone())
    }
}

} // verus!
