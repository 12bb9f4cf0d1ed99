//! Publisher-verification rules: status and tier vocabulary, and the
//! score-to-tier ladder.
//!
//! The publisher registry keeps per-publisher records (owner, domain,
//! KYC data) in host storage and mutates them with admin-gated field
//! updates; those reads and writes stay with the host. What is decided
//! by rule — which tier a reputation score earns, and whether a looked
//! up record counts as verified — lives here, verified.

use vstd::prelude::*;

verus! {

/// Where a publisher stands in the verification process.
#[derive(Clone, Copy, PartialEq, Eq, Structural, Debug)]
pub enum VerificationStatus {
    Pending,
    Verified,
    Rejected,
    Suspended,
    Revoked,
}

/// Reputation band of a verified publisher.
#[derive(Clone, Copy, PartialEq, Eq, Structural, Debug)]
pub enum PublisherTier {
    Bronze,
    Silver,
    Gold,
    Platinum,
}

/// The publisher registry's decision rules.
pub struct PublisherVerificationContract;

impl PublisherVerificationContract {
    /// The tier a reputation score earns: platinum from 800, gold from
    /// 500, silver from 200, bronze below that.
    pub fn _score_to_tier(score: u32) -> (r: PublisherTier)
        ensures
            800 <= score ==> r == PublisherTier::Platinum,
            500 <= score < 800 ==> r == PublisherTier::Gold,
            200 <= score < 500 ==> r == PublisherTier::Silver,
            score < 200 ==> r == PublisherTier::Bronze,
    {
        if score >= 800 {
            PublisherTier::Platinum
        } else if score >= 500 {
            PublisherTier::Gold
        } else if score >= 200 {
            PublisherTier::Silver
        } else {
            PublisherTier::Bronze
        }
    }

    /// Whether a record looked up by the host counts as verified:
    /// exactly a present record whose status is `Verified`. An
    /// unregistered publisher (`None`) never does.
    pub fn is_verified(status: Option<VerificationStatus>) -> (r: bool)
        ensures
            r == (status == Some(VerificationStatus::Verified)),
    {
        match status {
            Some(VerificationStatus::Verified) => true,
            _ => false,
        }
    }
}

} // verus!
