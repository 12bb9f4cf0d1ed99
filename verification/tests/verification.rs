use multisig_treasury::verification::{
    PublisherTier, PublisherVerificationContract, VerificationStatus,
};

#[test]
fn score_to_tier_boundaries() {
    assert_eq!(
        PublisherVerificationContract::_score_to_tier(0),
        PublisherTier::Bronze
    );
    assert_eq!(
        PublisherVerificationContract::_score_to_tier(199),
        PublisherTier::Bronze
    );
    assert_eq!(
        PublisherVerificationContract::_score_to_tier(200),
        PublisherTier::Silver
    );
    assert_eq!(
        PublisherVerificationContract::_score_to_tier(499),
        PublisherTier::Silver
    );
    assert_eq!(
        PublisherVerificationContract::_score_to_tier(500),
        PublisherTier::Gold
    );
    assert_eq!(
        PublisherVerificationContract::_score_to_tier(799),
        PublisherTier::Gold
    );
    assert_eq!(
        PublisherVerificationContract::_score_to_tier(800),
        PublisherTier::Platinum
    );
    assert_eq!(
        PublisherVerificationContract::_score_to_tier(1000),
        PublisherTier::Platinum
    );
}

#[test]
fn only_a_present_verified_record_counts() {
    assert!(PublisherVerificationContract::is_verified(Some(
        VerificationStatus::Verified
    )));
    assert!(!PublisherVerificationContract::is_verified(None));
    assert!(!PublisherVerificationContract::is_verified(Some(
        VerificationStatus::Pending
    )));
    assert!(!PublisherVerificationContract::is_verified(Some(
        VerificationStatus::Suspended
    )));
    assert!(!PublisherVerificationContract::is_verified(Some(
        VerificationStatus::Rejected
    )));
    assert!(!PublisherVerificationContract::is_verified(Some(
        VerificationStatus::Revoked
    )));
}
