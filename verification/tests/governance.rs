use stellar_swipe::governance::GovernanceError;

#[test]
fn governance_error_codes() {
    assert_eq!(GovernanceError::AlreadyInitialized.code(), 1);
    assert_eq!(GovernanceError::InsufficientBalance.code(), 11);
    assert_eq!(GovernanceError::InvalidMetadata.code(), 19);
    assert!(GovernanceError::NotInitialized < GovernanceError::ArithmeticOverflow);
}
