//! Errors of the governance token contract and their stable numeric codes.
use vstd::prelude::*;

verus! {

/// Why a governance request was refused; ordered by code.
#[derive(Clone, Copy, Debug, PartialEq, Eq, PartialOrd, Ord, Structural)]
pub enum GovernanceError {
    AlreadyInitialized,
    NotInitialized,
    Unauthorized,
    InvalidSupply,
    InvalidAmount,
    InvalidDuration,
    DuplicateSchedule,
    VestingScheduleNotFound,
    CliffNotReached,
    NothingToRelease,
    InsufficientBalance,
    InsufficientStakedBalance,
    ActiveVoteLock,
    BelowMinimumClaim,
    LiquidityPoolExhausted,
    DuplicateRecipient,
    ArithmeticOverflow,
    InvalidRewardConfig,
    InvalidMetadata,
}

/// The numeric code under which an error is reported to callers.
pub open spec fn code_of(e: GovernanceError) -> u32 {
    match e {
        GovernanceError::AlreadyInitialized => 1,
        GovernanceError::NotInitialized => 2,
        GovernanceError::Unauthorized => 3,
        GovernanceError::InvalidSupply => 4,
        GovernanceError::InvalidAmount => 5,
        GovernanceError::InvalidDuration => 6,
        GovernanceError::DuplicateSchedule => 7,
        GovernanceError::VestingScheduleNotFound => 8,
        GovernanceError::CliffNotReached => 9,
        GovernanceError::NothingToRelease => 10,
        GovernanceError::InsufficientBalance => 11,
        GovernanceError::InsufficientStakedBalance => 12,
        GovernanceError::ActiveVoteLock => 13,
        GovernanceError::BelowMinimumClaim => 14,
        GovernanceError::LiquidityPoolExhausted => 15,
        GovernanceError::DuplicateRecipient => 16,
        GovernanceError::ArithmeticOverflow => 17,
        GovernanceError::InvalidRewardConfig => 18,
        GovernanceError::InvalidMetadata => 19,
    }
}

/// Every error has its own code, from 1 to 19.
pub proof fn law_codes_distinct_and_in_range(a: GovernanceError, b: GovernanceError)
    ensures
        1 <= code_of(a) <= 19,
        code_of(a) == code_of(b) ==> a == b,
{
}

impl GovernanceError {
    /// The numeric code of this error.
    pub fn code(&self) -> (c: u32)
        ensures
            c == code_of(*self),
    {
        match self {
            GovernanceError::AlreadyInitialized => 1,
            GovernanceError::NotInitialized => 2,
            GovernanceError::Unauthorized => 3,
            GovernanceError::InvalidSupply => 4,
            GovernanceError::InvalidAmount => 5,
            GovernanceError::InvalidDuration => 6,
            GovernanceError::DuplicateSchedule => 7,
            GovernanceError::VestingScheduleNotFound => 8,
            GovernanceError::CliffNotReached => 9,
            GovernanceError::NothingToRelease => 10,
            GovernanceError::InsufficientBalance => 11,
            GovernanceError::InsufficientStakedBalance => 12,
            GovernanceError::ActiveVoteLock => 13,
            GovernanceError::BelowMinimumClaim => 14,
            GovernanceError::LiquidityPoolExhausted => 15,
            GovernanceError::DuplicateRecipient => 16,
            GovernanceError::ArithmeticOverflow => 17,
            GovernanceError::InvalidRewardConfig => 18,
            GovernanceError::InvalidMetadata => 19,
        }
    }
}

} // verus!
