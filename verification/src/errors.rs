use vstd::prelude::*;

verus! {

/// Every way an operation of this library can fail.
///
/// Each failure aborts the single operation with no mutation retained:
/// every function that returns one of these leaves its `&mut` arguments
/// exactly as they were.
#[derive(Clone, Copy, Debug, PartialEq, Eq, Structural)]
pub enum ErrorCode {
    /// A proposal's action list may not be empty.
    InvalidInstructions,
    /// The pass threshold must lie between 0 and 100 inclusive.
    InvalidVoteThreshold,
    /// The timelock delay must be non-negative.
    InvalidTimelockDelay,
    /// The caller is not the registry authority.
    UnauthorisedAuthority,
    /// The caller is not in the registry's voter roster.
    UnauthorisedVoter,
    /// Only the original proposer may cancel a draft proposal.
    UnauthorisedCancellation,
    /// The operation is not allowed from the proposal's or vote's
    /// current lifecycle state.
    InvalidStateTransition,
    /// The voting period must be positive.
    InvalidVotingPeriod,
    /// A checked addition or subtraction on a counter or timestamp
    /// overflowed or underflowed.
    NumericalOverflow,
    /// The proposal's timelock has not elapsed yet.
    TimelockNotExpired,
    /// The proposal's voting window is still open.
    VotingPeriodActive,
    /// The identity is already present in the voter roster.
    DuplicateVoter,
    /// A vote record already exists for the `(proposal, voter)` pair.
    DuplicateVote,
}

/// The broad kind of an [`ErrorCode`]: malformed parameters, a caller
/// without the right, a disallowed lifecycle state, checked arithmetic
/// that failed, or an action attempted before its time gate.
#[derive(Clone, Copy, Debug, PartialEq, Eq, Structural)]
pub enum ErrorCategory {
    Validation,
    Authorization,
    State,
    Arithmetic,
    Timing,
}

impl ErrorCode {
    /// The category an error code belongs to.
    pub open spec fn spec_category(self) -> ErrorCategory {
        match self {
            ErrorCode::InvalidInstructions => ErrorCategory::Validation,
            ErrorCode::InvalidVoteThreshold => ErrorCategory::Validation,
            ErrorCode::InvalidTimelockDelay => ErrorCategory::Validation,
            ErrorCode::InvalidVotingPeriod => ErrorCategory::Validation,
            ErrorCode::UnauthorisedAuthority => ErrorCategory::Authorization,
            ErrorCode::UnauthorisedVoter => ErrorCategory::Authorization,
            ErrorCode::UnauthorisedCancellation => ErrorCategory::Authorization,
            ErrorCode::InvalidStateTransition => ErrorCategory::State,
            ErrorCode::DuplicateVoter => ErrorCategory::State,
            ErrorCode::DuplicateVote => ErrorCategory::State,
            ErrorCode::NumericalOverflow => ErrorCategory::Arithmetic,
            ErrorCode::TimelockNotExpired => ErrorCategory::Timing,
            ErrorCode::VotingPeriodActive => ErrorCategory::Timing,
        }
    }

    /// The category an error code belongs to.
    pub fn category(&self) -> (c: ErrorCategory)
        ensures
            c == self.spec_category(),
    {
        match self {
            ErrorCode::InvalidInstructions => ErrorCategory::Validation,
            ErrorCode::InvalidVoteThreshold => ErrorCategory::Validation,
            ErrorCode::InvalidTimelockDelay => ErrorCategory::Validation,
            ErrorCode::InvalidVotingPeriod => ErrorCategory::Validation,
            ErrorCode::UnauthorisedAuthority => ErrorCategory::Authorization,
            ErrorCode::UnauthorisedVoter => ErrorCategory::Authorization,
            ErrorCode::UnauthorisedCancellation => ErrorCategory::Authorization,
            ErrorCode::InvalidStateTransition => ErrorCategory::State,
            ErrorCode::DuplicateVoter => ErrorCategory::State,
            ErrorCode::DuplicateVote => ErrorCategory::State,
            ErrorCode::NumericalOverflow => ErrorCategory::Arithmetic,
            ErrorCode::TimelockNotExpired => ErrorCategory::Timing,
            ErrorCode::VotingPeriodActive => ErrorCategory::Timing,
        }
    }
}

} // verus!
