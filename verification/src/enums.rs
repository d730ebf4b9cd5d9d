use vstd::prelude::*;

verus! {

/// Lifecycle states of a proposal.
///
/// `Rejected`, `Executed` and `Canceled` are terminal: no operation
/// transitions a proposal out of them.
#[derive(Clone, Copy, Debug, PartialEq, Eq, Structural)]
pub enum ProposalState {
    Draft,
    Active,
    Succeeded,
    Queued,
    Executed,
    Rejected,
    Canceled,
}

/// The side a vote is committed to.
#[derive(Clone, Copy, Debug, PartialEq, Eq, Structural)]
pub enum VoteSide {
    For,
    Against,
    Abstain,
}

/// Whether a vote record has been counted into its proposal's tally.
#[derive(Clone, Copy, Debug, PartialEq, Eq, Structural)]
pub enum VoteState {
    Pending,
    Cast,
}

} // verus!
