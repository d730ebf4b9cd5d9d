//! A governance engine for a weighted-voter organization.
//!
//! The library keeps a registry of voters with weights, runs proposals
//! through a draft / active / resolved / timelocked / executed lifecycle,
//! and tallies weighted votes with overflow-checked arithmetic.  Every
//! operation takes the authenticated caller identity and the current time
//! as explicit arguments; the hosting environment is responsible for
//! authenticating callers, reading a trusted clock, and storing the
//! records this library produces and mutates.

mod arith;
mod enums;
mod errors;
mod governor;
mod ledger;
mod proposals;
mod state;
mod tally;
mod timelock;
mod votes;

pub use arith::{checked_add_i64, checked_add_u64, checked_sub_u64};
pub use enums::{ProposalState, VoteSide, VoteState};
pub use errors::{ErrorCategory, ErrorCode};
pub use governor::{add_voter, init_governor};
pub use ledger::VoteLedger;
pub use proposals::{
    activate_proposal, cancel_proposal, create_proposal, execute_proposal, finalise_error,
    finalise_guards_ok, finalise_outcome, finalise_proposal, lemma_threshold_boundary_succeeds,
    passes, queue_proposal, vote_total, voting_window_end, window_end_fits,
};
pub use state::{Governor, Identity, Proposal, ProposalAccount, ProposalInstruction, Vote, VoterInfo};
pub use tally::{
    after_recast, after_retract, cast_weight, cast_weight_sum, counter_of,
    lemma_cast_vote_preserves_tally, lemma_consistent_retract_ok, lemma_counters_sum_cast_weights,
    lemma_create_vote_preserves_tally, lemma_empty_ledger_consistent,
    lemma_set_vote_preserves_tally, recast_ok, retract_ok,
    side_sum, side_weight, tally_consistent, with_counter,
};
pub use timelock::ready_to_execute_at;
pub use votes::{cast_vote, create_vote, set_vote};
