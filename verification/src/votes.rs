use vstd::prelude::*;

use crate::arith::{checked_add_u64, checked_sub_u64};
use crate::enums::{ProposalState, VoteSide, VoteState};
use crate::errors::ErrorCode;
use crate::state::{Governor, Identity, Proposal, Vote};
use crate::tally::{after_recast, after_retract, counter_of, recast_ok, retract_ok, with_counter};

verus! {

/// Reads the tally counter for one side.
fn read_counter(p: &Proposal, s: VoteSide) -> (r: u64)
    ensures
        r == counter_of(*p, s),
{
    match s {
        VoteSide::For => p.for_votes,
        VoteSide::Against => p.against_votes,
        VoteSide::Abstain => p.abstain_votes,
    }
}

/// Writes the tally counter for one side.
fn write_counter(p: &mut Proposal, s: VoteSide, v: u64)
    ensures
        *final(p) == with_counter(*old(p), s, v),
{
    match s {
        VoteSide::For => {
            p.for_votes = v;
        },
        VoteSide::Against => {
            p.against_votes = v;
        },
        VoteSide::Abstain => {
            p.abstain_votes = v;
        },
    }
}

/// Registers a voter's intent to vote on an active proposal: a fresh
/// record, pending, abstaining, with nothing counted.
///
/// The host's keyed store addresses one record per `(proposal, voter)`
/// pair; creating against a pair that already has a record must be
/// refused by the host, so no voter can hold two records on one
/// proposal.
pub fn create_vote(governor: &Governor, proposal: &Proposal, voter: Identity) -> (r: Result<
    Vote,
    ErrorCode,
>)
    requires
        governor.wf(),
    ensures
        match r {
            Ok(v) => {
                &&& governor.roster_has(voter)
                &&& proposal.state == ProposalState::Active
                &&& v == (Vote {
                    proposal: proposal.proposal_id,
                    voter,
                    side: VoteSide::Abstain,
                    weight: 0,
                    state: VoteState::Pending,
                })
            },
            Err(e) => {
                &&& (!governor.roster_has(voter) || proposal.state != ProposalState::Active)
                &&& e == (if !governor.roster_has(voter) {
                    ErrorCode::UnauthorisedVoter
                } else {
                    ErrorCode::InvalidStateTransition
                })
            },
        },
{
    if governor.find_voter_weight(voter).is_none() {
        return Err(ErrorCode::UnauthorisedVoter);
    }
    if proposal.state != ProposalState::Active {
        return Err(ErrorCode::InvalidStateTransition);
    }
    Ok(
        Vote {
            proposal: proposal.proposal_id,
            voter,
            side: VoteSide::Abstain,
            weight: 0,
            state: VoteState::Pending,
        },
    )
}

/// Casts a pending vote: commits the record to `side` with the voter's
/// current registry weight and adds that weight onto the matching
/// counter with checked addition.
///
/// The weight counted is always the roster's weight for the voter; a
/// caller-supplied weight is deliberately not accepted, so no tally can
/// exceed the authority the roster grants.  A record already cast is
/// refused: that is what prevents double counting.
pub fn cast_vote(
    governor: &Governor,
    proposal: &mut Proposal,
    vote: &mut Vote,
    voter: Identity,
    side: VoteSide,
) -> (r: Result<(), ErrorCode>)
    requires
        governor.wf(),
        old(vote).voter == voter,
        old(vote).proposal == old(proposal).proposal_id,
    ensures
        match r {
            Ok(()) => {
                &&& governor.roster_has(voter)
                &&& old(proposal).state == ProposalState::Active
                &&& old(vote).state == VoteState::Pending
                &&& recast_ok(*old(proposal), side, governor.roster_weight(voter))
                &&& *final(proposal) == after_recast(
                    *old(proposal),
                    side,
                    governor.roster_weight(voter),
                )
                &&& *final(vote) == (Vote {
                    side,
                    weight: governor.roster_weight(voter),
                    state: VoteState::Cast,
                    ..*old(vote)
                })
            },
            Err(e) => {
                &&& *final(proposal) == *old(proposal)
                &&& *final(vote) == *old(vote)
                &&& !(governor.roster_has(voter) && old(proposal).state == ProposalState::Active
                    && old(vote).state == VoteState::Pending && recast_ok(
                    *old(proposal),
                    side,
                    governor.roster_weight(voter),
                ))
                &&& e == (if !governor.roster_has(voter) {
                    ErrorCode::UnauthorisedVoter
                } else if old(proposal).state != ProposalState::Active || old(vote).state
                    != VoteState::Pending {
                    ErrorCode::InvalidStateTransition
                } else {
                    ErrorCode::NumericalOverflow
                })
            },
        },
{
    let weight = match governor.find_voter_weight(voter) {
        Some(w) => w,
        None => {
            return Err(ErrorCode::UnauthorisedVoter);
        },
    };
    if proposal.state != ProposalState::Active {
        return Err(ErrorCode::InvalidStateTransition);
    }
    if vote.state != VoteState::Pending {
        return Err(ErrorCode::InvalidStateTransition);
    }
    let current = read_counter(proposal, side);
    let bumped = match checked_add_u64(current, weight) {
        Some(v) => v,
        None => {
            return Err(ErrorCode::NumericalOverflow);
        },
    };
    write_counter(proposal, side, bumped);
    vote.side = side;
    vote.weight = weight;
    vote.state = VoteState::Cast;
    Ok(())
}

/// Retargets a vote on an active proposal, whether the record is still
/// pending or already cast.
///
/// The record's previously stored weight is taken off its previous
/// side's counter with checked subtraction — an underflow would prove
/// the counters and the record had come apart — and the voter's current
/// registry weight is added onto the new side with checked addition.
/// The record then holds the new side and the fresh registry weight, and
/// is cast.  Nothing is mutated on any failure.
pub fn set_vote(
    governor: &Governor,
    proposal: &mut Proposal,
    vote: &mut Vote,
    voter: Identity,
    new_side: VoteSide,
) -> (r: Result<(), ErrorCode>)
    requires
        governor.wf(),
        old(vote).voter == voter,
        old(vote).proposal == old(proposal).proposal_id,
    ensures
        match r {
            Ok(()) => {
                &&& governor.roster_has(voter)
                &&& old(proposal).state == ProposalState::Active
                &&& retract_ok(*old(proposal), old(vote).side, old(vote).weight)
                &&& recast_ok(
                    after_retract(*old(proposal), old(vote).side, old(vote).weight),
                    new_side,
                    governor.roster_weight(voter),
                )
                &&& *final(proposal) == after_recast(
                    after_retract(*old(proposal), old(vote).side, old(vote).weight),
                    new_side,
                    governor.roster_weight(voter),
                )
                &&& *final(vote) == (Vote {
                    side: new_side,
                    weight: governor.roster_weight(voter),
                    state: VoteState::Cast,
                    ..*old(vote)
                })
            },
            Err(e) => {
                &&& *final(proposal) == *old(proposal)
                &&& *final(vote) == *old(vote)
                &&& !(governor.roster_has(voter) && old(proposal).state == ProposalState::Active
                    && retract_ok(*old(proposal), old(vote).side, old(vote).weight) && recast_ok(
                    after_retract(*old(proposal), old(vote).side, old(vote).weight),
                    new_side,
                    governor.roster_weight(voter),
                ))
                &&& e == (if !governor.roster_has(voter) {
                    ErrorCode::UnauthorisedVoter
                } else if old(proposal).state != ProposalState::Active {
                    ErrorCode::InvalidStateTransition
                } else {
                    ErrorCode::NumericalOverflow
                })
            },
        },
{
    let new_weight = match governor.find_voter_weight(voter) {
        Some(w) => w,
        None => {
            return Err(ErrorCode::UnauthorisedVoter);
        },
    };
    if proposal.state != ProposalState::Active {
        return Err(ErrorCode::InvalidStateTransition);
    }
    let old_side = vote.side;
    let old_weight = vote.weight;
    let retracted = match checked_sub_u64(read_counter(proposal, old_side), old_weight) {
        Some(v) => v,
        None => {
            return Err(ErrorCode::NumericalOverflow);
        },
    };
    let add_base = if new_side == old_side {
        retracted
    } else {
        read_counter(proposal, new_side)
    };
    let recast = match checked_add_u64(add_base, new_weight) {
        Some(v) => v,
        None => {
            return Err(ErrorCode::NumericalOverflow);
        },
    };
    write_counter(proposal, old_side, retracted);
    write_counter(proposal, new_side, recast);
    vote.side = new_side;
    vote.weight = new_weight;
    vote.state = VoteState::Cast;
    Ok(())
}

} // verus!
