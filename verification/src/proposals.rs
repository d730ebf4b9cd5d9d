use vstd::prelude::*;

use crate::arith::{checked_add_i64, checked_add_u64};
use crate::enums::ProposalState;
use crate::errors::ErrorCode;
use crate::state::{Governor, Identity, Proposal, ProposalInstruction};
use crate::timelock::ready_to_execute_at;

verus! {

/// The total weight cast on a proposal, over all three sides.
pub open spec fn vote_total(p: Proposal) -> int {
    p.for_votes + p.against_votes + p.abstain_votes
}

/// When the voting window of an activated proposal closes.
pub open spec fn voting_window_end(p: Proposal) -> int {
    p.activated_at + p.voting_period
}

/// Whether the voting window end fits a 64-bit timestamp.
pub open spec fn window_end_fits(p: Proposal) -> bool {
    i64::MIN <= voting_window_end(p) <= i64::MAX
}

/// Whether a tally passes the threshold: some weight was cast, and the
/// share of weight in favour — `floor(for * 100 / total)` percent — is at
/// least the threshold, boundary included.
pub open spec fn passes(for_votes: u64, total: int, vote_threshold: u8) -> bool {
    total > 0 && for_votes * 100 / total >= vote_threshold
}

/// The state a finalised proposal resolves to.  A proposal with no weight
/// cast at all is rejected.
pub open spec fn finalise_outcome(p: Proposal, vote_threshold: u8) -> ProposalState {
    if passes(p.for_votes, vote_total(p), vote_threshold) {
        ProposalState::Succeeded
    } else {
        ProposalState::Rejected
    }
}

/// Law: the threshold boundary is inclusive.  When the share of weight
/// in favour lands exactly on the threshold, the proposal succeeds; it
/// is not rejected.
pub proof fn lemma_threshold_boundary_succeeds(p: Proposal, vote_threshold: u8)
    requires
        vote_total(p) > 0,
        p.for_votes * 100 / vote_total(p) == vote_threshold,
    ensures
        finalise_outcome(p, vote_threshold) == ProposalState::Succeeded,
{
}

/// Creates a proposal in `Draft` against the registry.
///
/// The action list must be non-empty and the proposer must be in the
/// roster.  The proposal's id is drawn from the registry's counter, which
/// is then incremented; the registry's timelock delay is snapshotted onto
/// the proposal.  `governor_key` is the host's address for the registry,
/// recorded on the proposal as its back-reference.
pub fn create_proposal(
    governor: &mut Governor,
    governor_key: Identity,
    proposer: Identity,
    instructions: Vec<ProposalInstruction>,
) -> (r: Result<Proposal, ErrorCode>)
    requires
        old(governor).wf(),
        old(governor).proposal_count < u64::MAX,
    ensures
        final(governor).wf(),
        match r {
            Ok(p) => {
                &&& instructions@.len() > 0
                &&& old(governor).roster_has(proposer)
                &&& final(governor).proposal_count == old(governor).proposal_count + 1
                &&& final(governor).voters@ == old(governor).voters@
                &&& final(governor).vote_threshold == old(governor).vote_threshold
                &&& final(governor).timelock_delay == old(governor).timelock_delay
                &&& final(governor).smart_wallet == old(governor).smart_wallet
                &&& final(governor).electorate == old(governor).electorate
                &&& final(governor).governance_mint == old(governor).governance_mint
                &&& p.governor == governor_key
                &&& p.proposer == proposer
                &&& p.instructions == instructions
                &&& p.state == ProposalState::Draft
                &&& p.proposal_id == old(governor).proposal_count
                &&& p.activated_at == 0
                &&& p.voting_period == 0
                &&& p.timelock_delay == old(governor).timelock_delay
                &&& p.queued_at == 0
                &&& p.ready_to_execute_at == 0
                &&& p.for_votes == 0
                &&& p.against_votes == 0
                &&& p.abstain_votes == 0
            },
            Err(e) => {
                &&& *final(governor) == *old(governor)
                &&& (instructions@.len() == 0 || !old(governor).roster_has(proposer))
                &&& e == (if instructions@.len() == 0 {
                    ErrorCode::InvalidInstructions
                } else {
                    ErrorCode::UnauthorisedVoter
                })
            },
        },
{
    if instructions.len() == 0 {
        return Err(ErrorCode::InvalidInstructions);
    }
    if governor.find_voter_weight(proposer).is_none() {
        return Err(ErrorCode::UnauthorisedVoter);
    }
    let proposal = Proposal {
        governor: governor_key,
        proposer,
        instructions,
        state: ProposalState::Draft,
        proposal_id: governor.proposal_count,
        activated_at: 0,
        voting_period: 0,
        timelock_delay: governor.timelock_delay,
        queued_at: 0,
        ready_to_execute_at: 0,
        for_votes: 0,
        against_votes: 0,
        abstain_votes: 0,
    };
    governor.proposal_count = governor.proposal_count + 1;
    Ok(proposal)
}

/// Opens the voting window of a draft proposal.
///
/// Only the registry authority may activate, and the voting period must
/// be positive.  The registry's timelock delay is snapshotted onto the
/// proposal again here: this snapshot, not the one taken at creation, is
/// the value `queue_proposal` later uses.
pub fn activate_proposal(
    governor: &Governor,
    proposal: &mut Proposal,
    caller: Identity,
    voting_period: i64,
    now: i64,
) -> (r: Result<(), ErrorCode>)
    requires
        governor.wf(),
    ensures
        match r {
            Ok(()) => {
                &&& caller == governor.smart_wallet
                &&& old(proposal).state == ProposalState::Draft
                &&& voting_period > 0
                &&& *final(proposal) == (Proposal {
                    state: ProposalState::Active,
                    activated_at: now,
                    voting_period: voting_period,
                    timelock_delay: governor.timelock_delay,
                    ..*old(proposal)
                })
            },
            Err(e) => {
                &&& *final(proposal) == *old(proposal)
                &&& !(caller == governor.smart_wallet && old(proposal).state
                    == ProposalState::Draft && voting_period > 0)
                &&& e == (if caller != governor.smart_wallet {
                    ErrorCode::UnauthorisedAuthority
                } else if old(proposal).state != ProposalState::Draft {
                    ErrorCode::InvalidStateTransition
                } else {
                    ErrorCode::InvalidVotingPeriod
                })
            },
        },
{
    if caller != governor.smart_wallet {
        return Err(ErrorCode::UnauthorisedAuthority);
    }
    if proposal.state != ProposalState::Draft {
        return Err(ErrorCode::InvalidStateTransition);
    }
    if voting_period <= 0 {
        return Err(ErrorCode::InvalidVotingPeriod);
    }
    proposal.state = ProposalState::Active;
    proposal.activated_at = now;
    proposal.voting_period = voting_period;
    proposal.timelock_delay = governor.timelock_delay;
    Ok(())
}

/// Cancels a draft proposal.
///
/// Only the original proposer — not the registry authority — may cancel,
/// and only while the proposal is still a draft.  `Canceled` is terminal.
pub fn cancel_proposal(proposal: &mut Proposal, caller: Identity) -> (r: Result<(), ErrorCode>)
    ensures
        match r {
            Ok(()) => {
                &&& old(proposal).state == ProposalState::Draft
                &&& caller == old(proposal).proposer
                &&& *final(proposal) == (Proposal {
                    state: ProposalState::Canceled,
                    ..*old(proposal)
                })
            },
            Err(e) => {
                &&& *final(proposal) == *old(proposal)
                &&& !(old(proposal).state == ProposalState::Draft && caller == old(
                    proposal,
                ).proposer)
                &&& e == (if old(proposal).state != ProposalState::Draft {
                    ErrorCode::InvalidStateTransition
                } else {
                    ErrorCode::UnauthorisedCancellation
                })
            },
        },
{
    if proposal.state != ProposalState::Draft {
        return Err(ErrorCode::InvalidStateTransition);
    }
    if caller != proposal.proposer {
        return Err(ErrorCode::UnauthorisedCancellation);
    }
    proposal.state = ProposalState::Canceled;
    Ok(())
}

/// Whether every guard of `finalise_proposal` holds: the proposal is
/// active, its window end fits a timestamp, the window has elapsed, and
/// the three counters sum without overflow.
pub open spec fn finalise_guards_ok(p: Proposal, now: i64) -> bool {
    &&& p.state == ProposalState::Active
    &&& window_end_fits(p)
    &&& now >= voting_window_end(p)
    &&& vote_total(p) <= u64::MAX
}

/// The error `finalise_proposal` reports when one of its guards fails:
/// the first failing guard decides.
pub open spec fn finalise_error(p: Proposal, now: i64) -> ErrorCode {
    if p.state != ProposalState::Active {
        ErrorCode::InvalidStateTransition
    } else if !window_end_fits(p) {
        ErrorCode::NumericalOverflow
    } else if now < voting_window_end(p) {
        ErrorCode::VotingPeriodActive
    } else {
        ErrorCode::NumericalOverflow
    }
}

/// Resolves an active proposal whose voting window has elapsed.
///
/// The total cast weight is summed with checked additions; a total of
/// zero rejects the proposal.  Otherwise the share of weight in favour is
/// computed as `floor(for * 100 / total)` in a widened integer domain, so
/// the multiplication cannot overflow, and the proposal succeeds exactly
/// when that share reaches the registry threshold, boundary included.
pub fn finalise_proposal(governor: &Governor, proposal: &mut Proposal, now: i64) -> (r: Result<
    (),
    ErrorCode,
>)
    requires
        governor.wf(),
    ensures
        match r {
            Ok(()) => {
                &&& finalise_guards_ok(*old(proposal), now)
                &&& *final(proposal) == (Proposal {
                    state: finalise_outcome(*old(proposal), governor.vote_threshold),
                    ..*old(proposal)
                })
            },
            Err(e) => {
                &&& *final(proposal) == *old(proposal)
                &&& !finalise_guards_ok(*old(proposal), now)
                &&& e == finalise_error(*old(proposal), now)
            },
        },
{
    if proposal.state != ProposalState::Active {
        return Err(ErrorCode::InvalidStateTransition);
    }
    let end_time = match checked_add_i64(proposal.activated_at, proposal.voting_period) {
        Some(t) => t,
        None => {
            return Err(ErrorCode::NumericalOverflow);
        },
    };
    if now < end_time {
        return Err(ErrorCode::VotingPeriodActive);
    }
    let partial = match checked_add_u64(proposal.for_votes, proposal.against_votes) {
        Some(v) => v,
        None => {
            return Err(ErrorCode::NumericalOverflow);
        },
    };
    let total_cast = match checked_add_u64(partial, proposal.abstain_votes) {
        Some(v) => v,
        None => {
            return Err(ErrorCode::NumericalOverflow);
        },
    };
    if total_cast > 0 {
        let for_percent: u128 = (proposal.for_votes as u128) * 100 / (total_cast as u128);
        if for_percent >= governor.vote_threshold as u128 {
            proposal.state = ProposalState::Succeeded;
        } else {
            proposal.state = ProposalState::Rejected;
        }
    } else {
        proposal.state = ProposalState::Rejected;
    }
    Ok(())
}

/// Queues a succeeded proposal behind its timelock.
///
/// Only the registry authority may queue.  The execution gate is set to
/// `now + timelock_delay` with checked addition, using the delay
/// snapshotted on the proposal at activation.
pub fn queue_proposal(
    governor: &Governor,
    proposal: &mut Proposal,
    caller: Identity,
    now: i64,
) -> (r: Result<(), ErrorCode>)
    requires
        governor.wf(),
    ensures
        match r {
            Ok(()) => {
                &&& caller == governor.smart_wallet
                &&& old(proposal).state == ProposalState::Succeeded
                &&& i64::MIN <= now + old(proposal).timelock_delay <= i64::MAX
                &&& *final(proposal) == (Proposal {
                    state: ProposalState::Queued,
                    queued_at: now,
                    ready_to_execute_at: (now + old(proposal).timelock_delay) as i64,
                    ..*old(proposal)
                })
            },
            Err(e) => {
                &&& *final(proposal) == *old(proposal)
                &&& !(caller == governor.smart_wallet && old(proposal).state
                    == ProposalState::Succeeded && i64::MIN <= now + old(proposal).timelock_delay
                    <= i64::MAX)
                &&& e == (if caller != governor.smart_wallet {
                    ErrorCode::UnauthorisedAuthority
                } else if old(proposal).state != ProposalState::Succeeded {
                    ErrorCode::InvalidStateTransition
                } else {
                    ErrorCode::NumericalOverflow
                })
            },
        },
{
    if caller != governor.smart_wallet {
        return Err(ErrorCode::UnauthorisedAuthority);
    }
    if proposal.state != ProposalState::Succeeded {
        return Err(ErrorCode::InvalidStateTransition);
    }
    let ready_at = match ready_to_execute_at(now, proposal.timelock_delay) {
        Some(t) => t,
        None => {
            return Err(ErrorCode::NumericalOverflow);
        },
    };
    proposal.queued_at = now;
    proposal.ready_to_execute_at = ready_at;
    proposal.state = ProposalState::Queued;
    Ok(())
}

/// Marks a queued proposal executed once its timelock has elapsed.
///
/// The one-way flip to `Executed` is the idempotency guard: a second
/// call fails, so a host dispatching the stored actions at this
/// transition dispatches them exactly once.
pub fn execute_proposal(proposal: &mut Proposal, now: i64) -> (r: Result<(), ErrorCode>)
    ensures
        match r {
            Ok(()) => {
                &&& old(proposal).state == ProposalState::Queued
                &&& now >= old(proposal).ready_to_execute_at
                &&& *final(proposal) == (Proposal {
                    state: ProposalState::Executed,
                    ..*old(proposal)
                })
            },
            Err(e) => {
                &&& *final(proposal) == *old(proposal)
                &&& !(old(proposal).state == ProposalState::Queued && now >= old(
                    proposal,
                ).ready_to_execute_at)
                &&& e == (if old(proposal).state != ProposalState::Queued {
                    ErrorCode::InvalidStateTransition
                } else {
                    ErrorCode::TimelockNotExpired
                })
            },
        },
{
    if proposal.state != ProposalState::Queued {
        return Err(ErrorCode::InvalidStateTransition);
    }
    if now < proposal.ready_to_execute_at {
        return Err(ErrorCode::TimelockNotExpired);
    }
    proposal.state = ProposalState::Executed;
    Ok(())
}

} // verus!
