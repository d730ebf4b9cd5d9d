use iterative_dao::{
    activate_proposal, add_voter, cancel_proposal, cast_vote, create_proposal, create_vote,
    execute_proposal, finalise_proposal, init_governor, queue_proposal, ErrorCategory, ErrorCode,
    Governor, Proposal, ProposalInstruction, ProposalState, VoteSide,
};

const AUTHORITY: u64 = 1;
const ALICE: u64 = 40;
const BOB: u64 = 41;

fn new_governor(threshold: u8, delay: i64) -> Governor {
    let mut gov = init_governor(threshold, delay, AUTHORITY, 900, 901).expect("valid registry");
    add_voter(&mut gov, AUTHORITY, ALICE, 1).expect("add first voter");
    add_voter(&mut gov, AUTHORITY, BOB, 1).expect("add second voter");
    gov
}

fn actions() -> Vec<ProposalInstruction> {
    vec![ProposalInstruction { program_id: 42, accounts: vec![], data: vec![1, 2, 3] }]
}

fn bare_active_proposal(for_votes: u64, against_votes: u64, abstain_votes: u64) -> Proposal {
    Proposal {
        governor: 9,
        proposer: ALICE,
        instructions: actions(),
        state: ProposalState::Active,
        proposal_id: 0,
        activated_at: 0,
        voting_period: 1,
        timelock_delay: 0,
        queued_at: 0,
        ready_to_execute_at: 0,
        for_votes,
        against_votes,
        abstain_votes,
    }
}

#[test]
fn create_proposal_empty_actions_fails() {
    let mut gov = new_governor(50, 10);
    let r = create_proposal(&mut gov, 9, ALICE, Vec::new());
    assert_eq!(r.err(), Some(ErrorCode::InvalidInstructions));
    assert_eq!(ErrorCode::InvalidInstructions.category(), ErrorCategory::Validation);
    assert_eq!(gov.proposal_count, 0);
}

#[test]
fn create_proposal_nonmember_fails() {
    let mut gov = new_governor(50, 10);
    let r = create_proposal(&mut gov, 9, 77, actions());
    assert_eq!(r.err(), Some(ErrorCode::UnauthorisedVoter));
    assert_eq!(gov.proposal_count, 0);
}

#[test]
fn create_proposal_assigns_ids_in_order() {
    let mut gov = new_governor(50, 10);
    let p0 = create_proposal(&mut gov, 9, ALICE, actions()).expect("first proposal");
    let p1 = create_proposal(&mut gov, 9, BOB, actions()).expect("second proposal");
    assert_eq!(p0.proposal_id, 0);
    assert_eq!(p1.proposal_id, 1);
    assert_eq!(gov.proposal_count, 2);
    assert_eq!(p0.state, ProposalState::Draft);
    assert_eq!(p0.proposer, ALICE);
    assert_eq!(p0.governor, 9);
    assert_eq!(p0.timelock_delay, 10);
    assert_eq!(p0.for_votes, 0);
    assert_eq!(p0.against_votes, 0);
    assert_eq!(p0.abstain_votes, 0);
}

#[test]
fn activate_requires_authority() {
    let gov = new_governor(50, 10);
    let mut gov2 = new_governor(50, 10);
    let mut p = create_proposal(&mut gov2, 9, ALICE, actions()).expect("proposal");
    let r = activate_proposal(&gov, &mut p, ALICE, 100, 1000);
    assert_eq!(r.err(), Some(ErrorCode::UnauthorisedAuthority));
    assert_eq!(p.state, ProposalState::Draft);
}

#[test]
fn activate_requires_positive_period() {
    let mut gov = new_governor(50, 10);
    let mut p = create_proposal(&mut gov, 9, ALICE, actions()).expect("proposal");
    let r = activate_proposal(&gov, &mut p, AUTHORITY, 0, 1000);
    assert_eq!(r.err(), Some(ErrorCode::InvalidVotingPeriod));
    assert_eq!(ErrorCode::InvalidVotingPeriod.category(), ErrorCategory::Validation);
    let r2 = activate_proposal(&gov, &mut p, AUTHORITY, -5, 1000);
    assert_eq!(r2.err(), Some(ErrorCode::InvalidVotingPeriod));
    assert_eq!(p.state, ProposalState::Draft);
}

#[test]
fn activate_sets_window_and_delay_snapshot() {
    let mut gov = new_governor(50, 10);
    let mut p = create_proposal(&mut gov, 9, ALICE, actions()).expect("proposal");
    // The registry delay changes between creation and activation; the
    // activation snapshot is the one that counts at queue time.
    gov.timelock_delay = 500;
    activate_proposal(&gov, &mut p, AUTHORITY, 100, 1000).expect("activate");
    assert_eq!(p.state, ProposalState::Active);
    assert_eq!(p.activated_at, 1000);
    assert_eq!(p.voting_period, 100);
    assert_eq!(p.timelock_delay, 500);
}

#[test]
fn activate_requires_draft() {
    let mut gov = new_governor(50, 10);
    let mut p = create_proposal(&mut gov, 9, ALICE, actions()).expect("proposal");
    activate_proposal(&gov, &mut p, AUTHORITY, 100, 1000).expect("activate");
    let r = activate_proposal(&gov, &mut p, AUTHORITY, 100, 1001);
    assert_eq!(r.err(), Some(ErrorCode::InvalidStateTransition));
    assert_eq!(ErrorCode::InvalidStateTransition.category(), ErrorCategory::State);
    assert_eq!(p.activated_at, 1000);
}

#[test]
fn finalise_before_window_end_fails() {
    let mut gov = new_governor(50, 10);
    let mut p = create_proposal(&mut gov, 9, ALICE, actions()).expect("proposal");
    activate_proposal(&gov, &mut p, AUTHORITY, 100, 1000).expect("activate");
    let mut v = create_vote(&gov, &p, ALICE).expect("vote record");
    cast_vote(&gov, &mut p, &mut v, ALICE, VoteSide::For).expect("cast");
    let r = finalise_proposal(&gov, &mut p, 1099);
    assert_eq!(r.err(), Some(ErrorCode::VotingPeriodActive));
    assert_eq!(ErrorCode::VotingPeriodActive.category(), ErrorCategory::Timing);
    assert_eq!(p.state, ProposalState::Active);
}

#[test]
fn finalise_at_window_end_succeeds() {
    let mut gov = new_governor(50, 10);
    let mut p = create_proposal(&mut gov, 9, ALICE, actions()).expect("proposal");
    activate_proposal(&gov, &mut p, AUTHORITY, 100, 1000).expect("activate");
    let mut v = create_vote(&gov, &p, ALICE).expect("vote record");
    cast_vote(&gov, &mut p, &mut v, ALICE, VoteSide::For).expect("cast");
    finalise_proposal(&gov, &mut p, 1100).expect("window has elapsed");
    assert_eq!(p.state, ProposalState::Succeeded);
}

#[test]
fn finalise_zero_total_is_rejected() {
    // Even a threshold of zero cannot pass a proposal nobody voted on.
    let gov = init_governor(0, 0, AUTHORITY, 900, 901).expect("registry");
    let mut p = bare_active_proposal(0, 0, 0);
    finalise_proposal(&gov, &mut p, 5).expect("finalise");
    assert_eq!(p.state, ProposalState::Rejected);
}

#[test]
fn finalise_boundary_is_inclusive() {
    // 1 * 100 / 2 == 50 lands exactly on the threshold: Succeeded.
    let gov = init_governor(50, 0, AUTHORITY, 900, 901).expect("registry");
    let mut p = bare_active_proposal(1, 1, 0);
    finalise_proposal(&gov, &mut p, 5).expect("finalise");
    assert_eq!(p.state, ProposalState::Succeeded);
}

#[test]
fn finalise_below_boundary_is_rejected() {
    // 1 * 100 / 3 == 33 stays under the threshold: Rejected.
    let gov = init_governor(50, 0, AUTHORITY, 900, 901).expect("registry");
    let mut p = bare_active_proposal(1, 2, 0);
    finalise_proposal(&gov, &mut p, 5).expect("finalise");
    assert_eq!(p.state, ProposalState::Rejected);
}

#[test]
fn finalise_abstain_dilutes_share() {
    // 1 for, 1 abstain: 1 * 100 / 2 == 50 with threshold 51 fails.
    let gov = init_governor(51, 0, AUTHORITY, 900, 901).expect("registry");
    let mut p = bare_active_proposal(1, 0, 1);
    finalise_proposal(&gov, &mut p, 5).expect("finalise");
    assert_eq!(p.state, ProposalState::Rejected);
}

#[test]
fn finalise_window_end_overflow_fails() {
    let gov = init_governor(50, 0, AUTHORITY, 900, 901).expect("registry");
    let mut p = bare_active_proposal(1, 0, 0);
    p.activated_at = i64::MAX;
    p.voting_period = i64::MAX;
    let r = finalise_proposal(&gov, &mut p, 5);
    assert_eq!(r.err(), Some(ErrorCode::NumericalOverflow));
    assert_eq!(ErrorCode::NumericalOverflow.category(), ErrorCategory::Arithmetic);
    assert_eq!(p.state, ProposalState::Active);
}

#[test]
fn finalise_total_overflow_fails() {
    let gov = init_governor(50, 0, AUTHORITY, 900, 901).expect("registry");
    let mut p = bare_active_proposal(u64::MAX, 1, 0);
    let r = finalise_proposal(&gov, &mut p, 5);
    assert_eq!(r.err(), Some(ErrorCode::NumericalOverflow));
    assert_eq!(p.state, ProposalState::Active);
    assert_eq!(p.for_votes, u64::MAX);
}

#[test]
fn queue_requires_authority_and_success_state() {
    let gov = init_governor(50, 0, AUTHORITY, 900, 901).expect("registry");
    let mut p = bare_active_proposal(1, 0, 0);
    let r = queue_proposal(&gov, &mut p, ALICE, 10);
    assert_eq!(r.err(), Some(ErrorCode::UnauthorisedAuthority));
    let r2 = queue_proposal(&gov, &mut p, AUTHORITY, 10);
    assert_eq!(r2.err(), Some(ErrorCode::InvalidStateTransition));
    assert_eq!(p.state, ProposalState::Active);
}

#[test]
fn queue_sets_execution_gate() {
    let gov = init_governor(50, 0, AUTHORITY, 900, 901).expect("registry");
    let mut p = bare_active_proposal(1, 0, 0);
    p.state = ProposalState::Succeeded;
    p.timelock_delay = 500;
    queue_proposal(&gov, &mut p, AUTHORITY, 1100).expect("queue");
    assert_eq!(p.state, ProposalState::Queued);
    assert_eq!(p.queued_at, 1100);
    assert_eq!(p.ready_to_execute_at, 1600);
}

#[test]
fn queue_gate_overflow_fails() {
    let gov = init_governor(50, 0, AUTHORITY, 900, 901).expect("registry");
    let mut p = bare_active_proposal(1, 0, 0);
    p.state = ProposalState::Succeeded;
    p.timelock_delay = i64::MAX;
    let r = queue_proposal(&gov, &mut p, AUTHORITY, 1);
    assert_eq!(r.err(), Some(ErrorCode::NumericalOverflow));
    assert_eq!(p.state, ProposalState::Succeeded);
}

#[test]
fn execute_gate_opens_exactly_once() {
    let mut p = bare_active_proposal(1, 0, 0);
    p.state = ProposalState::Queued;
    p.ready_to_execute_at = 1600;
    let r = execute_proposal(&mut p, 1599);
    assert_eq!(r.err(), Some(ErrorCode::TimelockNotExpired));
    assert_eq!(ErrorCode::TimelockNotExpired.category(), ErrorCategory::Timing);
    assert_eq!(p.state, ProposalState::Queued);
    execute_proposal(&mut p, 1600).expect("gate open at the deadline");
    assert_eq!(p.state, ProposalState::Executed);
    let r2 = execute_proposal(&mut p, 1601);
    assert_eq!(r2.err(), Some(ErrorCode::InvalidStateTransition));
    assert_eq!(p.state, ProposalState::Executed);
}

#[test]
fn cancel_by_proposer_cancels_draft() {
    let mut gov = new_governor(50, 10);
    let mut p = create_proposal(&mut gov, 9, ALICE, actions()).expect("proposal");
    cancel_proposal(&mut p, ALICE).expect("proposer cancels own draft");
    assert_eq!(p.state, ProposalState::Canceled);
    // Canceled is terminal.
    let r = activate_proposal(&gov, &mut p, AUTHORITY, 100, 1000);
    assert_eq!(r.err(), Some(ErrorCode::InvalidStateTransition));
    assert_eq!(p.state, ProposalState::Canceled);
}

#[test]
fn cancel_by_other_voter_fails() {
    let mut gov = new_governor(50, 10);
    let mut p = create_proposal(&mut gov, 9, ALICE, actions()).expect("proposal");
    let r = cancel_proposal(&mut p, BOB);
    assert_eq!(r.err(), Some(ErrorCode::UnauthorisedCancellation));
    assert_eq!(ErrorCode::UnauthorisedCancellation.category(), ErrorCategory::Authorization);
    assert_eq!(p.state, ProposalState::Draft);
}

#[test]
fn cancel_active_proposal_fails() {
    let mut gov = new_governor(50, 10);
    let mut p = create_proposal(&mut gov, 9, ALICE, actions()).expect("proposal");
    activate_proposal(&gov, &mut p, AUTHORITY, 100, 1000).expect("activate");
    let r = cancel_proposal(&mut p, ALICE);
    assert_eq!(r.err(), Some(ErrorCode::InvalidStateTransition));
    assert_eq!(p.state, ProposalState::Active);
}
