use iterative_dao::{
    activate_proposal, add_voter, cast_vote, create_proposal, create_vote, execute_proposal,
    finalise_proposal, init_governor, queue_proposal, ErrorCode, Governor, Proposal,
    ProposalInstruction, ProposalState, Vote, VoteSide,
};

const AUTHORITY: u64 = 1;
const VOTER_A: u64 = 10;
const VOTER_B: u64 = 11;

/// Threshold 50, timelock delay 500, voter A with weight 10 and voter B
/// with weight 20; a proposal created by A and activated at t=1000 with
/// a voting period of 100.
fn setup() -> (Governor, Proposal, Vote, Vote) {
    let mut gov = init_governor(50, 500, AUTHORITY, 900, 901).expect("registry");
    add_voter(&mut gov, AUTHORITY, VOTER_A, 10).expect("add voter a");
    add_voter(&mut gov, AUTHORITY, VOTER_B, 20).expect("add voter b");
    let actions = vec![ProposalInstruction { program_id: 42, accounts: vec![], data: vec![7] }];
    let mut p = create_proposal(&mut gov, 9, VOTER_A, actions).expect("proposal");
    activate_proposal(&gov, &mut p, AUTHORITY, 100, 1000).expect("activate");
    let va = create_vote(&gov, &p, VOTER_A).expect("record a");
    let vb = create_vote(&gov, &p, VOTER_B).expect("record b");
    (gov, p, va, vb)
}

#[test]
fn split_vote_below_threshold_is_rejected() {
    let (gov, mut p, mut va, mut vb) = setup();
    cast_vote(&gov, &mut p, &mut va, VOTER_A, VoteSide::For).expect("a casts for at t=1050");
    cast_vote(&gov, &mut p, &mut vb, VOTER_B, VoteSide::Against).expect(
        "b casts against at t=1060",
    );
    assert_eq!(p.for_votes, 10);
    assert_eq!(p.against_votes, 20);
    finalise_proposal(&gov, &mut p, 1100).expect("finalise at window end");
    // total 30, share in favour floor(10 * 100 / 30) == 33 percent.
    assert_eq!(p.state, ProposalState::Rejected);
}

#[test]
fn unanimous_vote_passes_and_executes_after_timelock() {
    let (gov, mut p, mut va, mut vb) = setup();
    cast_vote(&gov, &mut p, &mut va, VOTER_A, VoteSide::For).expect("a casts for");
    cast_vote(&gov, &mut p, &mut vb, VOTER_B, VoteSide::For).expect("b casts for");
    assert_eq!(p.for_votes, 30);
    finalise_proposal(&gov, &mut p, 1100).expect("finalise at window end");
    // total 30, share in favour 100 percent.
    assert_eq!(p.state, ProposalState::Succeeded);

    queue_proposal(&gov, &mut p, AUTHORITY, 1100).expect("queue");
    assert_eq!(p.state, ProposalState::Queued);
    assert_eq!(p.ready_to_execute_at, 1600);

    let early = execute_proposal(&mut p, 1599);
    assert_eq!(early.err(), Some(ErrorCode::TimelockNotExpired));
    assert_eq!(p.state, ProposalState::Queued);

    execute_proposal(&mut p, 1600).expect("gate open at t=1600");
    assert_eq!(p.state, ProposalState::Executed);
}
