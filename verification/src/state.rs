use vstd::prelude::*;

use crate::enums::{ProposalState, VoteSide, VoteState};

verus! {

/// An opaque identity: a voter, a proposer, the registry authority, or an
/// external reference.  The hosting environment authenticates callers and
/// hands their identities to this library; no structure beyond uniqueness
/// is assumed.
pub type Identity = u64;

/// One entry of the voter roster: an identity and its voting weight.
#[derive(Clone, Copy, Debug, PartialEq, Eq, Structural)]
pub struct VoterInfo {
    pub pubkey: Identity,
    pub weight: u64,
}

/// The registry of one organization: its configuration and voter roster.
///
/// Created once by [`crate::init_governor`]; the roster only grows, and the
/// proposal counter only increases.
pub struct Governor {
    /// Pass threshold, an integer percentage in `[0, 100]`.
    pub vote_threshold: u8,
    /// Mandatory delay between a proposal being queued and becoming
    /// executable.  Non-negative.
    pub timelock_delay: i64,
    /// The administrative authority of the registry.
    pub smart_wallet: Identity,
    /// External reference to the electorate.
    pub electorate: Identity,
    /// External reference to the governance token mint.
    pub governance_mint: Identity,
    /// Monotonically increasing counter; the next proposal's id.
    pub proposal_count: u64,
    /// The voter roster.  Identities are unique; insertion order carries
    /// no meaning.
    pub voters: Vec<VoterInfo>,
}

impl Governor {
    /// Whether `id` is in the voter roster.
    pub open spec fn roster_has(self, id: Identity) -> bool {
        exists|i: int| 0 <= i < self.voters@.len() && self.voters@[i].pubkey == id
    }

    /// The index of `id` in the roster (meaningful only when
    /// `roster_has(id)` holds).
    pub open spec fn roster_index(self, id: Identity) -> int {
        choose|i: int| 0 <= i < self.voters@.len() && self.voters@[i].pubkey == id
    }

    /// The weight the roster assigns to `id` (meaningful only when
    /// `roster_has(id)` holds).
    pub open spec fn roster_weight(self, id: Identity) -> u64 {
        self.voters@[self.roster_index(id)].weight
    }

    /// No identity appears twice in the roster.
    pub open spec fn roster_unique(self) -> bool {
        forall|i: int, j: int|
            0 <= i < j < self.voters@.len()
                ==> #[trigger] self.voters@[i].pubkey != #[trigger] self.voters@[j].pubkey
    }

    /// The registry invariant: the threshold is a percentage, the delay
    /// is non-negative, and the roster holds no duplicate identity.
    pub open spec fn wf(self) -> bool {
        &&& self.vote_threshold <= 100
        &&& self.timelock_delay >= 0
        &&& self.roster_unique()
    }

    /// Looks an identity up in the roster and returns its weight, or
    /// `None` when the identity is not registered.
    pub fn find_voter_weight(&self, id: Identity) -> (r: Option<u64>)
        requires
            self.roster_unique(),
        ensures
            match r {
                Some(w) => self.roster_has(id) && w == self.roster_weight(id),
                None => !self.roster_has(id),
            },
    {
        let n = self.voters.len();
        let mut i: usize = 0;
        while i < n
            invariant
                n == self.voters@.len(),
                0 <= i <= n,
                forall|k: int| 0 <= k < i ==> self.voters@[k].pubkey != id,
                self.roster_unique(),
            decreases n - i,
        {
            if self.voters[i].pubkey == id {
                proof {
                    let j = self.roster_index(id);
                    assert(0 <= j < self.voters@.len() && self.voters@[j].pubkey == id);
                    assert(j == i as int);
                }
                return Some(self.voters[i].weight);
            }
            i = i + 1;
        }
        None
    }
}

/// One opaque action a proposal will carry out upon execution: a target
/// program, the accounts it touches, and a payload.
#[derive(Clone, Debug)]
pub struct ProposalInstruction {
    pub program_id: Identity,
    pub accounts: Vec<ProposalAccount>,
    pub data: Vec<u8>,
}

/// One account reference inside a [`ProposalInstruction`].
#[derive(Clone, Copy, Debug, PartialEq, Eq, Structural)]
pub struct ProposalAccount {
    pub pubkey: Identity,
    pub is_signer: bool,
    pub is_writable: bool,
}

/// A decision item with an ordered lifecycle and an accumulated vote
/// tally.  Created in `Draft`; mutated only by the lifecycle operations;
/// never deleted.
pub struct Proposal {
    /// The registry this proposal belongs to.
    pub governor: Identity,
    /// The identity that created the proposal.
    pub proposer: Identity,
    /// The actions to carry out upon execution; non-empty.
    pub instructions: Vec<ProposalInstruction>,
    /// Current lifecycle state.
    pub state: ProposalState,
    /// Unique id, drawn from the registry counter at creation.
    pub proposal_id: u64,
    /// When the proposal was activated.
    pub activated_at: i64,
    /// How long the voting window stays open after activation.
    pub voting_period: i64,
    /// The registry's timelock delay, snapshotted at creation and again
    /// at activation; the activation snapshot is the one `queue` uses.
    pub timelock_delay: i64,
    /// When the proposal was queued.
    pub queued_at: i64,
    /// `queued_at + timelock_delay`; the execution gate.
    pub ready_to_execute_at: i64,
    /// Accumulated weight voting for the proposal.
    pub for_votes: u64,
    /// Accumulated weight voting against the proposal.
    pub against_votes: u64,
    /// Accumulated weight abstaining.
    pub abstain_votes: u64,
}

/// One voter's commitment toward one proposal.  The host's keyed store
/// admits at most one record per `(proposal, voter)` pair.
#[derive(Clone, Copy, Debug, PartialEq, Eq, Structural)]
pub struct Vote {
    /// The id of the proposal this vote belongs to.
    pub proposal: u64,
    /// The voter's identity.
    pub voter: Identity,
    /// The side the vote is committed to.
    pub side: VoteSide,
    /// The weight counted into the proposal's tally.
    pub weight: u64,
    /// Whether the vote has been counted.
    pub state: VoteState,
}

} // verus!
