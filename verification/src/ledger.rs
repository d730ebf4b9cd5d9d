use vstd::prelude::*;

use crate::enums::{ProposalState, VoteSide, VoteState};
use crate::errors::ErrorCode;
use crate::state::{Governor, Identity, Proposal, Vote};
use crate::tally::{
    after_recast, after_retract, lemma_cast_vote_preserves_tally,
    lemma_create_vote_preserves_tally, lemma_set_vote_preserves_tally, recast_ok, retract_ok,
    side_sum, tally_consistent,
};
use crate::votes;

verus! {

/// The vote ledger of one proposal: one record per voter, kept
/// consistent with the proposal's tally counters.
///
/// The record-level operations of this crate work on single records a
/// host stores under `(proposal, voter)` keys; this type is for a host
/// that keeps a proposal's records together.  It enforces the
/// uniqueness invariant itself — a second record for one voter is
/// refused — and every operation preserves [`tally_consistent`], so the
/// counters always equal the records' contributions: each voter's most
/// recent cast weight once, and nothing else.
pub struct VoteLedger {
    votes: Vec<Vote>,
}

impl VoteLedger {
    /// The vote records, in creation order.
    pub closed spec fn records(self) -> Seq<Vote> {
        self.votes@
    }

    /// Whether the ledger holds a record for `voter`.
    pub open spec fn has_vote(self, voter: Identity) -> bool {
        exists|i: int| 0 <= i < self.records().len() && self.records()[i].voter == voter
    }

    /// The index of `voter`'s record (meaningful only when
    /// `has_vote(voter)` holds).
    pub open spec fn vote_index(self, voter: Identity) -> int {
        choose|i: int| 0 <= i < self.records().len() && self.records()[i].voter == voter
    }

    /// `voter`'s record (meaningful only when `has_vote(voter)` holds).
    pub open spec fn vote_of(self, voter: Identity) -> Vote {
        self.records()[self.vote_index(voter)]
    }

    /// No voter holds two records.
    pub open spec fn unique_voters(self) -> bool {
        forall|i: int, j: int|
            0 <= i < j < self.records().len()
                ==> #[trigger] self.records()[i].voter != #[trigger] self.records()[j].voter
    }

    /// The ledger invariant with respect to its proposal: one record
    /// per voter, every record addressed to the proposal, a pending
    /// record holds no weight, and the proposal's counters equal the
    /// records' contributions.
    pub open spec fn wf(self, p: Proposal) -> bool {
        &&& self.unique_voters()
        &&& forall|i: int|
            0 <= i < self.records().len() ==> (#[trigger] self.records()[i]).proposal
                == p.proposal_id
        &&& forall|i: int|
            0 <= i < self.records().len() ==> ((#[trigger] self.records()[i]).state
                == VoteState::Pending ==> self.records()[i].weight == 0)
        &&& tally_consistent(p, self.records())
    }

    /// An empty ledger, consistent with any proposal whose counters are
    /// zeroed.
    pub fn new() -> (l: VoteLedger)
        ensures
            l.records() == Seq::<Vote>::empty(),
            forall|p: Proposal|
                (p.for_votes == 0 && p.against_votes == 0 && p.abstain_votes == 0)
                    ==> #[trigger] l.wf(p),
    {
        let l = VoteLedger { votes: Vec::new() };
        proof {
            assert(l.records() =~= Seq::<Vote>::empty());
            assert forall|p: Proposal|
                (p.for_votes == 0 && p.against_votes == 0 && p.abstain_votes == 0) implies #[trigger] l.wf(
                p,
            ) by {
                assert(side_sum(l.records(), VoteSide::For) == 0);
                assert(side_sum(l.records(), VoteSide::Against) == 0);
                assert(side_sum(l.records(), VoteSide::Abstain) == 0);
            }
        }
        l
    }

    /// How many records the ledger holds.
    pub fn len(&self) -> (n: usize)
        ensures
            n == self.records().len(),
    {
        self.votes.len()
    }

    /// Looks `voter`'s record up.
    pub fn get_vote(&self, voter: Identity) -> (r: Option<Vote>)
        requires
            self.unique_voters(),
        ensures
            match r {
                Some(v) => self.has_vote(voter) && v == self.vote_of(voter),
                None => !self.has_vote(voter),
            },
    {
        match self.find_index(voter) {
            Some(i) => Some(self.votes[i]),
            None => None,
        }
    }

    fn find_index(&self, voter: Identity) -> (r: Option<usize>)
        requires
            self.unique_voters(),
        ensures
            match r {
                Some(i) => {
                    &&& i < self.records().len()
                    &&& self.records()[i as int].voter == voter
                    &&& i as int == self.vote_index(voter)
                    &&& self.has_vote(voter)
                },
                None => !self.has_vote(voter),
            },
    {
        let n = self.votes.len();
        let mut k: usize = 0;
        while k < n
            invariant
                n == self.records().len(),
                0 <= k <= n,
                forall|m: int| 0 <= m < k ==> self.records()[m].voter != voter,
                self.unique_voters(),
            decreases n - k,
        {
            if self.votes[k].voter == voter {
                proof {
                    let j = self.vote_index(voter);
                    assert(0 <= j < self.records().len() && self.records()[j].voter == voter);
                    assert(j == k as int);
                }
                return Some(k);
            }
            k = k + 1;
        }
        None
    }

    /// Registers `voter`'s intent to vote: appends a fresh pending
    /// record, refusing a voter that already holds one.
    pub fn create_vote(
        &mut self,
        governor: &Governor,
        proposal: &Proposal,
        voter: Identity,
    ) -> (r: Result<(), ErrorCode>)
        requires
            governor.wf(),
            old(self).wf(*proposal),
        ensures
            final(self).wf(*proposal),
            match r {
                Ok(()) => {
                    &&& !old(self).has_vote(voter)
                    &&& governor.roster_has(voter)
                    &&& proposal.state == ProposalState::Active
                    &&& final(self).records() == old(self).records().push(
                        (Vote {
                            proposal: proposal.proposal_id,
                            voter,
                            side: VoteSide::Abstain,
                            weight: 0,
                            state: VoteState::Pending,
                        }),
                    )
                    &&& final(self).has_vote(voter)
                },
                Err(e) => {
                    &&& *final(self) == *old(self)
                    &&& (old(self).has_vote(voter) || !governor.roster_has(voter)
                        || proposal.state != ProposalState::Active)
                    &&& e == (if old(self).has_vote(voter) {
                        ErrorCode::DuplicateVote
                    } else if !governor.roster_has(voter) {
                        ErrorCode::UnauthorisedVoter
                    } else {
                        ErrorCode::InvalidStateTransition
                    })
                },
            },
    {
        if self.find_index(voter).is_some() {
            return Err(ErrorCode::DuplicateVote);
        }
        let vote = match votes::create_vote(governor, proposal, voter) {
            Ok(v) => v,
            Err(e) => {
                return Err(e);
            },
        };
        proof {
            lemma_create_vote_preserves_tally(*proposal, self.records(), vote);
        }
        self.votes.push(vote);
        proof {
            let vs = self.records();
            let prev = old(self).records();
            assert(vs[vs.len() - 1].voter == voter);
            assert forall|a: int, b: int| 0 <= a < b < vs.len() implies vs[a].voter != vs[b].voter by {
                if b == vs.len() - 1 {
                    assert(prev[a].voter != voter);
                } else {
                    assert(prev[a].voter != prev[b].voter);
                }
            }
        }
        Ok(())
    }

    /// Casts `voter`'s pending vote on `side` with the voter's current
    /// registry weight.  A voter without a record has nothing in a
    /// castable state and is refused.
    pub fn cast_vote(
        &mut self,
        governor: &Governor,
        proposal: &mut Proposal,
        voter: Identity,
        side: VoteSide,
    ) -> (r: Result<(), ErrorCode>)
        requires
            governor.wf(),
            old(self).wf(*old(proposal)),
        ensures
            final(self).wf(*final(proposal)),
            match r {
                Ok(()) => {
                    &&& old(self).has_vote(voter)
                    &&& governor.roster_has(voter)
                    &&& old(proposal).state == ProposalState::Active
                    &&& old(self).vote_of(voter).state == VoteState::Pending
                    &&& recast_ok(*old(proposal), side, governor.roster_weight(voter))
                    &&& *final(proposal) == after_recast(
                        *old(proposal),
                        side,
                        governor.roster_weight(voter),
                    )
                    &&& final(self).records() == old(self).records().update(
                        old(self).vote_index(voter),
                        (Vote {
                            side,
                            weight: governor.roster_weight(voter),
                            state: VoteState::Cast,
                            ..old(self).vote_of(voter)
                        }),
                    )
                },
                Err(e) => {
                    &&& *final(self) == *old(self)
                    &&& *final(proposal) == *old(proposal)
                    &&& !(old(self).has_vote(voter) && governor.roster_has(voter) && old(
                        proposal,
                    ).state == ProposalState::Active && old(self).vote_of(voter).state
                        == VoteState::Pending && recast_ok(
                        *old(proposal),
                        side,
                        governor.roster_weight(voter),
                    ))
                    &&& e == (if !old(self).has_vote(voter) {
                        ErrorCode::InvalidStateTransition
                    } else if !governor.roster_has(voter) {
                        ErrorCode::UnauthorisedVoter
                    } else if old(proposal).state != ProposalState::Active || old(self).vote_of(
                        voter,
                    ).state != VoteState::Pending {
                        ErrorCode::InvalidStateTransition
                    } else {
                        ErrorCode::NumericalOverflow
                    })
                },
            },
    {
        let i = match self.find_index(voter) {
            Some(i) => i,
            None => {
                return Err(ErrorCode::InvalidStateTransition);
            },
        };
        let mut rec = self.votes[i];
        match votes::cast_vote(governor, proposal, &mut rec, voter, side) {
            Ok(()) => {
                proof {
                    lemma_cast_vote_preserves_tally(
                        *old(proposal),
                        self.records(),
                        i as int,
                        side,
                        governor.roster_weight(voter),
                    );
                }
                self.votes[i] = rec;
                proof {
                    let vs = self.records();
                    let prev = old(self).records();
                    assert forall|a: int, b: int|
                        0 <= a < b < vs.len() implies vs[a].voter != vs[b].voter by {
                        assert(prev[a].voter != prev[b].voter);
                    }
                    assert forall|a: int|
                        0 <= a < vs.len() implies (#[trigger] vs[a]).proposal
                            == proposal.proposal_id by {
                        assert(prev[a].proposal == old(proposal).proposal_id);
                    }
                    assert forall|a: int|
                        0 <= a < vs.len() implies ((#[trigger] vs[a]).state == VoteState::Pending
                            ==> vs[a].weight == 0) by {
                        if a != i as int {
                            assert(prev[a].state == VoteState::Pending ==> prev[a].weight == 0);
                        }
                    }
                }
                Ok(())
            },
            Err(e) => Err(e),
        }
    }

    /// Retargets `voter`'s vote — pending or already cast — to
    /// `new_side`, moving its previously counted weight off its old
    /// side and the voter's current registry weight onto the new one.
    pub fn set_vote(
        &mut self,
        governor: &Governor,
        proposal: &mut Proposal,
        voter: Identity,
        new_side: VoteSide,
    ) -> (r: Result<(), ErrorCode>)
        requires
            governor.wf(),
            old(self).wf(*old(proposal)),
        ensures
            final(self).wf(*final(proposal)),
            match r {
                Ok(()) => {
                    &&& old(self).has_vote(voter)
                    &&& governor.roster_has(voter)
                    &&& old(proposal).state == ProposalState::Active
                    &&& retract_ok(
                        *old(proposal),
                        old(self).vote_of(voter).side,
                        old(self).vote_of(voter).weight,
                    )
                    &&& recast_ok(
                        after_retract(
                            *old(proposal),
                            old(self).vote_of(voter).side,
                            old(self).vote_of(voter).weight,
                        ),
                        new_side,
                        governor.roster_weight(voter),
                    )
                    &&& *final(proposal) == after_recast(
                        after_retract(
                            *old(proposal),
                            old(self).vote_of(voter).side,
                            old(self).vote_of(voter).weight,
                        ),
                        new_side,
                        governor.roster_weight(voter),
                    )
                    &&& final(self).records() == old(self).records().update(
                        old(self).vote_index(voter),
                        (Vote {
                            side: new_side,
                            weight: governor.roster_weight(voter),
                            state: VoteState::Cast,
                            ..old(self).vote_of(voter)
                        }),
                    )
                },
                Err(e) => {
                    &&& *final(self) == *old(self)
                    &&& *final(proposal) == *old(proposal)
                    &&& !(old(self).has_vote(voter) && governor.roster_has(voter) && old(
                        proposal,
                    ).state == ProposalState::Active && retract_ok(
                        *old(proposal),
                        old(self).vote_of(voter).side,
                        old(self).vote_of(voter).weight,
                    ) && recast_ok(
                        after_retract(
                            *old(proposal),
                            old(self).vote_of(voter).side,
                            old(self).vote_of(voter).weight,
                        ),
                        new_side,
                        governor.roster_weight(voter),
                    ))
                    &&& e == (if !old(self).has_vote(voter) {
                        ErrorCode::InvalidStateTransition
                    } else if !governor.roster_has(voter) {
                        ErrorCode::UnauthorisedVoter
                    } else if old(proposal).state != ProposalState::Active {
                        ErrorCode::InvalidStateTransition
                    } else {
                        ErrorCode::NumericalOverflow
                    })
                },
            },
    {
        let i = match self.find_index(voter) {
            Some(i) => i,
            None => {
                return Err(ErrorCode::InvalidStateTransition);
            },
        };
        let mut rec = self.votes[i];
        match votes::set_vote(governor, proposal, &mut rec, voter, new_side) {
            Ok(()) => {
                proof {
                    lemma_set_vote_preserves_tally(
                        *old(proposal),
                        self.records(),
                        i as int,
                        new_side,
                        governor.roster_weight(voter),
                    );
                }
                self.votes[i] = rec;
                proof {
                    let vs = self.records();
                    let prev = old(self).records();
                    assert forall|a: int, b: int|
                        0 <= a < b < vs.len() implies vs[a].voter != vs[b].voter by {
                        assert(prev[a].voter != prev[b].voter);
                    }
                    assert forall|a: int|
                        0 <= a < vs.len() implies (#[trigger] vs[a]).proposal
                            == proposal.proposal_id by {
                        assert(prev[a].proposal == old(proposal).proposal_id);
                    }
                    assert forall|a: int|
                        0 <= a < vs.len() implies ((#[trigger] vs[a]).state == VoteState::Pending
                            ==> vs[a].weight == 0) by {
                        if a != i as int {
                            assert(prev[a].state == VoteState::Pending ==> prev[a].weight == 0);
                        }
                    }
                }
                Ok(())
            },
            Err(e) => Err(e),
        }
    }
}

} // verus!
