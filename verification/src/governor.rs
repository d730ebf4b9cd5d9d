use vstd::prelude::*;

use crate::errors::ErrorCode;
use crate::state::{Governor, Identity, VoterInfo};

verus! {

/// Creates the registry for one organization.
///
/// Fails with a validation error when the threshold exceeds 100 percent
/// or the timelock delay is negative; otherwise the registry starts with
/// an empty roster and a proposal counter of zero.
pub fn init_governor(
    vote_threshold: u8,
    timelock_delay: i64,
    smart_wallet: Identity,
    electorate: Identity,
    governance_mint: Identity,
) -> (r: Result<Governor, ErrorCode>)
    ensures
        match r {
            Ok(g) => {
                &&& vote_threshold <= 100
                &&& timelock_delay >= 0
                &&& g.vote_threshold == vote_threshold
                &&& g.timelock_delay == timelock_delay
                &&& g.smart_wallet == smart_wallet
                &&& g.electorate == electorate
                &&& g.governance_mint == governance_mint
                &&& g.proposal_count == 0
                &&& g.voters@.len() == 0
                &&& g.wf()
            },
            Err(e) => {
                &&& (vote_threshold > 100 || timelock_delay < 0)
                &&& e == (if vote_threshold > 100 {
                    ErrorCode::InvalidVoteThreshold
                } else {
                    ErrorCode::InvalidTimelockDelay
                })
            },
        },
{
    if vote_threshold > 100 {
        return Err(ErrorCode::InvalidVoteThreshold);
    }
    if timelock_delay < 0 {
        return Err(ErrorCode::InvalidTimelockDelay);
    }
    Ok(Governor {
        vote_threshold,
        timelock_delay,
        smart_wallet,
        electorate,
        governance_mint,
        proposal_count: 0,
        voters: Vec::new(),
    })
}

/// Appends a voter to the roster.
///
/// Only the registry authority may add voters, and an identity already
/// present is refused; a failed attempt leaves the roster untouched.
/// There is no removal or weight-update operation: the roster only grows.
pub fn add_voter(
    governor: &mut Governor,
    caller: Identity,
    new_voter: Identity,
    weight: u64,
) -> (r: Result<(), ErrorCode>)
    requires
        old(governor).wf(),
    ensures
        final(governor).wf(),
        match r {
            Ok(()) => {
                &&& caller == old(governor).smart_wallet
                &&& !old(governor).roster_has(new_voter)
                &&& final(governor).voters@ == old(governor).voters@.push(
                    (VoterInfo { pubkey: new_voter, weight }),
                )
                &&& final(governor).roster_has(new_voter)
                &&& final(governor).roster_weight(new_voter) == weight
                &&& forall|id: Identity| #[trigger]
                    final(governor).roster_has(id) <==> (old(governor).roster_has(id) || id
                        == new_voter)
                &&& forall|id: Identity|
                    old(governor).roster_has(id) ==> #[trigger] final(governor).roster_weight(id)
                        == old(governor).roster_weight(id)
                &&& final(governor).vote_threshold == old(governor).vote_threshold
                &&& final(governor).timelock_delay == old(governor).timelock_delay
                &&& final(governor).smart_wallet == old(governor).smart_wallet
                &&& final(governor).electorate == old(governor).electorate
                &&& final(governor).governance_mint == old(governor).governance_mint
                &&& final(governor).proposal_count == old(governor).proposal_count
            },
            Err(e) => {
                &&& *final(governor) == *old(governor)
                &&& (caller != old(governor).smart_wallet || old(governor).roster_has(new_voter))
                &&& e == (if caller != old(governor).smart_wallet {
                    ErrorCode::UnauthorisedAuthority
                } else {
                    ErrorCode::DuplicateVoter
                })
            },
        },
{
    if caller != governor.smart_wallet {
        return Err(ErrorCode::UnauthorisedAuthority);
    }
    if governor.find_voter_weight(new_voter).is_some() {
        return Err(ErrorCode::DuplicateVoter);
    }
    governor.voters.push(VoterInfo { pubkey: new_voter, weight });
    proof {
        let vs = governor.voters@;
        let prev = old(governor).voters@;
        assert forall|i: int, j: int| 0 <= i < j < vs.len() implies vs[i].pubkey != vs[j].pubkey by {
            if j == vs.len() - 1 {
                assert(vs[i].pubkey != new_voter);
            }
        }
        assert(vs[vs.len() - 1].pubkey == new_voter);
        let jn = governor.roster_index(new_voter);
        assert(0 <= jn < vs.len() && vs[jn].pubkey == new_voter);
        assert(jn == vs.len() - 1);
        assert forall|id: Identity| #[trigger]
            governor.roster_has(id) implies (old(governor).roster_has(id) || id == new_voter) by {
            let k = choose|k: int| 0 <= k < vs.len() && vs[k].pubkey == id;
            if k < vs.len() - 1 {
                assert(prev[k].pubkey == id);
            }
        }
        assert forall|id: Identity|
            old(governor).roster_has(id) implies #[trigger] governor.roster_has(id) by {
            let k = choose|k: int| 0 <= k < prev.len() && prev[k].pubkey == id;
            assert(vs[k].pubkey == id);
        }
        assert forall|id: Identity|
            old(governor).roster_has(id) implies #[trigger] governor.roster_weight(id) == old(
            governor,
        ).roster_weight(id) by {
            let k = old(governor).roster_index(id);
            assert(0 <= k < prev.len() && prev[k].pubkey == id);
            assert(vs[k].pubkey == id);
            let k2 = governor.roster_index(id);
            assert(0 <= k2 < vs.len() && vs[k2].pubkey == id);
            assert(k2 == k);
        }
    }
    Ok(())
}

} // verus!
