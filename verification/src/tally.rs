use vstd::prelude::*;

use crate::enums::{VoteSide, VoteState};
use crate::proposals::vote_total;
use crate::state::{Proposal, Vote};

verus! {

/// The tally counter of `p` for side `s`.
pub open spec fn counter_of(p: Proposal, s: VoteSide) -> u64 {
    match s {
        VoteSide::For => p.for_votes,
        VoteSide::Against => p.against_votes,
        VoteSide::Abstain => p.abstain_votes,
    }
}

/// `p` with its counter for side `s` replaced by `v`, every other field
/// untouched.
pub open spec fn with_counter(p: Proposal, s: VoteSide, v: u64) -> Proposal {
    match s {
        VoteSide::For => Proposal { for_votes: v, ..p },
        VoteSide::Against => Proposal { against_votes: v, ..p },
        VoteSide::Abstain => Proposal { abstain_votes: v, ..p },
    }
}

/// Whether a vote's stored weight can be taken off its stored side
/// without underflowing the counter.
pub open spec fn retract_ok(p: Proposal, side: VoteSide, weight: u64) -> bool {
    weight <= counter_of(p, side)
}

/// `p` after a vote's stored weight has been taken off side `side`.
pub open spec fn after_retract(p: Proposal, side: VoteSide, weight: u64) -> Proposal {
    with_counter(p, side, (counter_of(p, side) - weight) as u64)
}

/// Whether weight `w` can be added onto side `side` without overflowing
/// the counter.
pub open spec fn recast_ok(p: Proposal, side: VoteSide, w: u64) -> bool {
    counter_of(p, side) + w <= u64::MAX
}

/// `p` after weight `w` has been added onto side `side`.
pub open spec fn after_recast(p: Proposal, side: VoteSide, w: u64) -> Proposal {
    with_counter(p, side, (counter_of(p, side) + w) as u64)
}

/// What a vote record contributes to the counter of side `s`: its weight
/// when it has been cast on that side, and nothing otherwise.
pub open spec fn side_weight(v: Vote, s: VoteSide) -> int {
    if v.state == VoteState::Cast && v.side == s {
        v.weight as int
    } else {
        0
    }
}

/// The combined contribution of a ledger of vote records to the counter
/// of side `s`.
pub open spec fn side_sum(vs: Seq<Vote>, s: VoteSide) -> int
    decreases vs.len(),
{
    if vs.len() == 0 {
        0
    } else {
        side_sum(vs.drop_last(), s) + side_weight(vs.last(), s)
    }
}

/// The weight a vote record currently has counted, over all sides: its
/// stored weight when cast, nothing while pending.
pub open spec fn cast_weight(v: Vote) -> int {
    if v.state == VoteState::Cast {
        v.weight as int
    } else {
        0
    }
}

/// The sum of the weights currently counted from a ledger of vote
/// records: each record's most recent cast weight once.
pub open spec fn cast_weight_sum(vs: Seq<Vote>) -> int
    decreases vs.len(),
{
    if vs.len() == 0 {
        0
    } else {
        cast_weight_sum(vs.drop_last()) + cast_weight(vs.last())
    }
}

/// The tally invariant: each of the proposal's three counters equals the
/// combined contribution of its vote records.  `vs` is the ledger the
/// host keeps for the proposal, one record per voter.
pub open spec fn tally_consistent(p: Proposal, vs: Seq<Vote>) -> bool {
    &&& p.for_votes == side_sum(vs, VoteSide::For)
    &&& p.against_votes == side_sum(vs, VoteSide::Against)
    &&& p.abstain_votes == side_sum(vs, VoteSide::Abstain)
}

proof fn lemma_side_sum_update(vs: Seq<Vote>, i: int, v1: Vote, s: VoteSide)
    requires
        0 <= i < vs.len(),
    ensures
        side_sum(vs.update(i, v1), s) == side_sum(vs, s) - side_weight(vs[i], s) + side_weight(
            v1,
            s,
        ),
    decreases vs.len(),
{
    let vs1 = vs.update(i, v1);
    if i == vs.len() - 1 {
        assert(vs1.drop_last() =~= vs.drop_last());
        assert(vs1.last() == v1);
    } else {
        assert(vs1.drop_last() =~= vs.drop_last().update(i, v1));
        assert(vs1.last() == vs.last());
        lemma_side_sum_update(vs.drop_last(), i, v1, s);
        assert(vs.drop_last()[i] == vs[i]);
    }
}

proof fn lemma_side_sum_push(vs: Seq<Vote>, v: Vote, s: VoteSide)
    ensures
        side_sum(vs.push(v), s) == side_sum(vs, s) + side_weight(v, s),
{
    assert(vs.push(v).drop_last() =~= vs);
    assert(vs.push(v).last() == v);
}

proof fn lemma_side_sum_nonneg(vs: Seq<Vote>, s: VoteSide)
    ensures
        side_sum(vs, s) >= 0,
    decreases vs.len(),
{
    if vs.len() > 0 {
        lemma_side_sum_nonneg(vs.drop_last(), s);
    }
}

/// No single record contributes more than the whole sum: every other
/// contribution is non-negative.
proof fn lemma_side_sum_lower_bound(vs: Seq<Vote>, i: int, s: VoteSide)
    requires
        0 <= i < vs.len(),
    ensures
        side_weight(vs[i], s) <= side_sum(vs, s),
    decreases vs.len(),
{
    if i == vs.len() - 1 {
        lemma_side_sum_nonneg(vs.drop_last(), s);
    } else {
        lemma_side_sum_lower_bound(vs.drop_last(), i, s);
        assert(vs.drop_last()[i] == vs[i]);
    }
}

/// Law: a fresh proposal with zeroed counters is consistent with an
/// empty ledger.  The preservation laws below then carry consistency
/// through every legal sequence of vote creations, casts, and recasts.
pub proof fn lemma_empty_ledger_consistent(p: Proposal)
    requires
        p.for_votes == 0,
        p.against_votes == 0,
        p.abstain_votes == 0,
    ensures
        tally_consistent(p, Seq::<Vote>::empty()),
{
}

/// Law: creating a vote record — pending, with nothing counted — leaves
/// every tally counter consistent with the grown ledger.
pub proof fn lemma_create_vote_preserves_tally(p: Proposal, vs: Seq<Vote>, v: Vote)
    requires
        tally_consistent(p, vs),
        v.state == VoteState::Pending,
    ensures
        tally_consistent(p, vs.push(v)),
{
    lemma_side_sum_push(vs, v, VoteSide::For);
    lemma_side_sum_push(vs, v, VoteSide::Against);
    lemma_side_sum_push(vs, v, VoteSide::Abstain);
}

/// Law: casting a pending vote — adding weight `w` onto side `side`
/// while the record turns to cast with that side and weight — keeps the
/// tally consistent.  The weight enters exactly one counter once.
pub proof fn lemma_cast_vote_preserves_tally(
    p: Proposal,
    vs: Seq<Vote>,
    i: int,
    side: VoteSide,
    w: u64,
)
    requires
        tally_consistent(p, vs),
        0 <= i < vs.len(),
        vs[i].state == VoteState::Pending,
        recast_ok(p, side, w),
    ensures
        tally_consistent(
            after_recast(p, side, w),
            vs.update(i, (Vote { side, weight: w, state: VoteState::Cast, ..vs[i] })),
        ),
{
    let v1 = Vote { side, weight: w, state: VoteState::Cast, ..vs[i] };
    lemma_side_sum_update(vs, i, v1, VoteSide::For);
    lemma_side_sum_update(vs, i, v1, VoteSide::Against);
    lemma_side_sum_update(vs, i, v1, VoteSide::Abstain);
}

/// Law: on a consistent tally, taking a vote's stored weight off its
/// stored side can never underflow the counter — an underflow would
/// prove the counters and the ledger had come apart.
pub proof fn lemma_consistent_retract_ok(p: Proposal, vs: Seq<Vote>, i: int)
    requires
        tally_consistent(p, vs),
        0 <= i < vs.len(),
        vs[i].state == VoteState::Cast || vs[i].weight == 0,
    ensures
        retract_ok(p, vs[i].side, vs[i].weight),
{
    lemma_side_sum_lower_bound(vs, i, vs[i].side);
}

/// Law: recasting a vote — taking its previously counted weight off its
/// old side, adding the fresh weight `w` onto `new_side`, and rewriting
/// the record — keeps the tally consistent.  No weight is counted twice
/// even after recasting.
pub proof fn lemma_set_vote_preserves_tally(
    p: Proposal,
    vs: Seq<Vote>,
    i: int,
    new_side: VoteSide,
    w: u64,
)
    requires
        tally_consistent(p, vs),
        0 <= i < vs.len(),
        vs[i].state == VoteState::Cast || vs[i].weight == 0,
        recast_ok(after_retract(p, vs[i].side, vs[i].weight), new_side, w),
    ensures
        retract_ok(p, vs[i].side, vs[i].weight),
        tally_consistent(
            after_recast(after_retract(p, vs[i].side, vs[i].weight), new_side, w),
            vs.update(i, (Vote { side: new_side, weight: w, state: VoteState::Cast, ..vs[i] })),
        ),
{
    lemma_consistent_retract_ok(p, vs, i);
    let v1 = Vote { side: new_side, weight: w, state: VoteState::Cast, ..vs[i] };
    lemma_side_sum_update(vs, i, v1, VoteSide::For);
    lemma_side_sum_update(vs, i, v1, VoteSide::Against);
    lemma_side_sum_update(vs, i, v1, VoteSide::Abstain);
}

proof fn lemma_sides_partition(vs: Seq<Vote>)
    ensures
        side_sum(vs, VoteSide::For) + side_sum(vs, VoteSide::Against) + side_sum(
            vs,
            VoteSide::Abstain,
        ) == cast_weight_sum(vs),
    decreases vs.len(),
{
    if vs.len() > 0 {
        lemma_sides_partition(vs.drop_last());
    }
}

/// Law: on a consistent tally the three counters sum to exactly the
/// weights currently counted from the ledger — each record's most recent
/// cast weight once, and nothing else.
pub proof fn lemma_counters_sum_cast_weights(p: Proposal, vs: Seq<Vote>)
    requires
        tally_consistent(p, vs),
    ensures
        vote_total(p) == cast_weight_sum(vs),
{
    lemma_sides_partition(vs);
}

} // verus!
