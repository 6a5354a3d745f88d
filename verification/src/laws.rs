//! The library-wide laws: properties that hold of every well-formed state,
//! stated as public proof functions. Each operation's `ensures` shows that
//! well-formedness is preserved, so these hold at every observation point.

use vstd::prelude::*;

use crate::counting::{count_active, lemma_count_sum};
use crate::state::{DaoState, VoteRecord};

verus! {

/// In every well-formed ballot box the two tallies add up to the number of
/// voters: `for + against == total`, for every ballot combination.
pub proof fn lemma_vote_tallies_balanced(vr: VoteRecord)
    requires
        vr.wf(),
    ensures
        vr.total_for_votes + vr.total_against_votes == vr.total_voters,
{
    lemma_count_sum(vr.vote_types@);
}

/// In every well-formed ballot box no identity appears twice among the
/// voters: a repeat vote can only have been rejected.
pub proof fn lemma_no_double_voting(vr: VoteRecord)
    requires
        vr.wf(),
    ensures
        forall|i: int, j: int|
            0 <= i < j < vr.voters@.len() ==> vr.voters@[i] != vr.voters@[j],
{
}

/// In every well-formed state the live ballot boxes balance too: for each
/// active proposal, the mirrored tallies on the proposal agree with its vote
/// record and add up to the voters counted.
pub proof fn lemma_live_records_balanced(s: DaoState, i: int)
    requires
        s.wf(),
        0 <= i < s.proposals@.len(),
        s.vote_records@[i] is Some,
    ensures
        s.proposals@[i].for_votes + s.proposals@[i].against_votes == s.proposals@[i].current_voters,
        s.proposals@[i].for_votes == s.vote_records@[i].unwrap().total_for_votes,
        s.proposals@[i].against_votes == s.vote_records@[i].unwrap().total_against_votes,
        s.proposals@[i].current_voters == s.vote_records@[i].unwrap().total_voters,
{
    lemma_vote_tallies_balanced(s.vote_records@[i].unwrap());
}

/// In every well-formed state `active_proposals` equals the number of
/// proposals that are currently active — the counter never drifts.
pub proof fn lemma_active_count_agrees(s: DaoState)
    requires
        s.wf(),
    ensures
        s.config.active_proposals == count_active(s.proposals@),
{
}

/// In every well-formed state an executed proposal is no longer active, so a
/// second execution attempt can only fail: `execute_proposal` promises an
/// error whenever the proposal is inactive or already executed, and promises
/// success only once `now` has passed the proposal's end time.
pub proof fn lemma_no_double_execution(s: DaoState, i: int)
    requires
        s.wf(),
        0 <= i < s.proposals@.len(),
        s.proposals@[i].executed,
    ensures
        !s.proposals@[i].is_active,
{
}

/// In every well-formed state the creator whitelist holds at least one
/// member: removal of the last member is always rejected.
pub proof fn lemma_whitelist_never_empty(s: DaoState)
    requires
        s.wf(),
    ensures
        s.config.proposal_creator_whitelist@.len() >= 1,
{
}

} // verus!
