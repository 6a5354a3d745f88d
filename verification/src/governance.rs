//! The governance operations: configuration and whitelist management,
//! proposal lifecycle, voting, window adjustment, execution, and
//! cancellation. Every operation validates its preconditions first and only
//! then mutates, so a failing call returns its error with the state exactly
//! as it was.

use vstd::prelude::*;

use crate::counting::{
    lemma_count_active_push, lemma_count_active_update, lemma_count_push, lemma_count_sum,
    lemma_distinct_push, lemma_distinct_remove,
};
use crate::effects::{ExecutionOutcome, ExecutionPayload, TokenAction};
use crate::errors::GovernanceError;
use crate::events::{
    ConfigUpdated, GovernanceConfigInitialized, ProposalCancelled, ProposalCreated,
    ProposalCreatorAdded, ProposalCreatorRemoved, ProposalEndtimeUpdated, ProposalExecuted,
    TreasuryFundsMoved, TreasuryMinted, VoteCast,
};
use crate::state::{
    AccountId, DaoState, GovernanceConfig, Proposal, ProposalCategory, TreasuryConfig, VoteRecord,
    MAX_DAO_DURATION_SECONDS, MAX_DESCRIPTION_LENGTH, MAX_PROPOSALS_HARD_CAP, MAX_TITLE_LENGTH,
    MAX_VOTERS_HARD_CAP, MAX_VOTING_DURATION_SECONDS, MIN_ADJUSTED_DURATION_SECONDS,
    MIN_DAO_DURATION_SECONDS, MIN_VOTING_DURATION_SECONDS,
};

verus! {

/// Whether `list` holds `x`.
fn contains_account(list: &Vec<AccountId>, x: AccountId) -> (r: bool)
    ensures
        r == list@.contains(x),
{
    let mut i: usize = 0;
    while i < list.len()
        invariant
            0 <= i <= list@.len(),
            forall|j: int| 0 <= j < i ==> list@[j] != x,
        decreases list@.len() - i,
    {
        if list[i] == x {
            return true;
        }
        i = i + 1;
    }
    false
}

/// The first index at which `list` holds `x`.
fn find_account_index(list: &Vec<AccountId>, x: AccountId) -> (i: usize)
    requires
        list@.contains(x),
    ensures
        0 <= i < list@.len(),
        list@[i as int] == x,
        forall|j: int| 0 <= j < i ==> list@[j] != x,
{
    let mut i: usize = 0;
    loop
        invariant
            list@.contains(x),
            0 <= i <= list@.len(),
            forall|j: int| 0 <= j < i ==> list@[j] != x,
        decreases list@.len() - i,
    {
        if i == list.len() {
            proof {
                let w = choose|w: int| 0 <= w < list@.len() && list@[w] == x;
                assert(list@[w] != x);
            }
        }
        if list[i] == x {
            return i;
        }
        i = i + 1;
    }
}

/// Creates the singleton governance configuration: validates the DAO
/// lifetime and the resource caps against the hard ceilings, sets the expiry
/// to `now + dao_duration_seconds`, and whitelists the initializing
/// authority as the first (and so far only) proposal creator.
pub fn initialize(
    authority: AccountId,
    apm_mint: AccountId,
    now: i64,
    dao_duration_seconds: i64,
    max_proposals_per_config: u64,
    max_voters_per_proposal: u64,
) -> (r: Result<(DaoState, GovernanceConfigInitialized), GovernanceError>)
    requires
        MIN_DAO_DURATION_SECONDS <= dao_duration_seconds <= MAX_DAO_DURATION_SECONDS ==> now
            + dao_duration_seconds <= i64::MAX,
    ensures
        ({
            if dao_duration_seconds < MIN_DAO_DURATION_SECONDS {
                r == Err::<(DaoState, GovernanceConfigInitialized), GovernanceError>(
                    GovernanceError::DaoDurationTooShort,
                )
            } else if dao_duration_seconds > MAX_DAO_DURATION_SECONDS {
                r == Err::<(DaoState, GovernanceConfigInitialized), GovernanceError>(
                    GovernanceError::DaoDurationTooLong,
                )
            } else if max_voters_per_proposal > MAX_VOTERS_HARD_CAP {
                r == Err::<(DaoState, GovernanceConfigInitialized), GovernanceError>(
                    GovernanceError::MaxVotersExceeded,
                )
            } else if max_proposals_per_config > MAX_PROPOSALS_HARD_CAP {
                r == Err::<(DaoState, GovernanceConfigInitialized), GovernanceError>(
                    GovernanceError::MaxActiveProposalsExceeded,
                )
            } else {
                &&& r is Ok
                &&& ({
                    let (st, ev) = r.unwrap();
                    &&& st.wf()
                    &&& st.config.apm_mint == apm_mint
                    &&& st.config.proposal_count == 0
                    &&& st.config.active_proposals == 0
                    &&& st.config.authority == authority
                    &&& st.config.dao_end_time == now + dao_duration_seconds
                    &&& st.config.max_proposals_per_config == max_proposals_per_config
                    &&& st.config.max_voters_per_proposal == max_voters_per_proposal
                    &&& st.config.proposal_creator_whitelist@ == seq![authority]
                    &&& st.proposals@ == Seq::<Proposal>::empty()
                    &&& st.vote_records@ == Seq::<Option<VoteRecord>>::empty()
                    &&& st.treasury_config is None
                    &&& ev == (GovernanceConfigInitialized {
                        authority,
                        apm_mint,
                        dao_end_time: st.config.dao_end_time,
                        timestamp: now,
                    })
                })
            }
        }),
{
    if dao_duration_seconds < MIN_DAO_DURATION_SECONDS {
        return Err(GovernanceError::DaoDurationTooShort);
    }
    if dao_duration_seconds > MAX_DAO_DURATION_SECONDS {
        return Err(GovernanceError::DaoDurationTooLong);
    }
    if max_voters_per_proposal > MAX_VOTERS_HARD_CAP {
        return Err(GovernanceError::MaxVotersExceeded);
    }
    if max_proposals_per_config > MAX_PROPOSALS_HARD_CAP {
        return Err(GovernanceError::MaxActiveProposalsExceeded);
    }
    let dao_end_time = now + dao_duration_seconds;
    let mut whitelist: Vec<AccountId> = Vec::new();
    whitelist.push(authority);
    proof {
        assert(whitelist@ =~= seq![authority]);
    }
    let config = GovernanceConfig {
        apm_mint,
        proposal_count: 0,
        active_proposals: 0,
        authority,
        dao_end_time,
        max_proposals_per_config,
        max_voters_per_proposal,
        proposal_creator_whitelist: whitelist,
    };
    let state = DaoState {
        config,
        proposals: Vec::new(),
        vote_records: Vec::new(),
        treasury_config: None,
    };
    let event = GovernanceConfigInitialized { authority, apm_mint, dao_end_time, timestamp: now };
    Ok((state, event))
}

/// Adds `creator_to_add` to the proposal-creator whitelist. Authority-only;
/// rejected once the DAO has expired or when the identity is already
/// whitelisted.
pub fn add_proposal_creator(
    state: &mut DaoState,
    caller: AccountId,
    now: i64,
    creator_to_add: AccountId,
) -> (r: Result<ProposalCreatorAdded, GovernanceError>)
    requires
        old(state).wf(),
    ensures
        final(state).wf(),
        ({
            let s = *old(state);
            let t = *final(state);
            if s.config.expired(now) {
                r == Err::<ProposalCreatorAdded, GovernanceError>(GovernanceError::DaoExpired) && t
                    == s
            } else if caller != s.config.authority {
                r == Err::<ProposalCreatorAdded, GovernanceError>(
                    GovernanceError::UnauthorizedUpdate,
                ) && t == s
            } else if s.config.whitelisted(creator_to_add) {
                r == Err::<ProposalCreatorAdded, GovernanceError>(
                    GovernanceError::CreatorAlreadyWhitelisted,
                ) && t == s
            } else {
                &&& r == Ok::<ProposalCreatorAdded, GovernanceError>(
                    ProposalCreatorAdded {
                        added_creator: creator_to_add,
                        added_by: caller,
                        timestamp: now,
                    },
                )
                &&& t.config.proposal_creator_whitelist@
                    == s.config.proposal_creator_whitelist@.push(creator_to_add)
                &&& t.config == (GovernanceConfig {
                    proposal_creator_whitelist: t.config.proposal_creator_whitelist,
                    ..s.config
                })
                &&& t.proposals == s.proposals
                &&& t.vote_records == s.vote_records
                &&& t.treasury_config == s.treasury_config
            }
        }),
{
    if now >= state.config.dao_end_time {
        return Err(GovernanceError::DaoExpired);
    }
    if !(caller == state.config.authority) {
        return Err(GovernanceError::UnauthorizedUpdate);
    }
    if contains_account(&state.config.proposal_creator_whitelist, creator_to_add) {
        return Err(GovernanceError::CreatorAlreadyWhitelisted);
    }
    proof {
        lemma_distinct_push(old(state).config.proposal_creator_whitelist@, creator_to_add);
    }
    state.config.proposal_creator_whitelist.push(creator_to_add);
    Ok(ProposalCreatorAdded { added_creator: creator_to_add, added_by: caller, timestamp: now })
}

/// Removes `creator_to_remove` from the proposal-creator whitelist.
/// Authority-only; rejected once the DAO has expired, when the identity is
/// not whitelisted, or when it is the last member — the whitelist must
/// always retain at least one entry.
pub fn remove_proposal_creator(
    state: &mut DaoState,
    caller: AccountId,
    now: i64,
    creator_to_remove: AccountId,
) -> (r: Result<ProposalCreatorRemoved, GovernanceError>)
    requires
        old(state).wf(),
    ensures
        final(state).wf(),
        ({
            let s = *old(state);
            let t = *final(state);
            if s.config.expired(now) {
                r == Err::<ProposalCreatorRemoved, GovernanceError>(GovernanceError::DaoExpired)
                    && t == s
            } else if caller != s.config.authority {
                r == Err::<ProposalCreatorRemoved, GovernanceError>(
                    GovernanceError::UnauthorizedUpdate,
                ) && t == s
            } else if !s.config.whitelisted(creator_to_remove) {
                r == Err::<ProposalCreatorRemoved, GovernanceError>(
                    GovernanceError::CreatorNotWhitelisted,
                ) && t == s
            } else if s.config.proposal_creator_whitelist@.len() <= 1 {
                r == Err::<ProposalCreatorRemoved, GovernanceError>(
                    GovernanceError::CannotRemoveLastCreator,
                ) && t == s
            } else {
                &&& r == Ok::<ProposalCreatorRemoved, GovernanceError>(
                    ProposalCreatorRemoved {
                        removed_creator: creator_to_remove,
                        removed_by: caller,
                        timestamp: now,
                    },
                )
                &&& exists|i: int|
                    0 <= i < s.config.proposal_creator_whitelist@.len()
                        && s.config.proposal_creator_whitelist@[i] == creator_to_remove
                        && t.config.proposal_creator_whitelist@
                        == s.config.proposal_creator_whitelist@.remove(i)
                &&& t.config.proposal_creator_whitelist@.len()
                    == s.config.proposal_creator_whitelist@.len() - 1
                &&& !t.config.whitelisted(creator_to_remove)
                &&& forall|y: AccountId|
                    y != creator_to_remove ==> (t.config.whitelisted(y) <==> s.config.whitelisted(
                        y,
                    ))
                &&& t.config == (GovernanceConfig {
                    proposal_creator_whitelist: t.config.proposal_creator_whitelist,
                    ..s.config
                })
                &&& t.proposals == s.proposals
                &&& t.vote_records == s.vote_records
                &&& t.treasury_config == s.treasury_config
            }
        }),
{
    if now >= state.config.dao_end_time {
        return Err(GovernanceError::DaoExpired);
    }
    if !(caller == state.config.authority) {
        return Err(GovernanceError::UnauthorizedUpdate);
    }
    if !contains_account(&state.config.proposal_creator_whitelist, creator_to_remove) {
        return Err(GovernanceError::CreatorNotWhitelisted);
    }
    if state.config.proposal_creator_whitelist.len() <= 1 {
        return Err(GovernanceError::CannotRemoveLastCreator);
    }
    let idx = find_account_index(&state.config.proposal_creator_whitelist, creator_to_remove);
    proof {
        lemma_distinct_remove(old(state).config.proposal_creator_whitelist@, idx as int);
    }
    let _ = state.config.proposal_creator_whitelist.remove(idx);
    Ok(ProposalCreatorRemoved {
        removed_creator: creator_to_remove,
        removed_by: caller,
        timestamp: now,
    })
}

/// Creates a new proposal together with its empty paired vote record: the
/// caller must be whitelisted, the DAO must still be live with a free
/// proposal slot, and the window, text, and voter-cap inputs must lie within
/// their bounds. The new proposal takes the next id, opens at `now`, and
/// closes at `now + voting_duration_seconds`.
pub fn create_proposal(
    state: &mut DaoState,
    caller: AccountId,
    now: i64,
    title: String,
    description: String,
    voting_duration_seconds: i64,
    category: ProposalCategory,
    max_voters: u64,
) -> (r: Result<ProposalCreated, GovernanceError>)
    requires
        old(state).wf(),
        old(state).config.proposal_count < u64::MAX,
        MIN_VOTING_DURATION_SECONDS <= voting_duration_seconds <= MAX_VOTING_DURATION_SECONDS
            ==> now + voting_duration_seconds <= i64::MAX,
    ensures
        final(state).wf(),
        ({
            let s = *old(state);
            let t = *final(state);
            if s.config.expired(now) {
                r == Err::<ProposalCreated, GovernanceError>(GovernanceError::DaoExpired) && t == s
            } else if voting_duration_seconds < MIN_VOTING_DURATION_SECONDS {
                r == Err::<ProposalCreated, GovernanceError>(GovernanceError::VotingDurationTooShort)
                    && t == s
            } else if voting_duration_seconds > MAX_VOTING_DURATION_SECONDS {
                r == Err::<ProposalCreated, GovernanceError>(GovernanceError::VotingDurationTooLong)
                    && t == s
            } else if title@.len() > MAX_TITLE_LENGTH {
                r == Err::<ProposalCreated, GovernanceError>(GovernanceError::TitleTooLong) && t
                    == s
            } else if description@.len() > MAX_DESCRIPTION_LENGTH {
                r == Err::<ProposalCreated, GovernanceError>(GovernanceError::DescriptionTooLong)
                    && t == s
            } else if max_voters > s.config.max_voters_per_proposal {
                r == Err::<ProposalCreated, GovernanceError>(GovernanceError::TooManyVoters) && t
                    == s
            } else if max_voters > MAX_VOTERS_HARD_CAP {
                r == Err::<ProposalCreated, GovernanceError>(GovernanceError::MaxVotersExceeded)
                    && t == s
            } else if s.config.active_proposals >= s.config.max_proposals_per_config {
                r == Err::<ProposalCreated, GovernanceError>(
                    GovernanceError::TooManyActiveProposals,
                ) && t == s
            } else if !s.config.whitelisted(caller) {
                r == Err::<ProposalCreated, GovernanceError>(GovernanceError::CreatorNotWhitelisted)
                    && t == s
            } else {
                let p = Proposal {
                    proposal_id: s.config.proposal_count,
                    title,
                    description,
                    start_time: now,
                    end_time: (now + voting_duration_seconds) as i64,
                    for_votes: 0,
                    against_votes: 0,
                    executed: false,
                    is_active: true,
                    created_by: caller,
                    executed_by: None,
                    executed_at: None,
                    proposal_category: category,
                    max_voters,
                    current_voters: 0,
                };
                &&& t.proposals@ == s.proposals@.push(p)
                &&& t.vote_records@ == s.vote_records@.push(t.vote_records@.last())
                &&& ({
                    let vr = t.vote_records@.last().unwrap();
                    &&& t.vote_records@.last() is Some
                    &&& vr.proposal_id == s.config.proposal_count
                    &&& vr.total_for_votes == 0
                    &&& vr.total_against_votes == 0
                    &&& vr.total_voters == 0
                    &&& vr.voters@ == Seq::<AccountId>::empty()
                    &&& vr.vote_types@ == Seq::<bool>::empty()
                })
                &&& t.config == (GovernanceConfig {
                    proposal_count: (s.config.proposal_count + 1) as u64,
                    active_proposals: (s.config.active_proposals + 1) as u64,
                    ..s.config
                })
                &&& t.treasury_config == s.treasury_config
                &&& r == Ok::<ProposalCreated, GovernanceError>(
                    ProposalCreated {
                        proposal_id: s.config.proposal_count,
                        category,
                        title,
                        created_by: caller,
                        start_time: now,
                        end_time: (now + voting_duration_seconds) as i64,
                        max_voters,
                        timestamp: now,
                    },
                )
            }
        }),
{
    if now >= state.config.dao_end_time {
        return Err(GovernanceError::DaoExpired);
    }
    if voting_duration_seconds < MIN_VOTING_DURATION_SECONDS {
        return Err(GovernanceError::VotingDurationTooShort);
    }
    if voting_duration_seconds > MAX_VOTING_DURATION_SECONDS {
        return Err(GovernanceError::VotingDurationTooLong);
    }
    if title.as_str().unicode_len() > MAX_TITLE_LENGTH {
        return Err(GovernanceError::TitleTooLong);
    }
    if description.as_str().unicode_len() > MAX_DESCRIPTION_LENGTH {
        return Err(GovernanceError::DescriptionTooLong);
    }
    if max_voters > state.config.max_voters_per_proposal {
        return Err(GovernanceError::TooManyVoters);
    }
    if max_voters > MAX_VOTERS_HARD_CAP {
        return Err(GovernanceError::MaxVotersExceeded);
    }
    if state.config.active_proposals >= state.config.max_proposals_per_config {
        return Err(GovernanceError::TooManyActiveProposals);
    }
    if !contains_account(&state.config.proposal_creator_whitelist, caller) {
        return Err(GovernanceError::CreatorNotWhitelisted);
    }
    let ghost s0 = *state;
    let proposal_id = state.config.proposal_count;
    let end_time = now + voting_duration_seconds;
    let title_for_event = title.clone();
    let proposal = Proposal {
        proposal_id,
        title,
        description,
        start_time: now,
        end_time,
        for_votes: 0,
        against_votes: 0,
        executed: false,
        is_active: true,
        created_by: caller,
        executed_by: None,
        executed_at: None,
        proposal_category: category,
        max_voters,
        current_voters: 0,
    };
    let vote_record = VoteRecord {
        proposal_id,
        total_for_votes: 0,
        total_against_votes: 0,
        total_voters: 0,
        voters: Vec::new(),
        vote_types: Vec::new(),
    };
    proof {
        lemma_count_active_push(s0.proposals@, proposal);
    }
    state.proposals.push(proposal);
    state.vote_records.push(Some(vote_record));
    state.config.proposal_count = state.config.proposal_count + 1;
    state.config.active_proposals = state.config.active_proposals + 1;
    Ok(ProposalCreated {
        proposal_id,
        category,
        title: title_for_event,
        created_by: caller,
        start_time: now,
        end_time,
        max_voters,
        timestamp: now,
    })
}

/// Casts `voter`'s ballot on an active proposal: the voter must be
/// whitelisted, must not have voted before, and must vote inside the window
/// while a voter slot is free. The ballot is appended to the vote record,
/// the matching tally rises by one, and the proposal mirrors the new
/// tallies. Voting is append-only: there is no way to change or withdraw a
/// ballot.
pub fn cast_vote(
    state: &mut DaoState,
    voter: AccountId,
    now: i64,
    proposal_id: usize,
    vote: bool,
) -> (r: Result<VoteCast, GovernanceError>)
    requires
        old(state).wf(),
        proposal_id < old(state).proposals@.len(),
    ensures
        final(state).wf(),
        ({
            let s = *old(state);
            let t = *final(state);
            let pid = proposal_id as int;
            let p0 = s.proposals@[pid];
            if s.config.expired(now) {
                r == Err::<VoteCast, GovernanceError>(GovernanceError::DaoExpired) && t == s
            } else if !p0.is_active {
                r == Err::<VoteCast, GovernanceError>(GovernanceError::ProposalNotActive) && t == s
            } else if !p0.in_voting_window(now) {
                r == Err::<VoteCast, GovernanceError>(GovernanceError::InvalidVotingTime) && t == s
            } else if !s.config.whitelisted(voter) {
                r == Err::<VoteCast, GovernanceError>(GovernanceError::VoterNotWhitelisted) && t
                    == s
            } else if s.vote_records@[pid].unwrap().voters@.contains(voter) {
                r == Err::<VoteCast, GovernanceError>(GovernanceError::AlreadyVoted) && t == s
            } else if s.vote_records@[pid].unwrap().total_voters >= p0.max_voters {
                r == Err::<VoteCast, GovernanceError>(GovernanceError::MaxVotersReached) && t == s
            } else {
                let vr0 = s.vote_records@[pid].unwrap();
                let vr1 = t.vote_records@[pid].unwrap();
                &&& t.vote_records@[pid] is Some
                &&& vr1.voters@ == vr0.voters@.push(voter)
                &&& vr1.vote_types@ == vr0.vote_types@.push(vote)
                &&& vr1.total_voters == vr0.total_voters + 1
                &&& vr1.total_for_votes == vr0.total_for_votes + (if vote {
                    1int
                } else {
                    0int
                })
                &&& vr1.total_against_votes == vr0.total_against_votes + (if vote {
                    0int
                } else {
                    1int
                })
                &&& vr1.proposal_id == vr0.proposal_id
                &&& t.vote_records@ == s.vote_records@.update(pid, Some(vr1))
                &&& t.proposals@ == s.proposals@.update(
                    pid,
                    Proposal {
                        for_votes: vr1.total_for_votes,
                        against_votes: vr1.total_against_votes,
                        current_voters: vr1.total_voters,
                        ..p0
                    },
                )
                &&& t.config == s.config
                &&& t.treasury_config == s.treasury_config
                &&& r == Ok::<VoteCast, GovernanceError>(
                    VoteCast {
                        proposal_id: p0.proposal_id,
                        voter,
                        vote_type: vote,
                        for_votes: vr1.total_for_votes,
                        against_votes: vr1.total_against_votes,
                        current_voters: vr1.total_voters,
                        timestamp: now,
                    },
                )
            }
        }),
{
    if now >= state.config.dao_end_time {
        return Err(GovernanceError::DaoExpired);
    }
    let pid = proposal_id;
    if !state.proposals[pid].is_active {
        return Err(GovernanceError::ProposalNotActive);
    }
    let start_time = state.proposals[pid].start_time;
    let end_time = state.proposals[pid].end_time;
    if !(start_time <= now && now <= end_time) {
        return Err(GovernanceError::InvalidVotingTime);
    }
    if !contains_account(&state.config.proposal_creator_whitelist, voter) {
        return Err(GovernanceError::VoterNotWhitelisted);
    }
    let max_voters = state.proposals[pid].max_voters;
    match &state.vote_records[pid] {
        Some(vr) => {
            if contains_account(&vr.voters, voter) {
                return Err(GovernanceError::AlreadyVoted);
            }
            if vr.total_voters >= max_voters {
                return Err(GovernanceError::MaxVotersReached);
            }
        },
        None => {
            proof {
                assert(false);
            }
            return Err(GovernanceError::ProposalNotActive);
        },
    }
    let ghost s0 = *state;
    let taken = {
        let slot = &mut state.vote_records[pid];
        slot.take()
    };
    let mut vr = taken.unwrap();
    let ghost types0 = vr.vote_types@;
    proof {
        lemma_count_sum(types0);
        lemma_distinct_push(vr.voters@, voter);
    }
    vr.voters.push(voter);
    vr.vote_types.push(vote);
    proof {
        lemma_count_push(types0, vote);
    }
    if vote {
        vr.total_for_votes = vr.total_for_votes + 1;
    } else {
        vr.total_against_votes = vr.total_against_votes + 1;
    }
    vr.total_voters = vr.total_voters + 1;
    let for_votes = vr.total_for_votes;
    let against_votes = vr.total_against_votes;
    let current_voters = vr.total_voters;
    let proposal_id_u64 = state.proposals[pid].proposal_id;
    {
        let slot = &mut state.vote_records[pid];
        *slot = Some(vr);
    }
    {
        let p = &mut state.proposals[pid];
        p.for_votes = for_votes;
        p.against_votes = against_votes;
        p.current_voters = current_voters;
    }
    proof {
        assert(state.vote_records@ =~= s0.vote_records@.update(
            pid as int,
            state.vote_records@[pid as int],
        ));
        lemma_count_active_update(s0.proposals@, pid as int, state.proposals@[pid as int]);
    }
    Ok(VoteCast {
        proposal_id: proposal_id_u64,
        voter,
        vote_type: vote,
        for_votes,
        against_votes,
        current_voters,
        timestamp: now,
    })
}

/// Changes the DAO parameters. Authority-only and rejected once the DAO has
/// expired; each given field is re-validated against the same ceilings as at
/// initialization, and a new duration recomputes the expiry from `now`
/// rather than extending the old one.
pub fn update_config(
    state: &mut DaoState,
    caller: AccountId,
    now: i64,
    new_dao_duration_seconds: Option<i64>,
    new_max_proposals: Option<u64>,
    new_max_voters: Option<u64>,
) -> (r: Result<ConfigUpdated, GovernanceError>)
    requires
        old(state).wf(),
        new_dao_duration_seconds matches Some(d) ==> (MIN_DAO_DURATION_SECONDS <= d
            <= MAX_DAO_DURATION_SECONDS ==> now + d <= i64::MAX),
    ensures
        final(state).wf(),
        ({
            let s = *old(state);
            let t = *final(state);
            if s.config.expired(now) {
                r == Err::<ConfigUpdated, GovernanceError>(GovernanceError::DaoExpired) && t == s
            } else if caller != s.config.authority {
                r == Err::<ConfigUpdated, GovernanceError>(GovernanceError::UnauthorizedUpdate)
                    && t == s
            } else if new_dao_duration_seconds matches Some(d) && d < MIN_DAO_DURATION_SECONDS {
                r == Err::<ConfigUpdated, GovernanceError>(GovernanceError::DaoDurationTooShort)
                    && t == s
            } else if new_dao_duration_seconds matches Some(d) && d > MAX_DAO_DURATION_SECONDS {
                r == Err::<ConfigUpdated, GovernanceError>(GovernanceError::DaoDurationTooLong)
                    && t == s
            } else if new_max_proposals matches Some(p) && p > MAX_PROPOSALS_HARD_CAP {
                r == Err::<ConfigUpdated, GovernanceError>(
                    GovernanceError::MaxActiveProposalsExceeded,
                ) && t == s
            } else if new_max_voters matches Some(v) && v > MAX_VOTERS_HARD_CAP {
                r == Err::<ConfigUpdated, GovernanceError>(GovernanceError::MaxVotersExceeded)
                    && t == s
            } else {
                let end = match new_dao_duration_seconds {
                    Some(d) => (now + d) as i64,
                    None => s.config.dao_end_time,
                };
                &&& t.config == (GovernanceConfig {
                    dao_end_time: end,
                    max_proposals_per_config: match new_max_proposals {
                        Some(p) => p,
                        None => s.config.max_proposals_per_config,
                    },
                    max_voters_per_proposal: match new_max_voters {
                        Some(v) => v,
                        None => s.config.max_voters_per_proposal,
                    },
                    ..s.config
                })
                &&& t.proposals == s.proposals
                &&& t.vote_records == s.vote_records
                &&& t.treasury_config == s.treasury_config
                &&& r == Ok::<ConfigUpdated, GovernanceError>(
                    ConfigUpdated { updated_by: caller, dao_end_time: end, timestamp: now },
                )
            }
        }),
{
    if now >= state.config.dao_end_time {
        return Err(GovernanceError::DaoExpired);
    }
    if !(caller == state.config.authority) {
        return Err(GovernanceError::UnauthorizedUpdate);
    }
    if let Some(d) = new_dao_duration_seconds {
        if d < MIN_DAO_DURATION_SECONDS {
            return Err(GovernanceError::DaoDurationTooShort);
        }
        if d > MAX_DAO_DURATION_SECONDS {
            return Err(GovernanceError::DaoDurationTooLong);
        }
    }
    if let Some(p) = new_max_proposals {
        if p > MAX_PROPOSALS_HARD_CAP {
            return Err(GovernanceError::MaxActiveProposalsExceeded);
        }
    }
    if let Some(v) = new_max_voters {
        if v > MAX_VOTERS_HARD_CAP {
            return Err(GovernanceError::MaxVotersExceeded);
        }
    }
    if let Some(d) = new_dao_duration_seconds {
        state.config.dao_end_time = now + d;
    }
    if let Some(p) = new_max_proposals {
        state.config.max_proposals_per_config = p;
    }
    if let Some(v) = new_max_voters {
        state.config.max_voters_per_proposal = v;
    }
    Ok(ConfigUpdated { updated_by: caller, dao_end_time: state.config.dao_end_time, timestamp: now })
}

/// Adjusts an active proposal's voting window. Authority-only. The new end
/// time is anchored at the proposal's original `start_time` — not at `now`,
/// which would let the authority reset elapsed voting time — and must not
/// outlive the DAO itself.
pub fn update_proposal_endtime(
    state: &mut DaoState,
    caller: AccountId,
    now: i64,
    proposal_id: usize,
    new_voting_duration_seconds: i64,
) -> (r: Result<ProposalEndtimeUpdated, GovernanceError>)
    requires
        old(state).wf(),
        proposal_id < old(state).proposals@.len(),
        MIN_ADJUSTED_DURATION_SECONDS <= new_voting_duration_seconds
            <= MAX_VOTING_DURATION_SECONDS ==> old(state).proposals@[proposal_id as int].start_time
            + new_voting_duration_seconds <= i64::MAX,
    ensures
        final(state).wf(),
        ({
            let s = *old(state);
            let t = *final(state);
            let pid = proposal_id as int;
            let p0 = s.proposals@[pid];
            if s.config.expired(now) {
                r == Err::<ProposalEndtimeUpdated, GovernanceError>(GovernanceError::DaoExpired)
                    && t == s
            } else if caller != s.config.authority {
                r == Err::<ProposalEndtimeUpdated, GovernanceError>(
                    GovernanceError::UnauthorizedUpdate,
                ) && t == s
            } else if !p0.is_active {
                r == Err::<ProposalEndtimeUpdated, GovernanceError>(
                    GovernanceError::ProposalNotActive,
                ) && t == s
            } else if p0.executed {
                r == Err::<ProposalEndtimeUpdated, GovernanceError>(
                    GovernanceError::ProposalAlreadyExecuted,
                ) && t == s
            } else if new_voting_duration_seconds < MIN_ADJUSTED_DURATION_SECONDS {
                r == Err::<ProposalEndtimeUpdated, GovernanceError>(
                    GovernanceError::VotingDurationTooShort,
                ) && t == s
            } else if new_voting_duration_seconds > MAX_VOTING_DURATION_SECONDS {
                r == Err::<ProposalEndtimeUpdated, GovernanceError>(
                    GovernanceError::VotingDurationTooLong,
                ) && t == s
            } else if p0.start_time + new_voting_duration_seconds > s.config.dao_end_time {
                r == Err::<ProposalEndtimeUpdated, GovernanceError>(
                    GovernanceError::VotingDurationTooLong,
                ) && t == s
            } else {
                let new_end = (p0.start_time + new_voting_duration_seconds) as i64;
                &&& t.proposals@ == s.proposals@.update(pid, Proposal { end_time: new_end, ..p0 })
                &&& t.vote_records == s.vote_records
                &&& t.config == s.config
                &&& t.treasury_config == s.treasury_config
                &&& r == Ok::<ProposalEndtimeUpdated, GovernanceError>(
                    ProposalEndtimeUpdated {
                        proposal_id: p0.proposal_id,
                        old_end_time: p0.end_time,
                        new_end_time: new_end,
                        updated_by: caller,
                        timestamp: now,
                    },
                )
            }
        }),
{
    if now >= state.config.dao_end_time {
        return Err(GovernanceError::DaoExpired);
    }
    if !(caller == state.config.authority) {
        return Err(GovernanceError::UnauthorizedUpdate);
    }
    let pid = proposal_id;
    if !state.proposals[pid].is_active {
        return Err(GovernanceError::ProposalNotActive);
    }
    if state.proposals[pid].executed {
        return Err(GovernanceError::ProposalAlreadyExecuted);
    }
    if new_voting_duration_seconds < MIN_ADJUSTED_DURATION_SECONDS {
        return Err(GovernanceError::VotingDurationTooShort);
    }
    if new_voting_duration_seconds > MAX_VOTING_DURATION_SECONDS {
        return Err(GovernanceError::VotingDurationTooLong);
    }
    let new_end_time = state.proposals[pid].start_time + new_voting_duration_seconds;
    if new_end_time > state.config.dao_end_time {
        return Err(GovernanceError::VotingDurationTooLong);
    }
    let ghost s0 = *state;
    let old_end_time = state.proposals[pid].end_time;
    let proposal_id_u64 = state.proposals[pid].proposal_id;
    {
        let p = &mut state.proposals[pid];
        p.end_time = new_end_time;
    }
    proof {
        lemma_count_active_update(s0.proposals@, pid as int, state.proposals@[pid as int]);
    }
    Ok(ProposalEndtimeUpdated {
        proposal_id: proposal_id_u64,
        old_end_time,
        new_end_time,
        updated_by: caller,
        timestamp: now,
    })
}

/// Cancels an active proposal: permitted to the configuration authority and
/// to the proposal's creator, while the DAO is live. The proposal moves to
/// the cancelled terminal state — distinct from executed, with no side
/// effects whatever the tally — and its vote record is reclaimed.
pub fn cancel_proposal(
    state: &mut DaoState,
    caller: AccountId,
    now: i64,
    proposal_id: usize,
) -> (r: Result<ProposalCancelled, GovernanceError>)
    requires
        old(state).wf(),
        proposal_id < old(state).proposals@.len(),
    ensures
        final(state).wf(),
        ({
            let s = *old(state);
            let t = *final(state);
            let pid = proposal_id as int;
            let p0 = s.proposals@[pid];
            if s.config.expired(now) {
                r == Err::<ProposalCancelled, GovernanceError>(GovernanceError::DaoExpired) && t
                    == s
            } else if caller != s.config.authority && caller != p0.created_by {
                r == Err::<ProposalCancelled, GovernanceError>(GovernanceError::UnauthorizedCancel)
                    && t == s
            } else if !p0.is_active {
                r == Err::<ProposalCancelled, GovernanceError>(GovernanceError::ProposalNotActive)
                    && t == s
            } else if p0.executed {
                r == Err::<ProposalCancelled, GovernanceError>(
                    GovernanceError::ProposalAlreadyExecuted,
                ) && t == s
            } else {
                &&& t.proposals@ == s.proposals@.update(pid, Proposal { is_active: false, ..p0 })
                &&& t.vote_records@ == s.vote_records@.update(pid, None::<VoteRecord>)
                &&& t.config == (GovernanceConfig {
                    active_proposals: (s.config.active_proposals - 1) as u64,
                    ..s.config
                })
                &&& t.treasury_config == s.treasury_config
                &&& r == Ok::<ProposalCancelled, GovernanceError>(
                    ProposalCancelled {
                        proposal_id: p0.proposal_id,
                        cancelled_by: caller,
                        timestamp: now,
                    },
                )
            }
        }),
{
    if now >= state.config.dao_end_time {
        return Err(GovernanceError::DaoExpired);
    }
    let pid = proposal_id;
    if !(caller == state.config.authority || caller == state.proposals[pid].created_by) {
        return Err(GovernanceError::UnauthorizedCancel);
    }
    if !state.proposals[pid].is_active {
        return Err(GovernanceError::ProposalNotActive);
    }
    if state.proposals[pid].executed {
        return Err(GovernanceError::ProposalAlreadyExecuted);
    }
    let ghost s0 = *state;
    let proposal_id_u64 = state.proposals[pid].proposal_id;
    {
        let p = &mut state.proposals[pid];
        p.is_active = false;
    }
    proof {
        lemma_count_active_update(s0.proposals@, pid as int, state.proposals@[pid as int]);
    }
    state.config.active_proposals = match state.config.active_proposals.checked_sub(1) {
        Some(n) => n,
        None => 0,
    };
    {
        let slot = &mut state.vote_records[pid];
        *slot = None;
    }
    Ok(ProposalCancelled { proposal_id: proposal_id_u64, cancelled_by: caller, timestamp: now })
}

/// The proposal as it stands after its terminal transition at execution.
pub open spec fn executed_proposal(p: Proposal, now: i64, caller: AccountId) -> Proposal {
    Proposal {
        executed: true,
        is_active: false,
        executed_at: Some(now),
        executed_by: Some(caller),
        ..p
    }
}

/// How a successful execution changes everything but the treasury: the
/// proposal moves to the executed terminal state, its vote record is
/// reclaimed, and the count of open proposals drops by one.
pub open spec fn execute_transition(
    s: DaoState,
    t: DaoState,
    pid: int,
    now: i64,
    caller: AccountId,
) -> bool {
    &&& t.proposals@ == s.proposals@.update(pid, executed_proposal(s.proposals@[pid], now, caller))
    &&& t.vote_records@ == s.vote_records@.update(pid, None::<VoteRecord>)
    &&& t.config == (GovernanceConfig {
        active_proposals: (s.config.active_proposals - 1) as u64,
        ..s.config
    })
}

/// The event every successful execution reports.
pub open spec fn executed_event(p: Proposal, caller: AccountId, now: i64) -> ProposalExecuted {
    ProposalExecuted {
        proposal_id: p.proposal_id,
        category: p.proposal_category,
        for_votes: p.for_votes,
        against_votes: p.against_votes,
        executed_by: caller,
        executed_at: now,
    }
}

/// Executes a proposal whose voting window has fully closed. Authority-only.
/// The proposal must be active, not yet executed, and passed by a strict
/// majority of cast votes. The category decides the side effect: `YearlyCap`
/// mints two percent of the governed asset's supply to the treasury wallet
/// (initializing the treasury bookkeeping on first use), `TreasuryFundMove`
/// moves a source wallet's entire balance, and the two signalling categories
/// do nothing beyond the terminal transition. The token-ledger action itself
/// is returned for the caller to perform; the vote record is reclaimed
/// either way.
pub fn execute_proposal(
    state: &mut DaoState,
    caller: AccountId,
    now: i64,
    proposal_id: usize,
    payload: ExecutionPayload,
) -> (r: Result<ExecutionOutcome, GovernanceError>)
    requires
        old(state).wf(),
        proposal_id < old(state).proposals@.len(),
    ensures
        final(state).wf(),
        ({
            let s = *old(state);
            let t = *final(state);
            let pid = proposal_id as int;
            let p0 = s.proposals@[pid];
            if s.config.expired(now) {
                r == Err::<ExecutionOutcome, GovernanceError>(GovernanceError::DaoExpired) && t
                    == s
            } else if caller != s.config.authority {
                r == Err::<ExecutionOutcome, GovernanceError>(GovernanceError::UnauthorizedUpdate)
                    && t == s
            } else if !p0.is_active {
                r == Err::<ExecutionOutcome, GovernanceError>(GovernanceError::ProposalNotActive)
                    && t == s
            } else if now <= p0.end_time {
                r == Err::<ExecutionOutcome, GovernanceError>(GovernanceError::VotingStillActive)
                    && t == s
            } else if p0.executed {
                r == Err::<ExecutionOutcome, GovernanceError>(
                    GovernanceError::ProposalAlreadyExecuted,
                ) && t == s
            } else if !p0.passed() {
                r == Err::<ExecutionOutcome, GovernanceError>(GovernanceError::ProposalNotPassed)
                    && t == s
            } else {
                match p0.proposal_category {
                    ProposalCategory::YearlyCap => match payload {
                        ExecutionPayload::YearlyCap { mint_supply, treasury_wallet } => {
                            let amount = mint_supply * 2 / 100;
                            let prev = match s.treasury_config {
                                Some(tc) => tc.total_minted as int,
                                None => 0int,
                            };
                            if treasury_wallet.mint != s.config.apm_mint {
                                r == Err::<ExecutionOutcome, GovernanceError>(
                                    GovernanceError::InvalidTreasuryMint,
                                ) && t == s
                            } else if mint_supply * 2 > u64::MAX {
                                r == Err::<ExecutionOutcome, GovernanceError>(
                                    GovernanceError::MintCalculationOverflow,
                                ) && t == s
                            } else if amount == 0 {
                                r == Err::<ExecutionOutcome, GovernanceError>(
                                    GovernanceError::InvalidMintAmount,
                                ) && t == s
                            } else if prev + amount > u64::MAX {
                                r == Err::<ExecutionOutcome, GovernanceError>(
                                    GovernanceError::MintCalculationOverflow,
                                ) && t == s
                            } else {
                                &&& execute_transition(s, t, pid, now, caller)
                                &&& t.treasury_config == Some(
                                    TreasuryConfig {
                                        treasury_wallet: match s.treasury_config {
                                            Some(tc) => tc.treasury_wallet,
                                            None => treasury_wallet.key,
                                        },
                                        last_mint_timestamp: now,
                                        total_minted: (prev + amount) as u64,
                                        authority: match s.treasury_config {
                                            Some(tc) => tc.authority,
                                            None => caller,
                                        },
                                    },
                                )
                                &&& r == Ok::<ExecutionOutcome, GovernanceError>(
                                    ExecutionOutcome {
                                        token_action: Some(
                                            TokenAction::MintTo {
                                                mint: s.config.apm_mint,
                                                destination: treasury_wallet.key,
                                                amount: amount as u64,
                                            },
                                        ),
                                        treasury_minted: Some(
                                            TreasuryMinted {
                                                proposal_id: p0.proposal_id,
                                                mint_amount: amount as u64,
                                                treasury_wallet: treasury_wallet.key,
                                                total_minted: (prev + amount) as u64,
                                                timestamp: now,
                                            },
                                        ),
                                        treasury_funds_moved: None,
                                        proposal_executed: executed_event(p0, caller, now),
                                    },
                                )
                            }
                        },
                        _ => r == Err::<ExecutionOutcome, GovernanceError>(
                            GovernanceError::MissingTreasuryWallet,
                        ) && t == s,
                    },
                    ProposalCategory::TreasuryFundMove => match payload {
                        ExecutionPayload::TreasuryFundMove { source, destination } => {
                            if source.mint != s.config.apm_mint {
                                r == Err::<ExecutionOutcome, GovernanceError>(
                                    GovernanceError::InvalidTreasuryMint,
                                ) && t == s
                            } else if destination.mint != s.config.apm_mint {
                                r == Err::<ExecutionOutcome, GovernanceError>(
                                    GovernanceError::InvalidTreasuryMint,
                                ) && t == s
                            } else if source.owner != caller {
                                r == Err::<ExecutionOutcome, GovernanceError>(
                                    GovernanceError::InvalidTokenOwner,
                                ) && t == s
                            } else if source.amount == 0 {
                                r == Err::<ExecutionOutcome, GovernanceError>(
                                    GovernanceError::NoFundsToTransfer,
                                ) && t == s
                            } else {
                                &&& execute_transition(s, t, pid, now, caller)
                                &&& t.treasury_config == s.treasury_config
                                &&& r == Ok::<ExecutionOutcome, GovernanceError>(
                                    ExecutionOutcome {
                                        token_action: Some(
                                            TokenAction::Transfer {
                                                from: source.key,
                                                to: destination.key,
                                                amount: source.amount,
                                            },
                                        ),
                                        treasury_minted: None,
                                        treasury_funds_moved: Some(
                                            TreasuryFundsMoved {
                                                proposal_id: p0.proposal_id,
                                                from_wallet: source.key,
                                                to_wallet: destination.key,
                                                amount: source.amount,
                                                timestamp: now,
                                            },
                                        ),
                                        proposal_executed: executed_event(p0, caller, now),
                                    },
                                )
                            }
                        },
                        _ => r == Err::<ExecutionOutcome, GovernanceError>(
                            GovernanceError::MissingTreasuryWalletSwap,
                        ) && t == s,
                    },
                    _ => {
                        &&& execute_transition(s, t, pid, now, caller)
                        &&& t.treasury_config == s.treasury_config
                        &&& r == Ok::<ExecutionOutcome, GovernanceError>(
                            ExecutionOutcome {
                                token_action: None,
                                treasury_minted: None,
                                treasury_funds_moved: None,
                                proposal_executed: executed_event(p0, caller, now),
                            },
                        )
                    },
                }
            }
        }),
{
    if now >= state.config.dao_end_time {
        return Err(GovernanceError::DaoExpired);
    }
    if !(caller == state.config.authority) {
        return Err(GovernanceError::UnauthorizedUpdate);
    }
    let pid = proposal_id;
    if !state.proposals[pid].is_active {
        return Err(GovernanceError::ProposalNotActive);
    }
    if now <= state.proposals[pid].end_time {
        return Err(GovernanceError::VotingStillActive);
    }
    if state.proposals[pid].executed {
        return Err(GovernanceError::ProposalAlreadyExecuted);
    }
    if !(state.proposals[pid].for_votes > state.proposals[pid].against_votes) {
        return Err(GovernanceError::ProposalNotPassed);
    }
    let ghost s0 = *state;
    let category = state.proposals[pid].proposal_category;
    let proposal_id_u64 = state.proposals[pid].proposal_id;
    let for_votes = state.proposals[pid].for_votes;
    let against_votes = state.proposals[pid].against_votes;
    let mut token_action: Option<TokenAction> = None;
    let mut treasury_minted: Option<TreasuryMinted> = None;
    let mut treasury_funds_moved: Option<TreasuryFundsMoved> = None;
    match category {
        ProposalCategory::YearlyCap => match payload {
            ExecutionPayload::YearlyCap { mint_supply, treasury_wallet } => {
                if treasury_wallet.mint != state.config.apm_mint {
                    return Err(GovernanceError::InvalidTreasuryMint);
                }
                let doubled = match mint_supply.checked_mul(2) {
                    Some(d) => d,
                    None => {
                        return Err(GovernanceError::MintCalculationOverflow);
                    },
                };
                let mint_amount = doubled / 100;
                if mint_amount == 0 {
                    return Err(GovernanceError::InvalidMintAmount);
                }
                let (t_wallet, t_authority, prev_total) = match &state.treasury_config {
                    Some(tc) => (tc.treasury_wallet, tc.authority, tc.total_minted),
                    None => (treasury_wallet.key, caller, 0u64),
                };
                let new_total = match prev_total.checked_add(mint_amount) {
                    Some(v) => v,
                    None => {
                        return Err(GovernanceError::MintCalculationOverflow);
                    },
                };
                state.treasury_config = Some(
                    TreasuryConfig {
                        treasury_wallet: t_wallet,
                        last_mint_timestamp: now,
                        total_minted: new_total,
                        authority: t_authority,
                    },
                );
                token_action = Some(
                    TokenAction::MintTo {
                        mint: state.config.apm_mint,
                        destination: treasury_wallet.key,
                        amount: mint_amount,
                    },
                );
                treasury_minted = Some(
                    TreasuryMinted {
                        proposal_id: proposal_id_u64,
                        mint_amount,
                        treasury_wallet: treasury_wallet.key,
                        total_minted: new_total,
                        timestamp: now,
                    },
                );
            },
            _ => {
                return Err(GovernanceError::MissingTreasuryWallet);
            },
        },
        ProposalCategory::TreasuryFundMove => match payload {
            ExecutionPayload::TreasuryFundMove { source, destination } => {
                if source.mint != state.config.apm_mint {
                    return Err(GovernanceError::InvalidTreasuryMint);
                }
                if destination.mint != state.config.apm_mint {
                    return Err(GovernanceError::InvalidTreasuryMint);
                }
                if source.owner != caller {
                    return Err(GovernanceError::InvalidTokenOwner);
                }
                if source.amount == 0 {
                    return Err(GovernanceError::NoFundsToTransfer);
                }
                token_action = Some(
                    TokenAction::Transfer {
                        from: source.key,
                        to: destination.key,
                        amount: source.amount,
                    },
                );
                treasury_funds_moved = Some(
                    TreasuryFundsMoved {
                        proposal_id: proposal_id_u64,
                        from_wallet: source.key,
                        to_wallet: destination.key,
                        amount: source.amount,
                        timestamp: now,
                    },
                );
            },
            _ => {
                return Err(GovernanceError::MissingTreasuryWalletSwap);
            },
        },
        _ => {},
    }
    {
        let p = &mut state.proposals[pid];
        p.executed = true;
        p.is_active = false;
        p.executed_at = Some(now);
        p.executed_by = Some(caller);
    }
    proof {
        lemma_count_active_update(s0.proposals@, pid as int, state.proposals@[pid as int]);
    }
    state.config.active_proposals = match state.config.active_proposals.checked_sub(1) {
        Some(n) => n,
        None => 0,
    };
    {
        let slot = &mut state.vote_records[pid];
        *slot = None;
    }
    Ok(ExecutionOutcome {
        token_action,
        treasury_minted,
        treasury_funds_moved,
        proposal_executed: ProposalExecuted {
            proposal_id: proposal_id_u64,
            category,
            for_votes,
            against_votes,
            executed_by: caller,
            executed_at: now,
        },
    })
}

} // verus!
