//! The data model of the governance engine: the process-wide configuration,
//! proposals with their paired vote records, the lazily-created treasury
//! bookkeeping, and the well-formedness invariants that every operation
//! preserves.

use vstd::prelude::*;

use crate::counting::{count_active, count_false, count_true, distinct_accounts};

verus! {

/// Longest accepted proposal title, in characters.
pub const MAX_TITLE_LENGTH: usize = 50;

/// Longest accepted proposal description, in characters.
pub const MAX_DESCRIPTION_LENGTH: usize = 500;

/// Hard ceiling on `max_voters_per_proposal` and on any single proposal's
/// voter cap.
pub const MAX_VOTERS_HARD_CAP: u64 = 1000;

/// Hard ceiling on `max_proposals_per_config`, matching the creator slots
/// reserved in storage.
pub const MAX_PROPOSALS_HARD_CAP: u64 = 25;

/// Shortest accepted DAO lifetime: one day, in seconds.
pub const MIN_DAO_DURATION_SECONDS: i64 = 86400;

/// Longest accepted DAO lifetime: one year, in seconds.
pub const MAX_DAO_DURATION_SECONDS: i64 = 31_536_000;

/// Shortest accepted voting window at proposal creation: one hour.
pub const MIN_VOTING_DURATION_SECONDS: i64 = 3600;

/// Longest accepted voting window: thirty days.
pub const MAX_VOTING_DURATION_SECONDS: i64 = 2_592_000;

/// Shortest voting window the authority may adjust an open proposal to.
pub const MIN_ADJUSTED_DURATION_SECONDS: i64 = 1;

/// An externally verified identity: the platform proves that a caller
/// controls it before an operation runs, so the engine only ever compares
/// identities for equality.
#[derive(Clone, Copy, PartialEq, Eq, Structural, Debug)]
pub struct AccountId(pub u64);

/// What a fungible-token account looks like to the engine: its address, the
/// asset it holds, who may move its funds, and its balance. The token ledger
/// itself is a collaborator; the engine only reads these fields.
#[derive(Clone, Copy, PartialEq, Eq, Structural, Debug)]
pub struct TokenAccountInfo {
    /// Address of the token account.
    pub key: AccountId,
    /// The asset the account holds.
    pub mint: AccountId,
    /// The identity allowed to move the account's funds.
    pub owner: AccountId,
    /// Current balance.
    pub amount: u64,
}

/// The kind of a proposal, determining which privileged action (if any)
/// executing it triggers.
#[derive(Clone, Copy, PartialEq, Eq, Structural, Debug)]
pub enum ProposalCategory {
    /// Signalling only: execution performs the terminal transition and
    /// nothing else.
    EmergencyCircuitBreaker,
    /// Moves the entire balance of a treasury wallet to another wallet.
    TreasuryFundMove,
    /// Mints two percent of the governed asset's supply to the treasury.
    YearlyCap,
    /// Signalling only, like `EmergencyCircuitBreaker`.
    TransferFee,
}

impl Default for ProposalCategory {
    fn default() -> (r: Self)
        ensures
            r == ProposalCategory::EmergencyCircuitBreaker,
    {
        ProposalCategory::EmergencyCircuitBreaker
    }
}

/// Process-wide DAO parameters and the creator whitelist. One instance
/// exists per DAO; every operation reads it and several mutate it.
#[derive(Debug)]
pub struct GovernanceConfig {
    /// Identifier of the governed fungible asset.
    pub apm_mint: AccountId,
    /// Monotonically increasing counter; the source of new proposal ids.
    pub proposal_count: u64,
    /// How many proposals are currently open (neither executed nor
    /// cancelled).
    pub active_proposals: u64,
    /// The identity permitted to change configuration, manage the whitelist,
    /// and execute proposals.
    pub authority: AccountId,
    /// Absolute expiry after which no governance operation is permitted.
    pub dao_end_time: i64,
    /// Cap on simultaneously open proposals.
    pub max_proposals_per_config: u64,
    /// Cap a new proposal's voter limit must stay within.
    pub max_voters_per_proposal: u64,
    /// Identities permitted to create proposals and cast votes; never empty.
    pub proposal_creator_whitelist: Vec<AccountId>,
}

impl GovernanceConfig {
    /// The configuration invariants: the whitelist holds at least one member
    /// and no member twice, and the per-proposal caps respect the hard
    /// ceilings they were validated against.
    pub open spec fn wf(self) -> bool {
        &&& self.proposal_creator_whitelist@.len() >= 1
        &&& distinct_accounts(self.proposal_creator_whitelist@)
        &&& self.max_voters_per_proposal <= MAX_VOTERS_HARD_CAP
        &&& self.max_proposals_per_config <= MAX_PROPOSALS_HARD_CAP
    }

    /// Whether the DAO has expired at time `now`: expiry is inclusive, so no
    /// operation is permitted once `now` reaches `dao_end_time`.
    pub open spec fn expired(self, now: i64) -> bool {
        now >= self.dao_end_time
    }

    /// Whether `id` may create proposals and vote.
    pub open spec fn whitelisted(self, id: AccountId) -> bool {
        self.proposal_creator_whitelist@.contains(id)
    }
}

/// One decision request. Created by `create_proposal`, mutated by voting,
/// window adjustment, and the terminal transition; never deleted, so it
/// remains as an audit trail after execution or cancellation.
#[derive(Debug)]
pub struct Proposal {
    /// Assigned from `proposal_count` at creation; never reused.
    pub proposal_id: u64,
    /// Short human-readable title.
    pub title: String,
    /// Longer human-readable description.
    pub description: String,
    /// When voting opened.
    pub start_time: i64,
    /// When voting closes (inclusive: a vote at `end_time` still counts).
    pub end_time: i64,
    /// Mirror of the vote record's `total_for_votes`.
    pub for_votes: u64,
    /// Mirror of the vote record's `total_against_votes`.
    pub against_votes: u64,
    /// Terminal flag set exactly once, on successful execution.
    pub executed: bool,
    /// Open for voting and cancellation. `executed` and `is_active` together
    /// encode the state: active, executed, or cancelled.
    pub is_active: bool,
    /// The whitelisted identity that created the proposal.
    pub created_by: AccountId,
    /// Who executed the proposal, set exactly once on execution.
    pub executed_by: Option<AccountId>,
    /// When the proposal was executed, set exactly once on execution.
    pub executed_at: Option<i64>,
    /// The kind of privileged action executing the proposal triggers.
    pub proposal_category: ProposalCategory,
    /// Cap on how many identities may vote on this proposal.
    pub max_voters: u64,
    /// Mirror of the vote record's `total_voters`.
    pub current_voters: u64,
}

impl Proposal {
    /// The per-proposal invariants: the terminal states are mutually
    /// exclusive, the execution stamp exists exactly when the proposal was
    /// executed, the tally mirrors balance, and the creation-time bounds on
    /// text length and voter cap hold.
    pub open spec fn wf(self) -> bool {
        &&& !(self.executed && self.is_active)
        &&& self.executed <==> self.executed_at is Some
        &&& self.executed <==> self.executed_by is Some
        &&& self.for_votes + self.against_votes == self.current_voters
        &&& self.current_voters <= self.max_voters
        &&& self.max_voters <= MAX_VOTERS_HARD_CAP
        &&& self.start_time <= self.end_time
        &&& self.title@.len() <= MAX_TITLE_LENGTH
        &&& self.description@.len() <= MAX_DESCRIPTION_LENGTH
    }

    /// Whether `now` falls inside the voting window. Both ends are
    /// inclusive: voting opens at `start_time` and a ballot cast exactly at
    /// `end_time` is still accepted.
    pub open spec fn in_voting_window(self, now: i64) -> bool {
        self.start_time <= now <= self.end_time
    }

    /// Strict majority of cast votes; a tie does not pass.
    pub open spec fn passed(self) -> bool {
        self.for_votes > self.against_votes
    }
}

/// The ballot box paired one-to-one with a proposal while it is active;
/// destroyed (its storage reclaimed) when the proposal reaches a terminal
/// state.
#[derive(Debug)]
pub struct VoteRecord {
    /// Back-reference to the paired proposal.
    pub proposal_id: u64,
    /// Tally of `true` ballots.
    pub total_for_votes: u64,
    /// Tally of `false` ballots.
    pub total_against_votes: u64,
    /// How many ballots were cast.
    pub total_voters: u64,
    /// The identities that have voted, in vote order; no identity twice.
    pub voters: Vec<AccountId>,
    /// The choices, parallel to `voters`.
    pub vote_types: Vec<bool>,
}

impl VoteRecord {
    /// The ballot-box invariants: the two columns are parallel, the stored
    /// tallies are exactly the counts of `true` and `false` ballots, and no
    /// identity appears twice.
    pub open spec fn wf(self) -> bool {
        &&& self.voters@.len() == self.vote_types@.len()
        &&& self.total_voters == self.voters@.len()
        &&& self.total_for_votes == count_true(self.vote_types@)
        &&& self.total_against_votes == count_false(self.vote_types@)
        &&& distinct_accounts(self.voters@)
    }
}

/// Bookkeeping for category-gated minting, created lazily on the first
/// `YearlyCap` execution and mutated only by later ones.
#[derive(Clone, Copy, PartialEq, Eq, Structural, Debug)]
pub struct TreasuryConfig {
    /// The wallet minted funds are sent to, fixed at first use.
    pub treasury_wallet: AccountId,
    /// When the last `YearlyCap` execution minted.
    pub last_mint_timestamp: i64,
    /// Cumulative amount minted across all `YearlyCap` executions.
    pub total_minted: u64,
    /// The identity that performed the first `YearlyCap` execution.
    pub authority: AccountId,
}

/// Everything the governance engine owns in the ledger store: the singleton
/// configuration, every proposal ever created (proposal `i` sits at index
/// `i`), the paired vote records (present exactly while the proposal is
/// active), and the treasury bookkeeping once it exists.
#[derive(Debug)]
pub struct DaoState {
    /// The singleton configuration record.
    pub config: GovernanceConfig,
    /// All proposals ever created, indexed by proposal id.
    pub proposals: Vec<Proposal>,
    /// The paired vote records; `None` once reclaimed at a terminal
    /// transition.
    pub vote_records: Vec<Option<VoteRecord>>,
    /// Treasury bookkeeping; `None` until the first `YearlyCap` execution.
    pub treasury_config: Option<TreasuryConfig>,
}

/// How an active proposal and its paired vote record agree: the record
/// points back at the proposal and the proposal's tally fields mirror the
/// record's.
pub open spec fn record_matches(p: Proposal, vr: VoteRecord, i: int) -> bool {
    &&& vr.wf()
    &&& vr.proposal_id == i
    &&& p.for_votes == vr.total_for_votes
    &&& p.against_votes == vr.total_against_votes
    &&& p.current_voters == vr.total_voters
}

impl DaoState {
    /// The whole-state invariant every operation preserves: the
    /// configuration is well formed, proposal ids are exactly the indices
    /// and never reused, a vote record exists precisely for the active
    /// proposals and mirrors its proposal, and `active_proposals` counts the
    /// active proposals exactly.
    pub open spec fn wf(self) -> bool {
        &&& self.config.wf()
        &&& self.proposals@.len() == self.config.proposal_count
        &&& self.vote_records@.len() == self.proposals@.len()
        &&& forall|i: int|
            #![trigger self.proposals@[i]]
            0 <= i < self.proposals@.len() ==> {
                &&& self.proposals@[i].wf()
                &&& self.proposals@[i].proposal_id == i
            }
        &&& forall|i: int|
            #![trigger self.vote_records@[i]]
            0 <= i < self.proposals@.len() ==> {
                &&& (self.vote_records@[i] is Some <==> self.proposals@[i].is_active)
                &&& (self.vote_records@[i] is Some ==> record_matches(
                    self.proposals@[i],
                    self.vote_records@[i].unwrap(),
                    i,
                ))
            }
        &&& self.config.active_proposals == count_active(self.proposals@)
    }
}

} // verus!
