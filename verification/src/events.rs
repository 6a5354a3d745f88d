//! Domain events: one per successful state transition, returned to the
//! caller for publication on the append-only notification channel that
//! off-chain indexers consume.

use vstd::prelude::*;

use crate::state::{AccountId, ProposalCategory};

verus! {

/// The governance configuration was created.
#[derive(Clone, Copy, PartialEq, Eq, Structural, Debug)]
pub struct GovernanceConfigInitialized {
    /// The initializing identity, now the configuration authority.
    pub authority: AccountId,
    /// The governed fungible asset.
    pub apm_mint: AccountId,
    /// When the DAO expires.
    pub dao_end_time: i64,
    /// When the configuration was created.
    pub timestamp: i64,
}

/// The configuration parameters were changed.
#[derive(Clone, Copy, PartialEq, Eq, Structural, Debug)]
pub struct ConfigUpdated {
    /// The authority that made the change.
    pub updated_by: AccountId,
    /// The DAO expiry after the change.
    pub dao_end_time: i64,
    /// When the change was made.
    pub timestamp: i64,
}

/// A proposal was created.
#[derive(PartialEq, Eq, Debug)]
pub struct ProposalCreated {
    /// The new proposal's id.
    pub proposal_id: u64,
    /// Its category.
    pub category: ProposalCategory,
    /// Its title.
    pub title: String,
    /// The whitelisted identity that created it.
    pub created_by: AccountId,
    /// When voting opened.
    pub start_time: i64,
    /// When voting closes.
    pub end_time: i64,
    /// Its voter cap.
    pub max_voters: u64,
    /// When the proposal was created.
    pub timestamp: i64,
}

/// A ballot was cast.
#[derive(Clone, Copy, PartialEq, Eq, Structural, Debug)]
pub struct VoteCast {
    /// The proposal voted on.
    pub proposal_id: u64,
    /// Who voted.
    pub voter: AccountId,
    /// The choice.
    pub vote_type: bool,
    /// Tally of `true` ballots after this one.
    pub for_votes: u64,
    /// Tally of `false` ballots after this one.
    pub against_votes: u64,
    /// Ballots cast after this one.
    pub current_voters: u64,
    /// When the ballot was cast.
    pub timestamp: i64,
}

/// A proposal was executed.
#[derive(Clone, Copy, PartialEq, Eq, Structural, Debug)]
pub struct ProposalExecuted {
    /// The executed proposal.
    pub proposal_id: u64,
    /// Its category.
    pub category: ProposalCategory,
    /// Final tally of `true` ballots.
    pub for_votes: u64,
    /// Final tally of `false` ballots.
    pub against_votes: u64,
    /// The authority that executed it.
    pub executed_by: AccountId,
    /// When it was executed.
    pub executed_at: i64,
}

/// A proposal was cancelled.
#[derive(Clone, Copy, PartialEq, Eq, Structural, Debug)]
pub struct ProposalCancelled {
    /// The cancelled proposal.
    pub proposal_id: u64,
    /// The authority or creator that cancelled it.
    pub cancelled_by: AccountId,
    /// When it was cancelled.
    pub timestamp: i64,
}

/// An identity was added to the creator whitelist.
#[derive(Clone, Copy, PartialEq, Eq, Structural, Debug)]
pub struct ProposalCreatorAdded {
    /// The identity added.
    pub added_creator: AccountId,
    /// The authority that added it.
    pub added_by: AccountId,
    /// When it was added.
    pub timestamp: i64,
}

/// An identity was removed from the creator whitelist.
#[derive(Clone, Copy, PartialEq, Eq, Structural, Debug)]
pub struct ProposalCreatorRemoved {
    /// The identity removed.
    pub removed_creator: AccountId,
    /// The authority that removed it.
    pub removed_by: AccountId,
    /// When it was removed.
    pub timestamp: i64,
}

/// A `YearlyCap` execution minted to the treasury.
#[derive(Clone, Copy, PartialEq, Eq, Structural, Debug)]
pub struct TreasuryMinted {
    /// The proposal whose execution minted.
    pub proposal_id: u64,
    /// How much was minted.
    pub mint_amount: u64,
    /// The wallet minted to.
    pub treasury_wallet: AccountId,
    /// Cumulative amount minted after this execution.
    pub total_minted: u64,
    /// When the mint happened.
    pub timestamp: i64,
}

/// The authority adjusted an open proposal's voting window.
#[derive(Clone, Copy, PartialEq, Eq, Structural, Debug)]
pub struct ProposalEndtimeUpdated {
    /// The adjusted proposal.
    pub proposal_id: u64,
    /// When voting would have closed before the change.
    pub old_end_time: i64,
    /// When voting closes now.
    pub new_end_time: i64,
    /// The authority that made the change.
    pub updated_by: AccountId,
    /// When the change was made.
    pub timestamp: i64,
}

/// A `TreasuryFundMove` execution moved a wallet's entire balance.
#[derive(Clone, Copy, PartialEq, Eq, Structural, Debug)]
pub struct TreasuryFundsMoved {
    /// The proposal whose execution moved the funds.
    pub proposal_id: u64,
    /// The wallet emptied.
    pub from_wallet: AccountId,
    /// The wallet the funds went to.
    pub to_wallet: AccountId,
    /// How much was moved.
    pub amount: u64,
    /// When the move happened.
    pub timestamp: i64,
}

} // verus!
