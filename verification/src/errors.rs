//! The error taxonomy: every precondition failure of a governance operation
//! maps to one named kind, surfaced to the caller verbatim.

use vstd::prelude::*;

verus! {

/// Why a governance operation was rejected. A failing operation returns one
/// of these and leaves the state untouched.
#[derive(Clone, Copy, PartialEq, Eq, Structural, Debug)]
pub enum GovernanceError {
    /// DAO duration must be at least 1 day.
    DaoDurationTooShort,
    /// DAO duration cannot exceed 1 year.
    DaoDurationTooLong,
    /// Maximum voters per proposal cannot exceed the hard ceiling.
    MaxVotersExceeded,
    /// Maximum active proposals cannot exceed the hard ceiling.
    MaxActiveProposalsExceeded,
    /// The DAO has expired.
    DaoExpired,
    /// Unauthorized to update configuration.
    UnauthorizedUpdate,
    /// Creator is already whitelisted.
    CreatorAlreadyWhitelisted,
    /// Creator is not whitelisted.
    CreatorNotWhitelisted,
    /// Cannot remove the last creator from the whitelist.
    CannotRemoveLastCreator,
    /// Voting duration must be at least 1 hour.
    VotingDurationTooShort,
    /// Voting duration cannot exceed 30 days.
    VotingDurationTooLong,
    /// Title is too long.
    TitleTooLong,
    /// Description is too long.
    DescriptionTooLong,
    /// Too many voters specified for this proposal.
    TooManyVoters,
    /// Too many active proposals.
    TooManyActiveProposals,
    /// Invalid proposal category.
    InvalidProposalCategory,
    /// Proposal is not active.
    ProposalNotActive,
    /// Invalid voting time window.
    InvalidVotingTime,
    /// Voter is not whitelisted.
    VoterNotWhitelisted,
    /// Already voted on this proposal.
    AlreadyVoted,
    /// Maximum voters reached for this proposal.
    MaxVotersReached,
    /// Voting calculation overflow.
    VotingOverflow,
    /// Insufficient tokens to vote.
    InsufficientTokens,
    /// Voting is still active.
    VotingStillActive,
    /// Proposal has already been executed.
    ProposalAlreadyExecuted,
    /// Proposal did not pass.
    ProposalNotPassed,
    /// Account close operation overflow.
    AccountCloseOverflow,
    /// Unauthorized to cancel proposal.
    UnauthorizedCancel,
    /// Invalid vote record.
    InvalidVoteRecord,
    /// Invalid token account.
    InvalidTokenAccount,
    /// Invalid token owner.
    InvalidTokenOwner,
    /// Yearly cap period not reached yet.
    YearlyCapNotReached,
    /// Mint calculation overflow.
    MintCalculationOverflow,
    /// The treasury wallet must hold the governed asset.
    InvalidTreasuryMint,
    /// Invalid mint amount.
    InvalidMintAmount,
    /// The governance config must be the mint authority.
    InvalidMintAuthority,
    /// A treasury config account is required for `YearlyCap` proposals.
    MissingTreasuryConfig,
    /// A treasury wallet account is required for `YearlyCap` proposals.
    MissingTreasuryWallet,
    /// A source treasury wallet is required for `TreasuryFundMove` proposals.
    MissingTreasuryWalletSwap,
    /// A destination treasury wallet is required for `TreasuryFundMove`
    /// proposals.
    MissingAllocatedTreasuryWallet,
    /// No funds available to transfer.
    NoFundsToTransfer,
}

} // verus!
