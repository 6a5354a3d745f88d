//! What execution needs from the outside and what it hands back: the
//! per-category accounts a caller supplies, the token-ledger action the
//! caller must perform, and the bundle of results a successful execution
//! returns.

use vstd::prelude::*;

use crate::events::{ProposalExecuted, TreasuryFundsMoved, TreasuryMinted};
use crate::state::TokenAccountInfo;

verus! {

/// The per-category accounts that `execute_proposal` reads, selected by the
/// proposal's category so that, say, a fund move never carries treasury-mint
/// fields.
#[derive(Clone, Copy, PartialEq, Eq, Structural, Debug)]
pub enum ExecutionPayload {
    /// `EmergencyCircuitBreaker` proposals need no accounts.
    EmergencyCircuitBreaker,
    /// What a `TreasuryFundMove` execution reads.
    TreasuryFundMove {
        /// The wallet whose entire balance is moved.
        source: TokenAccountInfo,
        /// The wallet the funds go to.
        destination: TokenAccountInfo,
    },
    /// What a `YearlyCap` execution reads.
    YearlyCap {
        /// Total supply of the governed asset, as the token ledger reports
        /// it.
        mint_supply: u64,
        /// The wallet the minted funds are sent to.
        treasury_wallet: TokenAccountInfo,
    },
    /// `TransferFee` proposals need no accounts.
    TransferFee,
}

/// A token-ledger operation the caller must perform against the collaborator
/// ledger; the engine only decides it.
#[derive(Clone, Copy, PartialEq, Eq, Structural, Debug)]
pub enum TokenAction {
    /// Mint `amount` of `mint` to `destination`.
    MintTo {
        /// The asset to mint.
        mint: crate::state::AccountId,
        /// The wallet to mint to.
        destination: crate::state::AccountId,
        /// How much to mint.
        amount: u64,
    },
    /// Move `amount` from `from` to `to`.
    Transfer {
        /// The wallet debited.
        from: crate::state::AccountId,
        /// The wallet credited.
        to: crate::state::AccountId,
        /// How much to move.
        amount: u64,
    },
}

/// Everything a successful execution hands back: the token action to
/// perform (if the category has one), the category-specific event, and the
/// terminal-transition event.
#[derive(Clone, Copy, PartialEq, Eq, Debug)]
pub struct ExecutionOutcome {
    /// The token-ledger operation the caller must perform, if any.
    pub token_action: Option<TokenAction>,
    /// Emitted by `YearlyCap` executions.
    pub treasury_minted: Option<TreasuryMinted>,
    /// Emitted by `TreasuryFundMove` executions.
    pub treasury_funds_moved: Option<TreasuryFundsMoved>,
    /// Emitted by every successful execution.
    pub proposal_executed: ProposalExecuted,
}

} // verus!
