use dao_governance::effects::{ExecutionPayload, TokenAction};
use dao_governance::errors::GovernanceError;
use dao_governance::governance::{
    add_proposal_creator, cancel_proposal, cast_vote, create_proposal, execute_proposal,
    initialize,
};
use dao_governance::state::{
    AccountId, DaoState, ProposalCategory, TokenAccountInfo, TreasuryConfig,
};

const MINT: AccountId = AccountId(9);

/// A DAO with identities 1 (authority), 2 and 3 whitelisted and one open
/// proposal of the given category, created at time 1000 with a one-hour
/// window, plus the ballots in `votes` cast by identities 1, 2, 3 in order.
fn setup_voted(category: ProposalCategory, votes: &[bool]) -> DaoState {
    let (mut state, _event) = initialize(AccountId(1), MINT, 1_000, 86_400, 5, 10).unwrap();
    add_proposal_creator(&mut state, AccountId(1), 1_000, AccountId(2)).unwrap();
    add_proposal_creator(&mut state, AccountId(1), 1_000, AccountId(3)).unwrap();
    create_proposal(
        &mut state,
        AccountId(1),
        1_000,
        String::new(),
        String::new(),
        3_600,
        category,
        10,
    )
    .unwrap();
    for (i, &vote) in votes.iter().enumerate() {
        cast_vote(&mut state, AccountId(1 + i as u64), 1_100, 0, vote).unwrap();
    }
    state
}

fn treasury_wallet() -> TokenAccountInfo {
    TokenAccountInfo { key: AccountId(40), mint: MINT, owner: AccountId(1), amount: 0 }
}

#[test]
fn passed_proposal_executes_once_window_closes() {
    // initialize(86400, 5, 10); TransferFee proposal, 3600 s window; votes
    // {true, true, false}; executed after the window: 2 > 1 passes.
    let mut state = setup_voted(ProposalCategory::TransferFee, &[true, true, false]);
    assert_eq!(state.config.active_proposals, 1);
    let outcome =
        execute_proposal(&mut state, AccountId(1), 4_601, 0, ExecutionPayload::TransferFee)
            .unwrap();
    assert!(state.proposals[0].executed);
    assert!(!state.proposals[0].is_active);
    assert_eq!(state.proposals[0].executed_at, Some(4_601));
    assert_eq!(state.proposals[0].executed_by, Some(AccountId(1)));
    assert_eq!(state.config.active_proposals, 0);
    assert!(state.vote_records[0].is_none());
    assert_eq!(outcome.token_action, None);
    assert_eq!(outcome.treasury_minted, None);
    assert_eq!(outcome.treasury_funds_moved, None);
    assert_eq!(outcome.proposal_executed.proposal_id, 0);
    assert_eq!(outcome.proposal_executed.category, ProposalCategory::TransferFee);
    assert_eq!(outcome.proposal_executed.for_votes, 2);
    assert_eq!(outcome.proposal_executed.against_votes, 1);
    assert_eq!(outcome.proposal_executed.executed_by, AccountId(1));
    assert_eq!(outcome.proposal_executed.executed_at, 4_601);
}

#[test]
fn failed_proposal_stays_active() {
    // Same setup, votes {true, false, false}: 1 for, 2 against.
    let mut state = setup_voted(ProposalCategory::TransferFee, &[true, false, false]);
    let r = execute_proposal(&mut state, AccountId(1), 4_601, 0, ExecutionPayload::TransferFee);
    assert_eq!(r.unwrap_err(), GovernanceError::ProposalNotPassed);
    assert!(state.proposals[0].is_active);
    assert!(!state.proposals[0].executed);
    assert_eq!(state.config.active_proposals, 1);
    assert!(state.vote_records[0].is_some());
}

#[test]
fn tie_does_not_pass() {
    let mut state = setup_voted(ProposalCategory::TransferFee, &[true, false]);
    let r = execute_proposal(&mut state, AccountId(1), 4_601, 0, ExecutionPayload::TransferFee);
    assert_eq!(r.unwrap_err(), GovernanceError::ProposalNotPassed);
}

#[test]
fn execution_waits_for_the_window_to_close() {
    let mut state = setup_voted(ProposalCategory::TransferFee, &[true, true]);
    let r = execute_proposal(&mut state, AccountId(1), 4_600, 0, ExecutionPayload::TransferFee);
    assert_eq!(r.unwrap_err(), GovernanceError::VotingStillActive);
    let r = execute_proposal(&mut state, AccountId(1), 2_000, 0, ExecutionPayload::TransferFee);
    assert_eq!(r.unwrap_err(), GovernanceError::VotingStillActive);
    assert!(state.proposals[0].is_active);
}

#[test]
fn second_execution_fails_cleanly() {
    let mut state = setup_voted(ProposalCategory::TransferFee, &[true, true]);
    execute_proposal(&mut state, AccountId(1), 4_601, 0, ExecutionPayload::TransferFee).unwrap();
    let r = execute_proposal(&mut state, AccountId(1), 4_700, 0, ExecutionPayload::TransferFee);
    // The executed proposal is no longer active, so the second attempt is
    // rejected before any side effect re-applies.
    assert_eq!(r.unwrap_err(), GovernanceError::ProposalNotActive);
    assert_eq!(state.config.active_proposals, 0);
}

#[test]
fn execution_requires_authority() {
    let mut state = setup_voted(ProposalCategory::TransferFee, &[true, true]);
    let r = execute_proposal(&mut state, AccountId(2), 4_601, 0, ExecutionPayload::TransferFee);
    assert_eq!(r.unwrap_err(), GovernanceError::UnauthorizedUpdate);
}

#[test]
fn execution_rejects_cancelled_proposal() {
    let mut state = setup_voted(ProposalCategory::TransferFee, &[true, true]);
    cancel_proposal(&mut state, AccountId(1), 2_000, 0).unwrap();
    let r = execute_proposal(&mut state, AccountId(1), 4_601, 0, ExecutionPayload::TransferFee);
    assert_eq!(r.unwrap_err(), GovernanceError::ProposalNotActive);
}

#[test]
fn execution_rejects_after_dao_expiry() {
    let mut state = setup_voted(ProposalCategory::TransferFee, &[true, true]);
    let r = execute_proposal(&mut state, AccountId(1), 87_400, 0, ExecutionPayload::TransferFee);
    assert_eq!(r.unwrap_err(), GovernanceError::DaoExpired);
}

#[test]
fn yearly_cap_mints_two_percent_of_supply() {
    // Supply 1,000,000: the 2% floor is 20,000.
    let mut state = setup_voted(ProposalCategory::YearlyCap, &[true, true]);
    let payload =
        ExecutionPayload::YearlyCap { mint_supply: 1_000_000, treasury_wallet: treasury_wallet() };
    let outcome = execute_proposal(&mut state, AccountId(1), 4_601, 0, payload).unwrap();
    assert_eq!(
        outcome.token_action,
        Some(TokenAction::MintTo { mint: MINT, destination: AccountId(40), amount: 20_000 })
    );
    let minted = outcome.treasury_minted.unwrap();
    assert_eq!(minted.proposal_id, 0);
    assert_eq!(minted.mint_amount, 20_000);
    assert_eq!(minted.treasury_wallet, AccountId(40));
    assert_eq!(minted.total_minted, 20_000);
    assert_eq!(minted.timestamp, 4_601);
    let treasury = state.treasury_config.unwrap();
    assert_eq!(treasury.treasury_wallet, AccountId(40));
    assert_eq!(treasury.authority, AccountId(1));
    assert_eq!(treasury.last_mint_timestamp, 4_601);
    assert_eq!(treasury.total_minted, 20_000);
}

#[test]
fn yearly_cap_has_no_cadence_gate() {
    // A second passed YearlyCap proposal with the same supply mints the same
    // 20,000 again immediately; the cumulative total accrues.
    let mut state = setup_voted(ProposalCategory::YearlyCap, &[true, true]);
    let payload =
        ExecutionPayload::YearlyCap { mint_supply: 1_000_000, treasury_wallet: treasury_wallet() };
    execute_proposal(&mut state, AccountId(1), 4_601, 0, payload).unwrap();
    create_proposal(
        &mut state,
        AccountId(1),
        5_000,
        String::new(),
        String::new(),
        3_600,
        ProposalCategory::YearlyCap,
        10,
    )
    .unwrap();
    cast_vote(&mut state, AccountId(1), 5_100, 1, true).unwrap();
    let outcome = execute_proposal(&mut state, AccountId(1), 8_601, 1, payload).unwrap();
    assert_eq!(outcome.treasury_minted.unwrap().mint_amount, 20_000);
    assert_eq!(outcome.treasury_minted.unwrap().total_minted, 40_000);
    assert_eq!(state.treasury_config.unwrap().total_minted, 40_000);
    assert_eq!(state.treasury_config.unwrap().last_mint_timestamp, 8_601);
}

#[test]
fn yearly_cap_keeps_the_first_treasury_wallet() {
    let mut state = setup_voted(ProposalCategory::YearlyCap, &[true, true]);
    state.treasury_config = Some(TreasuryConfig {
        treasury_wallet: AccountId(77),
        last_mint_timestamp: 500,
        total_minted: 5,
        authority: AccountId(88),
    });
    let payload =
        ExecutionPayload::YearlyCap { mint_supply: 1_000_000, treasury_wallet: treasury_wallet() };
    execute_proposal(&mut state, AccountId(1), 4_601, 0, payload).unwrap();
    let treasury = state.treasury_config.unwrap();
    // Bookkeeping fields set at first use stay; the mint still goes to the
    // wallet passed for this execution.
    assert_eq!(treasury.treasury_wallet, AccountId(77));
    assert_eq!(treasury.authority, AccountId(88));
    assert_eq!(treasury.total_minted, 20_005);
}

#[test]
fn yearly_cap_rejects_zero_mint_amount() {
    // 49 * 2 / 100 == 0.
    let mut state = setup_voted(ProposalCategory::YearlyCap, &[true, true]);
    let payload =
        ExecutionPayload::YearlyCap { mint_supply: 49, treasury_wallet: treasury_wallet() };
    let r = execute_proposal(&mut state, AccountId(1), 4_601, 0, payload);
    assert_eq!(r.unwrap_err(), GovernanceError::InvalidMintAmount);
    assert!(state.proposals[0].is_active);
    assert!(state.treasury_config.is_none());
}

#[test]
fn yearly_cap_rejects_supply_overflow() {
    let mut state = setup_voted(ProposalCategory::YearlyCap, &[true, true]);
    let payload = ExecutionPayload::YearlyCap {
        mint_supply: u64::MAX / 2 + 1,
        treasury_wallet: treasury_wallet(),
    };
    let r = execute_proposal(&mut state, AccountId(1), 4_601, 0, payload);
    assert_eq!(r.unwrap_err(), GovernanceError::MintCalculationOverflow);
}

#[test]
fn yearly_cap_rejects_cumulative_overflow() {
    let mut state = setup_voted(ProposalCategory::YearlyCap, &[true, true]);
    state.treasury_config = Some(TreasuryConfig {
        treasury_wallet: AccountId(40),
        last_mint_timestamp: 500,
        total_minted: u64::MAX,
        authority: AccountId(1),
    });
    let payload =
        ExecutionPayload::YearlyCap { mint_supply: 1_000_000, treasury_wallet: treasury_wallet() };
    let r = execute_proposal(&mut state, AccountId(1), 4_601, 0, payload);
    assert_eq!(r.unwrap_err(), GovernanceError::MintCalculationOverflow);
    assert!(state.proposals[0].is_active);
    assert_eq!(state.treasury_config.unwrap().total_minted, u64::MAX);
}

#[test]
fn yearly_cap_rejects_foreign_treasury_wallet() {
    let mut state = setup_voted(ProposalCategory::YearlyCap, &[true, true]);
    let wallet = TokenAccountInfo { key: AccountId(40), mint: AccountId(66), owner: AccountId(1), amount: 0 };
    let payload = ExecutionPayload::YearlyCap { mint_supply: 1_000_000, treasury_wallet: wallet };
    let r = execute_proposal(&mut state, AccountId(1), 4_601, 0, payload);
    assert_eq!(r.unwrap_err(), GovernanceError::InvalidTreasuryMint);
}

#[test]
fn yearly_cap_requires_its_payload() {
    let mut state = setup_voted(ProposalCategory::YearlyCap, &[true, true]);
    let r = execute_proposal(&mut state, AccountId(1), 4_601, 0, ExecutionPayload::TransferFee);
    assert_eq!(r.unwrap_err(), GovernanceError::MissingTreasuryWallet);
    assert!(state.proposals[0].is_active);
}

#[test]
fn fund_move_transfers_the_entire_balance() {
    let mut state = setup_voted(ProposalCategory::TreasuryFundMove, &[true, true]);
    let source =
        TokenAccountInfo { key: AccountId(50), mint: MINT, owner: AccountId(1), amount: 12_345 };
    let destination =
        TokenAccountInfo { key: AccountId(51), mint: MINT, owner: AccountId(2), amount: 7 };
    let payload = ExecutionPayload::TreasuryFundMove { source, destination };
    let outcome = execute_proposal(&mut state, AccountId(1), 4_601, 0, payload).unwrap();
    assert_eq!(
        outcome.token_action,
        Some(TokenAction::Transfer { from: AccountId(50), to: AccountId(51), amount: 12_345 })
    );
    let moved = outcome.treasury_funds_moved.unwrap();
    assert_eq!(moved.proposal_id, 0);
    assert_eq!(moved.from_wallet, AccountId(50));
    assert_eq!(moved.to_wallet, AccountId(51));
    assert_eq!(moved.amount, 12_345);
    assert_eq!(moved.timestamp, 4_601);
    assert_eq!(outcome.treasury_minted, None);
    assert!(state.treasury_config.is_none());
    assert!(state.proposals[0].executed);
}

#[test]
fn fund_move_rejects_empty_source() {
    let mut state = setup_voted(ProposalCategory::TreasuryFundMove, &[true, true]);
    let source = TokenAccountInfo { key: AccountId(50), mint: MINT, owner: AccountId(1), amount: 0 };
    let destination = TokenAccountInfo { key: AccountId(51), mint: MINT, owner: AccountId(2), amount: 0 };
    let r = execute_proposal(
        &mut state,
        AccountId(1),
        4_601,
        0,
        ExecutionPayload::TreasuryFundMove { source, destination },
    );
    assert_eq!(r.unwrap_err(), GovernanceError::NoFundsToTransfer);
    assert!(state.proposals[0].is_active);
}

#[test]
fn fund_move_rejects_foreign_wallets() {
    let mut state = setup_voted(ProposalCategory::TreasuryFundMove, &[true, true]);
    let good = TokenAccountInfo { key: AccountId(50), mint: MINT, owner: AccountId(1), amount: 5 };
    let foreign = TokenAccountInfo { key: AccountId(51), mint: AccountId(66), owner: AccountId(1), amount: 5 };
    let r = execute_proposal(
        &mut state,
        AccountId(1),
        4_601,
        0,
        ExecutionPayload::TreasuryFundMove { source: foreign, destination: good },
    );
    assert_eq!(r.unwrap_err(), GovernanceError::InvalidTreasuryMint);
    let r = execute_proposal(
        &mut state,
        AccountId(1),
        4_601,
        0,
        ExecutionPayload::TreasuryFundMove { source: good, destination: foreign },
    );
    assert_eq!(r.unwrap_err(), GovernanceError::InvalidTreasuryMint);
}

#[test]
fn fund_move_rejects_foreign_owner() {
    let mut state = setup_voted(ProposalCategory::TreasuryFundMove, &[true, true]);
    let source = TokenAccountInfo { key: AccountId(50), mint: MINT, owner: AccountId(2), amount: 5 };
    let destination = TokenAccountInfo { key: AccountId(51), mint: MINT, owner: AccountId(2), amount: 0 };
    let r = execute_proposal(
        &mut state,
        AccountId(1),
        4_601,
        0,
        ExecutionPayload::TreasuryFundMove { source, destination },
    );
    assert_eq!(r.unwrap_err(), GovernanceError::InvalidTokenOwner);
}

#[test]
fn fund_move_requires_its_payload() {
    let mut state = setup_voted(ProposalCategory::TreasuryFundMove, &[true, true]);
    let r = execute_proposal(&mut state, AccountId(1), 4_601, 0, ExecutionPayload::TransferFee);
    assert_eq!(r.unwrap_err(), GovernanceError::MissingTreasuryWalletSwap);
}

#[test]
fn circuit_breaker_executes_without_side_effects() {
    let mut state =
        setup_voted(ProposalCategory::EmergencyCircuitBreaker, &[true, true, false]);
    let outcome = execute_proposal(
        &mut state,
        AccountId(1),
        4_601,
        0,
        ExecutionPayload::EmergencyCircuitBreaker,
    )
    .unwrap();
    assert_eq!(outcome.token_action, None);
    assert_eq!(outcome.treasury_minted, None);
    assert_eq!(outcome.treasury_funds_moved, None);
    assert!(state.proposals[0].executed);
    assert!(state.treasury_config.is_none());
}
