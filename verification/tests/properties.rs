use tip_router::ballot_box::{Ballot, BallotBox};
use tip_router::base_fee_group::BaseFeeGroup;
use tip_router::claim_status_payer::ClaimStatusPayer;
use tip_router::config::Config;
use tip_router::discriminators::Discriminators;
use tip_router::epoch_marker::EpochMarker;
use tip_router::epoch_snapshot::{DelegationState, OperatorSnapshot};
use tip_router::epoch_state::{AccountStatus, AccountStatusCounts, EpochAccountStatus, EpochState, Progress, State};
use tip_router::error::TipRouterError;
use tip_router::fees::FeeConfig;
use tip_router::jito_number::JitoNumber;
use tip_router::loaders::{load_ncn_epoch, AccountView, ProgramError};
use tip_router::ncn_fee_group::NcnFeeGroup;
use tip_router::ncn_reward_router::{NcnRewardRouter, VaultRewardRoute};
use tip_router::precise_numbers::{PreciseTokenSupply, PreciseWeight};
use tip_router::pubkey::Pubkey;
use tip_router::stake_weight::StakeWeights;
use tip_router::utils::get_new_size;
use tip_router::vault_registry::{StMintEntry, VaultEntry, VaultRegistry};
use tip_router::weight_table::WeightTable;

fn unique_key() -> Pubkey {
    Pubkey::new_from_array(solana_program::pubkey::Pubkey::new_unique().to_bytes())
}

fn solana_key(key: &Pubkey) -> solana_program::pubkey::Pubkey {
    solana_program::pubkey::Pubkey::new_from_array(key.to_bytes())
}

// ---------------- fees ----------------

#[test]
fn fee_update_keeps_current_epoch_and_takes_effect_next() {
    let wallet = unique_key();
    let mut config = FeeConfig::new(wallet, 100, 200, 300, 10).unwrap();
    let before = *config.current_fees(10);
    config
        .update_fee_config(None, None, None, Some(900), None, Some(800), 10)
        .unwrap();
    let now = config.current_fees(10);
    assert_eq!(now.activation_epoch(), before.activation_epoch());
    assert_eq!(now.base_fee_bps(BaseFeeGroup::default()).unwrap(), 200);
    assert_eq!(now.ncn_fee_bps(NcnFeeGroup::default()).unwrap(), 300);
    let next = config.current_fees(11);
    assert_eq!(next.activation_epoch(), 11);
    assert_eq!(next.base_fee_bps(BaseFeeGroup::default()).unwrap(), 900);
    assert_eq!(next.ncn_fee_bps(NcnFeeGroup::default()).unwrap(), 800);
}

#[test]
fn fee_update_errors() {
    let wallet = unique_key();
    let mut config = FeeConfig::new(wallet, 100, 200, 300, 10).unwrap();
    assert_eq!(
        config.update_fee_config(None, None, None, Some(10_001), None, None, 10),
        Err(TipRouterError::FeeCapExceeded)
    );
    assert_eq!(
        config.update_fee_config(None, Some(BaseFeeGroup { group: 8 }), Some(wallet), None, None, None, 10),
        Err(TipRouterError::InvalidNcnFeeGroup)
    );
    assert_eq!(
        config.update_fee_config(None, None, None, None, None, None, u64::MAX),
        Err(TipRouterError::ArithmeticOverflow)
    );
    // A block engine fee of 100% leaves nothing to scale the others by.
    let mut config = FeeConfig::new(wallet, 100, 200, 300, 10).unwrap();
    assert_eq!(
        config.update_fee_config(Some(10_000), None, None, None, None, None, 10),
        Err(TipRouterError::DenominatorIsZero)
    );
    // The check covers the fees in force at the epoch of the update; the
    // scheduled ones are not summed until their epoch.
    let mut config = FeeConfig::new(wallet, 100, 200, 300, 10).unwrap();
    assert_eq!(
        config.update_fee_config(None, None, None, Some(6_000), None, Some(5_000), 10),
        Ok(())
    );
    assert_eq!(config.total_fees_bps(11), Ok(11_000));
    assert_eq!(config.check_fees_okay(11), Err(TipRouterError::FeeCapExceeded));
}

#[test]
fn adjusted_fee_formula() {
    let config = FeeConfig::new(unique_key(), 1_000, 450, 0, 0).unwrap();
    // 450 * 10_000 / (10_000 - 1_000) = 500
    assert_eq!(config.adjusted_base_fee_bps(BaseFeeGroup::default(), 0).unwrap(), 500);
    assert_eq!(config.total_fees_bps(0).unwrap(), 450);
}

// ---------------- consensus ----------------

#[test]
fn consensus_needs_two_thirds_of_stake() {
    let ballot = Ballot::new(&[7; 32]);
    let mut ballot_box = BallotBox::new(&unique_key(), 1, 0, 10);
    ballot_box
        .cast_vote(&unique_key(), &ballot, &StakeWeights::new(66), 10, 100)
        .unwrap();
    ballot_box.tally_votes(100, 10).unwrap();
    assert!(!ballot_box.is_consensus_reached());
    ballot_box
        .cast_vote(&unique_key(), &ballot, &StakeWeights::new(1), 11, 100)
        .unwrap();
    ballot_box.tally_votes(100, 11).unwrap();
    assert!(ballot_box.is_consensus_reached());
    assert_eq!(ballot_box.slot_consensus_reached(), 11);
    assert_eq!(*ballot_box.get_winning_ballot().unwrap(), ballot);
}

#[test]
fn consensus_once_reached_stays() {
    let ballot = Ballot::new(&[7; 32]);
    let mut ballot_box = BallotBox::new(&unique_key(), 1, 0, 10);
    ballot_box
        .cast_vote(&unique_key(), &ballot, &StakeWeights::new(3), 10, 100)
        .unwrap();
    ballot_box.tally_votes(3, 10).unwrap();
    assert!(ballot_box.is_consensus_reached());
    ballot_box.tally_votes(1_000_000, 20).unwrap();
    assert!(ballot_box.is_consensus_reached());
    assert_eq!(ballot_box.slot_consensus_reached(), 10);
}

// ---------------- epoch state ----------------

#[test]
fn epoch_state_stages() {
    let mut state = EpochState::new(&unique_key(), 5, 1, 100);
    assert_eq!(state.current_state(), Ok(State::SetWeight));
    state.update_realloc_weight_table(1);
    assert_eq!(state.current_state(), Ok(State::SetWeight));
    state.update_set_weight(1);
    assert_eq!(state.current_state(), Ok(State::Snapshot));
    state.update_initialize_epoch_snapshot(1);
    state.update_realloc_operator_snapshot(0, false).unwrap();
    assert_eq!(state.current_state(), Ok(State::Vote));
    state.update_realloc_ballot_box();
    state.update_cast_vote().unwrap();
    assert_eq!(state.current_state(), Ok(State::SetupRouter));
    state.update_realloc_base_reward_router();
    assert_eq!(state.current_state(), Ok(State::Distribute));
    // The total distribution counter is never set up, so its tally stays at
    // the marker and distributing overflows it.
    state.update_route_base_rewards(50);
    assert_eq!(
        state.update_distribute_base_rewards(50),
        Err(TipRouterError::ArithmeticOverflow)
    );
    assert_eq!(state.current_state(), Ok(State::Distribute));
}

#[test]
fn epoch_account_status_codes() {
    assert_eq!(EpochAccountStatus::get_account_status(0), Ok(AccountStatus::DNE));
    assert_eq!(EpochAccountStatus::get_account_status(1), Ok(AccountStatus::Created));
    assert_eq!(EpochAccountStatus::get_account_status(2), Ok(AccountStatus::Closed));
    assert_eq!(
        EpochAccountStatus::get_account_status(3),
        Err(TipRouterError::InvalidAccountStatus)
    );
    let mut status = EpochAccountStatus::default();
    status.set_ncn_reward_router(3, NcnFeeGroup { group: 2 }, AccountStatus::Closed).unwrap();
    assert_eq!(status.ncn_reward_router(3, NcnFeeGroup { group: 2 }), Ok(AccountStatus::Closed));
    assert_eq!(EpochState::get_ncn_reward_router_index(3, NcnFeeGroup { group: 2 }), Ok(26));
    assert_eq!(
        EpochState::get_ncn_reward_router_index(usize::MAX, NcnFeeGroup { group: 0 }),
        Err(TipRouterError::ArithmeticOverflow)
    );
}

#[test]
fn progress_counts_and_overflows() {
    let mut p = Progress::new(2);
    assert!(!p.is_complete());
    p.increment(2).unwrap();
    assert!(p.is_complete());
    assert_eq!(p.increment(u64::MAX), Err(TipRouterError::ArithmeticOverflow));
    assert_eq!(p.tally(), 2);
    assert!(Progress::default().is_invalid());
}

// ---------------- numbers ----------------

#[test]
fn jito_number_round_trips() {
    let w = 0x0123_4567_89ab_cdef_fedc_ba98_7654_3210u128;
    assert_eq!(JitoNumber::from_weight(w).to_weight(), w);
    assert_eq!(JitoNumber::from_weight(u128::MAX).to_weight(), u128::MAX);
    assert_eq!(PreciseWeight::from_weight(w).to_weight(), w);
    let p = JitoNumber::token_supply_to_precise_number(12_345).unwrap();
    assert_eq!(JitoNumber::precise_number_to_token_supply(p), Ok(12_345));
    let p = PreciseTokenSupply::token_supply_to_precise_number(u64::MAX).unwrap();
    assert_eq!(PreciseTokenSupply::precise_number_to_token_supply(p), Ok(u64::MAX));
    let weight = JitoNumber::from_weight(7).weight_to_precise_number().unwrap();
    assert_eq!(JitoNumber::precise_number_to_weight(weight).unwrap().to_weight(), 7);
}

// ---------------- stake weights and rewards ----------------

fn weight_table_with(mint: &Pubkey, weight: u128) -> WeightTable {
    let mut mints = [StMintEntry::default(); 64];
    mints[0] = StMintEntry::new(mint, NcnFeeGroup::default(), 10_000, &unique_key(), 0);
    let mut vaults = [VaultEntry::default(); 64];
    vaults[0] = VaultEntry::new(&unique_key(), mint, 0, 1);
    let mut table = WeightTable::new(&unique_key(), 1, 1, 1, 0);
    table.set_vault_entries(&vaults).unwrap();
    table.set_mint_entries(&mints).unwrap();
    table.set_weight(mint, weight, 2).unwrap();
    table
}

#[test]
fn total_stake_weight_is_security_times_weight() {
    let mint = unique_key();
    let table = weight_table_with(&mint, 3);
    let delegation = DelegationState {
        staked_amount: 100,
        enqueued_for_cooldown_amount: 20,
        cooling_down_amount: 5,
    };
    assert_eq!(
        OperatorSnapshot::calculate_total_stake_weight(&delegation, &table, &mint),
        Ok(375)
    );
    let overflowing = DelegationState {
        staked_amount: u64::MAX,
        enqueued_for_cooldown_amount: 1,
        cooling_down_amount: 0,
    };
    assert_eq!(
        OperatorSnapshot::calculate_total_stake_weight(&overflowing, &table, &mint),
        Err(ProgramError::Custom(1026))
    );
    assert_eq!(
        OperatorSnapshot::calculate_total_stake_weight(&delegation, &table, &unique_key()),
        Err(ProgramError::from(TipRouterError::InvalidMintForWeightTable))
    );
}

fn operator_with_two_vaults(fee_bps: u16, vault_a: &Pubkey, vault_b: &Pubkey) -> OperatorSnapshot {
    let mut snapshot =
        OperatorSnapshot::new(&unique_key(), &unique_key(), 1, 0, 1, true, 0, 0, fee_bps, 2).unwrap();
    let a = StakeWeights::snapshot(NcnFeeGroup::default(), 1, 10_000).unwrap();
    let b = StakeWeights::snapshot(NcnFeeGroup::default(), 2, 10_000).unwrap();
    snapshot
        .increment_vault_operator_delegation_registration(2, vault_a, 0, NcnFeeGroup::default(), &a)
        .unwrap();
    snapshot
        .increment_vault_operator_delegation_registration(2, vault_b, 1, NcnFeeGroup::default(), &b)
        .unwrap();
    snapshot
}

#[test]
fn rewards_route_to_operator_and_vaults() {
    let vault_a = unique_key();
    let vault_b = unique_key();
    let snapshot = operator_with_two_vaults(1_000, &vault_a, &vault_b);
    let mut router = NcnRewardRouter::new(NcnFeeGroup::default(), &unique_key(), &unique_key(), 1, 0, 1);
    router.route_incoming_rewards(0, 10_000).unwrap();
    router.route_operator_rewards(&snapshot).unwrap();
    // 10% of 10_000
    assert_eq!(router.operator_rewards(), 1_000);
    assert_eq!(router.reward_pool(), 9_000);
    router.route_reward_pool(&snapshot, 100).unwrap();
    // 9_000 split 1:2, the remainder to the operator
    assert_eq!(router.vault_reward_route(&vault_a).unwrap().rewards(), 3_000);
    assert_eq!(router.vault_reward_route(&vault_b).unwrap().rewards(), 6_000);
    assert_eq!(router.operator_rewards(), 1_000);
    assert_eq!(router.reward_pool(), 0);
    assert_eq!(router.rewards_processed(), 10_000);
    assert_eq!(router.total_rewards(), 10_000);
    // paying out leaves nothing processed
    assert_eq!(router.distribute_operator_rewards(), Ok(1_000));
    assert_eq!(router.distribute_vault_reward_route(&vault_a), Ok(3_000));
    assert_eq!(router.distribute_vault_reward_route(&vault_b), Ok(6_000));
    assert_eq!(router.rewards_processed(), 0);
    assert_eq!(
        router.distribute_vault_reward_route(&unique_key()),
        Err(TipRouterError::OperatorRewardNotFound)
    );
}

#[test]
fn routing_resumes_where_it_stopped() {
    let vault_a = unique_key();
    let vault_b = unique_key();
    let snapshot = operator_with_two_vaults(0, &vault_a, &vault_b);
    let mut router = NcnRewardRouter::new(NcnFeeGroup::default(), &unique_key(), &unique_key(), 1, 0, 1);
    router.route_incoming_rewards(0, 3_001).unwrap();
    // one delegation per call
    router.route_reward_pool(&snapshot, 2).unwrap();
    assert!(router.still_routing());
    assert_eq!(router.last_vault_operator_delegation_index(), 1);
    assert_eq!(router.vault_reward_route(&vault_a).unwrap().rewards(), 1_000);
    router.route_reward_pool(&snapshot, 100).unwrap();
    assert!(!router.still_routing());
    assert_eq!(router.vault_reward_route(&vault_b).unwrap().rewards(), 2_000);
    assert_eq!(router.operator_rewards(), 1);
    assert_eq!(router.reward_pool(), 0);
}

#[test]
fn vault_reward_route_arithmetic() {
    let mut route = VaultRewardRoute::new(&unique_key(), 5).unwrap();
    route.increment_rewards(10).unwrap();
    assert_eq!(route.rewards(), 15);
    assert_eq!(route.decrement_rewards(16), Err(TipRouterError::ArithmeticUnderflowError));
    assert_eq!(route.increment_rewards(u64::MAX), Err(TipRouterError::ArithmeticOverflow));
    assert!(route.has_rewards());
    assert!(VaultRewardRoute::default().is_empty());
}

// ---------------- registry ----------------

#[test]
fn registry_keeps_mints_and_vaults_distinct() {
    let mut registry = VaultRegistry::new(&unique_key(), 0);
    let mint = unique_key();
    registry.register_st_mint(&mint, NcnFeeGroup::default(), 1, &unique_key(), 0).unwrap();
    assert_eq!(
        registry.register_st_mint(&mint, NcnFeeGroup::default(), 1, &unique_key(), 0),
        Err(ProgramError::from(TipRouterError::MintInTable))
    );
    let vault = unique_key();
    registry.register_vault(&vault, &mint, 0, 5).unwrap();
    registry.register_vault(&vault, &mint, 0, 6).unwrap();
    assert_eq!(registry.vault_count(), 1);
    assert_eq!(registry.get_valid_mint_entries().len(), 1);
}

// ---------------- addresses and loading ----------------

#[test]
fn program_addresses_match_solana() {
    let program_id = unique_key();
    let ncn = unique_key();
    let (address, bump, seeds) = EpochState::find_program_address(&program_id, &ncn, 7).unwrap();
    assert_eq!(seeds[0], b"epoch_state".to_vec());
    assert_eq!(seeds[2], 7u64.to_le_bytes().to_vec());
    let slices: Vec<&[u8]> = seeds.iter().map(|s| s.as_slice()).collect();
    let (expected, expected_bump) =
        solana_program::pubkey::Pubkey::find_program_address(&slices, &solana_key(&program_id));
    assert_eq!(address.to_bytes(), expected.to_bytes());
    assert_eq!(bump, expected_bump);
    let (config_address, _, _) = Config::find_program_address(&program_id, &ncn).unwrap();
    assert_ne!(config_address, address);
}

#[test]
fn epoch_state_load_checks() {
    let program_id = unique_key();
    let ncn = unique_key();
    let (address, _, _) = EpochState::find_program_address(&program_id, &ncn, 3).unwrap();
    let account = AccountView {
        key: address,
        owner: program_id,
        is_writable: true,
        data: vec![Discriminators::EpochState.value(), 0, 0],
    };
    assert_eq!(EpochState::load(&program_id, &ncn, 3, &account, true), Ok(()));
    assert_eq!(
        EpochState::load(&program_id, &ncn, 4, &account, true),
        Err(ProgramError::InvalidAccountData)
    );
    let wrong_kind = AccountView { data: vec![Discriminators::BallotBox.value()], ..account };
    assert_eq!(
        EpochState::load(&program_id, &ncn, 3, &wrong_kind, false),
        Err(ProgramError::InvalidAccountData)
    );
}

#[test]
fn epoch_marker_absence_check() {
    let program_id = unique_key();
    let ncn = unique_key();
    let (address, _, _) = EpochMarker::find_program_address(&program_id, &ncn, 9).unwrap();
    let empty = AccountView { key: address, owner: unique_key(), is_writable: false, data: vec![] };
    assert_eq!(EpochMarker::check_dne(&program_id, &ncn, 9, &empty), Ok(()));
    let filled = AccountView { data: vec![1], ..empty };
    assert_eq!(
        EpochMarker::check_dne(&program_id, &ncn, 9, &filled),
        Err(ProgramError::AccountAlreadyInitialized)
    );
    let elsewhere = AccountView { key: unique_key(), owner: unique_key(), is_writable: false, data: vec![] };
    assert_eq!(
        EpochMarker::check_dne(&program_id, &ncn, 9, &elsewhere),
        Err(ProgramError::InvalidSeeds)
    );
}

#[test]
fn claim_status_payer_must_be_owned_by_the_system_program() {
    let program_id = unique_key();
    let tip_distribution_program = unique_key();
    let (address, _, _) =
        ClaimStatusPayer::find_program_address(&program_id, &tip_distribution_program).unwrap();
    let account = AccountView { key: address, owner: Pubkey::default(), is_writable: true, data: vec![] };
    assert_eq!(ClaimStatusPayer::load(&program_id, &account, &tip_distribution_program, true), Ok(()));
    let owned = AccountView { owner: program_id, ..account };
    assert_eq!(
        ClaimStatusPayer::load(&program_id, &owned, &tip_distribution_program, true),
        Err(ProgramError::InvalidAccountOwner)
    );
}

// ---------------- sizes and epochs ----------------

#[test]
fn realloc_size_is_capped() {
    assert_eq!(get_new_size(0, 20_000), Ok(10_240));
    assert_eq!(get_new_size(100, 5_000), Ok(5_000));
    assert_eq!(get_new_size(usize::MAX, 1), Err(ProgramError::ArithmeticOverflow));
}

#[test]
fn ncn_epoch_loading() {
    assert_eq!(load_ncn_epoch(432_000, 1_000_000, None), Ok((2, 432_000)));
    assert_eq!(load_ncn_epoch(432_000, 1_000_000, Some(500_000)), Ok((1, 432_000)));
    assert_eq!(load_ncn_epoch(0, 1_000_000, None), Err(TipRouterError::DenominatorIsZero));
    assert_eq!(
        load_ncn_epoch(432_000, 1_000_000, Some(2_000_000)),
        Err(TipRouterError::CannotCreateFutureWeightTables)
    );
}

#[test]
fn discriminator_values() {
    assert_eq!(Discriminators::Config.value(), 0x01);
    assert_eq!(Discriminators::VaultRegistry.value(), 0x02);
    assert_eq!(Discriminators::WeightTable.value(), 0x10);
    assert_eq!(Discriminators::BallotBox.value(), 0x20);
    assert_eq!(Discriminators::NcnRewardRouter.value(), 0x41);
    assert_eq!(Discriminators::EpochMarker.value(), 0x51);
}

// ---------------- ballot box frames and counts ----------------

fn tally_count(ballot_box: &BallotBox, ballot: &Ballot) -> Option<u64> {
    ballot_box
        .ballot_tallies()
        .iter()
        .find(|t| t.is_valid() && t.ballot().same_as(ballot))
        .map(|t| t.tally())
}

#[test]
fn full_vote_list_keeps_the_tally_it_raised() {
    let mut ballot_box = BallotBox::new(&unique_key(), 1, 0, 100);
    let ballot = Ballot::new(&[1; 32]);
    let stake_weights = StakeWeights::new(1);
    for _ in 0..256 {
        ballot_box.cast_vote(&unique_key(), &ballot, &stake_weights, 100, 10).unwrap();
    }
    let other = Ballot::new(&[2; 32]);
    assert_eq!(
        ballot_box.cast_vote(&unique_key(), &other, &stake_weights, 100, 10),
        Err(TipRouterError::OperatorVotesFull)
    );
    // the refused vote's tally was raised before the vote list was found full
    assert_eq!(tally_count(&ballot_box, &other), Some(1));
    assert_eq!(ballot_box.unique_ballots(), 2);
    assert_eq!(ballot_box.operators_voted(), 256);
    assert_eq!(
        ballot_box.cast_vote(&unique_key(), &ballot, &stake_weights, 100, 10),
        Err(TipRouterError::OperatorVotesFull)
    );
    assert_eq!(tally_count(&ballot_box, &ballot), Some(257));
}

#[test]
fn revote_after_consensus_keeps_the_tally_it_raised() {
    let mut ballot_box = BallotBox::new(&unique_key(), 1, 0, 100);
    let operator = unique_key();
    let ballot = Ballot::new(&[1; 32]);
    let other = Ballot::new(&[2; 32]);
    let stake_weights = StakeWeights::new(1000);
    ballot_box.cast_vote(&operator, &ballot, &stake_weights, 100, 10).unwrap();
    ballot_box.tally_votes(1000, 100).unwrap();
    assert!(ballot_box.is_consensus_reached());
    assert_eq!(
        ballot_box.cast_vote(&operator, &other, &stake_weights, 101, 10),
        Err(TipRouterError::ConsensusAlreadyReached)
    );
    assert_eq!(tally_count(&ballot_box, &other), Some(1));
    assert_eq!(tally_count(&ballot_box, &ballot), Some(1));
    assert_eq!(ballot_box.unique_ballots(), 2);
    assert_eq!(ballot_box.get_winning_ballot(), Ok(&ballot));
}

#[test]
fn set_winning_ballot_is_read_back() {
    let mut ballot_box = BallotBox::new(&unique_key(), 0, 0, 0);
    assert_eq!(ballot_box.get_winning_ballot(), Err(TipRouterError::ConsensusNotReached));
    let ballot = Ballot::new(&[7; 32]);
    ballot_box.set_winning_ballot(&ballot);
    assert_eq!(ballot_box.get_winning_ballot(), Ok(&ballot));
    assert_eq!(ballot_box.slot_consensus_reached(), u64::MAX);
}

// ---------------- distribution rounds ----------------

#[test]
fn distribution_skips_groups_without_fees() {
    let config = FeeConfig::new(unique_key(), 100, 200, 0, 10).unwrap();
    let base: Vec<u8> = config.base_groups_to_distribute(10).iter().map(|g| g.group).collect();
    assert_eq!(base, vec![0]);
    assert!(config.ncn_groups_to_distribute(10).is_empty());
    let config = FeeConfig::new(unique_key(), 100, 0, 300, 10).unwrap();
    assert!(config.base_groups_to_distribute(10).is_empty());
    let ncn: Vec<u8> = config.ncn_groups_to_distribute(10).iter().map(|g| g.group).collect();
    assert_eq!(ncn, vec![0]);
}

#[test]
fn distribution_reaches_the_routed_vaults() {
    let vault_a = unique_key();
    let vault_b = unique_key();
    let snapshot = operator_with_two_vaults(1_000, &vault_a, &vault_b);
    let mut router = NcnRewardRouter::new(NcnFeeGroup::default(), &unique_key(), &unique_key(), 1, 0, 1);
    assert!(router.vaults_to_route().is_empty());
    router.route_incoming_rewards(0, 10_000).unwrap();
    router.route_operator_rewards(&snapshot).unwrap();
    router.route_reward_pool(&snapshot, 100).unwrap();
    assert_eq!(router.vaults_to_route(), vec![vault_a, vault_b]);
}

#[test]
fn routing_with_no_group_stake_gives_the_pool_to_the_operator() {
    let mut snapshot =
        OperatorSnapshot::new(&unique_key(), &unique_key(), 1, 0, 1, true, 0, 0, 0, 1).unwrap();
    let none = StakeWeights::snapshot(NcnFeeGroup::default(), 0, 10_000).unwrap();
    snapshot
        .increment_vault_operator_delegation_registration(1, &unique_key(), 0, NcnFeeGroup::default(), &none)
        .unwrap();
    let mut router = NcnRewardRouter::new(NcnFeeGroup::default(), &unique_key(), &unique_key(), 1, 0, 1);
    router.route_incoming_rewards(0, 500).unwrap();
    router.route_reward_pool(&snapshot, 100).unwrap();
    assert_eq!(router.reward_pool(), 0);
    assert_eq!(router.operator_rewards(), 500);
    assert!(!router.still_routing());
}

#[test]
fn registering_mints_fills_the_list() {
    let mut registry = VaultRegistry::new(&unique_key(), 0);
    for i in 0..64 {
        assert_eq!(registry.get_valid_mint_entries().len(), i);
        registry.register_st_mint(&unique_key(), NcnFeeGroup::default(), 1, &unique_key(), 0).unwrap();
    }
    assert_eq!(registry.get_valid_mint_entries().len(), 64);
    assert_eq!(
        registry.register_st_mint(&unique_key(), NcnFeeGroup::default(), 1, &unique_key(), 0),
        Err(ProgramError::from(TipRouterError::VaultRegistryListFull))
    );
}

// ---------------- metrics ----------------

#[test]
fn account_status_counts() {
    let mut status = EpochAccountStatus::default();
    status.set_operator_snapshot(0, AccountStatus::Created);
    status.set_operator_snapshot(1, AccountStatus::Closed);
    status.set_operator_snapshot(2, AccountStatus::Created);
    assert_eq!(
        status.operator_snapshot_counts(),
        Ok(AccountStatusCounts { dne: 253, open: 2, closed: 1 })
    );
    status.set_ncn_reward_router(3, NcnFeeGroup::default(), AccountStatus::Closed).unwrap();
    assert_eq!(
        status.ncn_reward_router_counts(),
        Ok(AccountStatusCounts { dne: 2047, open: 0, closed: 1 })
    );
}

#[test]
fn total_vault_rewards_adds_the_routes() {
    let vault_a = unique_key();
    let vault_b = unique_key();
    let snapshot = operator_with_two_vaults(1_000, &vault_a, &vault_b);
    let mut router = NcnRewardRouter::new(NcnFeeGroup::default(), &unique_key(), &unique_key(), 1, 0, 1);
    assert_eq!(router.total_vault_rewards(), 0);
    router.route_incoming_rewards(0, 10_000).unwrap();
    router.route_operator_rewards(&snapshot).unwrap();
    router.route_reward_pool(&snapshot, 100).unwrap();
    assert_eq!(router.total_vault_rewards(), 9_000);
    assert_eq!(router.operator_rewards() + router.total_vault_rewards(), 10_000);
}
