use tip_router::constants::{MAX_ST_MINTS, MAX_VAULTS};
use tip_router::error::TipRouterError;
use tip_router::ncn_fee_group::NcnFeeGroup;
use tip_router::pubkey::Pubkey;
use tip_router::vault_registry::{StMintEntry, VaultEntry};
use tip_router::weight_table::WeightTable;

fn unique_key() -> Pubkey {
    Pubkey::new_from_array(solana_program::pubkey::Pubkey::new_unique().to_bytes())
}

fn get_test_mint_entries(count: usize) -> [StMintEntry; 64] {
    let mut mints = [StMintEntry::default(); MAX_ST_MINTS];

    for i in 0..count {
        mints[i] = StMintEntry::new(
            &unique_key(),
            NcnFeeGroup::default(),
            0,
            &unique_key(),
            0,
        );
    }

    mints
}


#[test]
fn test_check_registry_for_vault() {
    let ncn = unique_key();
    let mut table = WeightTable::new(&ncn, 0, 0, 3, 0); // vault_count = 3

    // Create vault registry entries
    let mut vault_registry = [VaultEntry::default(); MAX_VAULTS];

    // Add three vault entries with different indexes
    vault_registry[0] = VaultEntry::new(
        &unique_key(),
        &unique_key(),
        1,   // vault_index
        100, // slot_registered
    );
    vault_registry[1] = VaultEntry::new(
        &unique_key(),
        &unique_key(),
        5,   // vault_index
        100, // slot_registered
    );
    vault_registry[2] = VaultEntry::new(
        &unique_key(),
        &unique_key(),
        10,  // vault_index
        100, // slot_registered
    );

    // Initialize the table with vault entries
    table.set_vault_entries(&vault_registry).unwrap();

    // Test 1: Check existing vault indices should succeed
    assert!(table.check_registry_for_vault(1).is_ok());
    assert!(table.check_registry_for_vault(5).is_ok());
    assert!(table.check_registry_for_vault(10).is_ok());

    // Test 2: Check non-existent vault indices should fail
    assert_eq!(
        table.check_registry_for_vault(2),
        Err(TipRouterError::VaultNotInRegistry)
    );
    assert_eq!(
        table.check_registry_for_vault(0),
        Err(TipRouterError::VaultNotInRegistry)
    );
    assert_eq!(
        table.check_registry_for_vault(11),
        Err(TipRouterError::VaultNotInRegistry)
    );

    // Test 3: Check edge case values
    assert_eq!(
        table.check_registry_for_vault(u64::MAX),
        Err(TipRouterError::VaultNotInRegistry)
    );
}

#[test]
fn test_initialize_table_success() {
    let ncn = unique_key();
    let mut table = WeightTable::new(&ncn, 0, 0, 0, 0);
    assert_eq!(table.mint_count(), 0);

    let mints = get_test_mint_entries(2);

    table.set_mint_entries(&mints).unwrap();
    assert_eq!(table.mint_count(), 2);
}

#[test]
fn test_initialize_table_max() {
    let ncn = unique_key();
    let mut table = WeightTable::new(&ncn, 0, 0, 0, 0);
    let max_mints = get_test_mint_entries(MAX_ST_MINTS);
    table.set_mint_entries(&max_mints).unwrap();
    assert_eq!(table.mint_count(), MAX_ST_MINTS);
}

#[test]
fn test_initialize_table_reinitialize() {
    let ncn = unique_key();
    let mut table = WeightTable::new(&ncn, 0, 0, 0, 0);
    let first_mints = get_test_mint_entries(2);
    table.set_mint_entries(&first_mints).unwrap();
    let second_mints = get_test_mint_entries(3);

    assert_eq!(
        table.set_mint_entries(&second_mints),
        Err(TipRouterError::WeightTableAlreadyInitialized)
    );
}

#[test]
fn test_set_weight_success() {
    let ncn = unique_key();
    let mut table = WeightTable::new(&ncn, 0, 0, 0, 0);
    let mints = get_test_mint_entries(2);
    let mint_entry = mints[0];

    table.set_mint_entries(&mints).unwrap();

    table.set_weight(&mint_entry.st_mint(), 100, 1).unwrap();
    assert_eq!(table.get_weight(&mint_entry.st_mint()).unwrap(), 100);
}

#[test]
fn test_set_weight_invalid_mint() {
    let ncn = unique_key();
    let mut table = WeightTable::new(&ncn, 0, 0, 0, 0);
    let mints = get_test_mint_entries(2);

    table.set_mint_entries(&mints).unwrap();

    let invalid_mint = unique_key();
    assert_eq!(
        table.set_weight(&invalid_mint, 100, 1),
        Err(TipRouterError::InvalidMintForWeightTable)
    );
}

#[test]
fn test_set_weight_update_existing() {
    let ncn = unique_key();
    let mut table = WeightTable::new(&ncn, 0, 0, 0, 0);
    let mints = get_test_mint_entries(2);
    let mint = mints[0];

    table.set_mint_entries(&mints).unwrap();

    table.set_weight(&mint.st_mint(), 100, 1).unwrap();
    assert_eq!(table.get_weight(&mint.st_mint()).unwrap(), 100);

    table.set_weight(&mint.st_mint(), 200, 2).unwrap();
    assert_eq!(table.get_weight(&mint.st_mint()).unwrap(), 200);
}

#[test]
fn test_set_weight_multiple_mints() {
    let ncn = unique_key();
    let mut table = WeightTable::new(&ncn, 0, 0, 0, 0);
    let mints = get_test_mint_entries(2);
    let mint1 = mints[0];
    let mint2 = mints[1];

    table.set_mint_entries(&mints).unwrap();

    table.set_weight(&mint1.st_mint(), 100, 1).unwrap();
    table.set_weight(&mint2.st_mint(), 200, 1).unwrap();

    assert_eq!(table.get_weight(&mint1.st_mint()).unwrap(), 100);
    assert_eq!(table.get_weight(&mint2.st_mint()).unwrap(), 200);
}

#[test]
fn test_set_weight_different_slots() {
    let ncn = unique_key();
    let mut table = WeightTable::new(&ncn, 0, 0, 0, 0);
    let mints = get_test_mint_entries(2);
    let mint = mints[0];

    table.set_mint_entries(&mints).unwrap();

    table.set_weight(&mint.st_mint(), 100, 1).unwrap();
    assert_eq!(table.get_weight(&mint.st_mint()).unwrap(), 100);

    table.set_weight(&mint.st_mint(), 200, 5).unwrap();
    assert_eq!(table.get_weight(&mint.st_mint()).unwrap(), 200);
}

