use tip_router::constants::MAX_VAULTS;
use tip_router::discriminators::Discriminators;
use tip_router::epoch_snapshot::{EpochSnapshot, OperatorSnapshot, VaultOperatorStakeWeight};
use tip_router::error::TipRouterError;
use tip_router::fees::Fees;
use tip_router::loaders::{AccountView, ProgramError};
use tip_router::ncn_fee_group::NcnFeeGroup;
use tip_router::pubkey::Pubkey;
use tip_router::stake_weight::StakeWeights;

/// A buffer long enough to hold a snapshot account.
const EPOCH_SNAPSHOT_SIZE: usize = 1024;
const OPERATOR_SNAPSHOT_SIZE: usize = 8192;

fn unique_key() -> Pubkey {
    Pubkey::new_from_array(solana_program::pubkey::Pubkey::new_unique().to_bytes())
}



#[test]
fn test_epoch_snapshot_load() {
    let program_id = unique_key();
    let ncn = unique_key();
    let epoch = 1;

    let (address, _, _) = EpochSnapshot::find_program_address(&program_id, &ncn, epoch).unwrap();
    let mut data = [0u8; EPOCH_SNAPSHOT_SIZE];

    // Set discriminator
    data[0] = Discriminators::EpochSnapshot.value();

    // Test 1: Valid case - should succeed
    let account = AccountView {
    key: address,
    owner: program_id,
    is_writable: false,
    data: data.to_vec(),
};

    let result = EpochSnapshot::load(&program_id, &ncn, epoch, &account, false);
    assert!(result.is_ok());

    // Test 2: Invalid owner
    let wrong_program_id = unique_key();
    let account = AccountView {
    key: address,
    owner: wrong_program_id,
    is_writable: false,
    data: data.to_vec(),
};

    let result = EpochSnapshot::load(&program_id, &ncn, epoch, &account, false);
    assert_eq!(result.err().unwrap(), ProgramError::InvalidAccountOwner);

    // Test 3: Empty data
    let mut empty_data = [0u8; 0];
    let account = AccountView {
    key: address,
    owner: program_id,
    is_writable: false,
    data: empty_data.to_vec(),
};

    let result = EpochSnapshot::load(&program_id, &ncn, epoch, &account, false);
    assert_eq!(result.err().unwrap(), ProgramError::InvalidAccountData);

    // Test 4: Not writable when expected
    let account = AccountView {
        key: address,
        owner: program_id,
        is_writable: false, // not writable
        data: data.to_vec(),
    };

    let result = EpochSnapshot::load(&program_id, &ncn, epoch, &account, true);
    assert_eq!(result.err().unwrap(), ProgramError::InvalidAccountData);

    // Test 5: Invalid discriminator
    let mut bad_discriminator_data = [0u8; EPOCH_SNAPSHOT_SIZE];
    bad_discriminator_data[0] = Discriminators::EpochSnapshot.value() + 1; // wrong discriminator
    let account = AccountView {
    key: address,
    owner: program_id,
    is_writable: false,
    data: bad_discriminator_data.to_vec(),
};

    let result = EpochSnapshot::load(&program_id, &ncn, epoch, &account, false);
    assert_eq!(result.err().unwrap(), ProgramError::InvalidAccountData);

    // Test 6: Wrong PDA address
    let wrong_address = unique_key();
    let account = AccountView {
    key: wrong_address,
    owner: program_id,
    is_writable: false,
    data: data.to_vec(),
};

    let result = EpochSnapshot::load(&program_id, &ncn, epoch, &account, false);
    assert_eq!(result.err().unwrap(), ProgramError::InvalidAccountData);
}

#[test]
fn test_operator_snapshot_load() {
    let program_id = unique_key();
    let operator = unique_key();
    let ncn = unique_key();
    let epoch = 1;

    let (address, _, _) =
        OperatorSnapshot::find_program_address(&program_id, &operator, &ncn, epoch).unwrap();
    let mut data = [0u8; OPERATOR_SNAPSHOT_SIZE];

    // Set discriminator
    data[0] = Discriminators::OperatorSnapshot.value();

    // Test 1: Valid case - should succeed
    let account = AccountView {
    key: address,
    owner: program_id,
    is_writable: false,
    data: data.to_vec(),
};

    let result =
        OperatorSnapshot::load(&program_id, &operator, &ncn, epoch, &account, false);
    assert!(result.is_ok());

    // Test 2: Invalid owner
    let wrong_program_id = unique_key();
    let account = AccountView {
    key: address,
    owner: wrong_program_id,
    is_writable: false,
    data: data.to_vec(),
};

    let result =
        OperatorSnapshot::load(&program_id, &operator, &ncn, epoch, &account, false);
    assert_eq!(result.err().unwrap(), ProgramError::InvalidAccountOwner);

    // Test 3: Empty data
    let mut empty_data = [0u8; 0];
    let account = AccountView {
    key: address,
    owner: program_id,
    is_writable: false,
    data: empty_data.to_vec(),
};

    let result =
        OperatorSnapshot::load(&program_id, &operator, &ncn, epoch, &account, false);
    assert_eq!(result.err().unwrap(), ProgramError::InvalidAccountData);

    // Test 4: Not writable when expected
    let account = AccountView {
        key: address,
        owner: program_id,
        is_writable: false, // not writable
        data: data.to_vec(),
    };

    let result =
        OperatorSnapshot::load(&program_id, &operator, &ncn, epoch, &account, true);
    assert_eq!(result.err().unwrap(), ProgramError::InvalidAccountData);

    // Test 5: Invalid discriminator
    let mut bad_discriminator_data = [0u8; OPERATOR_SNAPSHOT_SIZE];
    bad_discriminator_data[0] = Discriminators::OperatorSnapshot.value() + 1; // wrong discriminator
    let account = AccountView {
    key: address,
    owner: program_id,
    is_writable: false,
    data: bad_discriminator_data.to_vec(),
};

    let result =
        OperatorSnapshot::load(&program_id, &operator, &ncn, epoch, &account, false);
    assert_eq!(result.err().unwrap(), ProgramError::InvalidAccountData);

    // Test 6: Wrong PDA address
    let wrong_address = unique_key();
    let account = AccountView {
    key: wrong_address,
    owner: program_id,
    is_writable: false,
    data: data.to_vec(),
};

    let result =
        OperatorSnapshot::load(&program_id, &operator, &ncn, epoch, &account, false);
    assert_eq!(result.err().unwrap(), ProgramError::InvalidAccountData);
}


#[test]
fn test_vault_operator_stake_weight_ncn_fee_group() {
// Test with default
let default_weight = VaultOperatorStakeWeight::default();
assert_eq!(default_weight.ncn_fee_group(), NcnFeeGroup::default());

// Test with custom value
let custom_weight = VaultOperatorStakeWeight::new(
    &unique_key(),
    1,
    NcnFeeGroup::default(),
    &StakeWeights::default(),
);
assert_eq!(custom_weight.ncn_fee_group(), NcnFeeGroup::default());
}

#[test]
fn test_vault_operator_stake_weight_is_empty() {
// Test default (should be empty)
let default_weight = VaultOperatorStakeWeight::default();
assert!(default_weight.is_empty());

// Test non-empty case
let non_empty_weight = VaultOperatorStakeWeight::new(
    &unique_key(),
    1,
    NcnFeeGroup::default(),
    &StakeWeights::default(),
);
assert!(!non_empty_weight.is_empty());
}

#[test]
fn test_increment_vault_operator_delegation_registration_finalized() {
let mut snapshot = OperatorSnapshot::new(
    &unique_key(),
    &unique_key(),
    1,
    1,
    100,
    true,
    0,
    0,
    100,
    1, // Set vault_operator_delegation_count to 1
)
.unwrap();

// Register one delegation to reach finalized state
snapshot.vault_operator_delegations_registered = 1;

// Attempt to increment when finalized
let result = snapshot.increment_vault_operator_delegation_registration(
    200, // current_slot
    &unique_key(),
    1,
    NcnFeeGroup::default(),
    &StakeWeights::default(),
);

// Verify we get the expected error
assert_eq!(
    result.unwrap_err(),
    TipRouterError::VaultOperatorDelegationFinalized
);
}

#[test]
fn test_initialize_too_many_vault_operator_delegations() {
// Create an operator snapshot
let mut snapshot = OperatorSnapshot::new(
    &unique_key(),
    &unique_key(),
    1,
    1,
    100,
    true,
    0,
    0,
    100,
    1, // Set vault_operator_delegation_count to 1
)
.unwrap();

// Try to initialize with vault_operator_delegation_count > MAX_VAULTS
let result = snapshot.initialize(
    &unique_key(),   // operator
    &unique_key(),   // ncn
    1,                       // ncn_epoch
    1,                       // bump
    100,                     // current_slot
    true,                    // is_active
    0,                       // ncn_operator_index
    0,                       // operator_index
    100,                     // operator_fee_bps
    (MAX_VAULTS as u64) + 1, // vault_operator_delegation_count > MAX_VAULTS
);

// Verify we get the expected error
assert_eq!(
    result.unwrap_err(),
    TipRouterError::TooManyVaultOperatorDelegations
);
}

#[test]
fn test_insert_vault_operator_stake_weight_too_many_delegations() {
// Create an operator snapshot
let mut snapshot = OperatorSnapshot::new(
    &unique_key(),
    &unique_key(),
    1,
    1,
    100,
    true,
    0,
    0,
    100,
    1,
)
.unwrap();

// Set the registered delegations to MAX_VAULTS
snapshot.vault_operator_delegations_registered = MAX_VAULTS as u64;

// Try to insert another vault operator stake weight
let result = snapshot.insert_vault_operator_stake_weight(
    &unique_key(),
    1,
    NcnFeeGroup::default(),
    &StakeWeights::default(),
);

// Verify we get the expected error
assert_eq!(
    result.unwrap_err(),
    TipRouterError::TooManyVaultOperatorDelegations
);
}

#[test]
fn test_insert_vault_operator_stake_weight_duplicate_delegation() {
// Create an operator snapshot
let mut snapshot = OperatorSnapshot::new(
    &unique_key(),
    &unique_key(),
    1,
    1,
    100,
    true,
    0,
    0,
    100,
    2, // Allow for 2 delegations
)
.unwrap();

let vault_index = 42;

// Insert first vault operator stake weight
snapshot
    .insert_vault_operator_stake_weight(
        &unique_key(),
        vault_index, // Use specific index
        NcnFeeGroup::default(),
        &StakeWeights::default(),
    )
    .unwrap();

// Increment the registered count as would happen in normal operation
snapshot.vault_operator_delegations_registered = 1;

// Try to insert another vault operator stake weight with the same index
let result = snapshot.insert_vault_operator_stake_weight(
    &unique_key(),
    vault_index, // Use same index as before
    NcnFeeGroup::default(),
    &StakeWeights::default(),
);

// Verify we get the expected error
assert_eq!(
    result.unwrap_err(),
    TipRouterError::DuplicateVaultOperatorDelegation
);
}

#[test]
fn test_operator_snapshot_new_too_many_delegations() {
// Try to create a new OperatorSnapshot with vault_operator_delegation_count > MAX_VAULTS
let result = OperatorSnapshot::new(
    &unique_key(),
    &unique_key(),
    1,                       // ncn_epoch
    1,                       // bump
    100,                     // current_slot
    true,                    // is_active
    0,                       // ncn_operator_index
    0,                       // operator_index
    100,                     // operator_fee_bps
    (MAX_VAULTS as u64) + 1, // vault_operator_delegation_count exceeds MAX_VAULTS
);

// Verify we get the expected error
assert_eq!(
    result.unwrap_err(),
    TipRouterError::TooManyVaultOperatorDelegations
);
}

#[test]
fn test_increment_operator_registration_finalized() {
let fees = Fees::new(1000, 1000, 1).unwrap();
// Create an epoch snapshot
let mut snapshot = EpochSnapshot::new(
    &unique_key(),
    1,   // ncn_epoch
    1,   // bump
    100, // current_slot
    &fees,
    1, // operator_count - set to 1
    1, // vault_count
);

// Set operators_registered equal to operator_count to make it finalized
snapshot.operators_registered = 1;

// Try to increment operator registration when already finalized
let result = snapshot.increment_operator_registration(
    200, // current_slot
    1,   // vault_operator_delegations
    &StakeWeights::default(),
);

// Verify we get the expected error
assert_eq!(result.unwrap_err(), TipRouterError::OperatorFinalized);
}

#[test]
fn test_operator_snapshot_initialize_active_inactive() {
let current_slot = 100;
let operator_fee_bps = 150;
let vault_operator_delegation_count = 3;

// Create two operator snapshots - one for active and one for inactive
let mut active_snapshot = OperatorSnapshot::new(
    &unique_key(),
    &unique_key(),
    1,
    1,
    current_slot,
    true,
    0,
    0,
    100,
    1,
)
.unwrap();

let mut inactive_snapshot = OperatorSnapshot::new(
    &unique_key(),
    &unique_key(),
    1,
    1,
    current_slot,
    false,
    0,
    0,
    100,
    1,
)
.unwrap();

// Initialize active snapshot
active_snapshot
    .initialize(
        &unique_key(),
        &unique_key(),
        1,
        1,
        current_slot,
        true, // is_active
        0,
        0,
        operator_fee_bps,
        vault_operator_delegation_count,
    )
    .unwrap();

// Initialize inactive snapshot
inactive_snapshot
    .initialize(
        &unique_key(),
        &unique_key(),
        1,
        1,
        current_slot,
        false, // not active
        0,
        0,
        operator_fee_bps,
        vault_operator_delegation_count,
    )
    .unwrap();

// Test active snapshot values
assert_eq!(active_snapshot.slot_finalized(), 0); // slot_finalized should be 0
assert_eq!(active_snapshot.operator_fee_bps(), operator_fee_bps); // should keep the initial fee
assert_eq!(
    active_snapshot.vault_operator_delegation_count(),
    vault_operator_delegation_count
); // should keep the initial count

// Test inactive snapshot values
assert_eq!(inactive_snapshot.slot_finalized(), current_slot); // slot_finalized should be current_slot
assert_eq!(inactive_snapshot.operator_fee_bps(), 0); // fee should be zeroed
assert_eq!(inactive_snapshot.vault_operator_delegation_count(), 0);
// count should be zeroed
}

