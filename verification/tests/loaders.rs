use tip_router::loaders::{AccountView, ProgramError, check_load};
use tip_router::pubkey::Pubkey;

fn unique_key() -> Pubkey {
    Pubkey::new_from_array(solana_program::pubkey::Pubkey::new_unique().to_bytes())
}

#[test]
fn test_check_load() {
    let program_id = unique_key();
    const DISCRIMINATOR: u8 = 0x55;
    let expected_pda = unique_key();
    let mut data = [0u8; 1];
    data[0] = DISCRIMINATOR;

    // Load OK with discriminator
    let account = AccountView {
        key: expected_pda,
        owner: program_id,
        is_writable: true,
        data: data.to_vec(),
    };

    let result = check_load(
        &program_id,
        &account,
        &expected_pda,
        Some(DISCRIMINATOR),
        false,
    );
    assert!(result.is_ok());

    // Load OK without discriminator
    let result = check_load(&program_id, &account, &expected_pda, None, false);
    assert!(result.is_ok());

    // Invalid Owner
    let bad_owner = unique_key();
    let account = AccountView {
        key: expected_pda,
        owner: bad_owner,
        is_writable: false,
        data: data.to_vec(),
    };

    let result = check_load(
        &program_id,
        &account,
        &expected_pda,
        Some(DISCRIMINATOR),
        false,
    );
    assert_eq!(result.err().unwrap(), ProgramError::InvalidAccountOwner);

    // Empty Data (only matters when discriminator is required)
    let mut bad_data = [0u8; 0];
    let account = AccountView {
        key: expected_pda,
        owner: program_id,
        is_writable: false,
        data: bad_data.to_vec(),
    };

    let result = check_load(
        &program_id,
        &account,
        &expected_pda,
        Some(DISCRIMINATOR),
        false,
    );
    assert_eq!(result.err().unwrap(), ProgramError::InvalidAccountData);

    // Empty Data should be OK when no discriminator is required
    let result = check_load(&program_id, &account, &expected_pda, None, false);
    assert!(result.is_ok());

    // Not Writable when required
    let account = AccountView {
        key: expected_pda,
        owner: program_id,
        is_writable: false,
        data: data.to_vec(),
    };

    let result = check_load(
        &program_id,
        &account,
        &expected_pda,
        Some(DISCRIMINATOR),
        true,
    );
    assert_eq!(result.err().unwrap(), ProgramError::InvalidAccountData);

    // Invalid Discriminator
    let mut bad_data = [0u8; 1];
    bad_data[0] = DISCRIMINATOR + 1;
    let account = AccountView {
        key: expected_pda,
        owner: program_id,
        is_writable: false,
        data: bad_data.to_vec(),
    };

    let result = check_load(
        &program_id,
        &account,
        &expected_pda,
        Some(DISCRIMINATOR),
        false,
    );
    assert_eq!(result.err().unwrap(), ProgramError::InvalidAccountData);

    // Invalid PDA
    let wrong_pda = unique_key();
    let account = AccountView {
        key: wrong_pda,
        owner: program_id,
        is_writable: false,
        data: data.to_vec(),
    };

    let result = check_load(
        &program_id,
        &account,
        &expected_pda,
        Some(DISCRIMINATOR),
        false,
    );
    assert_eq!(result.err().unwrap(), ProgramError::InvalidAccountData);
}

