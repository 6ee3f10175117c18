use tip_router::claim_status_payer::ClaimStatusPayer;
use tip_router::pubkey::Pubkey;

fn unique_key() -> Pubkey {
    Pubkey::new_from_array(solana_program::pubkey::Pubkey::new_unique().to_bytes())
}

#[test]
fn test_seeds() {
    let tip_distribution_program = unique_key();
    let seeds = ClaimStatusPayer::seeds(&tip_distribution_program);

    // Verify we get exactly 2 seeds
    assert_eq!(seeds.len(), 2);

    // Verify first seed is the string literal
    assert_eq!(seeds[0], b"claim_status_payer".to_vec());

    // Verify second seed is the pubkey bytes
    assert_eq!(seeds[1], tip_distribution_program.to_bytes().to_vec());
}

#[test]
fn test_find_program_address() {
    let program_id = unique_key();
    let tip_distribution_program = unique_key();

    let (pda, bump, seeds) =
        ClaimStatusPayer::find_program_address(&program_id, &tip_distribution_program).unwrap();

    // Verify we get 3 seeds (the two base seeds plus the tip_distribution_program bytes)
    assert_eq!(seeds.len(), 3);
    assert_eq!(seeds[0], b"claim_status_payer".to_vec());
    assert_eq!(seeds[1], tip_distribution_program.to_bytes().to_vec());
    assert_eq!(seeds[2], tip_distribution_program.to_bytes().to_vec());

    // Verify we can recreate the same PDA
    let seeds_slice: Vec<&[u8]> = seeds.iter().map(|s| s.as_slice()).collect();
    let (derived_address, derived_bump) = solana_program::pubkey::Pubkey::find_program_address(
        &seeds_slice,
        &solana_program::pubkey::Pubkey::new_from_array(program_id.to_bytes()),
    );

    assert_eq!(pda.to_bytes(), derived_address.to_bytes());
    assert_eq!(bump, derived_bump);
}

