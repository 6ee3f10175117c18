use tip_router::ncn_fee_group::NcnFeeGroup;
use tip_router::pubkey::Pubkey;
use tip_router::vault_registry::StMintEntry;
use tip_router::weight_entry::WeightEntry;

fn unique_key() -> Pubkey {
    Pubkey::new_from_array(solana_program::pubkey::Pubkey::new_unique().to_bytes())
}

#[test]
fn test_weight_entry_new() {
    let mint = unique_key();
    let mint_entry =
        StMintEntry::new(&mint, NcnFeeGroup::default(), 0, &unique_key(), 0);
    let weight_entry = WeightEntry::new(&mint_entry);

    assert_eq!(*weight_entry.st_mint(), mint);
    assert_eq!(weight_entry.weight(), 0);
    assert_eq!(weight_entry.slot_set(), 0);
    assert_eq!(weight_entry.slot_updated(), 0);
}

