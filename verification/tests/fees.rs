use tip_router::base_fee_group::BaseFeeGroup;
use tip_router::constants::MAX_FEE_BPS;
use tip_router::error::TipRouterError;
use tip_router::fees::FeeConfig;
use tip_router::ncn_fee_group::NcnFeeGroup;
use tip_router::pubkey::Pubkey;

fn unique_key() -> Pubkey {
    Pubkey::new_from_array(solana_program::pubkey::Pubkey::new_unique().to_bytes())
}

#[test]
fn test_get_all_fees() {
    const BLOCK_ENGINE_FEE: u16 = 100;
    const DAO_FEE: u16 = 200;
    const DEFAULT_NCN_FEE: u16 = 300;
    const STARTING_EPOCH: u64 = 10;

    let dao_fee_wallet = unique_key();

    let fee_config = FeeConfig::new(
        dao_fee_wallet,
        BLOCK_ENGINE_FEE,
        DAO_FEE,
        DEFAULT_NCN_FEE,
        STARTING_EPOCH,
    )
    .unwrap();

    fee_config.check_fees_okay(STARTING_EPOCH).unwrap();

    assert_eq!(fee_config.block_engine_fee_bps(), BLOCK_ENGINE_FEE);

    let dao_fee_group = BaseFeeGroup::default();

    assert_eq!(
        fee_config.base_fee_wallet(dao_fee_group).unwrap(),
        dao_fee_wallet
    );

    assert_eq!(
        fee_config.fee_1.base_fee_bps(dao_fee_group).unwrap(),
        DAO_FEE
    );
    assert_eq!(
        fee_config.fee_2.base_fee_bps(dao_fee_group).unwrap(),
        DAO_FEE
    );

    let default_ncn_fee_group = NcnFeeGroup::default();

    assert_eq!(
        fee_config.fee_1.ncn_fee_bps(default_ncn_fee_group).unwrap(),
        DEFAULT_NCN_FEE
    );

    assert_eq!(
        fee_config.fee_2.ncn_fee_bps(default_ncn_fee_group).unwrap(),
        DEFAULT_NCN_FEE
    );
}

#[test]
fn test_init_fee_config_errors() {
    const OK_FEE: u16 = 0;
    const OK_EPOCH: u64 = 0;

    let ok_wallet = unique_key();

    // DEFAULT WALLET
    let error = FeeConfig::new(Pubkey::default(), OK_FEE, OK_FEE, OK_FEE, OK_EPOCH);
    assert_eq!(error.err().unwrap(), TipRouterError::DefaultDaoWallet);

    // BLOCK ENGINE FEE
    let error = FeeConfig::new(ok_wallet, MAX_FEE_BPS as u16 + 1, OK_FEE, OK_FEE, OK_EPOCH);
    assert_eq!(error.err().unwrap(), TipRouterError::FeeCapExceeded);

    // DAO FEE
    let error = FeeConfig::new(ok_wallet, OK_FEE, MAX_FEE_BPS as u16 + 1, OK_FEE, OK_EPOCH);
    assert_eq!(error.err().unwrap(), TipRouterError::FeeCapExceeded);

    // NCN FEE
    let error = FeeConfig::new(ok_wallet, OK_FEE, OK_FEE, MAX_FEE_BPS as u16 + 1, OK_EPOCH);
    assert_eq!(error.err().unwrap(), TipRouterError::FeeCapExceeded);

    // ADJUSTED FEE ERROR
    let error = FeeConfig::new(ok_wallet, MAX_FEE_BPS as u16, OK_FEE, OK_FEE, OK_EPOCH);
    assert_eq!(error.err().unwrap(), TipRouterError::DenominatorIsZero);
}

#[test]
fn test_update_fees() {
    const BLOCK_ENGINE_FEE: u16 = 100;
    const NEW_BLOCK_ENGINE_FEE: u16 = 500;
    const DAO_FEE: u16 = 200;
    const NEW_DAO_FEE: u16 = 600;
    const NEW_NEW_DAO_FEE: u16 = 800;
    const DEFAULT_NCN_FEE: u16 = 300;
    const NEW_DEFAULT_NCN_FEE: u16 = 700;
    const NEW_NEW_DEFAULT_NCN_FEE: u16 = 900;
    const STARTING_EPOCH: u64 = 10;

    let dao_fee_wallet = unique_key();
    let new_dao_fee_wallet = unique_key();

    let mut fee_config = FeeConfig::new(
        dao_fee_wallet,
        BLOCK_ENGINE_FEE,
        DAO_FEE,
        DEFAULT_NCN_FEE,
        STARTING_EPOCH,
    )
    .unwrap();

    fee_config
        .update_fee_config(
            Some(NEW_BLOCK_ENGINE_FEE),
            None,
            Some(new_dao_fee_wallet),
            Some(NEW_DAO_FEE),
            None,
            Some(NEW_DEFAULT_NCN_FEE),
            STARTING_EPOCH,
        )
        .unwrap();

    assert_eq!(fee_config.block_engine_fee_bps(), NEW_BLOCK_ENGINE_FEE);

    let dao_fee_group = BaseFeeGroup::default();

    assert_eq!(
        fee_config.base_fee_wallet(dao_fee_group).unwrap(),
        new_dao_fee_wallet
    );

    let current_fees = fee_config.current_fees(STARTING_EPOCH);
    let next_epoch_fees = fee_config.current_fees(STARTING_EPOCH + 1);

    assert_eq!(current_fees.base_fee_bps(dao_fee_group).unwrap(), DAO_FEE);
    assert_eq!(
        next_epoch_fees.base_fee_bps(dao_fee_group).unwrap(),
        NEW_DAO_FEE
    );

    let default_ncn_fee_group = NcnFeeGroup::default();

    assert_eq!(
        current_fees.ncn_fee_bps(default_ncn_fee_group).unwrap(),
        DEFAULT_NCN_FEE
    );
    assert_eq!(
        next_epoch_fees.ncn_fee_bps(default_ncn_fee_group).unwrap(),
        NEW_DEFAULT_NCN_FEE
    );

    // test update again
    fee_config
        .update_fee_config(
            None,
            None,
            None,
            Some(NEW_NEW_DAO_FEE),
            None,
            Some(NEW_NEW_DEFAULT_NCN_FEE),
            STARTING_EPOCH + 1,
        )
        .unwrap();

    assert_eq!(fee_config.block_engine_fee_bps(), NEW_BLOCK_ENGINE_FEE);

    let dao_fee_group = BaseFeeGroup::default();

    assert_eq!(
        fee_config.base_fee_wallet(dao_fee_group).unwrap(),
        new_dao_fee_wallet
    );

    let current_fees = fee_config.current_fees(STARTING_EPOCH + 1);
    let next_epoch_fees = fee_config.current_fees(STARTING_EPOCH + 2);

    assert_eq!(
        current_fees.base_fee_bps(dao_fee_group).unwrap(),
        NEW_DAO_FEE
    );
    assert_eq!(
        next_epoch_fees.base_fee_bps(dao_fee_group).unwrap(),
        NEW_NEW_DAO_FEE
    );

    let default_ncn_fee_group = NcnFeeGroup::default();

    assert_eq!(
        current_fees.ncn_fee_bps(default_ncn_fee_group).unwrap(),
        NEW_DEFAULT_NCN_FEE
    );
    assert_eq!(
        next_epoch_fees.ncn_fee_bps(default_ncn_fee_group).unwrap(),
        NEW_NEW_DEFAULT_NCN_FEE
    );
}

#[test]
fn test_update_fees_no_change() {
    const BLOCK_ENGINE_FEE: u16 = 100;
    const DAO_FEE: u16 = 200;
    const DEFAULT_NCN_FEE: u16 = 300;
    const STARTING_EPOCH: u64 = 10;

    let dao_fee_wallet = unique_key();

    let mut fee_config = FeeConfig::new(
        dao_fee_wallet,
        BLOCK_ENGINE_FEE,
        DAO_FEE,
        DEFAULT_NCN_FEE,
        STARTING_EPOCH,
    )
    .unwrap();

    fee_config
        .update_fee_config(None, None, None, None, None, None, STARTING_EPOCH)
        .unwrap();

    assert_eq!(fee_config.block_engine_fee_bps(), BLOCK_ENGINE_FEE);

    let dao_fee_group = BaseFeeGroup::default();

    assert_eq!(
        fee_config.base_fee_wallet(dao_fee_group).unwrap(),
        dao_fee_wallet
    );

    let current_fees = fee_config.current_fees(STARTING_EPOCH);
    let next_epoch_fees = fee_config.current_fees(STARTING_EPOCH + 1);

    assert_eq!(current_fees.base_fee_bps(dao_fee_group).unwrap(), DAO_FEE);
    assert_eq!(
        next_epoch_fees.base_fee_bps(dao_fee_group).unwrap(),
        DAO_FEE
    );

    let default_ncn_fee_group = NcnFeeGroup::default();

    assert_eq!(
        current_fees.ncn_fee_bps(default_ncn_fee_group).unwrap(),
        DEFAULT_NCN_FEE
    );
    assert_eq!(
        next_epoch_fees.ncn_fee_bps(default_ncn_fee_group).unwrap(),
        DEFAULT_NCN_FEE
    );
}

#[test]
fn test_update_different_group_fees() {
    const BLOCK_ENGINE_FEE: u16 = 100;
    const DAO_FEE: u16 = 200;
    const NEW_BASE_FEE: u16 = 500;
    const DEFAULT_NCN_FEE: u16 = 300;
    const NEW_NCN_FEE: u16 = 600;
    const STARTING_EPOCH: u64 = 10;

    let dao_fee_wallet = unique_key();
    let new_base_fee = unique_key();

    let mut fee_config = FeeConfig::new(
        dao_fee_wallet,
        BLOCK_ENGINE_FEE,
        DAO_FEE,
        DEFAULT_NCN_FEE,
        STARTING_EPOCH,
    )
    .unwrap();

    for base_fee_group in BaseFeeGroup::all_groups().iter() {
        fee_config
            .update_fee_config(
                None,
                Some(*base_fee_group),
                Some(new_base_fee),
                Some(NEW_BASE_FEE),
                None,
                None,
                STARTING_EPOCH,
            )
            .unwrap();

        assert_eq!(
            fee_config.base_fee_wallet(*base_fee_group).unwrap(),
            new_base_fee
        );

        let current_fees = fee_config.current_fees(STARTING_EPOCH);
        let next_epoch_fees = fee_config.current_fees(STARTING_EPOCH + 1);

        if base_fee_group.group == BaseFeeGroup::default().group {
            assert_eq!(current_fees.base_fee_bps(*base_fee_group).unwrap(), DAO_FEE);
        } else {
            assert_eq!(current_fees.base_fee_bps(*base_fee_group).unwrap(), 0);
        }

        assert_eq!(
            next_epoch_fees.base_fee_bps(*base_fee_group).unwrap(),
            NEW_BASE_FEE
        );
    }

    for ncn_fee_group in NcnFeeGroup::all_groups().iter() {
        fee_config
            .update_fee_config(
                None,
                None,
                None,
                None,
                Some(*ncn_fee_group),
                Some(NEW_NCN_FEE),
                STARTING_EPOCH,
            )
            .unwrap();

        let current_fees = fee_config.current_fees(STARTING_EPOCH);
        let next_epoch_fees = fee_config.current_fees(STARTING_EPOCH + 1);

        if ncn_fee_group.group == NcnFeeGroup::default().group {
            assert_eq!(
                current_fees.ncn_fee_bps(*ncn_fee_group).unwrap(),
                DEFAULT_NCN_FEE
            );
        } else {
            assert_eq!(current_fees.ncn_fee_bps(*ncn_fee_group).unwrap(), 0);
        }

        assert_eq!(
            next_epoch_fees.ncn_fee_bps(*ncn_fee_group).unwrap(),
            NEW_NCN_FEE
        );
    }

    assert_eq!(fee_config.block_engine_fee_bps(), BLOCK_ENGINE_FEE);
}

#[test]
fn test_check_fees_okay() {
    const BLOCK_ENGINE_FEE: u16 = 100;
    const DAO_FEE: u16 = 200;
    const DEFAULT_NCN_FEE: u16 = 300;
    const STARTING_EPOCH: u64 = 10;

    let dao_fee_wallet = unique_key();

    let fee_config = FeeConfig::new(
        dao_fee_wallet,
        BLOCK_ENGINE_FEE,
        DAO_FEE,
        DEFAULT_NCN_FEE,
        STARTING_EPOCH,
    )
    .unwrap();

    fee_config.check_fees_okay(STARTING_EPOCH).unwrap();
}

#[test]
fn test_current_fee() {
    let mut fee_config = FeeConfig::new(unique_key(), 100, 200, 300, 5).unwrap();

    assert_eq!(fee_config.current_fees(5).activation_epoch(), 5);

    fee_config.fee_1.set_activation_epoch(10);

    assert_eq!(fee_config.current_fees(5).activation_epoch(), 5);
    assert_eq!(fee_config.current_fees(10).activation_epoch(), 10);

    fee_config.fee_2.set_activation_epoch(15);

    assert_eq!(fee_config.current_fees(12).activation_epoch(), 10);
    assert_eq!(fee_config.current_fees(15).activation_epoch(), 15);
}

#[test]
fn test_get_updatable_fee_mut() {
    let mut fee_config = FeeConfig::new(unique_key(), 100, 200, 300, 5).unwrap();

    let base_fee_group = BaseFeeGroup::default();

    let fees = fee_config.updatable_fees(10);
    fees.set_base_fee_bps(base_fee_group, 400).unwrap();
    fees.set_activation_epoch(11);

    assert_eq!(fee_config.fee_1.base_fee_bps(base_fee_group).unwrap(), 400);
    assert_eq!(fee_config.fee_1.activation_epoch(), 11);

    fee_config.fee_2.set_activation_epoch(13);

    let fees = fee_config.updatable_fees(12);
    fees.set_base_fee_bps(base_fee_group, 500).unwrap();
    fees.set_activation_epoch(13);

    assert_eq!(fee_config.fee_2.base_fee_bps(base_fee_group).unwrap(), 500);
    assert_eq!(fee_config.fee_2.activation_epoch(), 13);

    assert_eq!(fee_config.updatable_fees(u64::MAX).activation_epoch(), 11);
}

