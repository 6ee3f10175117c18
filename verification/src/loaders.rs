use vstd::prelude::*;

use crate::{
    error::TipRouterError,
    pda::{program_address, try_find_program_address},
    pubkey::Pubkey,
};

verus! {

/// What loading an account reads of it: its address, its owner, whether it
/// is writable, and its data.
pub struct AccountView {
    pub key: Pubkey,
    pub owner: Pubkey,
    pub is_writable: bool,
    pub data: Vec<u8>,
}

/// The program errors that loading accounts and sizing them report.
#[derive(Debug, Clone, Copy, PartialEq, Eq, Structural)]
pub enum ProgramError {
    /// The account is not owned by the expected program.
    InvalidAccountOwner,
    /// The account is at the wrong address, its data is empty or of the
    /// wrong kind, or it is not writable when it must be.
    InvalidAccountData,
    /// The account is not at the address its seeds give.
    InvalidSeeds,
    /// The account already holds data.
    AccountAlreadyInitialized,
    /// A size computation overflowed.
    ArithmeticOverflow,
    /// No bump seed gives an address for the account's seeds.
    NoProgramAddress,
    /// An error of the tip router, by its code.
    Custom(u32),
}

impl From<TipRouterError> for ProgramError {
    fn from(e: TipRouterError) -> (p: ProgramError) {
        ProgramError::Custom(e.code())
    }
}

impl vstd::std_specs::convert::FromSpecImpl<TipRouterError> for ProgramError {
    open spec fn obeys_from_spec() -> bool {
        true
    }

    open spec fn from_spec(e: TipRouterError) -> ProgramError {
        ProgramError::Custom(crate::error::error_code(e))
    }
}

/// What checking an account gives: the owner first, then the address, then
/// the kind of data (when a kind is expected), then writability.
pub open spec fn load_check(
    program_id: Seq<u8>,
    key: Seq<u8>,
    owner: Seq<u8>,
    is_writable: bool,
    data: Seq<u8>,
    expected_pda: Seq<u8>,
    expected_discriminator: Option<u8>,
    expect_writable: bool,
) -> Result<(), ProgramError> {
    if owner != program_id {
        Err(ProgramError::InvalidAccountOwner)
    } else if key != expected_pda {
        Err(ProgramError::InvalidAccountData)
    } else if expected_discriminator matches Some(d) && (data.len() == 0 || data[0] != d) {
        Err(ProgramError::InvalidAccountData)
    } else if expect_writable && !is_writable {
        Err(ProgramError::InvalidAccountData)
    } else {
        Ok(())
    }
}

/// Checks that `account` is owned by `program_id`, sits at `expected_pda`,
/// holds data of the expected kind, and is writable if it must be.
pub fn check_load(
    program_id: &Pubkey,
    account: &AccountView,
    expected_pda: &Pubkey,
    expected_discriminator: Option<u8>,
    expect_writable: bool,
) -> (r: Result<(), ProgramError>)
    ensures
        r == load_check(
            program_id@,
            account.key@,
            account.owner@,
            account.is_writable,
            account.data@,
            expected_pda@,
            expected_discriminator,
            expect_writable,
        ),
{
    if !account.owner.same_as(program_id) {
        return Err(ProgramError::InvalidAccountOwner);
    }
    if !account.key.same_as(expected_pda) {
        return Err(ProgramError::InvalidAccountData);
    }
    if let Some(discriminator) = expected_discriminator {
        if account.data.len() == 0 {
            return Err(ProgramError::InvalidAccountData);
        }
        if account.data[0] != discriminator {
            return Err(ProgramError::InvalidAccountData);
        }
    }
    if expect_writable && !account.is_writable {
        return Err(ProgramError::InvalidAccountData);
    }
    Ok(())
}

/// The epoch of the NCN and the epoch length, given the epoch length read
/// from the restaking config: the epoch of `first_slot_of_ncn_epoch` (or of
/// the current slot), which must not be later than the current epoch.
pub open spec fn ncn_epoch_of(ncn_epoch_length: u64, current_slot: u64, first_slot_of_ncn_epoch: Option<u64>) -> Result<
    (u64, u64),
    TipRouterError,
> {
    if ncn_epoch_length == 0 {
        Err(TipRouterError::DenominatorIsZero)
    } else {
        let slot: u64 = match first_slot_of_ncn_epoch {
            Some(s) => s,
            None => current_slot,
        };
        if slot / ncn_epoch_length > current_slot / ncn_epoch_length {
            Err(TipRouterError::CannotCreateFutureWeightTables)
        } else {
            Ok(((slot / ncn_epoch_length) as u64, ncn_epoch_length))
        }
    }
}

/// The NCN epoch to work on and the epoch length, from the epoch length that
/// the restaking config holds.
pub fn load_ncn_epoch(ncn_epoch_length: u64, current_slot: u64, first_slot_of_ncn_epoch: Option<u64>) -> (r:
    Result<(u64, u64), TipRouterError>)
    ensures
        r == ncn_epoch_of(ncn_epoch_length, current_slot, first_slot_of_ncn_epoch),
{
    let current_ncn_epoch = match current_slot.checked_div(ncn_epoch_length) {
        Some(e) => e,
        None => {
            return Err(TipRouterError::DenominatorIsZero);
        },
    };
    let ncn_epoch_slot = match first_slot_of_ncn_epoch {
        Some(s) => s,
        None => current_slot,
    };
    let ncn_epoch = ncn_epoch_slot / ncn_epoch_length;
    if ncn_epoch > current_ncn_epoch {
        return Err(TipRouterError::CannotCreateFutureWeightTables);
    }
    Ok((ncn_epoch, ncn_epoch_length))
}

/// What loading an account whose address comes from `seeds` under
/// `program_id` gives, when `owner_id` must own it.
pub open spec fn load_at(
    seeds: Seq<Seq<u8>>,
    program_id: Seq<u8>,
    owner_id: Seq<u8>,
    account: AccountView,
    expected_discriminator: Option<u8>,
    expect_writable: bool,
) -> Result<(), ProgramError> {
    match program_address(seeds, program_id) {
        None => Err(ProgramError::NoProgramAddress),
        Some((pda, _)) => load_check(
            owner_id,
            account.key@,
            account.owner@,
            account.is_writable,
            account.data@,
            pda,
            expected_discriminator,
            expect_writable,
        ),
    }
}

/// Loads an account whose address comes from `seeds` under `program_id`.
pub(crate) fn check_load_at(
    seeds: &Vec<Vec<u8>>,
    program_id: &Pubkey,
    owner_id: &Pubkey,
    account: &AccountView,
    expected_discriminator: Option<u8>,
    expect_writable: bool,
) -> (r: Result<(), ProgramError>)
    ensures
        r == load_at(seeds.deep_view(), program_id@, owner_id@, *account, expected_discriminator, expect_writable),
{
    match try_find_program_address(seeds, program_id) {
        None => Err(ProgramError::NoProgramAddress),
        Some((pda, _)) => check_load(owner_id, account, &pda, expected_discriminator, expect_writable),
    }
}

} // verus!
