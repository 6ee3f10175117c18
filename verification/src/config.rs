use vstd::prelude::*;

use vstd::string::StringSliceAdditionalSpecFns;

use crate::{
    discriminators::{Discriminators, discriminator_value},
    fees::FeeConfig,
    loaders::{AccountView, ProgramError, check_load_at, load_at},
    pda::{address_with_seeds, find_address, seed_list, tag_bytes},
    pubkey::Pubkey,
};

verus! {

/// The admins of the configuration besides the NCN's.
#[derive(Debug, Clone, Copy, PartialEq, Eq, Structural)]
pub enum ConfigAdminRole {
    FeeAdmin,
    TieBreakerAdmin,
}

/// The seeds of the address of an NCN's configuration.
pub open spec fn config_seeds(ncn: Seq<u8>) -> Seq<Seq<u8>> {
    seq!["config".spec_bytes(), ncn]
}

/// The configuration of the tip router for an NCN.
#[derive(Debug, Clone, Copy)]
pub struct Config {
    /// The restaking program's NCN admin creates and updates this account.
    pub ncn: Pubkey,
    /// The admin who may set the tie-breaking root when voting stalls.
    pub tie_breaker_admin: Pubkey,
    /// The admin who may update the fee configuration.
    pub fee_admin: Pubkey,
    /// How many slots after consensus voting is still valid.
    pub valid_slots_after_consensus: u64,
    /// How many epochs before voting is considered stalled.
    pub epochs_before_stall: u64,
    /// The fee configuration.
    pub fee_config: FeeConfig,
    /// The bump seed of the account's address.
    pub bump: u8,
}

impl Config {
    pub fn new(
        ncn: &Pubkey,
        tie_breaker_admin: &Pubkey,
        fee_admin: &Pubkey,
        fee_config: &FeeConfig,
        valid_slots_after_consensus: u64,
        epochs_before_stall: u64,
        bump: u8,
    ) -> (c: Self)
        ensures
            c.ncn == *ncn,
            c.tie_breaker_admin == *tie_breaker_admin,
            c.fee_admin == *fee_admin,
            c.fee_config@ == fee_config@,
            c.valid_slots_after_consensus == valid_slots_after_consensus,
            c.epochs_before_stall == epochs_before_stall,
            c.bump == bump,
    {
        Config {
            ncn: *ncn,
            tie_breaker_admin: *tie_breaker_admin,
            fee_admin: *fee_admin,
            valid_slots_after_consensus,
            epochs_before_stall,
            fee_config: *fee_config,
            bump,
        }
    }

    pub fn seeds(ncn: &Pubkey) -> (s: Vec<Vec<u8>>)
        ensures
            s.deep_view() == config_seeds(ncn@),
    {
        let s = seed_list(vec![tag_bytes("config"), ncn.to_byte_vec()]);
        assert(s.deep_view() =~= config_seeds(ncn@));
        s
    }

    /// The configuration's address, bump seed and seeds; `None` where no
    /// bump seed gives an address.
    pub fn find_program_address(program_id: &Pubkey, ncn: &Pubkey) -> (r: Option<(Pubkey, u8, Vec<Vec<u8>>)>)
        ensures
            address_with_seeds(config_seeds(ncn@), program_id@, r),
    {
        find_address(Self::seeds(ncn), program_id)
    }

    /// Checks that `account` is the configuration of `ncn`.
    pub fn load(program_id: &Pubkey, ncn: &Pubkey, account: &AccountView, expect_writable: bool) -> (r: Result<
        (),
        ProgramError,
    >)
        ensures
            r == load_at(
                config_seeds(ncn@),
                program_id@,
                program_id@,
                *account,
                Some(discriminator_value(Discriminators::Config)),
                expect_writable,
            ),
    {
        let seeds = Self::seeds(ncn);
        check_load_at(&seeds, program_id, program_id, account, Some(Discriminators::Config.value()), expect_writable)
    }

    pub fn valid_slots_after_consensus(&self) -> (v: u64)
        ensures
            v == self.valid_slots_after_consensus,
    {
        self.valid_slots_after_consensus
    }

    pub fn epochs_before_stall(&self) -> (v: u64)
        ensures
            v == self.epochs_before_stall,
    {
        self.epochs_before_stall
    }
}

} // verus!
