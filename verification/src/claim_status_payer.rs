use vstd::prelude::*;

use vstd::string::StringSliceAdditionalSpecFns;

use crate::{
    loaders::{AccountView, ProgramError, check_load_at, load_at},
    pda::{address_with_seeds, find_address, seed_list, tag_bytes},
    pubkey::{Pubkey, default_key},
};

verus! {

/// The seeds of the payer of claim status rent.
pub open spec fn claim_status_payer_seeds(tip_distribution_program: Seq<u8>) -> Seq<Seq<u8>> {
    seq!["claim_status_payer".spec_bytes(), tip_distribution_program]
}

/// The seeds its address is found with: the program's bytes once more.
pub open spec fn claim_status_payer_address_seeds(tip_distribution_program: Seq<u8>) -> Seq<Seq<u8>> {
    claim_status_payer_seeds(tip_distribution_program).push(tip_distribution_program)
}

/// An uninitialized account without data that holds SOL for claim status
/// rent. It must stay empty and uninitialized, or transfers from it fail.
pub struct ClaimStatusPayer {}

impl ClaimStatusPayer {
    pub fn seeds(tip_distribution_program: &Pubkey) -> (s: Vec<Vec<u8>>)
        ensures
            s.deep_view() == claim_status_payer_seeds(tip_distribution_program@),
    {
        let s = seed_list(vec![tag_bytes("claim_status_payer"), tip_distribution_program.to_byte_vec()]);
        assert(s.deep_view() =~= claim_status_payer_seeds(tip_distribution_program@));
        s
    }

    fn address_seeds(tip_distribution_program: &Pubkey) -> (s: Vec<Vec<u8>>)
        ensures
            s.deep_view() == claim_status_payer_address_seeds(tip_distribution_program@),
    {
        let s = seed_list(
            vec![
                tag_bytes("claim_status_payer"),
                tip_distribution_program.to_byte_vec(),
                tip_distribution_program.to_byte_vec(),
            ],
        );
        assert(s.deep_view() =~= claim_status_payer_address_seeds(tip_distribution_program@));
        s
    }

    /// The payer's address, bump seed and seeds; `None` where no bump seed
    /// gives an address.
    pub fn find_program_address(program_id: &Pubkey, tip_distribution_program: &Pubkey) -> (r: Option<
        (Pubkey, u8, Vec<Vec<u8>>),
    >)
        ensures
            address_with_seeds(claim_status_payer_address_seeds(tip_distribution_program@), program_id@, r),
    {
        find_address(Self::address_seeds(tip_distribution_program), program_id)
    }

    /// Checks that `account` is the payer: at its address and owned by the
    /// system program.
    pub fn load(
        program_id: &Pubkey,
        account: &AccountView,
        tip_distribution_program: &Pubkey,
        expect_writable: bool,
    ) -> (r: Result<(), ProgramError>)
        ensures
            r == load_at(
                claim_status_payer_address_seeds(tip_distribution_program@),
                program_id@,
                default_key(),
                *account,
                None,
                expect_writable,
            ),
    {
        let system_program_id = Pubkey::zeroed();
        let seeds = Self::address_seeds(tip_distribution_program);
        check_load_at(&seeds, program_id, &system_program_id, account, None, expect_writable)
    }
}

} // verus!
