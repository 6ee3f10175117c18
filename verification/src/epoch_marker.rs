use vstd::prelude::*;

use vstd::string::StringSliceAdditionalSpecFns;

use crate::{
    le_bytes::{le_bytes, u64_to_le_bytes},
    loaders::{AccountView, ProgramError},
    pda::{address_with_seeds, find_address, program_address, seed_list, tag_bytes, try_find_program_address},
    pubkey::Pubkey,
};

verus! {

/// The seeds of the marker of a closed epoch.
pub open spec fn epoch_marker_seeds(ncn: Seq<u8>, epoch: u64) -> Seq<Seq<u8>> {
    seq!["epoch_marker".spec_bytes(), ncn, le_bytes(epoch as nat, 8)]
}

/// The seeds its address is found with: the NCN's bytes once more.
pub open spec fn epoch_marker_address_seeds(ncn: Seq<u8>, epoch: u64) -> Seq<Seq<u8>> {
    epoch_marker_seeds(ncn, epoch).push(ncn)
}

/// What checking that no marker exists gives: the account must sit at the
/// marker's address and hold no data.
pub open spec fn marker_absent(seeds: Seq<Seq<u8>>, program_id: Seq<u8>, account: AccountView) -> Result<
    (),
    ProgramError,
> {
    match program_address(seeds, program_id) {
        None => Err(ProgramError::NoProgramAddress),
        Some((pda, _)) => if pda != account.key@ {
            Err(ProgramError::InvalidSeeds)
        } else if account.data@.len() > 0 {
            Err(ProgramError::AccountAlreadyInitialized)
        } else {
            Ok(())
        },
    }
}

/// Marks that all the accounts of an epoch have been closed.
#[derive(Debug, Clone, Copy)]
pub struct EpochMarker {
    ncn: Pubkey,
    epoch: u64,
    slot_closed: u64,
}

impl EpochMarker {
    pub fn new(ncn: &Pubkey, epoch: u64, slot_closed: u64) -> (m: Self)
        ensures
            m.spec_ncn() == *ncn,
            m.spec_epoch() == epoch,
            m.spec_slot_closed() == slot_closed,
    {
        EpochMarker { ncn: *ncn, epoch, slot_closed }
    }

    pub closed spec fn spec_ncn(self) -> Pubkey {
        self.ncn
    }

    pub closed spec fn spec_epoch(self) -> u64 {
        self.epoch
    }

    pub closed spec fn spec_slot_closed(self) -> u64 {
        self.slot_closed
    }

    pub fn ncn(&self) -> (k: &Pubkey)
        ensures
            *k == self.spec_ncn(),
    {
        &self.ncn
    }

    pub fn epoch(&self) -> (e: u64)
        ensures
            e == self.spec_epoch(),
    {
        self.epoch
    }

    pub fn slot_closed(&self) -> (s: u64)
        ensures
            s == self.spec_slot_closed(),
    {
        self.slot_closed
    }

    pub fn seeds(ncn: &Pubkey, epoch: u64) -> (s: Vec<Vec<u8>>)
        ensures
            s.deep_view() == epoch_marker_seeds(ncn@, epoch),
    {
        let s = seed_list(vec![tag_bytes("epoch_marker"), ncn.to_byte_vec(), u64_to_le_bytes(epoch)]);
        assert(s.deep_view() =~= epoch_marker_seeds(ncn@, epoch));
        s
    }

    fn address_seeds(ncn: &Pubkey, epoch: u64) -> (s: Vec<Vec<u8>>)
        ensures
            s.deep_view() == epoch_marker_address_seeds(ncn@, epoch),
    {
        let s = seed_list(
            vec![tag_bytes("epoch_marker"), ncn.to_byte_vec(), u64_to_le_bytes(epoch), ncn.to_byte_vec()],
        );
        assert(s.deep_view() =~= epoch_marker_address_seeds(ncn@, epoch));
        s
    }

    /// The marker's address, bump seed and seeds; `None` where no bump seed
    /// gives an address.
    pub fn find_program_address(program_id: &Pubkey, ncn: &Pubkey, epoch: u64) -> (r: Option<
        (Pubkey, u8, Vec<Vec<u8>>),
    >)
        ensures
            address_with_seeds(epoch_marker_address_seeds(ncn@, epoch), program_id@, r),
    {
        find_address(Self::address_seeds(ncn, epoch), program_id)
    }

    /// Checks that no marker exists yet for `ncn` and `epoch`.
    pub fn check_dne(program_id: &Pubkey, ncn: &Pubkey, epoch: u64, account: &AccountView) -> (r: Result<
        (),
        ProgramError,
    >)
        ensures
            r == marker_absent(epoch_marker_address_seeds(ncn@, epoch), program_id@, *account),
    {
        let seeds = Self::address_seeds(ncn, epoch);
        let expected_pda = match try_find_program_address(&seeds, program_id) {
            Some((pda, _)) => pda,
            None => {
                return Err(ProgramError::NoProgramAddress);
            },
        };
        if !expected_pda.same_as(&account.key) {
            return Err(ProgramError::InvalidSeeds);
        }
        if account.data.len() > 0 {
            return Err(ProgramError::AccountAlreadyInitialized);
        }
        Ok(())
    }
}

} // verus!
