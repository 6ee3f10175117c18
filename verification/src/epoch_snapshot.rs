use vstd::prelude::*;

use vstd::string::StringSliceAdditionalSpecFns;

use crate::{
    discriminators::{Discriminators, discriminator_value},
    error::TipRouterError,
    fees::{Fees, FeesView},
    le_bytes::{le_bytes, u64_to_le_bytes},
    loaders::{AccountView, ProgramError},
    ncn_fee_group::NcnFeeGroup,
    pda::{address_with_seeds, find_address, program_address, seed_list, tag_bytes, try_find_program_address},
    precise_number::{
        PreciseNumber,
        precise_checked_mul,
        precise_new,
        precise_to_imprecise,
        precise_one,
        spec_mul,
        spec_new,
        spec_to_imprecise,
        u256_bound,
    },
    pubkey::{Pubkey, default_key},
    stake_weight::StakeWeights,
    vault_registry::custom,
    weight_table::{WeightTable, first_weight_at, has_weight_for},
};

verus! {

/// What loading a snapshot account gives: its owner first, then its data,
/// writability and kind, and last its address.
pub open spec fn snapshot_load_check(
    seeds: Seq<Seq<u8>>,
    program_id: Seq<u8>,
    account: AccountView,
    discriminator: u8,
    expect_writable: bool,
) -> Result<(), ProgramError> {
    if account.owner@ != program_id {
        Err(ProgramError::InvalidAccountOwner)
    } else if account.data@.len() == 0 {
        Err(ProgramError::InvalidAccountData)
    } else if expect_writable && !account.is_writable {
        Err(ProgramError::InvalidAccountData)
    } else if account.data@[0] != discriminator {
        Err(ProgramError::InvalidAccountData)
    } else {
        match program_address(seeds, program_id) {
            None => Err(ProgramError::NoProgramAddress),
            Some((pda, _)) => if account.key@ != pda {
                Err(ProgramError::InvalidAccountData)
            } else {
                Ok(())
            },
        }
    }
}

/// Loads a snapshot account in the order `snapshot_load_check` states.
pub(crate) fn check_snapshot_load(
    seeds: &Vec<Vec<u8>>,
    program_id: &Pubkey,
    account: &AccountView,
    discriminator: u8,
    expect_writable: bool,
) -> (r: Result<(), ProgramError>)
    ensures
        r == snapshot_load_check(seeds.deep_view(), program_id@, *account, discriminator, expect_writable),
{
    if !account.owner.same_as(program_id) {
        return Err(ProgramError::InvalidAccountOwner);
    }
    if account.data.len() == 0 {
        return Err(ProgramError::InvalidAccountData);
    }
    if expect_writable && !account.is_writable {
        return Err(ProgramError::InvalidAccountData);
    }
    if account.data[0] != discriminator {
        return Err(ProgramError::InvalidAccountData);
    }
    match try_find_program_address(seeds, program_id) {
        None => Err(ProgramError::NoProgramAddress),
        Some((pda, _)) => if !account.key.same_as(&pda) {
            Err(ProgramError::InvalidAccountData)
        } else {
            Ok(())
        },
    }
}

/// The seeds of the address of an NCN's snapshot for an epoch.
pub open spec fn epoch_snapshot_seeds(ncn: Seq<u8>, ncn_epoch: u64) -> Seq<Seq<u8>> {
    seq!["epoch_snapshot".spec_bytes(), ncn, le_bytes(ncn_epoch as nat, 8)]
}

/// The seeds of the address of an operator's snapshot for an epoch.
pub open spec fn operator_snapshot_seeds(operator: Seq<u8>, ncn: Seq<u8>, ncn_epoch: u64) -> Seq<Seq<u8>> {
    seq!["operator_snapshot".spec_bytes(), operator, ncn, le_bytes(ncn_epoch as nat, 8)]
}

/// The model of an epoch snapshot.
pub struct EpochSnapshotView {
    pub ncn: Seq<u8>,
    pub epoch: u64,
    pub bump: u8,
    pub slot_created: u64,
    pub slot_finalized: u64,
    pub fees: FeesView,
    pub operator_count: u64,
    pub vault_count: u64,
    pub operators_registered: u64,
    pub valid_operator_vault_delegations: u64,
    pub stake_weights: StakeWeights,
}

/// A snapshot of an NCN for an epoch: its fees, its operators and vaults, and
/// the stake weights registered so far.
#[derive(Debug, Clone, Copy)]
pub struct EpochSnapshot {
    ncn: Pubkey,
    epoch: u64,
    bump: u8,
    slot_created: u64,
    slot_finalized: u64,
    fees: Fees,
    operator_count: u64,
    vault_count: u64,
    /// The number of operators registered so far.
    pub operators_registered: u64,
    valid_operator_vault_delegations: u64,
    stake_weights: StakeWeights,
}

impl View for EpochSnapshot {
    type V = EpochSnapshotView;

    closed spec fn view(&self) -> EpochSnapshotView {
        EpochSnapshotView {
            ncn: self.ncn@,
            epoch: self.epoch,
            bump: self.bump,
            slot_created: self.slot_created,
            slot_finalized: self.slot_finalized,
            fees: self.fees@,
            operator_count: self.operator_count,
            vault_count: self.vault_count,
            operators_registered: self.operators_registered,
            valid_operator_vault_delegations: self.valid_operator_vault_delegations,
            stake_weights: self.stake_weights,
        }
    }
}

impl EpochSnapshot {
    pub fn new(
        ncn: &Pubkey,
        ncn_epoch: u64,
        bump: u8,
        current_slot: u64,
        fees: &Fees,
        operator_count: u64,
        vault_count: u64,
    ) -> (s: Self)
        ensures
            s@.ncn == ncn@,
            s@.epoch == ncn_epoch,
            s@.bump == bump,
            s@.slot_created == current_slot,
            s@.slot_finalized == 0,
            s@.fees == fees@,
            s@.operator_count == operator_count,
            s@.vault_count == vault_count,
            s@.operators_registered == 0,
            s@.valid_operator_vault_delegations == 0,
            s@.stake_weights.only_total(0),
    {
        EpochSnapshot {
            ncn: *ncn,
            epoch: ncn_epoch,
            bump,
            slot_created: current_slot,
            slot_finalized: 0,
            fees: *fees,
            operator_count,
            vault_count,
            operators_registered: 0,
            valid_operator_vault_delegations: 0,
            stake_weights: StakeWeights::default(),
        }
    }

    pub fn seeds(ncn: &Pubkey, ncn_epoch: u64) -> (s: Vec<Vec<u8>>)
        ensures
            s.deep_view() == epoch_snapshot_seeds(ncn@, ncn_epoch),
    {
        let s = seed_list(vec![tag_bytes("epoch_snapshot"), ncn.to_byte_vec(), u64_to_le_bytes(ncn_epoch)]);
        assert(s.deep_view() =~= epoch_snapshot_seeds(ncn@, ncn_epoch));
        s
    }

    /// The snapshot's address, bump seed and seeds; `None` where no bump
    /// seed gives an address.
    pub fn find_program_address(program_id: &Pubkey, ncn: &Pubkey, ncn_epoch: u64) -> (r: Option<
        (Pubkey, u8, Vec<Vec<u8>>),
    >)
        ensures
            address_with_seeds(epoch_snapshot_seeds(ncn@, ncn_epoch), program_id@, r),
    {
        find_address(Self::seeds(ncn, ncn_epoch), program_id)
    }

    /// Checks that `epoch_snapshot` is the snapshot of `ncn` for `ncn_epoch`.
    pub fn load(
        program_id: &Pubkey,
        ncn: &Pubkey,
        ncn_epoch: u64,
        epoch_snapshot: &AccountView,
        expect_writable: bool,
    ) -> (r: Result<(), ProgramError>)
        ensures
            r == snapshot_load_check(
                epoch_snapshot_seeds(ncn@, ncn_epoch),
                program_id@,
                *epoch_snapshot,
                discriminator_value(Discriminators::EpochSnapshot),
                expect_writable,
            ),
    {
        let seeds = Self::seeds(ncn, ncn_epoch);
        check_snapshot_load(
            &seeds,
            program_id,
            epoch_snapshot,
            Discriminators::EpochSnapshot.value(),
            expect_writable,
        )
    }

    pub fn operator_count(&self) -> (c: u64)
        ensures
            c == self@.operator_count,
    {
        self.operator_count
    }

    pub fn vault_count(&self) -> (c: u64)
        ensures
            c == self@.vault_count,
    {
        self.vault_count
    }

    pub fn operators_registered(&self) -> (c: u64)
        ensures
            c == self@.operators_registered,
    {
        self.operators_registered
    }

    pub fn valid_operator_vault_delegations(&self) -> (c: u64)
        ensures
            c == self@.valid_operator_vault_delegations,
    {
        self.valid_operator_vault_delegations
    }

    pub fn stake_weights(&self) -> (s: &StakeWeights)
        ensures
            *s == self@.stake_weights,
    {
        &self.stake_weights
    }

    pub fn fees(&self) -> (f: &Fees)
        ensures
            f@ == self@.fees,
    {
        &self.fees
    }

    /// Whether every operator is registered.
    pub fn finalized(&self) -> (b: bool)
        ensures
            b == (self@.operators_registered == self@.operator_count),
    {
        self.operators_registered == self.operator_count
    }

    /// Registers one operator with its number of valid delegations and its
    /// stake weights; the snapshot is finalized in `current_slot` once the
    /// last operator is registered.
    pub fn increment_operator_registration(
        &mut self,
        current_slot: u64,
        vault_operator_delegations: u64,
        stake_weight: &StakeWeights,
    ) -> (r: Result<(), TipRouterError>)
        ensures
            ({
                let o = old(self)@;
                let f = final(self)@;
                if o.operators_registered == o.operator_count {
                    r == Err::<(), TipRouterError>(TipRouterError::OperatorFinalized) && f == o
                } else if o.operators_registered + 1 > u64::MAX {
                    r == Err::<(), TipRouterError>(TipRouterError::ArithmeticOverflow) && f == o
                } else if o.valid_operator_vault_delegations + vault_operator_delegations > u64::MAX {
                    r == Err::<(), TipRouterError>(TipRouterError::ArithmeticOverflow) && f == (
                    EpochSnapshotView { operators_registered: (o.operators_registered + 1) as u64, ..o })
                } else {
                    let counted = EpochSnapshotView {
                        operators_registered: (o.operators_registered + 1) as u64,
                        valid_operator_vault_delegations: (o.valid_operator_vault_delegations
                            + vault_operator_delegations) as u64,
                        ..o
                    };
                    &&& o.stake_weights.increment_outcome(*stake_weight, f.stake_weights, r)
                    &&& r is Err ==> f == (EpochSnapshotView { stake_weights: f.stake_weights, ..counted })
                    &&& r is Ok ==> f == (EpochSnapshotView {
                        stake_weights: f.stake_weights,
                        slot_finalized: if counted.operators_registered == counted.operator_count {
                            current_slot
                        } else {
                            o.slot_finalized
                        },
                        ..counted
                    })
                }
            }),
    {
        if self.finalized() {
            return Err(TipRouterError::OperatorFinalized);
        }
        self.operators_registered = match self.operators_registered.checked_add(1) {
            Some(v) => v,
            None => {
                return Err(TipRouterError::ArithmeticOverflow);
            },
        };
        self.valid_operator_vault_delegations = match self.valid_operator_vault_delegations.checked_add(
            vault_operator_delegations,
        ) {
            Some(v) => v,
            None => {
                return Err(TipRouterError::ArithmeticOverflow);
            },
        };
        self.stake_weights.increment(stake_weight)?;
        if self.finalized() {
            self.slot_finalized = current_slot;
        }
        Ok(())
    }
}

/// The model of a vault's stake weight in an operator snapshot.
pub struct VaultOperatorStakeWeightView {
    pub vault: Seq<u8>,
    pub vault_index: u64,
    pub ncn_fee_group: NcnFeeGroup,
    pub stake_weight: StakeWeights,
}

/// The index that marks an unused slot.
pub const EMPTY_VAULT_INDEX: u64 = 0xffff_ffff_ffff_ffff;

/// The stake weight that one vault delegates to an operator.
#[derive(Debug, Clone, Copy)]
pub struct VaultOperatorStakeWeight {
    vault: Pubkey,
    vault_index: u64,
    ncn_fee_group: NcnFeeGroup,
    stake_weight: StakeWeights,
}

impl View for VaultOperatorStakeWeight {
    type V = VaultOperatorStakeWeightView;

    closed spec fn view(&self) -> VaultOperatorStakeWeightView {
        VaultOperatorStakeWeightView {
            vault: self.vault@,
            vault_index: self.vault_index,
            ncn_fee_group: self.ncn_fee_group,
            stake_weight: self.stake_weight,
        }
    }
}

impl Default for VaultOperatorStakeWeight {
    /// An unused slot.
    fn default() -> (w: Self)
        ensures
            w@.vault == default_key(),
            w@.vault_index == EMPTY_VAULT_INDEX,
            w@.ncn_fee_group == (NcnFeeGroup { group: 0 }),
            w@.stake_weight.only_total(0),
    {
        VaultOperatorStakeWeight {
            vault: Pubkey::default(),
            vault_index: EMPTY_VAULT_INDEX,
            ncn_fee_group: NcnFeeGroup::default(),
            stake_weight: StakeWeights::default(),
        }
    }
}

impl VaultOperatorStakeWeight {
    pub fn new(vault: &Pubkey, vault_index: u64, ncn_fee_group: NcnFeeGroup, stake_weight: &StakeWeights) -> (w:
        Self)
        ensures
            w@ == (VaultOperatorStakeWeightView {
                vault: vault@,
                vault_index,
                ncn_fee_group,
                stake_weight: *stake_weight,
            }),
    {
        VaultOperatorStakeWeight { vault: *vault, vault_index, ncn_fee_group, stake_weight: *stake_weight }
    }

    /// Whether this slot is unused.
    pub fn is_empty(&self) -> (b: bool)
        ensures
            b == (self@.vault_index == EMPTY_VAULT_INDEX),
    {
        self.vault_index == EMPTY_VAULT_INDEX
    }

    pub fn vault_index(&self) -> (i: u64)
        ensures
            i == self@.vault_index,
    {
        self.vault_index
    }

    pub fn stake_weights(&self) -> (s: &StakeWeights)
        ensures
            *s == self@.stake_weight,
    {
        &self.stake_weight
    }

    pub fn vault(&self) -> (k: &Pubkey)
        ensures
            k@ == self@.vault,
    {
        &self.vault
    }

    pub fn ncn_fee_group(&self) -> (g: NcnFeeGroup)
        ensures
            g == self@.ncn_fee_group,
    {
        self.ncn_fee_group
    }
}

/// The model of an operator snapshot.
pub struct OperatorSnapshotView {
    pub operator: Seq<u8>,
    pub ncn: Seq<u8>,
    pub ncn_epoch: u64,
    pub bump: u8,
    pub slot_created: u64,
    pub slot_finalized: u64,
    pub is_active: bool,
    pub ncn_operator_index: u64,
    pub operator_index: u64,
    pub operator_fee_bps: u16,
    pub vault_operator_delegation_count: u64,
    pub vault_operator_delegations_registered: u64,
    pub valid_operator_vault_delegations: u64,
    pub stake_weights: StakeWeights,
    pub vault_operator_stake_weight: Seq<VaultOperatorStakeWeightView>,
}

/// The operator snapshot's slots, all unused.
pub open spec fn empty_vault_weights(w: Seq<VaultOperatorStakeWeightView>) -> bool {
    &&& w.len() == 64
    &&& forall|i: int|
        0 <= i < 64 ==> (#[trigger] w[i]).vault == default_key() && w[i].vault_index == EMPTY_VAULT_INDEX
            && w[i].ncn_fee_group == (NcnFeeGroup { group: 0 }) && w[i].stake_weight.only_total(0)
}

/// Whether some slot holds vault index `vault_index`.
pub open spec fn holds_vault_index(w: Seq<VaultOperatorStakeWeightView>, vault_index: u64) -> bool {
    exists|i: int| 0 <= i < w.len() && (#[trigger] w[i]).vault_index == vault_index
}

/// A snapshot of one operator for an epoch: whether it is active, its fee,
/// and the stake weight each vault delegates to it.
#[derive(Debug, Clone, Copy)]
pub struct OperatorSnapshot {
    operator: Pubkey,
    ncn: Pubkey,
    ncn_epoch: u64,
    bump: u8,
    slot_created: u64,
    slot_finalized: u64,
    is_active: bool,
    ncn_operator_index: u64,
    operator_index: u64,
    operator_fee_bps: u16,
    vault_operator_delegation_count: u64,
    /// The number of delegations registered so far.
    pub vault_operator_delegations_registered: u64,
    valid_operator_vault_delegations: u64,
    stake_weights: StakeWeights,
    vault_operator_stake_weight: [VaultOperatorStakeWeight; 64],
}

impl View for OperatorSnapshot {
    type V = OperatorSnapshotView;

    closed spec fn view(&self) -> OperatorSnapshotView {
        OperatorSnapshotView {
            operator: self.operator@,
            ncn: self.ncn@,
            ncn_epoch: self.ncn_epoch,
            bump: self.bump,
            slot_created: self.slot_created,
            slot_finalized: self.slot_finalized,
            is_active: self.is_active,
            ncn_operator_index: self.ncn_operator_index,
            operator_index: self.operator_index,
            operator_fee_bps: self.operator_fee_bps,
            vault_operator_delegation_count: self.vault_operator_delegation_count,
            vault_operator_delegations_registered: self.vault_operator_delegations_registered,
            valid_operator_vault_delegations: self.valid_operator_vault_delegations,
            stake_weights: self.stake_weights,
            vault_operator_stake_weight: self.vault_operator_stake_weight@.map_values(
                |w: VaultOperatorStakeWeight| w@,
            ),
        }
    }
}

impl OperatorSnapshot {
    pub proof fn lemma_lengths(&self)
        ensures
            self@.vault_operator_stake_weight.len() == 64,
    {
    }

    fn empty_weights() -> (w: [VaultOperatorStakeWeight; 64])
        ensures
            empty_vault_weights(w@.map_values(|x: VaultOperatorStakeWeight| x@)),
    {
        [VaultOperatorStakeWeight::default(); 64]
    }

    pub fn new(
        operator: &Pubkey,
        ncn: &Pubkey,
        ncn_epoch: u64,
        bump: u8,
        current_slot: u64,
        is_active: bool,
        ncn_operator_index: u64,
        operator_index: u64,
        operator_fee_bps: u16,
        vault_operator_delegation_count: u64,
    ) -> (r: Result<Self, TipRouterError>)
        ensures
            vault_operator_delegation_count > 64 ==> r == Err::<OperatorSnapshot, TipRouterError>(
                TipRouterError::TooManyVaultOperatorDelegations,
            ),
            vault_operator_delegation_count <= 64 ==> (r matches Ok(s) && {
                &&& s@.operator == operator@
                &&& s@.ncn == ncn@
                &&& s@.ncn_epoch == ncn_epoch
                &&& s@.bump == bump
                &&& s@.slot_created == current_slot
                &&& s@.slot_finalized == 0
                &&& s@.is_active == is_active
                &&& s@.ncn_operator_index == ncn_operator_index
                &&& s@.operator_index == operator_index
                &&& s@.operator_fee_bps == operator_fee_bps
                &&& s@.vault_operator_delegation_count == vault_operator_delegation_count
                &&& s@.vault_operator_delegations_registered == 0
                &&& s@.valid_operator_vault_delegations == 0
                &&& s@.stake_weights.only_total(0)
                &&& empty_vault_weights(s@.vault_operator_stake_weight)
            }),
    {
        if vault_operator_delegation_count > 64 {
            return Err(TipRouterError::TooManyVaultOperatorDelegations);
        }
        Ok(OperatorSnapshot {
            operator: *operator,
            ncn: *ncn,
            ncn_epoch,
            bump,
            slot_created: current_slot,
            slot_finalized: 0,
            is_active,
            ncn_operator_index,
            operator_index,
            operator_fee_bps,
            vault_operator_delegation_count,
            vault_operator_delegations_registered: 0,
            valid_operator_vault_delegations: 0,
            stake_weights: StakeWeights::default(),
            vault_operator_stake_weight: Self::empty_weights(),
        })
    }

    /// Resets the snapshot. An inactive operator is finalized at once, with
    /// no fee and no delegations.
    pub fn initialize(
        &mut self,
        operator: &Pubkey,
        ncn: &Pubkey,
        ncn_epoch: u64,
        bump: u8,
        current_slot: u64,
        is_active: bool,
        ncn_operator_index: u64,
        operator_index: u64,
        operator_fee_bps: u16,
        vault_operator_delegation_count: u64,
    ) -> (r: Result<(), TipRouterError>)
        ensures
            vault_operator_delegation_count > 64 ==> r == Err::<(), TipRouterError>(
                TipRouterError::TooManyVaultOperatorDelegations,
            ) && final(self)@ == old(self)@,
            vault_operator_delegation_count <= 64 ==> r == Ok::<(), TipRouterError>(()) && {
                let s = final(self)@;
                &&& s.operator == operator@
                &&& s.ncn == ncn@
                &&& s.ncn_epoch == ncn_epoch
                &&& s.bump == bump
                &&& s.slot_created == current_slot
                &&& s.slot_finalized == if is_active {
                    0
                } else {
                    current_slot
                }
                &&& s.is_active == is_active
                &&& s.ncn_operator_index == ncn_operator_index
                &&& s.operator_index == operator_index
                &&& s.operator_fee_bps == if is_active {
                    operator_fee_bps
                } else {
                    0
                }
                &&& s.vault_operator_delegation_count == if is_active {
                    vault_operator_delegation_count
                } else {
                    0
                }
                &&& s.vault_operator_delegations_registered == 0
                &&& s.valid_operator_vault_delegations == 0
                &&& s.stake_weights.only_total(0)
                &&& empty_vault_weights(s.vault_operator_stake_weight)
            },
    {
        if vault_operator_delegation_count > 64 {
            return Err(TipRouterError::TooManyVaultOperatorDelegations);
        }
        let slot_finalized = if !is_active {
            current_slot
        } else {
            0
        };
        let operator_fee_bps = if is_active {
            operator_fee_bps
        } else {
            0
        };
        let vault_operator_delegation_count = if is_active {
            vault_operator_delegation_count
        } else {
            0
        };
        self.operator = *operator;
        self.ncn = *ncn;
        self.ncn_epoch = ncn_epoch;
        self.bump = bump;
        self.slot_created = current_slot;
        self.slot_finalized = slot_finalized;
        self.is_active = is_active;
        self.ncn_operator_index = ncn_operator_index;
        self.operator_index = operator_index;
        self.operator_fee_bps = operator_fee_bps;
        self.vault_operator_delegation_count = vault_operator_delegation_count;
        self.vault_operator_delegations_registered = 0;
        self.valid_operator_vault_delegations = 0;
        self.stake_weights = StakeWeights::default();
        self.vault_operator_stake_weight = Self::empty_weights();
        Ok(())
    }

    pub fn seeds(operator: &Pubkey, ncn: &Pubkey, ncn_epoch: u64) -> (s: Vec<Vec<u8>>)
        ensures
            s.deep_view() == operator_snapshot_seeds(operator@, ncn@, ncn_epoch),
    {
        let s = seed_list(
            vec![
                tag_bytes("operator_snapshot"),
                operator.to_byte_vec(),
                ncn.to_byte_vec(),
                u64_to_le_bytes(ncn_epoch),
            ],
        );
        assert(s.deep_view() =~= operator_snapshot_seeds(operator@, ncn@, ncn_epoch));
        s
    }

    /// The snapshot's address, bump seed and seeds; `None` where no bump
    /// seed gives an address.
    pub fn find_program_address(program_id: &Pubkey, operator: &Pubkey, ncn: &Pubkey, ncn_epoch: u64) -> (r:
        Option<(Pubkey, u8, Vec<Vec<u8>>)>)
        ensures
            address_with_seeds(operator_snapshot_seeds(operator@, ncn@, ncn_epoch), program_id@, r),
    {
        find_address(Self::seeds(operator, ncn, ncn_epoch), program_id)
    }

    /// Checks that `operator_snapshot` is the snapshot of `operator` for
    /// `ncn` and `ncn_epoch`.
    pub fn load(
        program_id: &Pubkey,
        operator: &Pubkey,
        ncn: &Pubkey,
        ncn_epoch: u64,
        operator_snapshot: &AccountView,
        expect_writable: bool,
    ) -> (r: Result<(), ProgramError>)
        ensures
            r == snapshot_load_check(
                operator_snapshot_seeds(operator@, ncn@, ncn_epoch),
                program_id@,
                *operator_snapshot,
                discriminator_value(Discriminators::OperatorSnapshot),
                expect_writable,
            ),
    {
        let seeds = Self::seeds(operator, ncn, ncn_epoch);
        check_snapshot_load(
            &seeds,
            program_id,
            operator_snapshot,
            Discriminators::OperatorSnapshot.value(),
            expect_writable,
        )
    }

    pub fn slot_finalized(&self) -> (s: u64)
        ensures
            s == self@.slot_finalized,
    {
        self.slot_finalized
    }

    pub fn operator_fee_bps(&self) -> (f: u16)
        ensures
            f == self@.operator_fee_bps,
    {
        self.operator_fee_bps
    }

    pub fn is_active(&self) -> (b: bool)
        ensures
            b == self@.is_active,
    {
        self.is_active
    }

    pub fn operator(&self) -> (k: &Pubkey)
        ensures
            k@ == self@.operator,
    {
        &self.operator
    }

    pub fn ncn(&self) -> (k: &Pubkey)
        ensures
            k@ == self@.ncn,
    {
        &self.ncn
    }

    pub fn vault_operator_delegation_count(&self) -> (c: u64)
        ensures
            c == self@.vault_operator_delegation_count,
    {
        self.vault_operator_delegation_count
    }

    pub fn vault_operator_delegations_registered(&self) -> (c: u64)
        ensures
            c == self@.vault_operator_delegations_registered,
    {
        self.vault_operator_delegations_registered
    }

    pub fn valid_operator_vault_delegations(&self) -> (c: u64)
        ensures
            c == self@.valid_operator_vault_delegations,
    {
        self.valid_operator_vault_delegations
    }

    pub fn stake_weights(&self) -> (s: &StakeWeights)
        ensures
            *s == self@.stake_weights,
    {
        &self.stake_weights
    }

    /// Whether every delegation is registered.
    pub fn finalized(&self) -> (b: bool)
        ensures
            b == (self@.vault_operator_delegations_registered == self@.vault_operator_delegation_count),
    {
        self.vault_operator_delegations_registered == self.vault_operator_delegation_count
    }

    /// Whether some slot holds `vault_index`.
    pub fn contains_vault_index(&self, vault_index: u64) -> (b: bool)
        ensures
            b == holds_vault_index(self@.vault_operator_stake_weight, vault_index),
    {
        let mut i: usize = 0;
        while i < 64
            invariant
                i <= 64,
                self@.vault_operator_stake_weight.len() == 64,
                forall|j: int| 0 <= j < i ==> self@.vault_operator_stake_weight[j].vault_index != vault_index,
            decreases 64 - i,
        {
            if self.vault_operator_stake_weight[i].vault_index() == vault_index {
                assert(self@.vault_operator_stake_weight[i as int].vault_index == vault_index);
                return true;
            }
            i = i + 1;
        }
        false
    }

    pub fn vault_operator_stake_weight(&self) -> (w: &[VaultOperatorStakeWeight; 64])
        ensures
            w@.map_values(|x: VaultOperatorStakeWeight| x@) == self@.vault_operator_stake_weight,
    {
        &self.vault_operator_stake_weight
    }

    /// Stores a vault's stake weight in the next free slot, unless all slots
    /// are taken or the vault index is stored already.
    pub fn insert_vault_operator_stake_weight(
        &mut self,
        vault: &Pubkey,
        vault_index: u64,
        ncn_fee_group: NcnFeeGroup,
        stake_weights: &StakeWeights,
    ) -> (r: Result<(), TipRouterError>)
        ensures
            ({
                let o = old(self)@;
                let n = o.vault_operator_delegations_registered;
                if n + 1 > u64::MAX {
                    r == Err::<(), TipRouterError>(TipRouterError::ArithmeticOverflow) && final(self)@ == o
                } else if n + 1 > 64 {
                    r == Err::<(), TipRouterError>(TipRouterError::TooManyVaultOperatorDelegations) && final(self)@ == o
                } else if holds_vault_index(o.vault_operator_stake_weight, vault_index) {
                    r == Err::<(), TipRouterError>(TipRouterError::DuplicateVaultOperatorDelegation) && final(self)@ == o
                } else {
                    r == Ok::<(), TipRouterError>(()) && final(self)@ == (OperatorSnapshotView {
                        vault_operator_stake_weight: o.vault_operator_stake_weight.update(
                            n as int,
                            VaultOperatorStakeWeightView {
                                vault: vault@,
                                vault_index,
                                ncn_fee_group,
                                stake_weight: *stake_weights,
                            },
                        ),
                        ..o
                    })
                }
            }),
    {
        let next = match self.vault_operator_delegations_registered.checked_add(1) {
            Some(v) => v,
            None => {
                return Err(TipRouterError::ArithmeticOverflow);
            },
        };
        if next > 64 {
            return Err(TipRouterError::TooManyVaultOperatorDelegations);
        }
        if self.contains_vault_index(vault_index) {
            return Err(TipRouterError::DuplicateVaultOperatorDelegation);
        }
        let i = self.vault_operator_delegations_registered as usize;
        let w = VaultOperatorStakeWeight::new(vault, vault_index, ncn_fee_group, stake_weights);
        self.vault_operator_stake_weight[i] = w;
        assert(self@.vault_operator_stake_weight =~= old(self)@.vault_operator_stake_weight.update(i as int, w@));
        Ok(())
    }

    /// Registers one vault's delegation: stores its stake weight, counts it
    /// (as valid when its weight is positive), and adds its weights to the
    /// operator's; the snapshot is finalized in `current_slot` with the last.
    pub fn increment_vault_operator_delegation_registration(
        &mut self,
        current_slot: u64,
        vault: &Pubkey,
        vault_index: u64,
        ncn_fee_group: NcnFeeGroup,
        stake_weights: &StakeWeights,
    ) -> (r: Result<(), TipRouterError>)
        ensures
            ({
                let o = old(self)@;
                let f = final(self)@;
                let n = o.vault_operator_delegations_registered;
                if n == o.vault_operator_delegation_count {
                    r == Err::<(), TipRouterError>(TipRouterError::VaultOperatorDelegationFinalized) && f == o
                } else if n + 1 > u64::MAX {
                    r == Err::<(), TipRouterError>(TipRouterError::ArithmeticOverflow) && f == o
                } else if n + 1 > 64 {
                    r == Err::<(), TipRouterError>(TipRouterError::TooManyVaultOperatorDelegations) && f == o
                } else if holds_vault_index(o.vault_operator_stake_weight, vault_index) {
                    r == Err::<(), TipRouterError>(TipRouterError::DuplicateVaultOperatorDelegation) && f == o
                } else {
                    let stored = OperatorSnapshotView {
                        vault_operator_stake_weight: o.vault_operator_stake_weight.update(
                            n as int,
                            VaultOperatorStakeWeightView {
                                vault: vault@,
                                vault_index,
                                ncn_fee_group,
                                stake_weight: *stake_weights,
                            },
                        ),
                        vault_operator_delegations_registered: (n + 1) as u64,
                        ..o
                    };
                    if stake_weights.total() > 0 && o.valid_operator_vault_delegations + 1 > u64::MAX {
                        r == Err::<(), TipRouterError>(TipRouterError::ArithmeticOverflow) && f == stored
                    } else {
                        let counted = OperatorSnapshotView {
                            valid_operator_vault_delegations: if stake_weights.total() > 0 {
                                (o.valid_operator_vault_delegations + 1) as u64
                            } else {
                                o.valid_operator_vault_delegations
                            },
                            ..stored
                        };
                        &&& o.stake_weights.increment_outcome(*stake_weights, f.stake_weights, r)
                        &&& r is Err ==> f == (OperatorSnapshotView { stake_weights: f.stake_weights, ..counted })
                        &&& r is Ok ==> f == (OperatorSnapshotView {
                            stake_weights: f.stake_weights,
                            slot_finalized: if counted.vault_operator_delegations_registered
                                == counted.vault_operator_delegation_count {
                                current_slot
                            } else {
                                o.slot_finalized
                            },
                            ..counted
                        })
                    }
                }
            }),
    {
        if self.finalized() {
            return Err(TipRouterError::VaultOperatorDelegationFinalized);
        }
        self.insert_vault_operator_stake_weight(vault, vault_index, ncn_fee_group, stake_weights)?;
        self.vault_operator_delegations_registered = match self.vault_operator_delegations_registered.checked_add(
            1,
        ) {
            Some(v) => v,
            None => {
                return Err(TipRouterError::ArithmeticOverflow);
            },
        };
        if stake_weights.stake_weight() > 0 {
            self.valid_operator_vault_delegations = match self.valid_operator_vault_delegations.checked_add(1) {
                Some(v) => v,
                None => {
                    return Err(TipRouterError::ArithmeticOverflow);
                },
            };
        }
        self.stake_weights.increment(stake_weights)?;
        if self.finalized() {
            self.slot_finalized = current_slot;
        }
        Ok(())
    }
}

/// The amounts of a vault's delegation to an operator: staked, deactivated
/// this epoch, and deactivated the epoch before.
#[derive(Debug, Clone, Copy)]
pub struct DelegationState {
    pub staked_amount: u64,
    pub enqueued_for_cooldown_amount: u64,
    pub cooling_down_amount: u64,
}

/// The code of jito-vault's `VaultSecurityOverflow` error.
pub const VAULT_SECURITY_OVERFLOW: u32 = 1026;

/// The stake of a delegation that counts for security: the sum of its three
/// amounts, or jito-vault's overflow error.
pub open spec fn total_security_of(d: DelegationState) -> Result<u64, ProgramError> {
    if d.staked_amount + d.enqueued_for_cooldown_amount + d.cooling_down_amount > u64::MAX {
        Err(ProgramError::Custom(VAULT_SECURITY_OVERFLOW))
    } else {
        Ok((d.staked_amount + d.enqueued_for_cooldown_amount + d.cooling_down_amount) as u64)
    }
}

/// jito-vault-core's `DelegationState::total_security`, on a delegation state
/// made from the three amounts: their sum, or `VaultSecurityOverflow` turned
/// into a program error (`Custom` with its code) when it overflows, as the
/// crate's source and its conversion to `ProgramError` show.
#[verifier::external_body]
fn delegation_total_security(d: &DelegationState) -> (r: Result<u64, ProgramError>)
    ensures
        r == total_security_of(*d),
{
    let state = jito_vault_core::delegation_state::DelegationState::new(
        d.staked_amount,
        d.enqueued_for_cooldown_amount,
        d.cooling_down_amount,
    );
    match state.total_security() {
        Ok(v) => Ok(v),
        Err(e) => Err(ProgramError::Custom(e as u32)),
    }
}

/// The index of the first entry of the table for `mint`.
pub open spec fn first_weight_index(s: Seq<crate::weight_entry::WeightEntryView>, mint: Seq<u8>) -> int {
    choose|i: int| first_weight_at(s, mint, i)
}

/// A table has an entry for a mint exactly when it has a first one.
pub proof fn lemma_first_weight_exists(s: Seq<crate::weight_entry::WeightEntryView>, mint: Seq<u8>)
    requires
        has_weight_for(s, mint),
    ensures
        first_weight_at(s, mint, first_weight_index(s, mint)),
    decreases s.len(),
{
    let k = choose|k: int| 0 <= k < s.len() && s[k].st_mint_entry.st_mint == mint;
    if exists|j: int| 0 <= j < k && s[j].st_mint_entry.st_mint == mint {
        let t = s.take(k);
        let j = choose|j: int| 0 <= j < k && s[j].st_mint_entry.st_mint == mint;
        assert(t[j].st_mint_entry.st_mint == mint);
        lemma_first_weight_exists(t, mint);
        let f = first_weight_index(t, mint);
        assert forall|i: int| 0 <= i < f implies s[i].st_mint_entry.st_mint != mint by {
            assert(t[i] == s[i]);
        }
        assert(t[f] == s[f]);
        assert(first_weight_at(s, mint, f));
    } else {
        assert(first_weight_at(s, mint, k));
    }
}

/// The stake weight of a delegation: its total security times the weight of
/// its token mint in the table, both made precise, multiplied and rounded
/// back; with the error of the first step that fails.
pub open spec fn total_stake_weight(
    total_security: Result<u64, ProgramError>,
    table: crate::weight_table::WeightTableView,
    st_mint: Seq<u8>,
) -> Result<u128, ProgramError> {
    match total_security {
        Err(e) => Err(e),
        Ok(t) => if !has_weight_for(table.table, st_mint) {
            Err(custom(TipRouterError::InvalidMintForWeightTable))
        } else {
            let w = table.table[first_weight_index(table.table, st_mint)].weight;
            match spec_mul(spec_new(t as u128), spec_new(w)) {
                None => Err(custom(TipRouterError::ArithmeticOverflow)),
                Some(p) => match spec_to_imprecise(p) {
                    None => Err(custom(TipRouterError::CastToImpreciseNumberError)),
                    Some(x) => Ok(x as u128),
                },
            }
        },
    }
}

/// Whether the rounded product that `total_stake_weight` computes fits in a
/// `u128` (spl-math panics when it does not).
pub open spec fn stake_weight_fits(
    total_security: Result<u64, ProgramError>,
    table: crate::weight_table::WeightTableView,
    st_mint: Seq<u8>,
) -> bool {
    match total_security {
        Err(_) => true,
        Ok(t) => has_weight_for(table.table, st_mint) ==> {
            let w = table.table[first_weight_index(table.table, st_mint)].weight;
            match spec_mul(spec_new(t as u128), spec_new(w)) {
                None => true,
                Some(p) => match spec_to_imprecise(p) {
                    None => true,
                    Some(x) => x <= u128::MAX,
                },
            }
        },
    }
}

impl OperatorSnapshot {
    /// The stake weight of a delegation under a weight table.
    pub fn calculate_total_stake_weight(
        vault_operator_delegation: &DelegationState,
        weight_table: &WeightTable,
        st_mint: &Pubkey,
    ) -> (r: Result<u128, ProgramError>)
        requires
            stake_weight_fits(total_security_of(*vault_operator_delegation), weight_table@, st_mint@),
        ensures
            r == total_stake_weight(total_security_of(*vault_operator_delegation), weight_table@, st_mint@),
    {
        let total_security = delegation_total_security(vault_operator_delegation)?;
        let precise_total_security = match precise_new(total_security as u128) {
            Some(p) => p,
            None => {
                return Err(ProgramError::from(TipRouterError::NewPreciseNumberError));
            },
        };
        proof {
            if has_weight_for(weight_table@.table, st_mint@) {
                lemma_first_weight_exists(weight_table@.table, st_mint@);
            }
        }
        let precise_weight = match weight_table.get_precise_weight(st_mint) {
            Ok(p) => p,
            Err(e) => {
                return Err(ProgramError::from(e));
            },
        };
        let precise_total_stake_weight = match precise_checked_mul(&precise_total_security, &precise_weight) {
            Some(p) => p,
            None => {
                return Err(ProgramError::from(TipRouterError::ArithmeticOverflow));
            },
        };
        match precise_to_imprecise(&precise_total_stake_weight) {
            Some(v) => Ok(v),
            None => Err(ProgramError::from(TipRouterError::CastToImpreciseNumberError)),
        }
    }
}

/// The stake weight of a delegation is its total security times the weight
/// of its mint, whenever that product, scaled twice by 10^12, fits in 256
/// bits.
pub proof fn lemma_stake_weight_is_product(t: u64, w: u128)
    requires
        t * w * precise_one() * precise_one() + precise_one() / 2 < u256_bound(),
    ensures
        spec_mul(spec_new(t as u128), spec_new(w)) == Some((t * w * precise_one()) as nat),
        spec_to_imprecise((t * w * precise_one()) as nat) == Some((t * w) as nat),
{
    let one: int = precise_one() as int;
    let a = spec_new(t as u128);
    let b = spec_new(w);
    assert(a * b == t * w * one * one) by (nonlinear_arith)
        requires
            a == t * one,
            b == w * one,
    ;
    assert((t * w * one * one + one / 2) / one == t * w * one) by (nonlinear_arith)
        requires
            one == 1_000_000_000_000int,
    ;
    assert((t * w * one + one / 2) / one == t * w) by (nonlinear_arith)
        requires
            one == 1_000_000_000_000int,
    ;
    assert(t * w * one + one / 2 < u256_bound()) by (nonlinear_arith)
        requires
            t * w * one * one + one / 2 < u256_bound(),
            one == 1_000_000_000_000int,
    ;
}

} // verus!
