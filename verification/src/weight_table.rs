use vstd::prelude::*;

use vstd::string::StringSliceAdditionalSpecFns;

use crate::{
    discriminators::{Discriminators, discriminator_value},
    error::TipRouterError,
    le_bytes::{le_bytes, u64_to_le_bytes},
    loaders::{AccountView, ProgramError, check_load_at, load_at},
    pda::{address_with_seeds, find_address, seed_list, tag_bytes},
    precise_number::{PreciseNumber, precise_new, spec_new},
    pubkey::{Pubkey, default_key},
    vault_registry::{
        EMPTY_VAULT_MARKER,
        StMintEntry,
        StMintEntryView,
        VaultEntry,
        VaultEntryView,
        empty_mint_entry,
        empty_vault_entry,
        registered_count,
    },
    weight_entry::{WeightEntry, WeightEntryView, weight_set},
};

verus! {

/// The number of entries among the first `n` of `s` that have a mint.
pub open spec fn mint_count_of(s: Seq<WeightEntryView>, n: int) -> nat
    decreases n,
{
    if n <= 0 {
        0
    } else {
        mint_count_of(s, n - 1) + if s[n - 1].st_mint_entry.st_mint != default_key() {
            1nat
        } else {
            0nat
        }
    }
}

/// The number of entries among the first `n` of `s` whose weight is set.
pub open spec fn weight_count_of(s: Seq<WeightEntryView>, n: int) -> nat
    decreases n,
{
    if n <= 0 {
        0
    } else {
        weight_count_of(s, n - 1) + if s[n - 1].slot_set > 0 {
            1nat
        } else {
            0nat
        }
    }
}

/// Whether `i` is the first entry of `s` for `mint`.
pub open spec fn first_weight_at(s: Seq<WeightEntryView>, mint: Seq<u8>, i: int) -> bool {
    &&& 0 <= i < s.len()
    &&& s[i].st_mint_entry.st_mint == mint
    &&& forall|j: int| 0 <= j < i ==> s[j].st_mint_entry.st_mint != mint
}

/// Whether some entry of `s` is for `mint`.
pub open spec fn has_weight_for(s: Seq<WeightEntryView>, mint: Seq<u8>) -> bool {
    exists|i: int| 0 <= i < s.len() && s[i].st_mint_entry.st_mint == mint
}

/// An entry with a mint.
pub open spec fn weight_entry_in_use(e: WeightEntryView) -> bool {
    e.st_mint_entry.st_mint != default_key()
}

/// The table made from mint entries: an unset weight for each.
pub open spec fn table_from_mints(mints: Seq<StMintEntryView>) -> Seq<WeightEntryView> {
    mints.map_values(|m: StMintEntryView| WeightEntryView { st_mint_entry: m, weight: 0, slot_set: 0, slot_updated: 0 })
}

/// The mints of the entries of `s` that have one, in order.
pub open spec fn table_mints(s: Seq<WeightEntryView>) -> Seq<Seq<u8>>
    decreases s.len(),
{
    if s.len() == 0 {
        Seq::empty()
    } else if weight_entry_in_use(s.last()) {
        table_mints(s.drop_last()).push(s.last().st_mint_entry.st_mint)
    } else {
        table_mints(s.drop_last())
    }
}

/// The seeds of the address of an NCN's weight table for an epoch.
pub open spec fn weight_table_seeds(ncn: Seq<u8>, epoch: u64) -> Seq<Seq<u8>> {
    seq!["weight_table".spec_bytes(), ncn, le_bytes(epoch as nat, 8)]
}

/// The model of a weight table.
pub struct WeightTableView {
    pub ncn: Seq<u8>,
    pub epoch: u64,
    pub slot_created: u64,
    pub vault_count: u64,
    pub bump: u8,
    pub vault_registry: Seq<VaultEntryView>,
    pub table: Seq<WeightEntryView>,
}

/// Whether the copy of the vault registry holds as many registered vaults as
/// the table was made for.
pub open spec fn registry_initialized(v: WeightTableView) -> bool {
    v.vault_count == registered_count(v.vault_registry, 64)
}

/// Whether the table holds at least one mint.
pub open spec fn table_initialized(v: WeightTableView) -> bool {
    mint_count_of(v.table, 64) > 0
}

/// Whether every mint of the table has its weight.
pub open spec fn table_finalized(v: WeightTableView) -> bool {
    registry_initialized(v) && table_initialized(v) && mint_count_of(v.table, 64) == weight_count_of(v.table, 64)
}

/// Where weights are set only on entries with a mint, there are no more set
/// weights than mints, and as many only when every entry with a mint has its
/// weight.
pub proof fn lemma_weights_within_mints(s: Seq<WeightEntryView>, n: int)
    requires
        0 <= n <= s.len(),
        forall|i: int| 0 <= i < n && #[trigger] s[i].slot_set > 0 ==> s[i].st_mint_entry.st_mint != default_key(),
    ensures
        weight_count_of(s, n) <= mint_count_of(s, n),
        weight_count_of(s, n) == mint_count_of(s, n) ==> forall|i: int|
            0 <= i < n && #[trigger] s[i].st_mint_entry.st_mint != default_key() ==> s[i].slot_set > 0,
    decreases n,
{
    if n > 0 {
        lemma_weights_within_mints(s, n - 1);
        assert(s[n - 1].slot_set > 0 ==> s[n - 1].st_mint_entry.st_mint != default_key());
    }
}

/// A finalized table has its registry in place, holds a mint, and has a
/// weight for every mint: as many set weights as entries with a mint, and so,
/// where weights are set only on entries with a mint, no entry with a mint
/// lacks its weight.
pub proof fn lemma_finalized_weights(v: WeightTableView)
    requires
        table_finalized(v),
        v.table.len() == 64,
    ensures
        v.vault_count == registered_count(v.vault_registry, 64),
        mint_count_of(v.table, 64) > 0,
        mint_count_of(v.table, 64) == weight_count_of(v.table, 64),
        (forall|i: int|
            0 <= i < 64 && #[trigger] v.table[i].slot_set > 0 ==> v.table[i].st_mint_entry.st_mint != default_key())
            ==> forall|i: int|
            0 <= i < 64 && #[trigger] v.table[i].st_mint_entry.st_mint != default_key() ==> v.table[i].slot_set > 0,
{
    if forall|i: int|
        0 <= i < 64 && #[trigger] v.table[i].slot_set > 0 ==> v.table[i].st_mint_entry.st_mint != default_key() {
        lemma_weights_within_mints(v.table, 64);
    }
}

/// The weights of the supported token mints of an NCN for one epoch, with a
/// copy of the vault registry taken when the table was made.
#[derive(Debug, Clone, Copy)]
pub struct WeightTable {
    ncn: Pubkey,
    epoch: u64,
    slot_created: u64,
    vault_count: u64,
    bump: u8,
    vault_registry: [VaultEntry; 64],
    table: [WeightEntry; 64],
}

impl View for WeightTable {
    type V = WeightTableView;

    closed spec fn view(&self) -> WeightTableView {
        WeightTableView {
            ncn: self.ncn@,
            epoch: self.epoch,
            slot_created: self.slot_created,
            vault_count: self.vault_count,
            bump: self.bump,
            vault_registry: self.vault_registry@.map_values(|e: VaultEntry| e@),
            table: self.table@.map_values(|e: WeightEntry| e@),
        }
    }
}

impl WeightTable {
    pub proof fn lemma_lengths(&self)
        ensures
            self@.vault_registry.len() == 64,
            self@.table.len() == 64,
    {
    }

    pub fn new(ncn: &Pubkey, epoch: u64, slot_created: u64, vault_count: u64, bump: u8) -> (t: Self)
        ensures
            t@ == (WeightTableView {
                ncn: ncn@,
                epoch,
                slot_created,
                vault_count,
                bump,
                vault_registry: Seq::new(64, |i: int| empty_vault_entry()),
                table: Seq::new(
                    64,
                    |i: int| WeightEntryView { st_mint_entry: empty_mint_entry(), weight: 0, slot_set: 0, slot_updated: 0 },
                ),
            }),
    {
        let t = WeightTable {
            ncn: *ncn,
            epoch,
            slot_created,
            vault_count,
            bump,
            vault_registry: [VaultEntry::default(); 64],
            table: [WeightEntry::default(); 64],
        };
        assert(t@.vault_registry =~= Seq::new(64, |i: int| empty_vault_entry()));
        assert(t@.table =~= Seq::new(
            64,
            |i: int| WeightEntryView { st_mint_entry: empty_mint_entry(), weight: 0, slot_set: 0, slot_updated: 0 },
        ));
        t
    }

    pub fn seeds(ncn: &Pubkey, ncn_epoch: u64) -> (s: Vec<Vec<u8>>)
        ensures
            s.deep_view() == weight_table_seeds(ncn@, ncn_epoch),
    {
        let s = seed_list(vec![tag_bytes("weight_table"), ncn.to_byte_vec(), u64_to_le_bytes(ncn_epoch)]);
        assert(s.deep_view() =~= weight_table_seeds(ncn@, ncn_epoch));
        s
    }

    /// The table's address, bump seed and seeds; `None` where no bump seed
    /// gives an address.
    pub fn find_program_address(program_id: &Pubkey, ncn: &Pubkey, epoch: u64) -> (r: Option<
        (Pubkey, u8, Vec<Vec<u8>>),
    >)
        ensures
            address_with_seeds(weight_table_seeds(ncn@, epoch), program_id@, r),
    {
        find_address(Self::seeds(ncn, epoch), program_id)
    }

    /// Resets the table for `ncn` and `ncn_epoch`, then copies in the vault
    /// registry and a fresh weight entry for each mint entry.
    pub fn initialize(
        &mut self,
        ncn: &Pubkey,
        ncn_epoch: u64,
        slot_created: u64,
        vault_count: u64,
        bump: u8,
        vault_entries: &[VaultEntry; 64],
        mint_entries: &[StMintEntry; 64],
    ) -> (r: Result<(), TipRouterError>)
        ensures
            ({
                let vaults = vault_entries@.map_values(|e: VaultEntry| e@);
                let table = table_from_mints(mint_entries@.map_values(|e: StMintEntry| e@));
                let reset = WeightTableView {
                    ncn: ncn@,
                    epoch: ncn_epoch,
                    slot_created,
                    vault_count,
                    bump,
                    vault_registry: Seq::new(64, |i: int| empty_vault_entry()),
                    table: Seq::new(
                        64,
                        |i: int| WeightEntryView {
                            st_mint_entry: empty_mint_entry(),
                            weight: 0,
                            slot_set: 0,
                            slot_updated: 0,
                        },
                    ),
                };
                if vault_count == 0 {
                    r == Err::<(), TipRouterError>(TipRouterError::WeightTableAlreadyInitialized) && final(self)@
                        == reset
                } else if vault_count != registered_count(vaults, 64) {
                    r == Err::<(), TipRouterError>(TipRouterError::RegistryNotInitialized) && final(self)@ == (
                    WeightTableView { vault_registry: vaults, ..reset })
                } else if mint_count_of(table, 64) == 0 {
                    r == Err::<(), TipRouterError>(TipRouterError::TableNotInitialized) && final(self)@ == (
                    WeightTableView { vault_registry: vaults, table, ..reset })
                } else {
                    r == Ok::<(), TipRouterError>(()) && final(self)@ == (WeightTableView {
                        vault_registry: vaults,
                        table,
                        ..reset
                    })
                }
            }),
    {
        self.ncn = *ncn;
        self.epoch = ncn_epoch;
        self.slot_created = slot_created;
        self.vault_count = vault_count;
        self.bump = bump;
        self.vault_registry = [VaultEntry::default(); 64];
        self.table = [WeightEntry::default(); 64];
        assert(self@.vault_registry =~= Seq::new(64, |i: int| empty_vault_entry()));
        assert(self@.table =~= Seq::new(
            64,
            |i: int| WeightEntryView { st_mint_entry: empty_mint_entry(), weight: 0, slot_set: 0, slot_updated: 0 },
        ));
        proof {
            lemma_no_registered(self@.vault_registry, 64);
            lemma_no_mints(self@.table, 64);
        }
        self.set_vault_entries(vault_entries)?;
        self.set_mint_entries(mint_entries)?;
        Ok(())
    }

    /// Copies in the vault registry, unless it is already in place; then
    /// checks it holds as many vaults as the table was made for.
    pub fn set_vault_entries(&mut self, vault_entries: &[VaultEntry; 64]) -> (r: Result<(), TipRouterError>)
        ensures
            ({
                let vaults = vault_entries@.map_values(|e: VaultEntry| e@);
                if registry_initialized(old(self)@) {
                    r == Err::<(), TipRouterError>(TipRouterError::WeightTableAlreadyInitialized) && final(self)@
                        == old(self)@
                } else {
                    final(self)@ == (WeightTableView { vault_registry: vaults, ..old(self)@ })
                        && if old(self)@.vault_count == registered_count(vaults, 64) {
                        r == Ok::<(), TipRouterError>(())
                    } else {
                        r == Err::<(), TipRouterError>(TipRouterError::RegistryNotInitialized)
                    }
                }
            }),
    {
        if self.vault_registry_initialized() {
            return Err(TipRouterError::WeightTableAlreadyInitialized);
        }
        self.vault_registry = *vault_entries;
        self.check_registry_initialized()?;
        Ok(())
    }

    /// Fills the table with a fresh weight entry for each mint entry, unless
    /// it already holds mints; then checks that it holds at least one.
    pub fn set_mint_entries(&mut self, mint_entries: &[StMintEntry; 64]) -> (r: Result<(), TipRouterError>)
        ensures
            ({
                let table = table_from_mints(mint_entries@.map_values(|e: StMintEntry| e@));
                if table_initialized(old(self)@) {
                    r == Err::<(), TipRouterError>(TipRouterError::WeightTableAlreadyInitialized) && final(self)@
                        == old(self)@
                } else {
                    final(self)@ == (WeightTableView { table, ..old(self)@ }) && if mint_count_of(table, 64) > 0 {
                        r == Ok::<(), TipRouterError>(())
                    } else {
                        r == Err::<(), TipRouterError>(TipRouterError::TableNotInitialized)
                    }
                }
            }),
    {
        if self.table_initialized() {
            return Err(TipRouterError::WeightTableAlreadyInitialized);
        }
        let mut table = [WeightEntry::default(); 64];
        let mut i: usize = 0;
        while i < 64
            invariant
                i <= 64,
                forall|j: int| 0 <= j < i ==> #[trigger] table@[j]@ == table_from_mints(
                    mint_entries@.map_values(|e: StMintEntry| e@),
                )[j],
            decreases 64 - i,
        {
            table[i] = WeightEntry::new(&mint_entries[i]);
            i = i + 1;
        }
        self.table = table;
        assert(self@.table =~= table_from_mints(mint_entries@.map_values(|e: StMintEntry| e@)));
        self.check_table_initialized()?;
        Ok(())
    }

    /// The index of the first entry for `mint`, if any.
    fn find_entry_index(&self, mint: &Pubkey) -> (r: Option<usize>)
        ensures
            match r {
                Some(i) => first_weight_at(self@.table, mint@, i as int),
                None => !has_weight_for(self@.table, mint@),
            },
    {
        let mut i: usize = 0;
        while i < 64
            invariant
                i <= 64,
                self@.table.len() == 64,
                forall|j: int| 0 <= j < i ==> self@.table[j].st_mint_entry.st_mint != mint@,
            decreases 64 - i,
        {
            if self.table[i].st_mint().same_as(mint) {
                return Some(i);
            }
            i = i + 1;
        }
        None
    }

    /// Sets the weight of the first entry for `mint`.
    pub fn set_weight(&mut self, mint: &Pubkey, weight: u128, current_slot: u64) -> (r: Result<(), TipRouterError>)
        ensures
            !has_weight_for(old(self)@.table, mint@) ==> r == Err::<(), TipRouterError>(
                TipRouterError::InvalidMintForWeightTable,
            ) && final(self)@ == old(self)@,
            forall|i: int|
                first_weight_at(old(self)@.table, mint@, i) ==> r == Ok::<(), TipRouterError>(()) && final(self)@
                    == (WeightTableView {
                    table: old(self)@.table.update(i, weight_set(old(self)@.table[i], weight, current_slot)),
                    ..old(self)@
                }),
    {
        match self.find_entry_index(mint) {
            Some(i) => {
                let mut entry = self.table[i];
                entry.set_weight(weight, current_slot);
                self.table[i] = entry;
                assert(self@.table =~= old(self)@.table.update(
                    i as int,
                    weight_set(old(self)@.table[i as int], weight, current_slot),
                ));
                Ok(())
            },
            None => Err(TipRouterError::InvalidMintForWeightTable),
        }
    }

    /// The weight of the first entry for `mint`.
    pub fn get_weight(&self, mint: &Pubkey) -> (r: Result<u128, TipRouterError>)
        ensures
            !has_weight_for(self@.table, mint@) ==> r == Err::<u128, TipRouterError>(
                TipRouterError::InvalidMintForWeightTable,
            ),
            forall|i: int|
                first_weight_at(self@.table, mint@, i) ==> r == Ok::<u128, TipRouterError>(self@.table[i].weight),
    {
        match self.find_entry_index(mint) {
            Some(i) => Ok(self.table[i].weight()),
            None => Err(TipRouterError::InvalidMintForWeightTable),
        }
    }

    /// The first entry for `mint`.
    pub fn get_weight_entry(&self, mint: &Pubkey) -> (r: Result<&WeightEntry, TipRouterError>)
        ensures
            !has_weight_for(self@.table, mint@) ==> r is Err && r->Err_0 == TipRouterError::InvalidMintForWeightTable,
            forall|i: int| first_weight_at(self@.table, mint@, i) ==> (r matches Ok(e) && e@ == self@.table[i]),
    {
        match self.find_entry_index(mint) {
            Some(i) => Ok(&self.table[i]),
            None => Err(TipRouterError::InvalidMintForWeightTable),
        }
    }

    /// The weight of the first entry for `mint`, as a precise number.
    pub fn get_precise_weight(&self, mint: &Pubkey) -> (r: Result<PreciseNumber, TipRouterError>)
        ensures
            !has_weight_for(self@.table, mint@) ==> r is Err && r->Err_0 == TipRouterError::InvalidMintForWeightTable,
            forall|i: int|
                first_weight_at(self@.table, mint@, i) ==> (r matches Ok(p) && p.value() == spec_new(
                    self@.table[i].weight,
                )),
    {
        let weight = self.get_weight(mint)?;
        match precise_new(weight) {
            Some(p) => Ok(p),
            None => Err(TipRouterError::NewPreciseNumberError),
        }
    }

    /// The mints of the table, in table order.
    pub fn get_mints(&self) -> (v: Vec<Pubkey>)
        ensures
            v@.map_values(|k: Pubkey| k@) == table_mints(self@.table),
    {
        let mut v: Vec<Pubkey> = Vec::new();
        let mut i: usize = 0;
        while i < 64
            invariant
                i <= 64,
                self@.table.len() == 64,
                v@.map_values(|k: Pubkey| k@) == table_mints(self@.table.take(i as int)),
            decreases 64 - i,
        {
            let ghost before = v@;
            proof {
                let next = self@.table.take(i as int + 1);
                assert(next.drop_last() =~= self@.table.take(i as int));
                assert(next.last() == self@.table[i as int]);
            }
            if !self.table[i].is_empty() {
                v.push(*self.table[i].st_mint());
                assert(v@.map_values(|k: Pubkey| k@) =~= before.map_values(|k: Pubkey| k@).push(
                    self@.table[i as int].st_mint_entry.st_mint,
                ));
            }
            i = i + 1;
        }
        assert(self@.table.take(64) =~= self@.table);
        v
    }

    pub fn epoch(&self) -> (e: u64)
        ensures
            e == self@.epoch,
    {
        self.epoch
    }

    /// The number of entries with a mint.
    pub fn mint_count(&self) -> (c: usize)
        ensures
            c == mint_count_of(self@.table, 64),
    {
        let mut count: usize = 0;
        let mut i: usize = 0;
        while i < 64
            invariant
                i <= 64,
                self@.table.len() == 64,
                count == mint_count_of(self@.table, i as int),
                count <= i,
            decreases 64 - i,
        {
            if !self.table[i].is_empty() {
                count = count + 1;
            }
            i = i + 1;
        }
        count
    }

    /// The number of entries whose weight is set.
    pub fn weight_count(&self) -> (c: usize)
        ensures
            c == weight_count_of(self@.table, 64),
    {
        let mut count: usize = 0;
        let mut i: usize = 0;
        while i < 64
            invariant
                i <= 64,
                self@.table.len() == 64,
                count == weight_count_of(self@.table, i as int),
                count <= i,
            decreases 64 - i,
        {
            if self.table[i].is_set() {
                count = count + 1;
            }
            i = i + 1;
        }
        count
    }

    /// The number of entries with a mint.
    pub fn st_mint_count(&self) -> (c: usize)
        ensures
            c == mint_count_of(self@.table, 64),
    {
        self.mint_count()
    }

    pub fn table(&self) -> (t: &[WeightEntry; 64])
        ensures
            t@.map_values(|e: WeightEntry| e@) == self@.table,
    {
        &self.table
    }

    pub fn ncn(&self) -> (k: &Pubkey)
        ensures
            k@ == self@.ncn,
    {
        &self.ncn
    }

    pub fn ncn_epoch(&self) -> (e: u64)
        ensures
            e == self@.epoch,
    {
        self.epoch
    }

    pub fn slot_created(&self) -> (s: u64)
        ensures
            s == self@.slot_created,
    {
        self.slot_created
    }

    pub fn vault_count(&self) -> (c: u64)
        ensures
            c == self@.vault_count,
    {
        self.vault_count
    }

    /// The number of registered vaults in the copy of the registry.
    pub fn vault_entry_count(&self) -> (c: usize)
        ensures
            c == registered_count(self@.vault_registry, 64),
    {
        let mut count: usize = 0;
        let mut i: usize = 0;
        while i < 64
            invariant
                i <= 64,
                self@.vault_registry.len() == 64,
                count == registered_count(self@.vault_registry, i as int),
                count <= i,
            decreases 64 - i,
        {
            if !self.vault_registry[i].is_empty() {
                count = count + 1;
            }
            i = i + 1;
        }
        count
    }

    pub fn vault_registry_initialized(&self) -> (b: bool)
        ensures
            b == registry_initialized(self@),
    {
        self.vault_count == self.vault_entry_count() as u64
    }

    pub fn table_initialized(&self) -> (b: bool)
        ensures
            b == table_initialized(self@),
    {
        self.mint_count() > 0
    }

    /// Whether the registry is in place and every mint has its weight.
    pub fn finalized(&self) -> (b: bool)
        ensures
            b == table_finalized(self@),
            b ==> self@.vault_count == registered_count(self@.vault_registry, 64) && mint_count_of(self@.table, 64)
                > 0 && mint_count_of(self@.table, 64) == weight_count_of(self@.table, 64),
            (exists|i: int|
                0 <= i < 64 && #[trigger] self@.table[i].st_mint_entry.st_mint != default_key()
                    && self@.table[i].slot_set == 0) && (forall|i: int|
                0 <= i < 64 && #[trigger] self@.table[i].slot_set > 0 ==> self@.table[i].st_mint_entry.st_mint
                    != default_key()) ==> !b,
    {
        proof {
            self.lemma_lengths();
            if table_finalized(self@) {
                lemma_finalized_weights(self@);
            }
        }
        self.vault_registry_initialized() && self.table_initialized() && self.mint_count() == self.weight_count()
    }

    pub fn check_table_initialized(&self) -> (r: Result<(), TipRouterError>)
        ensures
            table_initialized(self@) ==> r == Ok::<(), TipRouterError>(()),
            !table_initialized(self@) ==> r == Err::<(), TipRouterError>(TipRouterError::TableNotInitialized),
    {
        if !self.table_initialized() {
            return Err(TipRouterError::TableNotInitialized);
        }
        Ok(())
    }

    pub fn check_registry_initialized(&self) -> (r: Result<(), TipRouterError>)
        ensures
            registry_initialized(self@) ==> r == Ok::<(), TipRouterError>(()),
            !registry_initialized(self@) ==> r == Err::<(), TipRouterError>(
                TipRouterError::RegistryNotInitialized,
            ),
    {
        if !self.vault_registry_initialized() {
            return Err(TipRouterError::RegistryNotInitialized);
        }
        Ok(())
    }

    /// Checks that some vault of the registry copy has index `vault_index`;
    /// the index of an unused slot never counts.
    pub fn check_registry_for_vault(&self, vault_index: u64) -> (r: Result<(), TipRouterError>)
        ensures
            r is Ok <==> vault_index != EMPTY_VAULT_MARKER && exists|i: int|
                0 <= i < 64 && self@.vault_registry[i].vault_index == vault_index,
            r is Err ==> r == Err::<(), TipRouterError>(TipRouterError::VaultNotInRegistry),
    {
        if vault_index == EMPTY_VAULT_MARKER {
            return Err(TipRouterError::VaultNotInRegistry);
        }
        let mut i: usize = 0;
        while i < 64
            invariant
                i <= 64,
                self@.vault_registry.len() == 64,
                vault_index != EMPTY_VAULT_MARKER,
                forall|j: int| 0 <= j < i ==> self@.vault_registry[j].vault_index != vault_index,
            decreases 64 - i,
        {
            if self.vault_registry[i].vault_index() == vault_index {
                assert(self@.vault_registry[i as int].vault_index == vault_index);
                return Ok(());
            }
            i = i + 1;
        }
        Err(TipRouterError::VaultNotInRegistry)
    }

    /// Checks that `account` is the weight table of `ncn` for `epoch`.
    pub fn load(program_id: &Pubkey, account: &AccountView, ncn: &Pubkey, epoch: u64, expect_writable: bool) -> (r:
        Result<(), ProgramError>)
        ensures
            r == load_at(
                weight_table_seeds(ncn@, epoch),
                program_id@,
                program_id@,
                *account,
                Some(discriminator_value(Discriminators::WeightTable)),
                expect_writable,
            ),
    {
        let seeds = Self::seeds(ncn, epoch);
        check_load_at(
            &seeds,
            program_id,
            program_id,
            account,
            Some(Discriminators::WeightTable.value()),
            expect_writable,
        )
    }

    /// Checks that `account` is the weight table to close: writable.
    pub fn load_to_close(program_id: &Pubkey, account_to_close: &AccountView, ncn: &Pubkey, epoch: u64) -> (r:
        Result<(), ProgramError>)
        ensures
            r == load_at(
                weight_table_seeds(ncn@, epoch),
                program_id@,
                program_id@,
                *account_to_close,
                Some(discriminator_value(Discriminators::WeightTable)),
                true,
            ),
    {
        Self::load(program_id, account_to_close, ncn, epoch, true)
    }
}

/// A list of unused vault slots has no registered vault.
pub proof fn lemma_no_registered(s: Seq<VaultEntryView>, n: int)
    requires
        0 <= n <= s.len(),
        forall|i: int| 0 <= i < s.len() ==> s[i].slot_registered == EMPTY_VAULT_MARKER,
    ensures
        registered_count(s, n) == 0,
    decreases n,
{
    if n > 0 {
        lemma_no_registered(s, n - 1);
    }
}

/// A table of entries without mints has no mint.
pub proof fn lemma_no_mints(s: Seq<WeightEntryView>, n: int)
    requires
        0 <= n <= s.len(),
        forall|i: int| 0 <= i < s.len() ==> s[i].st_mint_entry.st_mint == default_key(),
    ensures
        mint_count_of(s, n) == 0,
    decreases n,
{
    if n > 0 {
        lemma_no_mints(s, n - 1);
    }
}

} // verus!
