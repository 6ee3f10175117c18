use vstd::prelude::*;

use vstd::string::StringSliceAdditionalSpecFns;

use crate::{
    discriminators::{Discriminators, discriminator_value},
    error::{TipRouterError, error_code},
    loaders::{AccountView, ProgramError, check_load_at, load_at},
    ncn_fee_group::{NcnFeeGroup, ncn_fee_group_from_u8},
    pda::{address_with_seeds, find_address, seed_list, tag_bytes},
    pubkey::{Pubkey, default_key},
    counting::{count_where, lemma_count_full, lemma_count_update},
};

verus! {

/// The error a tip router error becomes as a program error.
pub open spec fn custom(e: TipRouterError) -> ProgramError {
    ProgramError::Custom(error_code(e))
}

/// The model of a supported token mint entry.
pub struct StMintEntryView {
    pub st_mint: Seq<u8>,
    pub ncn_fee_group: NcnFeeGroup,
    pub reward_multiplier_bps: u64,
    pub switchboard_feed: Seq<u8>,
    pub no_feed_weight: u128,
}

/// A supported token mint, with its fee group, its reward multiplier, and
/// either a switchboard feed or a weight to use without one.
#[derive(Debug, Clone, Copy)]
pub struct StMintEntry {
    st_mint: Pubkey,
    ncn_fee_group: NcnFeeGroup,
    reward_multiplier_bps: u64,
    switchboard_feed: Pubkey,
    no_feed_weight: u128,
}

impl View for StMintEntry {
    type V = StMintEntryView;

    closed spec fn view(&self) -> StMintEntryView {
        StMintEntryView {
            st_mint: self.st_mint@,
            ncn_fee_group: self.ncn_fee_group,
            reward_multiplier_bps: self.reward_multiplier_bps,
            switchboard_feed: self.switchboard_feed@,
            no_feed_weight: self.no_feed_weight,
        }
    }
}

/// An entry needs a switchboard feed or a weight to use without one.
pub open spec fn mint_entry_check(e: StMintEntryView) -> Result<(), ProgramError> {
    if e.no_feed_weight == 0 && e.switchboard_feed == default_key() {
        Err(custom(TipRouterError::NoFeedWeightOrSwitchboardFeed))
    } else {
        Ok(())
    }
}

/// An unused slot of the mint list.
pub open spec fn empty_mint_entry() -> StMintEntryView {
    StMintEntryView {
        st_mint: default_key(),
        ncn_fee_group: NcnFeeGroup { group: 0 },
        reward_multiplier_bps: 0,
        switchboard_feed: default_key(),
        no_feed_weight: 0,
    }
}

impl StMintEntry {
    pub fn new(
        st_mint: &Pubkey,
        ncn_fee_group: NcnFeeGroup,
        reward_multiplier_bps: u64,
        switchboard_feed: &Pubkey,
        no_feed_weight: u128,
    ) -> (e: Self)
        ensures
            e@ == (StMintEntryView {
                st_mint: st_mint@,
                ncn_fee_group,
                reward_multiplier_bps,
                switchboard_feed: switchboard_feed@,
                no_feed_weight,
            }),
    {
        StMintEntry {
            st_mint: *st_mint,
            ncn_fee_group,
            reward_multiplier_bps,
            switchboard_feed: *switchboard_feed,
            no_feed_weight,
        }
    }

    pub fn no_feed_weight(&self) -> (w: u128)
        ensures
            w == self@.no_feed_weight,
    {
        self.no_feed_weight
    }

    pub fn st_mint(&self) -> (k: &Pubkey)
        ensures
            k@ == self@.st_mint,
    {
        &self.st_mint
    }

    pub fn ncn_fee_group(&self) -> (g: NcnFeeGroup)
        ensures
            g == self@.ncn_fee_group,
    {
        self.ncn_fee_group
    }

    pub fn reward_multiplier_bps(&self) -> (m: u64)
        ensures
            m == self@.reward_multiplier_bps,
    {
        self.reward_multiplier_bps
    }

    pub fn switchboard_feed(&self) -> (k: &Pubkey)
        ensures
            k@ == self@.switchboard_feed,
    {
        &self.switchboard_feed
    }

    /// Whether this slot of the list is unused.
    pub fn is_empty(&self) -> (b: bool)
        ensures
            b == (self@.st_mint == default_key()),
    {
        self.st_mint.is_default()
    }
}

impl Default for StMintEntry {
    fn default() -> (e: Self)
        ensures
            e@ == empty_mint_entry(),
    {
        let zero = Pubkey::default();
        StMintEntry::new(&zero, NcnFeeGroup::default(), 0, &zero, 0)
    }
}

/// The model of a registered vault.
pub struct VaultEntryView {
    pub vault: Seq<u8>,
    pub st_mint: Seq<u8>,
    pub vault_index: u64,
    pub slot_registered: u64,
}

/// The marker of an unused vault slot, both as index and as slot.
pub const EMPTY_VAULT_MARKER: u64 = 0xffff_ffff_ffff_ffff;

/// An unused slot of the vault list.
pub open spec fn empty_vault_entry() -> VaultEntryView {
    VaultEntryView {
        vault: default_key(),
        st_mint: default_key(),
        vault_index: EMPTY_VAULT_MARKER,
        slot_registered: EMPTY_VAULT_MARKER,
    }
}

/// A registered vault: its account, its token mint, its index among the
/// NCN's vaults, and the slot it was registered in.
#[derive(Debug, Clone, Copy)]
pub struct VaultEntry {
    vault: Pubkey,
    st_mint: Pubkey,
    vault_index: u64,
    slot_registered: u64,
}

impl View for VaultEntry {
    type V = VaultEntryView;

    closed spec fn view(&self) -> VaultEntryView {
        VaultEntryView {
            vault: self.vault@,
            st_mint: self.st_mint@,
            vault_index: self.vault_index,
            slot_registered: self.slot_registered,
        }
    }
}

impl VaultEntry {
    pub const EMPTY_VAULT_INDEX: u64 = 0xffff_ffff_ffff_ffff;
    pub const EMPTY_SLOT_REGISTERED: u64 = 0xffff_ffff_ffff_ffff;

    pub fn new(vault: &Pubkey, st_mint: &Pubkey, vault_index: u64, slot_registered: u64) -> (e: Self)
        ensures
            e@ == (VaultEntryView { vault: vault@, st_mint: st_mint@, vault_index, slot_registered }),
    {
        VaultEntry { vault: *vault, st_mint: *st_mint, vault_index, slot_registered }
    }

    pub fn vault(&self) -> (k: &Pubkey)
        ensures
            k@ == self@.vault,
    {
        &self.vault
    }

    pub fn st_mint(&self) -> (k: &Pubkey)
        ensures
            k@ == self@.st_mint,
    {
        &self.st_mint
    }

    pub fn vault_index(&self) -> (i: u64)
        ensures
            i == self@.vault_index,
    {
        self.vault_index
    }

    pub fn slot_registered(&self) -> (s: u64)
        ensures
            s == self@.slot_registered,
    {
        self.slot_registered
    }

    /// Whether this slot of the list is unused.
    pub fn is_empty(&self) -> (b: bool)
        ensures
            b == (self@.slot_registered == EMPTY_VAULT_MARKER),
    {
        self.slot_registered == EMPTY_VAULT_MARKER
    }
}

impl Default for VaultEntry {
    fn default() -> (e: Self)
        ensures
            e@ == empty_vault_entry(),
    {
        let zero = Pubkey::default();
        VaultEntry::new(&zero, &zero, EMPTY_VAULT_MARKER, EMPTY_VAULT_MARKER)
    }
}

/// Whether `i` is the first index of `s` whose mint is `mint`.
pub open spec fn first_mint_at(s: Seq<StMintEntryView>, mint: Seq<u8>, i: int) -> bool {
    &&& 0 <= i < s.len()
    &&& s[i].st_mint == mint
    &&& forall|j: int| 0 <= j < i ==> s[j].st_mint != mint
}

/// Whether some entry of `s` has mint `mint`.
pub open spec fn has_mint(s: Seq<StMintEntryView>, mint: Seq<u8>) -> bool {
    exists|i: int| 0 <= i < s.len() && s[i].st_mint == mint
}

/// Whether `i` is the first index of `s` whose mint is unset.
pub open spec fn first_free_vault_at(s: Seq<VaultEntryView>, i: int) -> bool {
    &&& 0 <= i < s.len()
    &&& s[i].st_mint == default_key()
    &&& forall|j: int| 0 <= j < i ==> s[j].st_mint != default_key()
}

/// Whether some entry of `s` has vault `vault`.
pub open spec fn has_vault(s: Seq<VaultEntryView>, vault: Seq<u8>) -> bool {
    exists|i: int| 0 <= i < s.len() && s[i].vault == vault
}

/// No mint other than the unset one appears twice.
pub open spec fn mints_distinct(s: Seq<StMintEntryView>) -> bool {
    forall|i: int, j: int|
        0 <= i < s.len() && 0 <= j < s.len() && i != j && #[trigger] s[i].st_mint == #[trigger] s[j].st_mint
            ==> s[i].st_mint == default_key()
}

/// No vault other than the unset one appears twice.
pub open spec fn vaults_distinct(s: Seq<VaultEntryView>) -> bool {
    forall|i: int, j: int|
        0 <= i < s.len() && 0 <= j < s.len() && i != j && #[trigger] s[i].vault == #[trigger] s[j].vault
            ==> s[i].vault == default_key()
}

/// The number of registered vaults among the first `n` entries.
pub open spec fn registered_count(s: Seq<VaultEntryView>, n: int) -> nat
    decreases n,
{
    if n <= 0 {
        0
    } else {
        registered_count(s, n - 1) + if s[n - 1].slot_registered != EMPTY_VAULT_MARKER {
            1nat
        } else {
            0nat
        }
    }
}

/// Whether an entry is in use.
pub open spec fn mint_in_use(e: StMintEntryView) -> bool {
    e.st_mint != default_key()
}

/// Whether an entry is in use, as a predicate.
pub open spec fn in_use() -> spec_fn(StMintEntryView) -> bool {
    |e: StMintEntryView| mint_in_use(e)
}

/// The number of mint entries in use.
pub open spec fn mints_in_use(s: Seq<StMintEntryView>) -> nat {
    count_where(s, in_use())
}

/// Filling an unused entry with a mint adds one to the entries in use.
pub proof fn lemma_fill_mint_entry_counts(before: Seq<StMintEntryView>, i: int, entry: StMintEntryView)
    requires
        0 <= i < before.len(),
        !mint_in_use(before[i]),
        mint_in_use(entry),
    ensures
        mints_in_use(before.update(i, entry)) == mints_in_use(before) + 1,
{
    lemma_count_update(before, in_use(), i, entry);
}

/// A mint list is full, with no unused entry, exactly when every entry is in use.
pub proof fn lemma_mints_full(s: Seq<StMintEntryView>)
    ensures
        !has_mint(s, default_key()) <==> mints_in_use(s) == s.len(),
{
    lemma_count_full(s, in_use());
    if !has_mint(s, default_key()) {
        assert forall|k: int| 0 <= k < s.len() implies #[trigger] in_use()(s[k]) by {
            assert(s[k].st_mint != default_key());
        }
    } else {
        let k = choose|k: int| 0 <= k < s.len() && s[k].st_mint == default_key();
        assert(!in_use()(s[k]));
    }
}

/// The seeds of the address of an NCN's vault registry.
pub open spec fn vault_registry_seeds(ncn: Seq<u8>) -> Seq<Seq<u8>> {
    seq!["vault_registry".spec_bytes(), ncn]
}

/// The supported token mints and the registered vaults of an NCN.
#[derive(Debug, Clone, Copy)]
pub struct VaultRegistry {
    /// The NCN the registry belongs to.
    pub ncn: Pubkey,
    /// The bump seed of the account's address.
    pub bump: u8,
    /// The supported token mints.
    pub st_mint_list: [StMintEntry; 64],
    /// The registered vaults.
    pub vault_list: [VaultEntry; 64],
}

impl VaultRegistry {
    /// The model of the mint list.
    pub open spec fn mints(self) -> Seq<StMintEntryView> {
        self.st_mint_list@.map_values(|e: StMintEntry| e@)
    }

    /// The model of the vault list.
    pub open spec fn vaults(self) -> Seq<VaultEntryView> {
        self.vault_list@.map_values(|e: VaultEntry| e@)
    }

    pub fn new(ncn: &Pubkey, bump: u8) -> (r: Self)
        ensures
            r.ncn == *ncn,
            r.bump == bump,
            r.mints() == Seq::new(64, |i: int| empty_mint_entry()),
            r.vaults() == Seq::new(64, |i: int| empty_vault_entry()),
    {
        let r = VaultRegistry {
            ncn: *ncn,
            bump,
            st_mint_list: [StMintEntry::default(); 64],
            vault_list: [VaultEntry::default(); 64],
        };
        assert(r.mints() =~= Seq::new(64, |i: int| empty_mint_entry()));
        assert(r.vaults() =~= Seq::new(64, |i: int| empty_vault_entry()));
        r
    }

    /// Sets the NCN and bump seed and empties both lists.
    pub fn initialize(&mut self, ncn: &Pubkey, bump: u8)
        ensures
            final(self).ncn == *ncn,
            final(self).bump == bump,
            final(self).mints() == Seq::new(64, |i: int| empty_mint_entry()),
            final(self).vaults() == Seq::new(64, |i: int| empty_vault_entry()),
    {
        self.ncn = *ncn;
        self.bump = bump;
        self.st_mint_list = [StMintEntry::default(); 64];
        self.vault_list = [VaultEntry::default(); 64];
        assert(self.mints() =~= Seq::new(64, |i: int| empty_mint_entry()));
        assert(self.vaults() =~= Seq::new(64, |i: int| empty_vault_entry()));
    }

    pub fn seeds(ncn: &Pubkey) -> (s: Vec<Vec<u8>>)
        ensures
            s.deep_view() == vault_registry_seeds(ncn@),
    {
        let s = seed_list(vec![tag_bytes("vault_registry"), ncn.to_byte_vec()]);
        assert(s.deep_view() =~= vault_registry_seeds(ncn@));
        s
    }

    /// The registry's address, bump seed and seeds; `None` where no bump
    /// seed gives an address.
    pub fn find_program_address(program_id: &Pubkey, ncn: &Pubkey) -> (r: Option<(Pubkey, u8, Vec<Vec<u8>>)>)
        ensures
            address_with_seeds(vault_registry_seeds(ncn@), program_id@, r),
    {
        find_address(Self::seeds(ncn), program_id)
    }

    /// Checks that `account` is the vault registry of `ncn`.
    pub fn load(program_id: &Pubkey, ncn: &Pubkey, account: &AccountView, expect_writable: bool) -> (r: Result<
        (),
        ProgramError,
    >)
        ensures
            r == load_at(
                vault_registry_seeds(ncn@),
                program_id@,
                program_id@,
                *account,
                Some(discriminator_value(Discriminators::VaultRegistry)),
                expect_writable,
            ),
    {
        let seeds = Self::seeds(ncn);
        check_load_at(
            &seeds,
            program_id,
            program_id,
            account,
            Some(Discriminators::VaultRegistry.value()),
            expect_writable,
        )
    }

    /// The index of the first mint entry for `mint`, if any.
    fn find_mint_index(&self, mint: &Pubkey) -> (r: Option<usize>)
        ensures
            match r {
                Some(i) => first_mint_at(self.mints(), mint@, i as int),
                None => !has_mint(self.mints(), mint@),
            },
    {
        let mut i: usize = 0;
        while i < 64
            invariant
                i <= 64,
                self.mints().len() == 64,
                forall|j: int| 0 <= j < i ==> self.mints()[j].st_mint != mint@,
            decreases 64 - i,
        {
            if self.st_mint_list[i].st_mint.same_as(mint) {
                return Some(i);
            }
            i = i + 1;
        }
        None
    }

    pub fn has_st_mint(&self, mint: &Pubkey) -> (b: bool)
        ensures
            b == has_mint(self.mints(), mint@),
    {
        self.find_mint_index(mint).is_some()
    }

    pub fn check_st_mint_entry(entry: &StMintEntry) -> (r: Result<(), ProgramError>)
        ensures
            r == mint_entry_check(entry@),
    {
        if entry.no_feed_weight() == 0 && entry.switchboard_feed().is_default() {
            return Err(ProgramError::from(TipRouterError::NoFeedWeightOrSwitchboardFeed));
        }
        Ok(())
    }

    /// Adds a supported mint in the first unused slot.
    pub fn register_st_mint(
        &mut self,
        st_mint: &Pubkey,
        ncn_fee_group: NcnFeeGroup,
        reward_multiplier_bps: u64,
        switchboard_feed: &Pubkey,
        no_feed_weight: u128,
    ) -> (r: Result<(), ProgramError>)
        ensures
            ({
                let entry = StMintEntryView {
                    st_mint: st_mint@,
                    ncn_fee_group,
                    reward_multiplier_bps,
                    switchboard_feed: switchboard_feed@,
                    no_feed_weight,
                };
                if has_mint(old(self).mints(), st_mint@) {
                    r == Err::<(), ProgramError>(custom(TipRouterError::MintInTable))
                } else if !has_mint(old(self).mints(), default_key()) {
                    r == Err::<(), ProgramError>(custom(TipRouterError::VaultRegistryListFull))
                } else if mint_entry_check(entry) is Err {
                    r == mint_entry_check(entry)
                } else {
                    r == Ok::<(), ProgramError>(()) && exists|i: int|
                        first_mint_at(old(self).mints(), default_key(), i) && final(self).mints()
                            == old(self).mints().update(i, entry)
                }
            }),
            r is Err ==> *final(self) == *old(self),
            r is Ok ==> mints_in_use(final(self).mints()) == mints_in_use(old(self).mints()) + 1,
            !has_mint(old(self).mints(), st_mint@) ==> (r == Err::<(), ProgramError>(
                custom(TipRouterError::VaultRegistryListFull),
            ) <==> mints_in_use(old(self).mints()) == 64),
            final(self).vaults() == old(self).vaults(),
            final(self).ncn == old(self).ncn,
            final(self).bump == old(self).bump,
    {
        proof {
            lemma_mints_full(old(self).mints());
        }
        if self.find_mint_index(st_mint).is_some() {
            return Err(ProgramError::from(TipRouterError::MintInTable));
        }
        let zero = Pubkey::default();
        let i = match self.find_mint_index(&zero) {
            Some(i) => i,
            None => {
                return Err(ProgramError::from(TipRouterError::VaultRegistryListFull));
            },
        };
        let new_mint_entry = StMintEntry::new(
            st_mint,
            ncn_fee_group,
            reward_multiplier_bps,
            switchboard_feed,
            no_feed_weight,
        );
        Self::check_st_mint_entry(&new_mint_entry)?;
        self.st_mint_list[i] = new_mint_entry;
        assert(self.mints() =~= old(self).mints().update(i as int, new_mint_entry@));
        proof {
            lemma_fill_mint_entry_counts(old(self).mints(), i as int, new_mint_entry@);
        }
        Ok(())
    }

    /// Updates the given fields of the first entry for `st_mint`.
    pub fn set_st_mint(
        &mut self,
        st_mint: &Pubkey,
        ncn_fee_group: Option<u8>,
        reward_multiplier_bps: Option<u64>,
        switchboard_feed: Option<Pubkey>,
        no_feed_weight: Option<u128>,
    ) -> (r: Result<(), ProgramError>)
        ensures
            !has_mint(old(self).mints(), st_mint@) ==> r == Err::<(), ProgramError>(
                custom(TipRouterError::MintEntryNotFound),
            ),
            forall|i: int|
                first_mint_at(old(self).mints(), st_mint@, i) ==> {
                    let old_entry = old(self).mints()[i];
                    let group_ok = match ncn_fee_group {
                        Some(g) => g < 8,
                        None => true,
                    };
                    let entry = StMintEntryView {
                        ncn_fee_group: match ncn_fee_group {
                            Some(g) => NcnFeeGroup { group: g },
                            None => old_entry.ncn_fee_group,
                        },
                        reward_multiplier_bps: match reward_multiplier_bps {
                            Some(m) => m,
                            None => old_entry.reward_multiplier_bps,
                        },
                        switchboard_feed: match switchboard_feed {
                            Some(f) => f@,
                            None => old_entry.switchboard_feed,
                        },
                        no_feed_weight: match no_feed_weight {
                            Some(w) => w,
                            None => old_entry.no_feed_weight,
                        },
                        ..old_entry
                    };
                    if !group_ok {
                        r == Err::<(), ProgramError>(custom(TipRouterError::InvalidNcnFeeGroup))
                    } else if mint_entry_check(entry) is Err {
                        r == mint_entry_check(entry)
                    } else {
                        r == Ok::<(), ProgramError>(()) && final(self).mints() == old(self).mints().update(i, entry)
                    }
                },
            r is Err ==> *final(self) == *old(self),
            final(self).vaults() == old(self).vaults(),
            final(self).ncn == old(self).ncn,
            final(self).bump == old(self).bump,
    {
        let i = match self.find_mint_index(st_mint) {
            Some(i) => i,
            None => {
                return Err(ProgramError::from(TipRouterError::MintEntryNotFound));
            },
        };
        let mut updated_mint_entry = self.st_mint_list[i];
        if let Some(ncn_fee_group) = ncn_fee_group {
            updated_mint_entry.ncn_fee_group = match NcnFeeGroup::try_from(ncn_fee_group) {
                Ok(g) => g,
                Err(e) => {
                    return Err(ProgramError::from(e));
                },
            };
        }
        if let Some(reward_multiplier_bps) = reward_multiplier_bps {
            updated_mint_entry.reward_multiplier_bps = reward_multiplier_bps;
        }
        if let Some(switchboard_feed) = switchboard_feed {
            updated_mint_entry.switchboard_feed = switchboard_feed;
        }
        if let Some(no_feed_weight) = no_feed_weight {
            updated_mint_entry.no_feed_weight = no_feed_weight;
        }
        Self::check_st_mint_entry(&updated_mint_entry)?;
        self.st_mint_list[i] = updated_mint_entry;
        assert(self.mints() =~= old(self).mints().update(i as int, updated_mint_entry@));
        Ok(())
    }

    /// The index of the first vault entry for `vault`, if any.
    fn find_vault_index(&self, vault: &Pubkey) -> (r: Option<usize>)
        ensures
            match r {
                Some(i) => 0 <= i < 64 && self.vaults()[i as int].vault == vault@,
                None => !has_vault(self.vaults(), vault@),
            },
    {
        let mut i: usize = 0;
        while i < 64
            invariant
                i <= 64,
                self.vaults().len() == 64,
                forall|j: int| 0 <= j < i ==> self.vaults()[j].vault != vault@,
            decreases 64 - i,
        {
            if self.vault_list[i].vault.same_as(vault) {
                return Some(i);
            }
            i = i + 1;
        }
        None
    }

    /// The index of the first vault entry without a mint, if any.
    fn find_free_vault_index(&self) -> (r: Option<usize>)
        ensures
            match r {
                Some(i) => first_free_vault_at(self.vaults(), i as int),
                None => forall|j: int| 0 <= j < 64 ==> self.vaults()[j].st_mint != default_key(),
            },
    {
        let mut i: usize = 0;
        while i < 64
            invariant
                i <= 64,
                self.vaults().len() == 64,
                forall|j: int| 0 <= j < i ==> self.vaults()[j].st_mint != default_key(),
            decreases 64 - i,
        {
            if self.vault_list[i].st_mint.is_default() {
                return Some(i);
            }
            i = i + 1;
        }
        None
    }

    /// Registers a vault in the first slot without a mint; a vault already
    /// registered is left as it is.
    pub fn register_vault(&mut self, vault: &Pubkey, st_mint: &Pubkey, vault_index: u64, current_slot: u64) -> (r:
        Result<(), ProgramError>)
        ensures
            has_vault(old(self).vaults(), vault@) ==> r == Ok::<(), ProgramError>(())
                && *final(self) == *old(self),
            !has_vault(old(self).vaults(), vault@) && (forall|j: int|
                0 <= j < 64 ==> old(self).vaults()[j].st_mint != default_key()) ==> r == Err::<(), ProgramError>(
                custom(TipRouterError::VaultRegistryListFull),
            ) && *final(self) == *old(self),
            forall|i: int|
                !has_vault(old(self).vaults(), vault@) && first_free_vault_at(old(self).vaults(), i) ==> r == Ok::<
                    (),
                    ProgramError,
                >(()) && final(self).vaults() == old(self).vaults().update(
                    i,
                    VaultEntryView { vault: vault@, st_mint: st_mint@, vault_index, slot_registered: current_slot },
                ),
            final(self).mints() == old(self).mints(),
            final(self).ncn == old(self).ncn,
            final(self).bump == old(self).bump,
    {
        if self.find_vault_index(vault).is_some() {
            return Ok(());
        }
        let i = match self.find_free_vault_index() {
            Some(i) => i,
            None => {
                return Err(ProgramError::from(TipRouterError::VaultRegistryListFull));
            },
        };
        let entry = VaultEntry::new(vault, st_mint, vault_index, current_slot);
        self.vault_list[i] = entry;
        assert(self.vaults() =~= old(self).vaults().update(i as int, entry@));
        Ok(())
    }

    pub fn get_vault_entries(&self) -> (v: &[VaultEntry; 64])
        ensures
            v@.map_values(|e: VaultEntry| e@) == self.vaults(),
    {
        &self.vault_list
    }

    /// The number of registered vaults.
    pub fn vault_count(&self) -> (c: u64)
        ensures
            c == registered_count(self.vaults(), 64),
    {
        let mut count: u64 = 0;
        let mut i: usize = 0;
        while i < 64
            invariant
                i <= 64,
                self.vaults().len() == 64,
                count == registered_count(self.vaults(), i as int),
                count <= i,
            decreases 64 - i,
        {
            if !self.vault_list[i].is_empty() {
                count = count + 1;
            }
            i = i + 1;
        }
        count
    }

    /// The mint entries in use, in list order.
    pub fn get_valid_mint_entries(&self) -> (v: Vec<StMintEntry>)
        ensures
            v@.map_values(|e: StMintEntry| e@) == self.mints().filter(|e: StMintEntryView| mint_in_use(e)),
    {
        let mut v: Vec<StMintEntry> = Vec::new();
        let mut i: usize = 0;
        while i < 64
            invariant
                i <= 64,
                self.mints().len() == 64,
                v@.map_values(|e: StMintEntry| e@) == self.mints().take(i as int).filter(
                    |e: StMintEntryView| mint_in_use(e),
                ),
            decreases 64 - i,
        {
            let ghost before = v@;
            proof {
                reveal(Seq::filter);
                let p = |e: StMintEntryView| mint_in_use(e);
                let next = self.mints().take(i as int + 1);
                assert(next.drop_last() =~= self.mints().take(i as int));
                assert(next.last() == self.mints()[i as int]);
                assert(next.filter(p) == if p(next.last()) {
                    next.drop_last().filter(p).push(next.last())
                } else {
                    next.drop_last().filter(p)
                });
            }
            if !self.st_mint_list[i].is_empty() {
                v.push(self.st_mint_list[i]);
                assert(v@.map_values(|e: StMintEntry| e@) =~= before.map_values(|e: StMintEntry| e@).push(
                    self.mints()[i as int],
                ));
            }
            i = i + 1;
        }
        assert(self.mints().take(64) =~= self.mints());
        v
    }

    pub fn get_mint_entries(&self) -> (v: &[StMintEntry; 64])
        ensures
            v@.map_values(|e: StMintEntry| e@) == self.mints(),
    {
        &self.st_mint_list
    }

    /// The first entry for `st_mint`.
    pub fn get_mint_entry(&self, st_mint: &Pubkey) -> (r: Result<StMintEntry, ProgramError>)
        ensures
            !has_mint(self.mints(), st_mint@) ==> r == Err::<StMintEntry, ProgramError>(
                custom(TipRouterError::MintEntryNotFound),
            ),
            forall|i: int|
                first_mint_at(self.mints(), st_mint@, i) ==> (r matches Ok(e) && e@ == self.mints()[i]),
    {
        match self.find_mint_index(st_mint) {
            Some(i) => Ok(self.st_mint_list[i]),
            None => Err(ProgramError::from(TipRouterError::MintEntryNotFound)),
        }
    }
}

/// Registering a mint keeps the mints in use distinct.
pub proof fn lemma_register_st_mint_keeps_mints_distinct(
    before: Seq<StMintEntryView>,
    i: int,
    entry: StMintEntryView,
)
    requires
        mints_distinct(before),
        !has_mint(before, entry.st_mint),
        0 <= i < before.len(),
    ensures
        mints_distinct(before.update(i, entry)),
{
    let after = before.update(i, entry);
    assert forall|a: int, b: int|
        0 <= a < after.len() && 0 <= b < after.len() && a != b && #[trigger] after[a].st_mint
            == #[trigger] after[b].st_mint implies after[a].st_mint == default_key() by {
        if a == i {
            assert(before[b].st_mint == entry.st_mint);
        } else if b == i {
            assert(before[a].st_mint == entry.st_mint);
        } else {
            assert(before[a].st_mint == before[b].st_mint);
        }
    }
}

/// Registering a vault keeps the registered vaults distinct.
pub proof fn lemma_register_vault_keeps_vaults_distinct(before: Seq<VaultEntryView>, i: int, entry: VaultEntryView)
    requires
        vaults_distinct(before),
        !has_vault(before, entry.vault),
        0 <= i < before.len(),
    ensures
        vaults_distinct(before.update(i, entry)),
{
    let after = before.update(i, entry);
    assert forall|a: int, b: int|
        0 <= a < after.len() && 0 <= b < after.len() && a != b && #[trigger] after[a].vault
            == #[trigger] after[b].vault implies after[a].vault == default_key() by {
        if a == i {
            assert(before[b].vault == entry.vault);
        } else if b == i {
            assert(before[a].vault == entry.vault);
        } else {
            assert(before[a].vault == before[b].vault);
        }
    }
}

} // verus!
