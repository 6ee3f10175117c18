use vstd::prelude::*;

use crate::{
    error::TipRouterError,
    precise_number::{PreciseNumber, precise_new, spec_new},
    pubkey::{Pubkey, default_key},
    vault_registry::{StMintEntry, StMintEntryView, empty_mint_entry},
};

verus! {

/// The model of a weight entry.
pub struct WeightEntryView {
    pub st_mint_entry: StMintEntryView,
    pub weight: u128,
    pub slot_set: u64,
    pub slot_updated: u64,
}

/// The weight of a supported token mint, and the slots it was first set and
/// last updated in (zero while unset).
#[derive(Debug, Clone, Copy)]
pub struct WeightEntry {
    st_mint_entry: StMintEntry,
    weight: u128,
    slot_set: u64,
    slot_updated: u64,
}

impl View for WeightEntry {
    type V = WeightEntryView;

    closed spec fn view(&self) -> WeightEntryView {
        WeightEntryView {
            st_mint_entry: self.st_mint_entry@,
            weight: self.weight,
            slot_set: self.slot_set,
            slot_updated: self.slot_updated,
        }
    }
}

/// An entry after its weight is set in `slot`: the first setting fixes the
/// slot it was set in.
pub open spec fn weight_set(e: WeightEntryView, weight: u128, slot: u64) -> WeightEntryView {
    WeightEntryView {
        weight,
        slot_set: if e.slot_set == 0 {
            slot
        } else {
            e.slot_set
        },
        slot_updated: slot,
        ..e
    }
}

impl Default for WeightEntry {
    fn default() -> (e: Self)
        ensures
            e@ == (WeightEntryView { st_mint_entry: empty_mint_entry(), weight: 0, slot_set: 0, slot_updated: 0 }),
    {
        WeightEntry { st_mint_entry: StMintEntry::default(), weight: 0, slot_set: 0, slot_updated: 0 }
    }
}

impl WeightEntry {
    /// An unset weight for the mint of `mint_entry`.
    pub fn new(mint_entry: &StMintEntry) -> (e: Self)
        ensures
            e@ == (WeightEntryView { st_mint_entry: mint_entry@, weight: 0, slot_set: 0, slot_updated: 0 }),
    {
        WeightEntry { st_mint_entry: *mint_entry, weight: 0, slot_set: 0, slot_updated: 0 }
    }

    /// Whether the entry has no mint.
    pub fn is_empty(&self) -> (b: bool)
        ensures
            b == (self@.st_mint_entry.st_mint == default_key()),
    {
        self.st_mint_entry.is_empty()
    }

    /// Whether the weight has been set.
    pub fn is_set(&self) -> (b: bool)
        ensures
            b == (self@.slot_set > 0),
    {
        self.slot_set > 0
    }

    pub fn slot_set(&self) -> (s: u64)
        ensures
            s == self@.slot_set,
    {
        self.slot_set
    }

    pub fn slot_updated(&self) -> (s: u64)
        ensures
            s == self@.slot_updated,
    {
        self.slot_updated
    }

    pub fn st_mint_entry(&self) -> (e: &StMintEntry)
        ensures
            e@ == self@.st_mint_entry,
    {
        &self.st_mint_entry
    }

    pub fn st_mint(&self) -> (k: &Pubkey)
        ensures
            k@ == self@.st_mint_entry.st_mint,
    {
        self.st_mint_entry.st_mint()
    }

    pub fn weight(&self) -> (w: u128)
        ensures
            w == self@.weight,
    {
        self.weight
    }

    pub fn precise_weight(&self) -> (r: Result<PreciseNumber, TipRouterError>)
        ensures
            r matches Ok(p) && p.value() == spec_new(self@.weight),
    {
        match precise_new(self.weight) {
            Some(p) => Ok(p),
            None => Err(TipRouterError::NewPreciseNumberError),
        }
    }

    /// Sets the weight in `current_slot`.
    pub fn set_weight(&mut self, weight: u128, current_slot: u64)
        ensures
            final(self)@ == weight_set(old(self)@, weight, current_slot),
    {
        self.weight = weight;
        if self.slot_set == 0 {
            self.slot_set = current_slot;
            self.slot_updated = current_slot;
        }
        self.slot_updated = current_slot;
    }
}

} // verus!
