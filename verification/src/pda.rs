use vstd::prelude::*;

use crate::pubkey::Pubkey;

use vstd::string::StringSliceAdditionalSpecFns;

verus! {

/// The program derived address and bump seed that solana's
/// `Pubkey::try_find_program_address` finds for `seeds` under `program_id`,
/// or `None` where it finds none.
pub uninterp spec fn program_address(seeds: Seq<Seq<u8>>, program_id: Seq<u8>) -> Option<(Seq<u8>, u8)>;

/// solana-program's `Pubkey::try_find_program_address`: searches the bump
/// seeds from 255 down for one that, appended to `seeds`, hashes with
/// `program_id` to an address off the curve. Its result depends on its
/// arguments alone, so it is stated through `program_address`; `None` comes
/// when no bump seed is viable or the seeds break solana's limits.
#[verifier::external_body]
pub(crate) fn try_find_program_address(seeds: &Vec<Vec<u8>>, program_id: &Pubkey) -> (r: Option<(Pubkey, u8)>)
    ensures
        match r {
            Some((address, bump)) => program_address(seeds.deep_view(), program_id@) == Some((address@, bump)),
            None => program_address(seeds.deep_view(), program_id@) is None,
        },
{
    let slices: Vec<&[u8]> = seeds.iter().map(|s| s.as_slice()).collect();
    let id = solana_program::pubkey::Pubkey::new_from_array(program_id.bytes);
    match solana_program::pubkey::Pubkey::try_find_program_address(&slices, &id) {
        Some((address, bump)) => Some((Pubkey { bytes: address.to_bytes() }, bump)),
        None => None,
    }
}

/// The address and bump seed found for `seeds`, returned with the seeds.
pub open spec fn address_with_seeds(seeds: Seq<Seq<u8>>, program_id: Seq<u8>, found: Option<(Pubkey, u8, Vec<Vec<u8>>)>) -> bool {
    match found {
        Some((address, bump, s)) => s.deep_view() == seeds && program_address(seeds, program_id) == Some((address@, bump)),
        None => program_address(seeds, program_id) is None,
    }
}

/// Finds the program derived address of `seeds` and hands the seeds back with it.
pub(crate) fn find_address(seeds: Vec<Vec<u8>>, program_id: &Pubkey) -> (r: Option<(Pubkey, u8, Vec<Vec<u8>>)>)
    ensures
        address_with_seeds(seeds.deep_view(), program_id@, r),
{
    match try_find_program_address(&seeds, program_id) {
        Some((address, bump)) => Some((address, bump, seeds)),
        None => None,
    }
}

/// The bytes of a seed tag.
pub(crate) fn tag_bytes(tag: &str) -> (v: Vec<u8>)
    ensures
        v@ == tag.spec_bytes(),
{
    vstd::slice::slice_to_vec(tag.as_bytes())
}

/// A list of seeds, in order.
pub(crate) fn seed_list(parts: Vec<Vec<u8>>) -> (s: Vec<Vec<u8>>)
    ensures
        s.deep_view() == Seq::new(parts@.len(), |i: int| parts@[i]@),
{
    let s = parts;
    assert forall|i: int| 0 <= i < s@.len() implies #[trigger] s@[i].deep_view() == s@[i]@ by {
        assert(s@[i].deep_view() =~= s@[i]@);
    }
    assert(s.deep_view() =~= Seq::new(s@.len(), |i: int| s@[i]@));
    s
}

/// A seed of one byte.
pub(crate) fn byte_seed(b: u8) -> (v: Vec<u8>)
    ensures
        v@ == seq![b],
{
    let mut v: Vec<u8> = Vec::new();
    v.push(b);
    assert(v@ =~= seq![b]);
    v
}

} // verus!
