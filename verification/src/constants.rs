use vstd::prelude::*;

use crate::{
    error::TipRouterError,
    precise_number::{PreciseNumber, precise_new, precise_checked_div, spec_div, spec_new, precise_one},
    pubkey::Pubkey,
};

verus! {

pub const MAX_FEE_BPS: u64 = 10_000;
pub const MAX_ST_MINTS: usize = 64;
pub const MAX_VAULTS: usize = 64;
pub const MAX_OPERATORS: usize = 256;
pub const MIN_EPOCHS_BEFORE_STALL: u64 = 1;
pub const MAX_EPOCHS_BEFORE_STALL: u64 = 50;
pub const MIN_SLOTS_AFTER_CONSENSUS: u64 = 1000;
/// Fifty epochs of solana's default 432,000 slots.
pub const MAX_SLOTS_AFTER_CONSENSUS: u64 = 21_600_000;
pub const PRECISE_CONSENSUS_NUMERATOR: u128 = 2;
pub const PRECISE_CONSENSUS_DENOMINATOR: u128 = 3;
pub const DEFAULT_CONSENSUS_REACHED_SLOT: u64 = u64::MAX;
/// solana's largest permitted account growth per instruction, 10 KiB.
pub const MAX_REALLOC_BYTES: u64 = 10_240;
pub const WEIGHT_PRECISION: u128 = 1_000_000_000;
pub const SWITCHBOARD_MAX_STALE_SLOTS: u64 = 100;

/// 5S7ErPSkFmyXuq2aE3rZ6ofwVyZpwzUt6w7m6kqekvMe
#[allow(non_snake_case)]
pub fn JTO_SOL_FEED() -> (key: Pubkey)
    ensures
        key@ == seq![65u8, 221u8, 82u8, 122u8, 223u8, 12u8, 69u8, 204u8, 217u8, 96u8, 253u8, 112u8, 225u8, 166u8, 181u8, 60u8, 68u8, 44u8, 175u8, 213u8, 50u8, 147u8, 49u8, 129u8, 255u8, 9u8, 167u8, 23u8, 174u8, 214u8, 204u8, 105u8],
{
    let key = Pubkey { bytes: [65, 221, 82, 122, 223, 12, 69, 204, 217, 96, 253, 112, 225, 166, 181, 60, 68, 44, 175, 213, 50, 147, 49, 129, 255, 9, 167, 23, 174, 214, 204, 105] };
    assert(key@ =~= seq![65u8, 221u8, 82u8, 122u8, 223u8, 12u8, 69u8, 204u8, 217u8, 96u8, 253u8, 112u8, 225u8, 166u8, 181u8, 60u8, 68u8, 44u8, 175u8, 213u8, 50u8, 147u8, 49u8, 129u8, 255u8, 9u8, 167u8, 23u8, 174u8, 214u8, 204u8, 105u8]);
    key
}

/// 4Z1SLH9g4ikNBV8uP2ZctEouqjYmVqB2Tz5SZxKYBN7z
#[allow(non_snake_case)]
pub fn JTOSOL_SOL_FEED() -> (key: Pubkey)
    ensures
        key@ == seq![52u8, 198u8, 35u8, 249u8, 56u8, 92u8, 152u8, 216u8, 174u8, 233u8, 173u8, 110u8, 31u8, 185u8, 252u8, 50u8, 197u8, 48u8, 77u8, 242u8, 62u8, 211u8, 18u8, 50u8, 122u8, 141u8, 129u8, 82u8, 189u8, 145u8, 162u8, 9u8],
{
    let key = Pubkey { bytes: [52, 198, 35, 249, 56, 92, 152, 216, 174, 233, 173, 110, 31, 185, 252, 50, 197, 48, 77, 242, 62, 211, 18, 50, 122, 141, 129, 82, 189, 145, 162, 9] };
    assert(key@ =~= seq![52u8, 198u8, 35u8, 249u8, 56u8, 92u8, 152u8, 216u8, 174u8, 233u8, 173u8, 110u8, 31u8, 185u8, 252u8, 50u8, 197u8, 48u8, 77u8, 242u8, 62u8, 211u8, 18u8, 50u8, 122u8, 141u8, 129u8, 82u8, 189u8, 145u8, 162u8, 9u8]);
    key
}

/// J1toso1uCk3RLmjorhTtrVwY9HJ7X8V9yYac6Y7kGCPn
#[allow(non_snake_case)]
pub fn JITO_SOL_MINT() -> (key: Pubkey)
    ensures
        key@ == seq![252u8, 209u8, 65u8, 233u8, 131u8, 44u8, 175u8, 16u8, 173u8, 145u8, 116u8, 149u8, 202u8, 15u8, 39u8, 27u8, 91u8, 41u8, 60u8, 212u8, 112u8, 39u8, 234u8, 115u8, 112u8, 7u8, 237u8, 64u8, 235u8, 57u8, 160u8, 189u8],
{
    let key = Pubkey { bytes: [252, 209, 65, 233, 131, 44, 175, 16, 173, 145, 116, 149, 202, 15, 39, 27, 91, 41, 60, 212, 112, 39, 234, 115, 112, 7, 237, 64, 235, 57, 160, 189] };
    assert(key@ =~= seq![252u8, 209u8, 65u8, 233u8, 131u8, 44u8, 175u8, 16u8, 173u8, 145u8, 116u8, 149u8, 202u8, 15u8, 39u8, 27u8, 91u8, 41u8, 60u8, 212u8, 112u8, 39u8, 234u8, 115u8, 112u8, 7u8, 237u8, 64u8, 235u8, 57u8, 160u8, 189u8]);
    key
}

/// Jito4APyf642JPZPx3hGc6WWJ8zPKtRbRs4P815Awbb
#[allow(non_snake_case)]
pub fn JITO_SOL_POOL_ADDRESS() -> (key: Pubkey)
    ensures
        key@ == seq![4u8, 138u8, 62u8, 8u8, 195u8, 180u8, 149u8, 190u8, 23u8, 244u8, 84u8, 39u8, 216u8, 155u8, 236u8, 91u8, 128u8, 199u8, 226u8, 105u8, 92u8, 24u8, 100u8, 215u8, 103u8, 67u8, 219u8, 57u8, 190u8, 211u8, 70u8, 214u8],
{
    let key = Pubkey { bytes: [4, 138, 62, 8, 195, 180, 149, 190, 23, 244, 84, 39, 216, 155, 236, 91, 128, 199, 226, 105, 92, 24, 100, 215, 103, 67, 219, 57, 190, 211, 70, 214] };
    assert(key@ =~= seq![4u8, 138u8, 62u8, 8u8, 195u8, 180u8, 149u8, 190u8, 23u8, 244u8, 84u8, 39u8, 216u8, 155u8, 236u8, 91u8, 128u8, 199u8, 226u8, 105u8, 92u8, 24u8, 100u8, 215u8, 103u8, 67u8, 219u8, 57u8, 190u8, 211u8, 70u8, 214u8]);
    key
}

/// The inner value of the consensus threshold two thirds, as spl-math divides it.
pub open spec fn consensus_value() -> nat {
    spec_div(spec_new(2), spec_new(3)).unwrap()
}

/// The consensus threshold, two thirds, as a precise number.
pub fn precise_consensus() -> (r: Result<PreciseNumber, TipRouterError>)
    ensures
        r matches Ok(p) && p.value() == consensus_value(),
        consensus_value() == 666_666_666_666,
{
    assert(spec_new(2) == 2_000_000_000_000nat);
    assert(spec_new(3) == 3_000_000_000_000nat);
    assert(2_000_000_000_000nat * precise_one() == 2_000_000_000_000_000_000_000_000nat);
    assert((2_000_000_000_000_000_000_000_000nat + 500_000_000_000nat) / 3_000_000_000_000nat
        == 666_666_666_666nat) by (nonlinear_arith);
    assert(consensus_value() == 666_666_666_666);
    let numerator = match precise_new(PRECISE_CONSENSUS_NUMERATOR) {
        Some(p) => p,
        None => {
            return Err(TipRouterError::NewPreciseNumberError);
        },
    };
    let denominator = match precise_new(PRECISE_CONSENSUS_DENOMINATOR) {
        Some(p) => p,
        None => {
            return Err(TipRouterError::NewPreciseNumberError);
        },
    };
    match precise_checked_div(&numerator, &denominator) {
        Some(p) => Ok(p),
        None => Err(TipRouterError::DenominatorIsZero),
    }
}

} // verus!
