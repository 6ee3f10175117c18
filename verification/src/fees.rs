use vstd::prelude::*;

use vstd::arithmetic::div_mod::lemma_div_denominator;

use crate::{
    base_fee_group::BaseFeeGroup,
    constants::MAX_FEE_BPS,
    error::TipRouterError,
    ncn_fee_group::NcnFeeGroup,
    precise_number::{PreciseNumber, precise_checked_div, precise_new, spec_div, spec_new, precise_one, u256_bound, lemma_spec_div_whole},
    pubkey::Pubkey,
};

verus! {

/// One fee, in basis points.
#[derive(Debug, Clone, Copy)]
pub struct Fee {
    fee: u16,
}

impl Fee {
    pub closed spec fn spec_fee(self) -> u16 {
        self.fee
    }

    pub fn new(fee: u16) -> (f: Self)
        ensures
            f.spec_fee() == fee,
    {
        Fee { fee }
    }

    pub fn fee(&self) -> (f: u16)
        ensures
            f == self.spec_fee(),
    {
        self.fee
    }
}

impl Default for Fee {
    fn default() -> (f: Self)
        ensures
            f.spec_fee() == 0,
    {
        Fee { fee: 0 }
    }
}

/// The model of a fee schedule: the epoch it takes effect, and the fee of
/// each base fee group and each NCN fee group.
pub struct FeesView {
    pub activation_epoch: u64,
    pub base_fee_bps: Seq<u16>,
    pub ncn_fee_bps: Seq<u16>,
}

/// A fee schedule that takes effect at its activation epoch.
#[derive(Debug, Clone, Copy)]
pub struct Fees {
    activation_epoch: u64,
    base_fee_groups_bps: [Fee; 8],
    ncn_fee_groups_bps: [Fee; 8],
}

/// The sum of the first `n` entries of `s`.
pub open spec fn sum_first(s: Seq<u16>, n: int) -> int
    decreases n,
{
    if n <= 0 {
        0
    } else {
        sum_first(s, n - 1) + s[n - 1]
    }
}

/// The sum of all base and NCN fees of a schedule.
pub open spec fn total_fees(f: FeesView) -> int {
    sum_first(f.base_fee_bps, 8) + sum_first(f.ncn_fee_bps, 8)
}

pub proof fn lemma_sum_first_bound(s: Seq<u16>, n: int)
    requires
        0 <= n <= s.len(),
    ensures
        0 <= sum_first(s, n) <= n * 65535,
    decreases n,
{
    if n > 0 {
        lemma_sum_first_bound(s, n - 1);
    }
}

impl View for Fees {
    type V = FeesView;

    closed spec fn view(&self) -> FeesView {
        FeesView {
            activation_epoch: self.activation_epoch,
            base_fee_bps: Seq::new(8, |i: int| self.base_fee_groups_bps@[i].spec_fee()),
            ncn_fee_bps: Seq::new(8, |i: int| self.ncn_fee_groups_bps@[i].spec_fee()),
        }
    }
}

impl Fees {
    pub proof fn lemma_lengths(&self)
        ensures
            self@.base_fee_bps.len() == 8,
            self@.ncn_fee_bps.len() == 8,
    {
    }

    /// A schedule from `epoch` with the DAO fee and the default NCN fee set
    /// and every other fee zero.
    pub fn new(dao_fee_bps: u16, default_ncn_fee_bps: u16, epoch: u64) -> (r: Result<Self, TipRouterError>)
        ensures
            r is Ok <==> dao_fee_bps <= MAX_FEE_BPS && default_ncn_fee_bps <= MAX_FEE_BPS,
            r is Err ==> r == Err::<Fees, TipRouterError>(TipRouterError::FeeCapExceeded),
            r matches Ok(f) ==> f@.activation_epoch == epoch && f@.base_fee_bps == seq![
                dao_fee_bps,
                0u16,
                0u16,
                0u16,
                0u16,
                0u16,
                0u16,
                0u16,
            ] && f@.ncn_fee_bps == seq![default_ncn_fee_bps, 0u16, 0u16, 0u16, 0u16, 0u16, 0u16, 0u16],
    {
        let zero = Fee::default();
        let mut fees = Fees {
            activation_epoch: epoch,
            base_fee_groups_bps: [zero; 8],
            ncn_fee_groups_bps: [zero; 8],
        };
        fees.set_base_fee_bps(BaseFeeGroup::default(), dao_fee_bps)?;
        fees.set_ncn_fee_bps(NcnFeeGroup::default(), default_ncn_fee_bps)?;
        assert(fees@.base_fee_bps =~= seq![dao_fee_bps, 0u16, 0u16, 0u16, 0u16, 0u16, 0u16, 0u16]);
        assert(fees@.ncn_fee_bps =~= seq![default_ncn_fee_bps, 0u16, 0u16, 0u16, 0u16, 0u16, 0u16, 0u16]);
        Ok(fees)
    }

    pub fn activation_epoch(&self) -> (e: u64)
        ensures
            e == self@.activation_epoch,
    {
        self.activation_epoch
    }

    pub fn base_fee_bps(&self, base_fee_group: BaseFeeGroup) -> (r: Result<u16, TipRouterError>)
        ensures
            base_fee_group.group < 8 ==> r == Ok::<u16, TipRouterError>(
                self@.base_fee_bps[base_fee_group.group as int],
            ),
            base_fee_group.group >= 8 ==> r == Err::<u16, TipRouterError>(TipRouterError::InvalidNcnFeeGroup),
    {
        let group_index = base_fee_group.group_index()?;
        Ok(self.base_fee_groups_bps[group_index].fee())
    }

    pub fn precise_base_fee_bps(&self, base_fee_group: BaseFeeGroup) -> (r: Result<PreciseNumber, TipRouterError>)
        ensures
            base_fee_group.group < 8 ==> (r matches Ok(p) && p.value() == spec_new(
                self@.base_fee_bps[base_fee_group.group as int] as u128,
            )),
            base_fee_group.group >= 8 ==> (r matches Err(e) && e == TipRouterError::InvalidNcnFeeGroup),
    {
        let fee = self.base_fee_bps(base_fee_group)?;
        match precise_new(fee as u128) {
            Some(p) => Ok(p),
            None => Err(TipRouterError::NewPreciseNumberError),
        }
    }

    pub fn ncn_fee_bps(&self, ncn_fee_group: NcnFeeGroup) -> (r: Result<u16, TipRouterError>)
        ensures
            ncn_fee_group.group < 8 ==> r == Ok::<u16, TipRouterError>(
                self@.ncn_fee_bps[ncn_fee_group.group as int],
            ),
            ncn_fee_group.group >= 8 ==> r == Err::<u16, TipRouterError>(TipRouterError::InvalidNcnFeeGroup),
    {
        let group_index = ncn_fee_group.group_index()?;
        Ok(self.ncn_fee_groups_bps[group_index].fee())
    }

    pub fn precise_ncn_fee_bps(&self, ncn_fee_group: NcnFeeGroup) -> (r: Result<PreciseNumber, TipRouterError>)
        ensures
            ncn_fee_group.group < 8 ==> (r matches Ok(p) && p.value() == spec_new(
                self@.ncn_fee_bps[ncn_fee_group.group as int] as u128,
            )),
            ncn_fee_group.group >= 8 ==> (r matches Err(e) && e == TipRouterError::InvalidNcnFeeGroup),
    {
        let fee = self.ncn_fee_bps(ncn_fee_group)?;
        match precise_new(fee as u128) {
            Some(p) => Ok(p),
            None => Err(TipRouterError::NewPreciseNumberError),
        }
    }

    /// The sum of all base and NCN fees.
    pub fn total_fees_bps(&self) -> (r: Result<u64, TipRouterError>)
        ensures
            r == Ok::<u64, TipRouterError>(total_fees(self@) as u64),
            0 <= total_fees(self@) <= 16 * 65535,
    {
        proof {
            lemma_sum_first_bound(self@.base_fee_bps, 8);
            lemma_sum_first_bound(self@.ncn_fee_bps, 8);
        }
        let mut total_fee_bps: u64 = 0;
        let mut i: usize = 0;
        while i < 8
            invariant
                0 <= i <= 8,
                total_fee_bps == sum_first(self@.base_fee_bps, i as int),
                self@.base_fee_bps.len() == 8,
            decreases 8 - i,
        {
            proof {
                lemma_sum_first_bound(self@.base_fee_bps, i as int);
            }
            total_fee_bps = total_fee_bps + self.base_fee_groups_bps[i].fee as u64;
            i = i + 1;
        }
        let mut i: usize = 0;
        while i < 8
            invariant
                0 <= i <= 8,
                total_fee_bps == sum_first(self@.base_fee_bps, 8) + sum_first(self@.ncn_fee_bps, i as int),
                self@.ncn_fee_bps.len() == 8,
                sum_first(self@.base_fee_bps, 8) <= 8 * 65535,
            decreases 8 - i,
        {
            proof {
                lemma_sum_first_bound(self@.ncn_fee_bps, i as int);
            }
            total_fee_bps = total_fee_bps + self.ncn_fee_groups_bps[i].fee as u64;
            i = i + 1;
        }
        Ok(total_fee_bps)
    }

    pub fn precise_total_fee_bps(&self) -> (r: Result<PreciseNumber, TipRouterError>)
        ensures
            r matches Ok(p) && p.value() == spec_new(total_fees(self@) as u128),
    {
        let total_fee_bps = self.total_fees_bps()?;
        match precise_new(total_fee_bps as u128) {
            Some(p) => Ok(p),
            None => Err(TipRouterError::NewPreciseNumberError),
        }
    }

    pub fn set_activation_epoch(&mut self, value: u64)
        ensures
            final(self)@ == (FeesView { activation_epoch: value, ..old(self)@ }),
    {
        self.activation_epoch = value;
    }

    pub fn set_base_fee_bps(&mut self, base_fee_group: BaseFeeGroup, value: u16) -> (r: Result<(), TipRouterError>)
        ensures
            value > MAX_FEE_BPS ==> r == Err::<(), TipRouterError>(TipRouterError::FeeCapExceeded),
            value <= MAX_FEE_BPS && base_fee_group.group >= 8 ==> r == Err::<(), TipRouterError>(
                TipRouterError::InvalidNcnFeeGroup,
            ),
            r is Ok <==> value <= MAX_FEE_BPS && base_fee_group.group < 8,
            r is Ok ==> final(self)@ == (FeesView {
                base_fee_bps: old(self)@.base_fee_bps.update(base_fee_group.group as int, value),
                ..old(self)@
            }),
            r is Err ==> *final(self) == *old(self),
    {
        if value as u64 > MAX_FEE_BPS {
            return Err(TipRouterError::FeeCapExceeded);
        }
        let group_index = base_fee_group.group_index()?;
        self.base_fee_groups_bps[group_index] = Fee::new(value);
        assert(self@.base_fee_bps =~= old(self)@.base_fee_bps.update(base_fee_group.group as int, value));
        Ok(())
    }

    pub fn set_ncn_fee_bps(&mut self, ncn_fee_group: NcnFeeGroup, value: u16) -> (r: Result<(), TipRouterError>)
        ensures
            value > MAX_FEE_BPS ==> r == Err::<(), TipRouterError>(TipRouterError::FeeCapExceeded),
            value <= MAX_FEE_BPS && ncn_fee_group.group >= 8 ==> r == Err::<(), TipRouterError>(
                TipRouterError::InvalidNcnFeeGroup,
            ),
            r is Ok <==> value <= MAX_FEE_BPS && ncn_fee_group.group < 8,
            r is Ok ==> final(self)@ == (FeesView {
                ncn_fee_bps: old(self)@.ncn_fee_bps.update(ncn_fee_group.group as int, value),
                ..old(self)@
            }),
            r is Err ==> *final(self) == *old(self),
    {
        if value as u64 > MAX_FEE_BPS {
            return Err(TipRouterError::FeeCapExceeded);
        }
        let group_index = ncn_fee_group.group_index()?;
        self.ncn_fee_groups_bps[group_index] = Fee::new(value);
        assert(self@.ncn_fee_bps =~= old(self)@.ncn_fee_bps.update(ncn_fee_group.group as int, value));
        Ok(())
    }
}


/// The model of a fee configuration: the block engine fee, the wallet of each
/// base fee group, and two fee schedules.
pub struct FeeConfigView {
    pub block_engine_fee_bps: u16,
    pub base_fee_wallets: Seq<Pubkey>,
    pub fee_1: FeesView,
    pub fee_2: FeesView,
}

/// The groups among the first `n`, in order, whose fee in `fees` is not zero.
pub open spec fn groups_with_fees(fees: Seq<u16>, n: int) -> Seq<u8>
    decreases n,
{
    if n <= 0 {
        Seq::empty()
    } else if fees[n - 1] != 0 {
        groups_with_fees(fees, n - 1).push((n - 1) as u8)
    } else {
        groups_with_fees(fees, n - 1)
    }
}

/// Whether the schedule in force at `epoch` is the first one: a schedule not
/// yet active gives way to the other; of two active ones, the later wins
/// (the first on a tie).
pub open spec fn current_is_first(v: FeeConfigView, epoch: u64) -> bool {
    if v.fee_1.activation_epoch > epoch {
        false
    } else if v.fee_2.activation_epoch > epoch {
        true
    } else {
        v.fee_1.activation_epoch >= v.fee_2.activation_epoch
    }
}

/// The schedule in force at `epoch`.
pub open spec fn current_view(v: FeeConfigView, epoch: u64) -> FeesView {
    if current_is_first(v, epoch) {
        v.fee_1
    } else {
        v.fee_2
    }
}

/// Whether the schedule that updates write to at `epoch` is the first one:
/// one not yet active, else the earlier one (the first on a tie).
pub open spec fn updatable_is_first(v: FeeConfigView, epoch: u64) -> bool {
    if v.fee_1.activation_epoch > epoch {
        true
    } else if v.fee_2.activation_epoch > epoch {
        false
    } else {
        v.fee_1.activation_epoch <= v.fee_2.activation_epoch
    }
}

pub open spec fn updatable_view(v: FeeConfigView, epoch: u64) -> FeesView {
    if updatable_is_first(v, epoch) {
        v.fee_1
    } else {
        v.fee_2
    }
}

/// `v` with the schedule that updates write to at `epoch` replaced by `f`.
pub open spec fn with_updatable(v: FeeConfigView, epoch: u64, f: FeesView) -> FeeConfigView {
    if updatable_is_first(v, epoch) {
        FeeConfigView { fee_1: f, ..v }
    } else {
        FeeConfigView { fee_2: f, ..v }
    }
}

/// What checking the fees at `epoch` gives: the block engine fee must leave
/// room for the others, and the fees in force must not exceed 100%.
pub open spec fn fees_check(v: FeeConfigView, epoch: u64) -> Result<(), TipRouterError> {
    if v.block_engine_fee_bps > MAX_FEE_BPS {
        Err(TipRouterError::ArithmeticOverflow)
    } else if v.block_engine_fee_bps == MAX_FEE_BPS {
        Err(TipRouterError::DenominatorIsZero)
    } else if total_fees(current_view(v, epoch)) > MAX_FEE_BPS {
        Err(TipRouterError::FeeCapExceeded)
    } else {
        Ok(())
    }
}

/// The fee scaled up so that the fees other than the block engine's sum to
/// 100%: `fee * 10_000 / (10_000 - block_engine_fee)`, rounded down.
pub open spec fn adjusted_fee(v: FeeConfigView, fee: u16) -> Result<u64, TipRouterError> {
    if v.block_engine_fee_bps > MAX_FEE_BPS {
        Err(TipRouterError::ArithmeticOverflow)
    } else if v.block_engine_fee_bps == MAX_FEE_BPS {
        Err(TipRouterError::DenominatorIsZero)
    } else {
        Ok((fee * MAX_FEE_BPS / (MAX_FEE_BPS - v.block_engine_fee_bps)) as u64)
    }
}

/// The inner value of the precise adjusted fee, as spl-math divides it.
pub open spec fn adjusted_precise_fee(v: FeeConfigView, fee: u16) -> nat {
    spec_div(
        spec_new((fee * MAX_FEE_BPS) as u128),
        spec_new((MAX_FEE_BPS - v.block_engine_fee_bps) as u128),
    ).unwrap()
}

/// The precise adjusted fee scales the fee by the share left after the block
/// engine fee: it is `fee * 10_000 / (10_000 - block_engine_fee)` in units
/// of 10^-12, rounded down, and its whole part is the integer adjusted fee.
pub proof fn lemma_adjusted_precise_fee_scales(v: FeeConfigView, fee: u16)
    requires
        v.block_engine_fee_bps < MAX_FEE_BPS,
    ensures
        adjusted_precise_fee(v, fee) == (fee * MAX_FEE_BPS * 1_000_000_000_000) / (MAX_FEE_BPS
            - v.block_engine_fee_bps) as int,
        adjusted_precise_fee(v, fee) / 1_000_000_000_000 == (fee * MAX_FEE_BPS) / (MAX_FEE_BPS
            - v.block_engine_fee_bps) as int,
        adjusted_fee(v, fee) == Ok::<u64, TipRouterError>(
            (adjusted_precise_fee(v, fee) / 1_000_000_000_000) as u64,
        ),
{
    let f: int = fee * MAX_FEE_BPS;
    let r: int = (MAX_FEE_BPS - v.block_engine_fee_bps) as int;
    lemma_spec_div_whole(f as u128, r as u128);
    lemma_div_denominator(f * 1_000_000_000_000, 1_000_000_000_000, r);
    assert((f * 1_000_000_000_000) / 1_000_000_000_000 == f);
    assert(1_000_000_000_000 * r == r * 1_000_000_000_000) by (nonlinear_arith);
    lemma_div_denominator(f * 1_000_000_000_000, r, 1_000_000_000_000);
}

/// The configuration after copying the schedule in force over the
/// updatable one, which an update does first when the updatable schedule is
/// already active (and so both are).
#[verifier::opaque]
pub open spec fn with_current_copied(v: FeeConfigView, epoch: u64) -> FeeConfigView {
    if updatable_view(v, epoch).activation_epoch <= epoch {
        with_updatable(v, epoch, current_view(v, epoch))
    } else {
        v
    }
}

/// Setting the wallet of base fee group `group` to `wallet`, if one is given.
#[verifier::opaque]
pub open spec fn wallet_step(v: FeeConfigView, group: u8, wallet: Option<Pubkey>) -> (
    FeeConfigView,
    Result<(), TipRouterError>,
) {
    match wallet {
        None => (v, Ok(())),
        Some(w) => if group < 8 {
            (FeeConfigView { base_fee_wallets: v.base_fee_wallets.update(group as int, w), ..v }, Ok(()))
        } else {
            (v, Err(TipRouterError::InvalidNcnFeeGroup))
        },
    }
}

/// Setting, in the updatable schedule, the fee of base fee group `group`, if
/// one is given.
#[verifier::opaque]
pub open spec fn base_fee_step(v: FeeConfigView, group: u8, fee: Option<u16>, epoch: u64) -> (
    FeeConfigView,
    Result<(), TipRouterError>,
) {
    match fee {
        None => (v, Ok(())),
        Some(f) => if f > MAX_FEE_BPS {
            (v, Err(TipRouterError::FeeCapExceeded))
        } else if group >= 8 {
            (v, Err(TipRouterError::InvalidNcnFeeGroup))
        } else {
            (
                with_updatable(
                    v,
                    epoch,
                    FeesView {
                        base_fee_bps: updatable_view(v, epoch).base_fee_bps.update(group as int, f),
                        ..updatable_view(v, epoch)
                    },
                ),
                Ok(()),
            )
        },
    }
}

/// Setting, in the updatable schedule, the fee of NCN fee group `group`, if
/// one is given.
#[verifier::opaque]
pub open spec fn ncn_fee_step(v: FeeConfigView, group: u8, fee: Option<u16>, epoch: u64) -> (
    FeeConfigView,
    Result<(), TipRouterError>,
) {
    match fee {
        None => (v, Ok(())),
        Some(f) => if f > MAX_FEE_BPS {
            (v, Err(TipRouterError::FeeCapExceeded))
        } else if group >= 8 {
            (v, Err(TipRouterError::InvalidNcnFeeGroup))
        } else {
            (
                with_updatable(
                    v,
                    epoch,
                    FeesView {
                        ncn_fee_bps: updatable_view(v, epoch).ncn_fee_bps.update(group as int, f),
                        ..updatable_view(v, epoch)
                    },
                ),
                Ok(()),
            )
        },
    }
}

/// The configuration with the updatable schedule set to take effect in the
/// epoch after `epoch`.
#[verifier::opaque]
pub open spec fn scheduled_next(v: FeeConfigView, epoch: u64) -> FeeConfigView {
    with_updatable(
        v,
        epoch,
        FeesView { activation_epoch: (epoch + 1) as u64, ..updatable_view(v, epoch) },
    )
}

/// An update of the fee configuration at `epoch`: the configuration it
/// leaves and what it returns. The steps run in order and the first that
/// fails ends the update, leaving what the steps before it wrote.
pub open spec fn fee_config_update(
    v: FeeConfigView,
    new_block_engine_fee_bps: Option<u16>,
    base_fee_group: Option<BaseFeeGroup>,
    new_base_fee_wallet: Option<Pubkey>,
    new_base_fee_bps: Option<u16>,
    ncn_fee_group: Option<NcnFeeGroup>,
    new_ncn_fee_bps: Option<u16>,
    epoch: u64,
) -> (FeeConfigView, Result<(), TipRouterError>) {
    let v1 = with_current_copied(v, epoch);
    let v2 = match new_block_engine_fee_bps {
        Some(b) => FeeConfigView { block_engine_fee_bps: b, ..v1 },
        None => v1,
    };
    let base_group: u8 = match base_fee_group {
        Some(g) => g.group,
        None => 0,
    };
    let ncn_group: u8 = match ncn_fee_group {
        Some(g) => g.group,
        None => 0,
    };
    let (v3, r3) = wallet_step(v2, base_group, new_base_fee_wallet);
    if r3 is Err {
        (v3, r3)
    } else {
        let (v4, r4) = base_fee_step(v3, base_group, new_base_fee_bps, epoch);
        if r4 is Err {
            (v4, r4)
        } else {
            let (v5, r5) = ncn_fee_step(v4, ncn_group, new_ncn_fee_bps, epoch);
            if r5 is Err {
                (v5, r5)
            } else if epoch == u64::MAX {
                (v5, Err(TipRouterError::ArithmeticOverflow))
            } else {
                let v6 = scheduled_next(v5, epoch);
                (v6, fees_check(v6, epoch))
            }
        }
    }
}

/// The fee configuration: a block engine fee, the base fee wallets, and two
/// fee schedules, so that a change can be set up for the next epoch while
/// the current one stays in force.
#[derive(Debug, Clone, Copy)]
pub struct FeeConfig {
    block_engine_fee_bps: u16,
    base_fee_wallets: [Pubkey; 8],
    /// The first fee schedule.
    pub fee_1: Fees,
    /// The second fee schedule.
    pub fee_2: Fees,
}

impl View for FeeConfig {
    type V = FeeConfigView;

    closed spec fn view(&self) -> FeeConfigView {
        FeeConfigView {
            block_engine_fee_bps: self.block_engine_fee_bps,
            base_fee_wallets: self.base_fee_wallets@,
            fee_1: self.fee_1@,
            fee_2: self.fee_2@,
        }
    }
}

impl FeeConfig {
    pub proof fn lemma_lengths(&self)
        ensures
            self@.base_fee_wallets.len() == 8,
            self@.fee_1.base_fee_bps.len() == 8,
            self@.fee_1.ncn_fee_bps.len() == 8,
            self@.fee_2.base_fee_bps.len() == 8,
            self@.fee_2.ncn_fee_bps.len() == 8,
    {
    }

    /// A configuration with `dao_fee_wallet` for every base fee group and the
    /// same schedule, active from `current_epoch`, in both places.
    pub fn new(
        dao_fee_wallet: Pubkey,
        block_engine_fee_bps: u16,
        dao_fee_bps: u16,
        default_ncn_fee_bps: u16,
        current_epoch: u64,
    ) -> (r: Result<Self, TipRouterError>)
        ensures
            dao_fee_wallet@ == crate::pubkey::default_key() ==> r == Err::<FeeConfig, TipRouterError>(
                TipRouterError::DefaultDaoWallet,
            ),
            dao_fee_wallet@ != crate::pubkey::default_key() && (block_engine_fee_bps > MAX_FEE_BPS || dao_fee_bps
                > MAX_FEE_BPS || default_ncn_fee_bps > MAX_FEE_BPS) ==> r == Err::<FeeConfig, TipRouterError>(
                TipRouterError::FeeCapExceeded,
            ),
            dao_fee_wallet@ != crate::pubkey::default_key() && block_engine_fee_bps == MAX_FEE_BPS
                && dao_fee_bps <= MAX_FEE_BPS && default_ncn_fee_bps <= MAX_FEE_BPS ==> r == Err::<
                FeeConfig,
                TipRouterError,
            >(TipRouterError::DenominatorIsZero),
            dao_fee_wallet@ != crate::pubkey::default_key() && block_engine_fee_bps < MAX_FEE_BPS && dao_fee_bps
                <= MAX_FEE_BPS && default_ncn_fee_bps <= MAX_FEE_BPS && dao_fee_bps + default_ncn_fee_bps
                > MAX_FEE_BPS ==> r == Err::<FeeConfig, TipRouterError>(TipRouterError::FeeCapExceeded),
            r is Ok <==> dao_fee_wallet@ != crate::pubkey::default_key() && block_engine_fee_bps < MAX_FEE_BPS
                && dao_fee_bps + default_ncn_fee_bps <= MAX_FEE_BPS,
            r matches Ok(c) ==> {
                &&& c@.block_engine_fee_bps == block_engine_fee_bps
                &&& c@.base_fee_wallets == Seq::new(8, |i: int| dao_fee_wallet)
                &&& c@.fee_1 == c@.fee_2
                &&& c@.fee_1.activation_epoch == current_epoch
                &&& c@.fee_1.base_fee_bps == seq![dao_fee_bps, 0u16, 0u16, 0u16, 0u16, 0u16, 0u16, 0u16]
                &&& c@.fee_1.ncn_fee_bps == seq![
                    default_ncn_fee_bps,
                    0u16,
                    0u16,
                    0u16,
                    0u16,
                    0u16,
                    0u16,
                    0u16,
                ]
            },
    {
        if dao_fee_wallet.is_default() {
            return Err(TipRouterError::DefaultDaoWallet);
        }
        if block_engine_fee_bps as u64 > MAX_FEE_BPS {
            return Err(TipRouterError::FeeCapExceeded);
        }
        let fee = Fees::new(dao_fee_bps, default_ncn_fee_bps, current_epoch)?;
        let mut fee_config = FeeConfig {
            block_engine_fee_bps,
            base_fee_wallets: [dao_fee_wallet; 8],
            fee_1: fee,
            fee_2: fee,
        };
        fee_config.set_base_fee_wallet(BaseFeeGroup::default(), dao_fee_wallet)?;
        assert(fee_config@.base_fee_wallets =~= Seq::new(8, |i: int| dao_fee_wallet));
        proof {
            let b = fee_config@.fee_1.base_fee_bps;
            let n = fee_config@.fee_1.ncn_fee_bps;
            assert(sum_first(b, 8) == dao_fee_bps) by {
                reveal_with_fuel(sum_first, 9);
            }
            assert(sum_first(n, 8) == default_ncn_fee_bps) by {
                reveal_with_fuel(sum_first, 9);
            }
        }
        fee_config.check_fees_okay(current_epoch)?;
        Ok(fee_config)
    }

    /// The schedule in force at `current_epoch`.
    pub fn current_fees(&self, current_epoch: u64) -> (f: &Fees)
        ensures
            f@ == current_view(self@, current_epoch),
    {
        if self.fee_1.activation_epoch > current_epoch {
            return &self.fee_2;
        }
        if self.fee_2.activation_epoch > current_epoch {
            return &self.fee_1;
        }
        if self.fee_1.activation_epoch >= self.fee_2.activation_epoch {
            &self.fee_1
        } else {
            &self.fee_2
        }
    }

    fn updatable_is_first(&self, current_epoch: u64) -> (first: bool)
        ensures
            first == updatable_is_first(self@, current_epoch),
    {
        if self.fee_1.activation_epoch > current_epoch {
            return true;
        }
        if self.fee_2.activation_epoch > current_epoch {
            return false;
        }
        self.fee_1.activation_epoch <= self.fee_2.activation_epoch
    }

    /// The schedule that updates write to at `current_epoch`: one not yet
    /// active, else the earlier one.
    pub fn updatable_fees(&mut self, current_epoch: u64) -> (f: &mut Fees)
        ensures
            f@ == updatable_view(old(self)@, current_epoch),
            final(self)@ == with_updatable(old(self)@, current_epoch, final(f)@),
    {
        if self.fee_1.activation_epoch > current_epoch {
            return &mut self.fee_1;
        }
        if self.fee_2.activation_epoch > current_epoch {
            return &mut self.fee_2;
        }
        if self.fee_1.activation_epoch <= self.fee_2.activation_epoch {
            &mut self.fee_1
        } else {
            &mut self.fee_2
        }
    }

    /// Makes the schedule that updates write to at `current_epoch` take
    /// effect in the next epoch.
    fn update_updatable_epoch(&mut self, current_epoch: u64) -> (r: Result<(), TipRouterError>)
        ensures
            current_epoch == u64::MAX ==> r == Err::<(), TipRouterError>(TipRouterError::ArithmeticOverflow)
                && *final(self) == *old(self),
            current_epoch < u64::MAX ==> r is Ok && final(self)@ == scheduled_next(old(self)@, current_epoch),
    {
        proof {
            reveal(scheduled_next);
        }
        let next_epoch = match current_epoch.checked_add(1) {
            Some(e) => e,
            None => {
                return Err(TipRouterError::ArithmeticOverflow);
            },
        };
        if self.updatable_is_first(current_epoch) {
            self.fee_1.set_activation_epoch(next_epoch);
        } else {
            self.fee_2.set_activation_epoch(next_epoch);
        }
        Ok(())
    }

    pub fn total_fees_bps(&self, current_epoch: u64) -> (r: Result<u64, TipRouterError>)
        ensures
            r == Ok::<u64, TipRouterError>(total_fees(current_view(self@, current_epoch)) as u64),
            0 <= total_fees(current_view(self@, current_epoch)) <= 16 * 65535,
    {
        let current_fees = self.current_fees(current_epoch);
        current_fees.total_fees_bps()
    }

    pub fn precise_total_fee_bps(&self, current_epoch: u64) -> (r: Result<PreciseNumber, TipRouterError>)
        ensures
            r matches Ok(p) && p.value() == spec_new(total_fees(current_view(self@, current_epoch)) as u128),
    {
        let current_fees = self.current_fees(current_epoch);
        current_fees.precise_total_fee_bps()
    }

    pub fn block_engine_fee_bps(&self) -> (f: u16)
        ensures
            f == self@.block_engine_fee_bps,
    {
        self.block_engine_fee_bps
    }

    pub fn precise_block_engine_fee_bps(&self) -> (r: Result<PreciseNumber, TipRouterError>)
        ensures
            r matches Ok(p) && p.value() == spec_new(self@.block_engine_fee_bps as u128),
    {
        match precise_new(self.block_engine_fee_bps as u128) {
            Some(p) => Ok(p),
            None => Err(TipRouterError::NewPreciseNumberError),
        }
    }

    pub fn set_block_engine_fee_bps(&mut self, value: u16) -> (r: Result<(), TipRouterError>)
        ensures
            value > MAX_FEE_BPS ==> r == Err::<(), TipRouterError>(TipRouterError::FeeCapExceeded) && *final(self)
                == *old(self),
            value <= MAX_FEE_BPS ==> r is Ok && final(self)@ == (FeeConfigView {
                block_engine_fee_bps: value,
                ..old(self)@
            }),
    {
        if value as u64 > MAX_FEE_BPS {
            return Err(TipRouterError::FeeCapExceeded);
        }
        self.block_engine_fee_bps = value;
        Ok(())
    }

    /// The base fee groups that a distribution round at `current_epoch`
    /// hands out rewards for: those whose current fee is not zero, in order.
    pub fn base_groups_to_distribute(&self, current_epoch: u64) -> (v: Vec<BaseFeeGroup>)
        ensures
            v@.map_values(|g: BaseFeeGroup| g.group) == groups_with_fees(
                current_view(self@, current_epoch).base_fee_bps,
                8,
            ),
    {
        let current = self.current_fees(current_epoch);
        proof {
            current.lemma_lengths();
        }
        let mut v: Vec<BaseFeeGroup> = Vec::new();
        let mut i: u8 = 0;
        while i < 8
            invariant
                i <= 8,
                current@ == current_view(self@, current_epoch),
                current@.base_fee_bps.len() == 8,
                v@.map_values(|g: BaseFeeGroup| g.group) == groups_with_fees(current@.base_fee_bps, i as int),
            decreases 8 - i,
        {
            let ghost before = v@;
            let group = BaseFeeGroup { group: i };
            let fee = match current.base_fee_bps(group) {
                Ok(f) => f,
                Err(_) => 0,
            };
            if fee != 0 {
                v.push(group);
                assert(v@.map_values(|g: BaseFeeGroup| g.group) =~= before.map_values(|g: BaseFeeGroup| g.group).push(i));
            }
            i = i + 1;
        }
        v
    }

    /// The NCN fee groups that a distribution round at `current_epoch`
    /// hands out rewards for: those whose current fee is not zero, in order.
    pub fn ncn_groups_to_distribute(&self, current_epoch: u64) -> (v: Vec<NcnFeeGroup>)
        ensures
            v@.map_values(|g: NcnFeeGroup| g.group) == groups_with_fees(
                current_view(self@, current_epoch).ncn_fee_bps,
                8,
            ),
    {
        let current = self.current_fees(current_epoch);
        proof {
            current.lemma_lengths();
        }
        let mut v: Vec<NcnFeeGroup> = Vec::new();
        let mut i: u8 = 0;
        while i < 8
            invariant
                i <= 8,
                current@ == current_view(self@, current_epoch),
                current@.ncn_fee_bps.len() == 8,
                v@.map_values(|g: NcnFeeGroup| g.group) == groups_with_fees(current@.ncn_fee_bps, i as int),
            decreases 8 - i,
        {
            let ghost before = v@;
            let group = NcnFeeGroup { group: i };
            let fee = match current.ncn_fee_bps(group) {
                Ok(f) => f,
                Err(_) => 0,
            };
            if fee != 0 {
                v.push(group);
                assert(v@.map_values(|g: NcnFeeGroup| g.group) =~= before.map_values(|g: NcnFeeGroup| g.group).push(i));
            }
            i = i + 1;
        }
        v
    }

    pub fn base_fee_bps(&self, base_fee_group: BaseFeeGroup, current_epoch: u64) -> (r: Result<u16, TipRouterError>)
        ensures
            base_fee_group.group < 8 ==> r == Ok::<u16, TipRouterError>(
                current_view(self@, current_epoch).base_fee_bps[base_fee_group.group as int],
            ),
            base_fee_group.group >= 8 ==> r == Err::<u16, TipRouterError>(TipRouterError::InvalidNcnFeeGroup),
    {
        let current_fees = self.current_fees(current_epoch);
        current_fees.base_fee_bps(base_fee_group)
    }

    pub fn precise_base_fee_bps(&self, base_fee_group: BaseFeeGroup, current_epoch: u64) -> (r: Result<
        PreciseNumber,
        TipRouterError,
    >)
        ensures
            base_fee_group.group < 8 ==> (r matches Ok(p) && p.value() == spec_new(
                current_view(self@, current_epoch).base_fee_bps[base_fee_group.group as int] as u128,
            )),
            base_fee_group.group >= 8 ==> (r matches Err(e) && e == TipRouterError::InvalidNcnFeeGroup),
    {
        let current_fees = self.current_fees(current_epoch);
        current_fees.precise_base_fee_bps(base_fee_group)
    }

    pub fn adjusted_base_fee_bps(&self, base_fee_group: BaseFeeGroup, current_epoch: u64) -> (r: Result<
        u64,
        TipRouterError,
    >)
        ensures
            base_fee_group.group < 8 ==> r == adjusted_fee(
                self@,
                current_view(self@, current_epoch).base_fee_bps[base_fee_group.group as int],
            ),
            base_fee_group.group >= 8 ==> r == Err::<u64, TipRouterError>(TipRouterError::InvalidNcnFeeGroup),
    {
        let current_fees = self.current_fees(current_epoch);
        let fee = current_fees.base_fee_bps(base_fee_group)?;
        self.adjusted_fee_bps(fee)
    }

    pub fn adjusted_precise_base_fee_bps(&self, base_fee_group: BaseFeeGroup, current_epoch: u64) -> (r:
        Result<PreciseNumber, TipRouterError>)
        ensures
            base_fee_group.group >= 8 ==> (r matches Err(e) && e == TipRouterError::InvalidNcnFeeGroup),
            base_fee_group.group < 8 ==> match adjusted_fee(self@, 0) {
                Err(e) => r matches Err(e2) && e2 == e,
                Ok(_) => r matches Ok(p) && p.value() == adjusted_precise_fee(
                    self@,
                    current_view(self@, current_epoch).base_fee_bps[base_fee_group.group as int],
                ),
            },
            r matches Ok(p) ==> base_fee_group.group < 8 && self@.block_engine_fee_bps < MAX_FEE_BPS && p.value() == (
            current_view(self@, current_epoch).base_fee_bps[base_fee_group.group as int] * MAX_FEE_BPS * 1_000_000_000_000)
                / (MAX_FEE_BPS - self@.block_engine_fee_bps) as int,
    {
        let current_fees = self.current_fees(current_epoch);
        let fee = current_fees.base_fee_bps(base_fee_group)?;
        self.adjusted_precise_fee_bps(fee)
    }

    pub fn set_base_fee_bps(&mut self, base_fee_group: BaseFeeGroup, value: u16, current_epoch: u64) -> (r:
        Result<(), TipRouterError>)
        ensures
            value > MAX_FEE_BPS ==> r == Err::<(), TipRouterError>(TipRouterError::FeeCapExceeded),
            value <= MAX_FEE_BPS && base_fee_group.group >= 8 ==> r == Err::<(), TipRouterError>(
                TipRouterError::InvalidNcnFeeGroup,
            ),
            r is Ok <==> value <= MAX_FEE_BPS && base_fee_group.group < 8,
            r is Ok ==> final(self)@ == with_updatable(
                old(self)@,
                current_epoch,
                FeesView {
                    base_fee_bps: updatable_view(old(self)@, current_epoch).base_fee_bps.update(
                        base_fee_group.group as int,
                        value,
                    ),
                    ..updatable_view(old(self)@, current_epoch)
                },
            ),
            r is Err ==> *final(self) == *old(self),
    {
        if self.updatable_is_first(current_epoch) {
            self.fee_1.set_base_fee_bps(base_fee_group, value)
        } else {
            self.fee_2.set_base_fee_bps(base_fee_group, value)
        }
    }

    pub fn ncn_fee_bps(&self, ncn_fee_group: NcnFeeGroup, current_epoch: u64) -> (r: Result<u16, TipRouterError>)
        ensures
            ncn_fee_group.group < 8 ==> r == Ok::<u16, TipRouterError>(
                current_view(self@, current_epoch).ncn_fee_bps[ncn_fee_group.group as int],
            ),
            ncn_fee_group.group >= 8 ==> r == Err::<u16, TipRouterError>(TipRouterError::InvalidNcnFeeGroup),
    {
        let current_fees = self.current_fees(current_epoch);
        current_fees.ncn_fee_bps(ncn_fee_group)
    }

    pub fn precise_ncn_fee_bps(&self, ncn_fee_group: NcnFeeGroup, current_epoch: u64) -> (r: Result<
        PreciseNumber,
        TipRouterError,
    >)
        ensures
            ncn_fee_group.group < 8 ==> (r matches Ok(p) && p.value() == spec_new(
                current_view(self@, current_epoch).ncn_fee_bps[ncn_fee_group.group as int] as u128,
            )),
            ncn_fee_group.group >= 8 ==> (r matches Err(e) && e == TipRouterError::InvalidNcnFeeGroup),
    {
        let current_fees = self.current_fees(current_epoch);
        current_fees.precise_ncn_fee_bps(ncn_fee_group)
    }

    pub fn adjusted_ncn_fee_bps(&self, ncn_fee_group: NcnFeeGroup, current_epoch: u64) -> (r: Result<
        u64,
        TipRouterError,
    >)
        ensures
            ncn_fee_group.group < 8 ==> r == adjusted_fee(
                self@,
                current_view(self@, current_epoch).ncn_fee_bps[ncn_fee_group.group as int],
            ),
            ncn_fee_group.group >= 8 ==> r == Err::<u64, TipRouterError>(TipRouterError::InvalidNcnFeeGroup),
    {
        let current_fees = self.current_fees(current_epoch);
        let fee = current_fees.ncn_fee_bps(ncn_fee_group)?;
        self.adjusted_fee_bps(fee)
    }

    pub fn adjusted_precise_ncn_fee_bps(&self, ncn_fee_group: NcnFeeGroup, current_epoch: u64) -> (r: Result<
        PreciseNumber,
        TipRouterError,
    >)
        ensures
            ncn_fee_group.group >= 8 ==> (r matches Err(e) && e == TipRouterError::InvalidNcnFeeGroup),
            ncn_fee_group.group < 8 ==> match adjusted_fee(self@, 0) {
                Err(e) => r matches Err(e2) && e2 == e,
                Ok(_) => r matches Ok(p) && p.value() == adjusted_precise_fee(
                    self@,
                    current_view(self@, current_epoch).ncn_fee_bps[ncn_fee_group.group as int],
                ),
            },
            r matches Ok(p) ==> ncn_fee_group.group < 8 && self@.block_engine_fee_bps < MAX_FEE_BPS && p.value() == (
            current_view(self@, current_epoch).ncn_fee_bps[ncn_fee_group.group as int] * MAX_FEE_BPS * 1_000_000_000_000)
                / (MAX_FEE_BPS - self@.block_engine_fee_bps) as int,
    {
        let current_fees = self.current_fees(current_epoch);
        let fee = current_fees.ncn_fee_bps(ncn_fee_group)?;
        self.adjusted_precise_fee_bps(fee)
    }

    pub fn set_ncn_fee_bps(&mut self, ncn_fee_group: NcnFeeGroup, value: u16, current_epoch: u64) -> (r: Result<
        (),
        TipRouterError,
    >)
        ensures
            value > MAX_FEE_BPS ==> r == Err::<(), TipRouterError>(TipRouterError::FeeCapExceeded),
            value <= MAX_FEE_BPS && ncn_fee_group.group >= 8 ==> r == Err::<(), TipRouterError>(
                TipRouterError::InvalidNcnFeeGroup,
            ),
            r is Ok <==> value <= MAX_FEE_BPS && ncn_fee_group.group < 8,
            r is Ok ==> final(self)@ == with_updatable(
                old(self)@,
                current_epoch,
                FeesView {
                    ncn_fee_bps: updatable_view(old(self)@, current_epoch).ncn_fee_bps.update(
                        ncn_fee_group.group as int,
                        value,
                    ),
                    ..updatable_view(old(self)@, current_epoch)
                },
            ),
            r is Err ==> *final(self) == *old(self),
    {
        if self.updatable_is_first(current_epoch) {
            self.fee_1.set_ncn_fee_bps(ncn_fee_group, value)
        } else {
            self.fee_2.set_ncn_fee_bps(ncn_fee_group, value)
        }
    }

    pub fn base_fee_wallet(&self, base_fee_group: BaseFeeGroup) -> (r: Result<Pubkey, TipRouterError>)
        ensures
            base_fee_group.group < 8 ==> r == Ok::<Pubkey, TipRouterError>(
                self@.base_fee_wallets[base_fee_group.group as int],
            ),
            base_fee_group.group >= 8 ==> r == Err::<Pubkey, TipRouterError>(TipRouterError::InvalidNcnFeeGroup),
    {
        let group_index = base_fee_group.group_index()?;
        Ok(self.base_fee_wallets[group_index])
    }

    pub fn set_base_fee_wallet(&mut self, base_fee_group: BaseFeeGroup, wallet: Pubkey) -> (r: Result<
        (),
        TipRouterError,
    >)
        ensures
            base_fee_group.group < 8 ==> r is Ok && final(self)@ == (FeeConfigView {
                base_fee_wallets: old(self)@.base_fee_wallets.update(base_fee_group.group as int, wallet),
                ..old(self)@
            }),
            base_fee_group.group >= 8 ==> r == Err::<(), TipRouterError>(TipRouterError::InvalidNcnFeeGroup)
                && *final(self) == *old(self),
    {
        let group_index = base_fee_group.group_index()?;
        self.base_fee_wallets[group_index] = wallet;
        assert(self@.base_fee_wallets =~= old(self)@.base_fee_wallets.update(base_fee_group.group as int, wallet));
        Ok(())
    }

    /// Copies the schedule in force over the updatable one; only when both
    /// schedules are active at `current_epoch`.
    fn set_fees_to_current(&mut self, current_epoch: u64) -> (r: Result<(), TipRouterError>)
        ensures
            old(self)@.fee_1.activation_epoch > current_epoch || old(self)@.fee_2.activation_epoch
                > current_epoch ==> r == Err::<(), TipRouterError>(TipRouterError::FeeNotActive) && *final(self)
                == *old(self),
            old(self)@.fee_1.activation_epoch <= current_epoch && old(self)@.fee_2.activation_epoch
                <= current_epoch ==> r is Ok && final(self)@ == with_updatable(
                old(self)@,
                current_epoch,
                current_view(old(self)@, current_epoch),
            ),
    {
        if self.fee_1.activation_epoch > current_epoch || self.fee_2.activation_epoch > current_epoch {
            return Err(TipRouterError::FeeNotActive);
        }
        let cloned_current_fees = *self.current_fees(current_epoch);
        let updatable_fees = self.updatable_fees(current_epoch);
        *updatable_fees = cloned_current_fees;
        Ok(())
    }

    /// The first step of an update: when the updatable schedule is already
    /// active, it takes a copy of the one in force.
    fn copy_current_if_active(&mut self, current_epoch: u64)
        ensures
            final(self)@ == with_current_copied(old(self)@, current_epoch),
    {
        proof {
            reveal(with_current_copied);
        }
        let updatable_epoch = if self.updatable_is_first(current_epoch) {
            self.fee_1.activation_epoch
        } else {
            self.fee_2.activation_epoch
        };
        if updatable_epoch <= current_epoch {
            let r = self.set_fees_to_current(current_epoch);
            assert(r is Ok);
        }
    }

    fn apply_base_fee_wallet(&mut self, base_fee_group: BaseFeeGroup, wallet: Option<Pubkey>) -> (r: Result<
        (),
        TipRouterError,
    >)
        ensures
            (final(self)@, r) == wallet_step(old(self)@, base_fee_group.group, wallet),
    {
        proof {
            reveal(wallet_step);
        }
        if let Some(wallet) = wallet {
            match self.set_base_fee_wallet(base_fee_group, wallet) {
                Ok(()) => Ok(()),
                Err(e) => Err(e),
            }
        } else {
            Ok(())
        }
    }

    fn apply_base_fee_bps(&mut self, base_fee_group: BaseFeeGroup, fee: Option<u16>, current_epoch: u64) -> (r:
        Result<(), TipRouterError>)
        ensures
            (final(self)@, r) == base_fee_step(old(self)@, base_fee_group.group, fee, current_epoch),
    {
        proof {
            reveal(base_fee_step);
        }
        if let Some(fee) = fee {
            match self.set_base_fee_bps(base_fee_group, fee, current_epoch) {
                Ok(()) => Ok(()),
                Err(e) => Err(e),
            }
        } else {
            Ok(())
        }
    }

    fn apply_ncn_fee_bps(&mut self, ncn_fee_group: NcnFeeGroup, fee: Option<u16>, current_epoch: u64) -> (r:
        Result<(), TipRouterError>)
        ensures
            (final(self)@, r) == ncn_fee_step(old(self)@, ncn_fee_group.group, fee, current_epoch),
    {
        proof {
            reveal(ncn_fee_step);
        }
        if let Some(fee) = fee {
            match self.set_ncn_fee_bps(ncn_fee_group, fee, current_epoch) {
                Ok(()) => Ok(()),
                Err(e) => Err(e),
            }
        } else {
            Ok(())
        }
    }

    /// Updates the fee configuration at `current_epoch`. The changes go into
    /// the updatable schedule, which then takes effect in the next epoch;
    /// if that schedule was already active, it first takes a copy of the one
    /// in force. The block engine fee and the wallet take effect at once.
    pub fn update_fee_config(
        &mut self,
        new_block_engine_fee_bps: Option<u16>,
        base_fee_group: Option<BaseFeeGroup>,
        new_base_fee_wallet: Option<Pubkey>,
        new_base_fee_bps: Option<u16>,
        ncn_fee_group: Option<NcnFeeGroup>,
        new_ncn_fee_bps: Option<u16>,
        current_epoch: u64,
    ) -> (r: Result<(), TipRouterError>)
        ensures
            final(self)@ == fee_config_update(
                old(self)@,
                new_block_engine_fee_bps,
                base_fee_group,
                new_base_fee_wallet,
                new_base_fee_bps,
                ncn_fee_group,
                new_ncn_fee_bps,
                current_epoch,
            ).0,
            r == fee_config_update(
                old(self)@,
                new_block_engine_fee_bps,
                base_fee_group,
                new_base_fee_wallet,
                new_base_fee_bps,
                ncn_fee_group,
                new_ncn_fee_bps,
                current_epoch,
            ).1,
            r is Ok && (old(self)@.fee_1.activation_epoch == old(self)@.fee_2.activation_epoch
                && old(self)@.fee_1.activation_epoch <= current_epoch ==> old(self)@.fee_1 == old(self)@.fee_2)
                ==> current_view(final(self)@, current_epoch) == current_view(old(self)@, current_epoch),
            r is Ok ==> current_epoch < u64::MAX && current_view(final(self)@, (current_epoch + 1) as u64)
                == next_fees(old(self)@, base_fee_group, new_base_fee_bps, ncn_fee_group, new_ncn_fee_bps, current_epoch),
    {
        let ghost base_fee_group_arg = base_fee_group;
        let ghost ncn_fee_group_arg = ncn_fee_group;
        self.copy_current_if_active(current_epoch);
        if let Some(new_block_engine_fee_bps) = new_block_engine_fee_bps {
            self.block_engine_fee_bps = new_block_engine_fee_bps;
        }
        let base_fee_group = match base_fee_group {
            Some(g) => g,
            None => BaseFeeGroup::default(),
        };
        self.apply_base_fee_wallet(base_fee_group, new_base_fee_wallet)?;
        self.apply_base_fee_bps(base_fee_group, new_base_fee_bps, current_epoch)?;
        let ncn_fee_group = match ncn_fee_group {
            Some(g) => g,
            None => NcnFeeGroup::default(),
        };
        self.apply_ncn_fee_bps(ncn_fee_group, new_ncn_fee_bps, current_epoch)?;
        self.update_updatable_epoch(current_epoch)?;
        self.check_fees_okay(current_epoch)?;
        proof {
            let v = old(self)@;
            if v.fee_1.activation_epoch == v.fee_2.activation_epoch && v.fee_1.activation_epoch <= current_epoch
                ==> v.fee_1 == v.fee_2 {
                lemma_update_keeps_current_fees(
                    v,
                    new_block_engine_fee_bps,
                    base_fee_group_arg,
                    new_base_fee_wallet,
                    new_base_fee_bps,
                    ncn_fee_group_arg,
                    new_ncn_fee_bps,
                    current_epoch,
                );
            }
            lemma_update_takes_effect_next_epoch(
                v,
                new_block_engine_fee_bps,
                base_fee_group_arg,
                new_base_fee_wallet,
                new_base_fee_bps,
                ncn_fee_group_arg,
                new_ncn_fee_bps,
                current_epoch,
            );
        }
        Ok(())
    }

    /// Checks that the block engine fee leaves room for the others and that
    /// the fees in force at `current_epoch` do not exceed 100%.
    pub fn check_fees_okay(&self, current_epoch: u64) -> (r: Result<(), TipRouterError>)
        ensures
            r == fees_check(self@, current_epoch),
    {
        let mut i: u8 = 0;
        while i < 8
            invariant
                i <= 8,
                i > 0 ==> adjusted_fee(self@, 0) is Ok,
            decreases 8 - i,
        {
            match self.adjusted_precise_base_fee_bps(BaseFeeGroup { group: i }, current_epoch) {
                Ok(_) => {},
                Err(e) => {
                    return Err(e);
                },
            }
            i = i + 1;
        }
        let mut i: u8 = 0;
        while i < 8
            invariant
                i <= 8,
                adjusted_fee(self@, 0) is Ok,
            decreases 8 - i,
        {
            match self.adjusted_precise_ncn_fee_bps(NcnFeeGroup { group: i }, current_epoch) {
                Ok(_) => {},
                Err(e) => {
                    return Err(e);
                },
            }
            i = i + 1;
        }
        let total_fees_bps = self.total_fees_bps(current_epoch)?;
        if total_fees_bps > MAX_FEE_BPS {
            return Err(TipRouterError::FeeCapExceeded);
        }
        Ok(())
    }

    fn adjusted_fee_bps(&self, fee: u16) -> (r: Result<u64, TipRouterError>)
        ensures
            r == adjusted_fee(self@, fee),
    {
        let remaining_bps = match MAX_FEE_BPS.checked_sub(self.block_engine_fee_bps as u64) {
            Some(v) => v,
            None => {
                return Err(TipRouterError::ArithmeticOverflow);
            },
        };
        if remaining_bps == 0 {
            return Err(TipRouterError::DenominatorIsZero);
        }
        Ok((fee as u64) * MAX_FEE_BPS / remaining_bps)
    }

    fn adjusted_precise_fee_bps(&self, fee: u16) -> (r: Result<PreciseNumber, TipRouterError>)
        ensures
            match adjusted_fee(self@, 0) {
                Err(e) => r matches Err(e2) && e2 == e,
                Ok(_) => r matches Ok(p) && p.value() == adjusted_precise_fee(self@, fee),
            },
            r matches Ok(p) ==> self@.block_engine_fee_bps < MAX_FEE_BPS && p.value() == (fee * MAX_FEE_BPS
                * 1_000_000_000_000) / (MAX_FEE_BPS - self@.block_engine_fee_bps) as int,
    {
        let remaining_bps = match MAX_FEE_BPS.checked_sub(self.block_engine_fee_bps as u64) {
            Some(v) => v,
            None => {
                return Err(TipRouterError::ArithmeticOverflow);
            },
        };
        let precise_remaining_bps = match precise_new(remaining_bps as u128) {
            Some(p) => p,
            None => {
                return Err(TipRouterError::NewPreciseNumberError);
            },
        };
        let adjusted_fee = (fee as u64) * MAX_FEE_BPS;
        let precise_adjusted_fee = match precise_new(adjusted_fee as u128) {
            Some(p) => p,
            None => {
                return Err(TipRouterError::NewPreciseNumberError);
            },
        };
        proof {
            lemma_small_ratio_fits(adjusted_fee as u128);
        }
        match precise_checked_div(&precise_adjusted_fee, &precise_remaining_bps) {
            Some(p) => {
                proof {
                    assert(self@.block_engine_fee_bps < MAX_FEE_BPS);
                    lemma_adjusted_precise_fee_scales(self@, fee);
                }
                Ok(p)
            },
            None => Err(TipRouterError::DenominatorIsZero),
        }
    }
}

/// The schedule that an update at `epoch` writes its new fees into: the one
/// already scheduled for a later epoch, or else a copy of the one in force.
pub open spec fn pending_view(v: FeeConfigView, epoch: u64) -> FeesView {
    if updatable_view(v, epoch).activation_epoch <= epoch {
        current_view(v, epoch)
    } else {
        updatable_view(v, epoch)
    }
}

/// The fees an update at `epoch` puts in force from the next epoch: the
/// pending schedule with the new base and NCN fees written in.
pub open spec fn next_fees(
    v: FeeConfigView,
    base_fee_group: Option<BaseFeeGroup>,
    new_base_fee_bps: Option<u16>,
    ncn_fee_group: Option<NcnFeeGroup>,
    new_ncn_fee_bps: Option<u16>,
    epoch: u64,
) -> FeesView {
    let pending = pending_view(v, epoch);
    let base_group: int = match base_fee_group {
        Some(g) => g.group as int,
        None => 0,
    };
    let ncn_group: int = match ncn_fee_group {
        Some(g) => g.group as int,
        None => 0,
    };
    FeesView {
        activation_epoch: (epoch + 1) as u64,
        base_fee_bps: match new_base_fee_bps {
            Some(f) => pending.base_fee_bps.update(base_group, f),
            None => pending.base_fee_bps,
        },
        ncn_fee_bps: match new_ncn_fee_bps {
            Some(f) => pending.ncn_fee_bps.update(ncn_group, f),
            None => pending.ncn_fee_bps,
        },
    }
}

/// A successful update at `epoch` leaves the fees in force at `epoch` as
/// they were, unless both schedules were active from the same epoch with
/// different fees.
pub proof fn lemma_update_keeps_current_fees(
    v: FeeConfigView,
    new_block_engine_fee_bps: Option<u16>,
    base_fee_group: Option<BaseFeeGroup>,
    new_base_fee_wallet: Option<Pubkey>,
    new_base_fee_bps: Option<u16>,
    ncn_fee_group: Option<NcnFeeGroup>,
    new_ncn_fee_bps: Option<u16>,
    epoch: u64,
)
    requires
        v.fee_1.activation_epoch == v.fee_2.activation_epoch && v.fee_1.activation_epoch <= epoch ==> v.fee_1
            == v.fee_2,
        fee_config_update(
            v,
            new_block_engine_fee_bps,
            base_fee_group,
            new_base_fee_wallet,
            new_base_fee_bps,
            ncn_fee_group,
            new_ncn_fee_bps,
            epoch,
        ).1 is Ok,
    ensures
        current_view(
            fee_config_update(
                v,
                new_block_engine_fee_bps,
                base_fee_group,
                new_base_fee_wallet,
                new_base_fee_bps,
                ncn_fee_group,
                new_ncn_fee_bps,
                epoch,
            ).0,
            epoch,
        ) == current_view(v, epoch),
{
    reveal(with_current_copied);
    reveal(wallet_step);
    reveal(base_fee_step);
    reveal(ncn_fee_step);
    reveal(scheduled_next);
}

/// After a successful update at `epoch`, the schedule in force from the next
/// epoch is the pending one with the new fees written in.
pub proof fn lemma_update_takes_effect_next_epoch(
    v: FeeConfigView,
    new_block_engine_fee_bps: Option<u16>,
    base_fee_group: Option<BaseFeeGroup>,
    new_base_fee_wallet: Option<Pubkey>,
    new_base_fee_bps: Option<u16>,
    ncn_fee_group: Option<NcnFeeGroup>,
    new_ncn_fee_bps: Option<u16>,
    epoch: u64,
)
    requires
        fee_config_update(
            v,
            new_block_engine_fee_bps,
            base_fee_group,
            new_base_fee_wallet,
            new_base_fee_bps,
            ncn_fee_group,
            new_ncn_fee_bps,
            epoch,
        ).1 is Ok,
    ensures
        ({
            let after = fee_config_update(
                v,
                new_block_engine_fee_bps,
                base_fee_group,
                new_base_fee_wallet,
                new_base_fee_bps,
                ncn_fee_group,
                new_ncn_fee_bps,
                epoch,
            ).0;
            &&& epoch < u64::MAX
            &&& current_view(after, (epoch + 1) as u64) == next_fees(
                v,
                base_fee_group,
                new_base_fee_bps,
                ncn_fee_group,
                new_ncn_fee_bps,
                epoch,
            )
        }),
{
    reveal(with_current_copied);
    reveal(wallet_step);
    reveal(base_fee_step);
    reveal(ncn_fee_step);
    reveal(scheduled_next);
}

/// A value below 2^64 scaled twice by 10^12, plus the rounding half, stays
/// below 2^256.
pub proof fn lemma_small_ratio_fits(w: u128)
    requires
        w <= 0xffff_ffff_ffff_ffff,
    ensures
        spec_new(w) * precise_one() + precise_one() / 2 < u256_bound(),
        spec_new(w) * precise_one() < u256_bound(),
{
    assert(w * 1_000_000_000_000nat * 1_000_000_000_000nat + 500_000_000_000nat
        < 0x1_0000_0000_0000_0000_0000_0000_0000_0000_0000_0000_0000_0000_0000_0000_0000_0000_0000_0000_0000_0000nat)
        by (nonlinear_arith)
        requires
            w <= 0xffff_ffff_ffff_ffff,
    ;
}

} // verus!
