use vstd::prelude::*;

use crate::{error::TipRouterError, ncn_fee_group::NcnFeeGroup};

verus! {

/// The stake weight that one NCN fee group contributes.
#[derive(Debug, Clone, Copy)]
pub struct NcnFeeGroupWeight {
    weight: u128,
}

impl Default for NcnFeeGroupWeight {
    fn default() -> (w: Self)
        ensures
            w.spec_weight() == 0,
    {
        NcnFeeGroupWeight { weight: 0 }
    }
}

impl NcnFeeGroupWeight {
    pub closed spec fn spec_weight(self) -> u128 {
        self.weight
    }

    pub fn new(weight: u128) -> (w: Self)
        ensures
            w.spec_weight() == weight,
    {
        NcnFeeGroupWeight { weight }
    }

    pub fn weight(&self) -> (w: u128)
        ensures
            w == self.spec_weight(),
    {
        self.weight
    }
}

/// A total stake weight (used for voting) together with its split over
/// the eight NCN fee groups (used for rewards).
#[derive(Debug, Clone, Copy)]
pub struct StakeWeights {
    stake_weight: u128,
    ncn_fee_group_stake_weights: [NcnFeeGroupWeight; 8],
}

/// Whether `a + b` fits in a `u128`.
pub open spec fn add_fits(a: u128, b: u128) -> bool {
    a + b <= u128::MAX
}

impl StakeWeights {
    /// The total stake weight.
    pub closed spec fn total(self) -> u128 {
        self.stake_weight
    }

    /// The stake weight of group `i` (for `0 <= i < 8`).
    pub closed spec fn group(self, i: int) -> u128 {
        self.ncn_fee_group_stake_weights@[i].weight
    }

    /// All eight groups of `self` and `other` sum without overflow.
    pub open spec fn groups_add_fit(self, other: StakeWeights) -> bool {
        forall|i: int| 0 <= i < 8 ==> add_fits(#[trigger] self.group(i), other.group(i))
    }

    /// The first `k` groups of `self` and `other` sum without overflow.
    pub open spec fn groups_add_fit_below(self, other: StakeWeights, k: int) -> bool {
        forall|i: int| 0 <= i < k ==> add_fits(#[trigger] self.group(i), other.group(i))
    }

    /// The first `k` groups of `other` can be taken from those of `self`.
    pub open spec fn groups_sub_fit_below(self, other: StakeWeights, k: int) -> bool {
        forall|i: int| 0 <= i < k ==> #[trigger] self.group(i) >= other.group(i)
    }

    /// `self` with its total and its first `k` groups raised by those of `other`.
    pub open spec fn added_below(self, other: StakeWeights, k: int, r: StakeWeights) -> bool {
        &&& r.total() == self.total() + other.total()
        &&& forall|i: int|
            0 <= i < 8 ==> #[trigger] r.group(i) == if i < k {
                self.group(i) + other.group(i)
            } else {
                self.group(i) as int
            }
    }

    /// `self` with its total and its first `k` groups lowered by those of `other`.
    pub open spec fn subtracted_below(self, other: StakeWeights, k: int, r: StakeWeights) -> bool {
        &&& r.total() == self.total() - other.total()
        &&& forall|i: int|
            0 <= i < 8 ==> #[trigger] r.group(i) == if i < k {
                self.group(i) - other.group(i)
            } else {
                self.group(i) as int
            }
    }

    /// What incrementing `self` by `other` may leave and return: success
    /// exactly when the total and every group sum without overflow, with
    /// everything summed; on overflow of the total nothing changes; on
    /// overflow of a group the groups before it are summed already.
    pub open spec fn increment_outcome(self, other: StakeWeights, after: StakeWeights, r: Result<(), TipRouterError>) -> bool {
        &&& r is Ok <==> add_fits(self.total(), other.total()) && self.groups_add_fit(other)
        &&& r is Ok ==> self.added_below(other, 8, after)
        &&& r is Err ==> r == Err::<(), TipRouterError>(TipRouterError::ArithmeticOverflow)
        &&& !add_fits(self.total(), other.total()) ==> after == self
        &&& add_fits(self.total(), other.total()) && !self.groups_add_fit(other) ==> exists|k: int|
            0 <= k < 8 && self.groups_add_fit_below(other, k) && !add_fits(#[trigger] self.group(k), other.group(k))
                && self.added_below(other, k, after)
    }

    /// All weights zero except the total, which is `w`.
    pub open spec fn only_total(self, w: u128) -> bool {
        &&& self.total() == w
        &&& forall|i: int| 0 <= i < 8 ==> #[trigger] self.group(i) == 0
    }

    pub fn new(stake_weight: u128) -> (s: Self)
        ensures
            s.only_total(stake_weight),
    {
        StakeWeights {
            stake_weight,
            ncn_fee_group_stake_weights: [NcnFeeGroupWeight { weight: 0 }; 8],
        }
    }

    /// The weights of one delegation: the total `stake_weight`, and in the
    /// delegation's group the reward weight `reward_multiplier_bps * stake_weight`.
    pub fn snapshot(ncn_fee_group: NcnFeeGroup, stake_weight: u128, reward_multiplier_bps: u64) -> (r:
        Result<Self, TipRouterError>)
        ensures
            reward_multiplier_bps * stake_weight > u128::MAX ==> r == Err::<StakeWeights, TipRouterError>(
                TipRouterError::ArithmeticOverflow,
            ),
            reward_multiplier_bps * stake_weight <= u128::MAX && ncn_fee_group.group >= 8 ==> r == Err::<
                StakeWeights,
                TipRouterError,
            >(TipRouterError::InvalidNcnFeeGroup),
            r is Ok <==> reward_multiplier_bps * stake_weight <= u128::MAX && ncn_fee_group.group < 8,
            r matches Ok(s) ==> {
                &&& s.total() == stake_weight
                &&& forall|i: int|
                    0 <= i < 8 ==> #[trigger] s.group(i) == if i == ncn_fee_group.group {
                        reward_multiplier_bps * stake_weight
                    } else {
                        0
                    }
            },
    {
        let mut stake_weights = Self::default();
        let reward_stake_weight = match (reward_multiplier_bps as u128).checked_mul(stake_weight) {
            Some(v) => v,
            None => {
                return Err(TipRouterError::ArithmeticOverflow);
            },
        };
        let ghost d = stake_weights;
        let r1 = stake_weights.increment_stake_weight(stake_weight);
        assert(r1 is Ok);
        assert forall|i: int| 0 <= i < 8 implies #[trigger] stake_weights.group(i) == 0 by {
            assert(d.group(i) == 0);
        }
        assert(stake_weights.group(ncn_fee_group.group as int) == 0 || ncn_fee_group.group >= 8);
        match stake_weights.increment_ncn_fee_group_stake_weight(ncn_fee_group, reward_stake_weight) {
            Ok(()) => Ok(stake_weights),
            Err(e) => Err(e),
        }
    }

    pub fn stake_weight(&self) -> (w: u128)
        ensures
            w == self.total(),
    {
        self.stake_weight
    }

    pub fn ncn_fee_group_stake_weight(&self, ncn_fee_group: NcnFeeGroup) -> (r: Result<u128, TipRouterError>)
        ensures
            ncn_fee_group.group < 8 ==> r == Ok::<u128, TipRouterError>(self.group(ncn_fee_group.group as int)),
            ncn_fee_group.group >= 8 ==> r == Err::<u128, TipRouterError>(TipRouterError::InvalidNcnFeeGroup),
    {
        let group_index = ncn_fee_group.group_index()?;
        Ok(self.ncn_fee_group_stake_weights[group_index].weight)
    }

    /// Adds `stake_weight` to `self`: the total first, then group by group.
    /// On overflow it stops where it overflowed, with what it added so far kept.
    pub fn increment(&mut self, stake_weight: &Self) -> (r: Result<(), TipRouterError>)
        ensures
            r is Ok <==> add_fits(old(self).total(), stake_weight.total()) && old(self).groups_add_fit(
                *stake_weight,
            ),
            r is Ok ==> old(self).added_below(*stake_weight, 8, *final(self)),
            r is Err ==> r == Err::<(), TipRouterError>(TipRouterError::ArithmeticOverflow),
            !add_fits(old(self).total(), stake_weight.total()) ==> *final(self) == *old(self),
            add_fits(old(self).total(), stake_weight.total()) && !old(self).groups_add_fit(*stake_weight)
                ==> exists|k: int|
                0 <= k < 8 && old(self).groups_add_fit_below(*stake_weight, k) && !add_fits(
                    #[trigger] old(self).group(k),
                    stake_weight.group(k),
                ) && old(self).added_below(*stake_weight, k, *final(self)),
            old(self).increment_outcome(*stake_weight, *final(self), r),
    {
        self.increment_stake_weight(stake_weight.stake_weight)?;
        let ghost mid = *self;
        let mut i: usize = 0;
        while i < 8
            invariant
                0 <= i <= 8,
                mid.total() == old(self).total() + stake_weight.total(),
                forall|j: int| 0 <= j < 8 ==> #[trigger] mid.group(j) == old(self).group(j),
                old(self).groups_add_fit_below(*stake_weight, i as int),
                old(self).added_below(*stake_weight, i as int, *self),
            decreases 8 - i,
        {
            let w = self.ncn_fee_group_stake_weights[i].weight;
            let add = stake_weight.ncn_fee_group_stake_weights[i].weight;
            assert(w == self.group(i as int) && self.group(i as int) == old(self).group(i as int));
            assert(add == stake_weight.group(i as int));
            let ghost before = *self;
            match w.checked_add(add) {
                Some(v) => {
                    self.ncn_fee_group_stake_weights[i] = NcnFeeGroupWeight { weight: v };
                    assert forall|j: int| 0 <= j < 8 implies #[trigger] self.group(j) == if j < i + 1 {
                        old(self).group(j) + stake_weight.group(j)
                    } else {
                        old(self).group(j) as int
                    } by {
                        if j != i {
                            assert(self.group(j) == before.group(j));
                        }
                    }
                },
                None => {
                    assert(!add_fits(old(self).group(i as int), stake_weight.group(i as int)));
                    return Err(TipRouterError::ArithmeticOverflow);
                },
            }
            i = i + 1;
        }
        Ok(())
    }

    fn increment_stake_weight(&mut self, stake_weight: u128) -> (r: Result<(), TipRouterError>)
        ensures
            r is Ok <==> add_fits(old(self).total(), stake_weight),
            r is Ok ==> final(self).total() == old(self).total() + stake_weight
                && final(self).ncn_fee_group_stake_weights == old(self).ncn_fee_group_stake_weights,
            r is Err ==> r == Err::<(), TipRouterError>(TipRouterError::ArithmeticOverflow) && *final(self)
                == *old(self),
    {
        match self.stake_weight.checked_add(stake_weight) {
            Some(v) => {
                self.stake_weight = v;
                Ok(())
            },
            None => Err(TipRouterError::ArithmeticOverflow),
        }
    }

    fn increment_ncn_fee_group_stake_weight(&mut self, ncn_fee_group: NcnFeeGroup, stake_weight: u128) -> (r:
        Result<(), TipRouterError>)
        ensures
            ncn_fee_group.group >= 8 ==> r == Err::<(), TipRouterError>(TipRouterError::InvalidNcnFeeGroup),
            ncn_fee_group.group < 8 && !add_fits(old(self).group(ncn_fee_group.group as int), stake_weight)
                ==> r == Err::<(), TipRouterError>(TipRouterError::ArithmeticOverflow),
            r is Ok <==> ncn_fee_group.group < 8 && add_fits(
                old(self).group(ncn_fee_group.group as int),
                stake_weight,
            ),
            r is Ok ==> final(self).total() == old(self).total() && forall|i: int|
                0 <= i < 8 ==> #[trigger] final(self).group(i) == if i == ncn_fee_group.group {
                    old(self).group(i) + stake_weight
                } else {
                    old(self).group(i) as int
                },
            r is Err ==> *final(self) == *old(self),
    {
        let group_index = ncn_fee_group.group_index()?;
        let current = self.ncn_fee_group_stake_weight(ncn_fee_group)?;
        match current.checked_add(stake_weight) {
            Some(v) => {
                self.ncn_fee_group_stake_weights[group_index] = NcnFeeGroupWeight { weight: v };
                Ok(())
            },
            None => Err(TipRouterError::ArithmeticOverflow),
        }
    }

    /// Takes `other` from `self`: the total first, then group by group.
    /// On underflow it stops where it underflowed, with what it took so far kept.
    pub fn decrement(&mut self, other: &Self) -> (r: Result<(), TipRouterError>)
        ensures
            r is Ok <==> old(self).total() >= other.total() && old(self).groups_sub_fit_below(*other, 8),
            r is Ok ==> old(self).subtracted_below(*other, 8, *final(self)),
            r is Err ==> r == Err::<(), TipRouterError>(TipRouterError::ArithmeticOverflow),
            old(self).total() < other.total() ==> *final(self) == *old(self),
            old(self).total() >= other.total() && !old(self).groups_sub_fit_below(*other, 8) ==> exists|k: int|
                0 <= k < 8 && old(self).groups_sub_fit_below(*other, k) && #[trigger] old(self).group(k)
                    < other.group(k) && old(self).subtracted_below(*other, k, *final(self)),
    {
        if self.stake_weight < other.stake_weight {
            return Err(TipRouterError::ArithmeticOverflow);
        }
        self.stake_weight = self.stake_weight - other.stake_weight;
        let ghost mid = *self;
        let mut i: usize = 0;
        while i < 8
            invariant
                0 <= i <= 8,
                old(self).groups_sub_fit_below(*other, i as int),
                old(self).subtracted_below(*other, i as int, *self),
            decreases 8 - i,
        {
            let w = self.ncn_fee_group_stake_weights[i].weight;
            let sub = other.ncn_fee_group_stake_weights[i].weight;
            assert(w == self.group(i as int) && self.group(i as int) == old(self).group(i as int));
            assert(sub == other.group(i as int));
            let ghost before = *self;
            if w < sub {
                assert(old(self).group(i as int) < other.group(i as int));
                return Err(TipRouterError::ArithmeticOverflow);
            }
            self.ncn_fee_group_stake_weights[i] = NcnFeeGroupWeight { weight: w - sub };
            assert forall|j: int| 0 <= j < 8 implies #[trigger] self.group(j) == if j < i + 1 {
                old(self).group(j) - other.group(j)
            } else {
                old(self).group(j) as int
            } by {
                if j != i {
                    assert(self.group(j) == before.group(j));
                }
            }
            i = i + 1;
        }
        Ok(())
    }
}

impl StakeWeights {
    /// Stake weights with equal totals and equal groups are equal.
    pub proof fn lemma_ext(a: StakeWeights, b: StakeWeights)
        requires
            a.total() == b.total(),
            forall|i: int| 0 <= i < 8 ==> #[trigger] a.group(i) == b.group(i),
        ensures
            a == b,
    {
        assert forall|i: int| 0 <= i < 8 implies a.ncn_fee_group_stake_weights[i]
            == b.ncn_fee_group_stake_weights[i] by {
            assert(a.group(i) == b.group(i));
        }
        assert(a.ncn_fee_group_stake_weights =~= b.ncn_fee_group_stake_weights);
    }
}

impl Default for StakeWeights {
    fn default() -> (s: Self)
        ensures
            s.only_total(0),
    {
        StakeWeights::new(0)
    }
}

} // verus!
