use vstd::prelude::*;

use vstd::arithmetic::div_mod::{lemma_div_denominator, lemma_fundamental_div_mod, lemma_fundamental_div_mod_converse_div};

use vstd::string::StringSliceAdditionalSpecFns;

use crate::{
    discriminators::{Discriminators, discriminator_value},
    epoch_snapshot::{OperatorSnapshot, OperatorSnapshotView, VaultOperatorStakeWeightView, check_snapshot_load, snapshot_load_check},
    le_bytes::{le_bytes, u64_to_le_bytes},
    loaders::{AccountView, ProgramError},
    ncn_fee_group::NcnFeeGroup,
    pda::{address_with_seeds, byte_seed, find_address, program_address, seed_list, tag_bytes, try_find_program_address},
    pubkey::{Pubkey, default_key},
    stake_weight::StakeWeights,
    error::TipRouterError,
    counting::{count_where, lemma_count_first, lemma_count_mono, lemma_count_update, lemma_count_zero},
    precise_number::{
        PreciseNumber,
        precise_checked_div,
        precise_checked_mul,
        precise_floor,
        precise_new,
        precise_one,
        precise_to_imprecise,
        spec_div,
        spec_floor,
        spec_mul,
        spec_new,
        spec_to_imprecise,
        u256_bound,
    },
};

verus! {

/// Basis points in a whole, as jito-vault counts them.
pub const MAX_BPS: u64 = 10_000;

/// The operator's share of `rewards`: `rewards * fee_bps / 10_000`, rounded
/// down, or a cast error when that does not fit in a `u64`.
pub open spec fn operator_reward(fee_bps: u64, rewards: u64) -> Result<u64, TipRouterError> {
    if fee_bps == 0 || rewards == 0 {
        Ok(0)
    } else if rewards * fee_bps / 10_000 > u64::MAX {
        Err(TipRouterError::CastToU64Error)
    } else {
        Ok((rewards * fee_bps / 10_000) as u64)
    }
}

/// What the precise computation of a vault's share gives: `rewards` times
/// the vault's weight over the operator's, through spl-math, floored.
pub open spec fn vault_reward_steps(vault_weight: u128, operator_weight: u128, rewards: u64) -> Result<
    nat,
    TipRouterError,
> {
    match spec_mul(spec_new(rewards as u128), spec_new(vault_weight)) {
        None => Err(TipRouterError::ArithmeticOverflow),
        Some(m) => match spec_div(m, spec_new(operator_weight)) {
            None => Err(TipRouterError::ArithmeticOverflow),
            Some(q) => match spec_to_imprecise(spec_floor(q)) {
                None => Err(TipRouterError::CastToImpreciseNumberError),
                Some(x) => Ok(x),
            },
        },
    }
}

/// Whether spl-math can round the vault's share to a `u128` without
/// panicking.
pub open spec fn vault_reward_fits(vault_weight: u128, operator_weight: u128, rewards: u64) -> bool {
    operator_weight == 0 || rewards == 0 || (vault_reward_steps(vault_weight, operator_weight, rewards) matches Ok(
        x,
    ) ==> x <= u128::MAX)
}

/// A vault's share of `rewards`, in proportion of its stake weight to the
/// operator's.
pub open spec fn vault_reward(vault_weight: u128, operator_weight: u128, rewards: u64) -> Result<u64, TipRouterError> {
    if operator_weight == 0 || rewards == 0 {
        Ok(0)
    } else {
        match vault_reward_steps(vault_weight, operator_weight, rewards) {
            Err(e) => Err(e),
            Ok(x) => if x > u64::MAX {
                Err(TipRouterError::CastToU64Error)
            } else {
                Ok(x as u64)
            },
        }
    }
}

/// The model of a vault's reward route.
pub struct VaultRewardRouteView {
    pub vault: Seq<u8>,
    pub rewards: u64,
}

/// The rewards routed to one vault.
#[derive(Debug, Clone, Copy)]
pub struct VaultRewardRoute {
    vault: Pubkey,
    rewards: u64,
}

impl View for VaultRewardRoute {
    type V = VaultRewardRouteView;

    closed spec fn view(&self) -> VaultRewardRouteView {
        VaultRewardRouteView { vault: self.vault@, rewards: self.rewards }
    }
}

impl Default for VaultRewardRoute {
    /// An unused route.
    fn default() -> (r: Self)
        ensures
            r@ == (VaultRewardRouteView { vault: default_key(), rewards: 0 }),
    {
        VaultRewardRoute { vault: Pubkey::default(), rewards: 0 }
    }
}

impl VaultRewardRoute {
    pub fn new(vault: &Pubkey, rewards: u64) -> (r: Result<Self, TipRouterError>)
        ensures
            r matches Ok(route) && route@ == (VaultRewardRouteView { vault: vault@, rewards }),
    {
        Ok(VaultRewardRoute { vault: *vault, rewards })
    }

    pub fn vault(&self) -> (k: Pubkey)
        ensures
            k@ == self@.vault,
    {
        self.vault
    }

    pub fn rewards(&self) -> (r: u64)
        ensures
            r == self@.rewards,
    {
        self.rewards
    }

    /// Whether the route is unused.
    pub fn is_empty(&self) -> (b: bool)
        ensures
            b == (self@.vault == default_key()),
    {
        self.vault.is_default()
    }

    pub fn has_rewards(&self) -> (b: bool)
        ensures
            b == (self@.rewards > 0),
    {
        self.rewards > 0
    }

    fn set_rewards(&mut self, rewards: u64) -> (r: Result<(), TipRouterError>)
        ensures
            r == Ok::<(), TipRouterError>(()),
            final(self)@ == (VaultRewardRouteView { rewards, ..old(self)@ }),
    {
        self.rewards = rewards;
        Ok(())
    }

    pub fn increment_rewards(&mut self, rewards: u64) -> (r: Result<(), TipRouterError>)
        ensures
            old(self)@.rewards + rewards > u64::MAX ==> r == Err::<(), TipRouterError>(
                TipRouterError::ArithmeticOverflow,
            ) && final(self)@ == old(self)@,
            old(self)@.rewards + rewards <= u64::MAX ==> r == Ok::<(), TipRouterError>(()) && final(self)@ == (
            VaultRewardRouteView { rewards: (old(self)@.rewards + rewards) as u64, ..old(self)@ }),
    {
        let new_rewards = match self.rewards.checked_add(rewards) {
            Some(v) => v,
            None => {
                return Err(TipRouterError::ArithmeticOverflow);
            },
        };
        self.set_rewards(new_rewards)
    }

    pub fn decrement_rewards(&mut self, rewards: u64) -> (r: Result<(), TipRouterError>)
        ensures
            old(self)@.rewards < rewards ==> r == Err::<(), TipRouterError>(
                TipRouterError::ArithmeticUnderflowError,
            ) && final(self)@ == old(self)@,
            old(self)@.rewards >= rewards ==> r == Ok::<(), TipRouterError>(()) && final(self)@ == (
            VaultRewardRouteView { rewards: (old(self)@.rewards - rewards) as u64, ..old(self)@ }),
    {
        let new_rewards = match self.rewards.checked_sub(rewards) {
            Some(v) => v,
            None => {
                return Err(TipRouterError::ArithmeticUnderflowError);
            },
        };
        self.set_rewards(new_rewards)
    }
}

/// The marker of no saved rewards to process.
pub const NO_LAST_REWARDS_TO_PROCESS: u64 = 0xffff_ffff_ffff_ffff;

/// The marker of no saved delegation index.
pub const NO_LAST_VAULT_OPERATION_DELEGATION_INDEX: u16 = 0xffff;

/// The model of an NCN reward router.
pub struct NcnRewardRouterView {
    pub ncn_fee_group: NcnFeeGroup,
    pub operator: Seq<u8>,
    pub ncn: Seq<u8>,
    pub epoch: u64,
    pub bump: u8,
    pub slot_created: u64,
    pub total_rewards: u64,
    pub reward_pool: u64,
    pub rewards_processed: u64,
    pub operator_rewards: u64,
    pub last_rewards_to_process: u64,
    pub last_vault_operator_delegation_index: u16,
    pub vault_reward_routes: Seq<VaultRewardRouteView>,
}

/// Whether a routing was cut short and saved.
pub open spec fn still_routing(v: NcnRewardRouterView) -> bool {
    v.last_rewards_to_process != NO_LAST_REWARDS_TO_PROCESS || v.last_vault_operator_delegation_index
        != NO_LAST_VAULT_OPERATION_DELEGATION_INDEX
}

/// The vaults of the routes in use, in order.
pub open spec fn routed_vaults(routes: Seq<VaultRewardRouteView>) -> Seq<Seq<u8>>
    decreases routes.len(),
{
    if routes.len() == 0 {
        Seq::empty()
    } else if routes.last().vault != default_key() {
        routed_vaults(routes.drop_last()).push(routes.last().vault)
    } else {
        routed_vaults(routes.drop_last())
    }
}

/// Taking `rewards` out of the pool.
pub open spec fn pool_out(v: NcnRewardRouterView, rewards: u64) -> Result<NcnRewardRouterView, TipRouterError> {
    if rewards == 0 {
        Ok(v)
    } else if v.reward_pool < rewards {
        Err(TipRouterError::ArithmeticUnderflowError)
    } else {
        Ok(NcnRewardRouterView { reward_pool: (v.reward_pool - rewards) as u64, ..v })
    }
}

/// Putting `rewards` into the pool, counting them in the total.
pub open spec fn pool_in(v: NcnRewardRouterView, rewards: u64) -> (NcnRewardRouterView, Result<(), TipRouterError>) {
    if rewards == 0 {
        (v, Ok(()))
    } else if v.total_rewards + rewards > u64::MAX {
        (v, Err(TipRouterError::ArithmeticOverflow))
    } else if v.reward_pool + rewards > u64::MAX {
        (
            NcnRewardRouterView { total_rewards: (v.total_rewards + rewards) as u64, ..v },
            Err(TipRouterError::ArithmeticOverflow),
        )
    } else {
        (
            NcnRewardRouterView {
                total_rewards: (v.total_rewards + rewards) as u64,
                reward_pool: (v.reward_pool + rewards) as u64,
                ..v
            },
            Ok(()),
        )
    }
}

/// Counting `rewards` as processed.
pub open spec fn processed_in(v: NcnRewardRouterView, rewards: u64) -> Result<NcnRewardRouterView, TipRouterError> {
    if rewards == 0 {
        Ok(v)
    } else if v.rewards_processed + rewards > u64::MAX {
        Err(TipRouterError::ArithmeticOverflow)
    } else {
        Ok(NcnRewardRouterView { rewards_processed: (v.rewards_processed + rewards) as u64, ..v })
    }
}

/// Counting `rewards` as no longer processed (paid out).
pub open spec fn processed_out(v: NcnRewardRouterView, rewards: u64) -> Result<NcnRewardRouterView, TipRouterError> {
    if rewards == 0 {
        Ok(v)
    } else if v.rewards_processed < rewards {
        Err(TipRouterError::ArithmeticUnderflowError)
    } else {
        Ok(NcnRewardRouterView { rewards_processed: (v.rewards_processed - rewards) as u64, ..v })
    }
}

/// Giving `rewards` to the operator.
pub open spec fn operator_in(v: NcnRewardRouterView, rewards: u64) -> (NcnRewardRouterView, Result<(), TipRouterError>) {
    if rewards == 0 {
        (v, Ok(()))
    } else {
        match processed_in(v, rewards) {
            Err(e) => (v, Err(e)),
            Ok(v1) => if v1.operator_rewards + rewards > u64::MAX {
                (v1, Err(TipRouterError::ArithmeticOverflow))
            } else {
                (NcnRewardRouterView { operator_rewards: (v1.operator_rewards + rewards) as u64, ..v1 }, Ok(()))
            },
        }
    }
}

/// Whether `i` is the first route of `s` for `vault`.
pub open spec fn first_route_at(s: Seq<VaultRewardRouteView>, vault: Seq<u8>, i: int) -> bool {
    &&& 0 <= i < s.len()
    &&& s[i].vault == vault
    &&& forall|j: int| 0 <= j < i ==> s[j].vault != vault
}

/// Whether some route of `s` is for `vault`.
pub open spec fn has_route(s: Seq<VaultRewardRouteView>, vault: Seq<u8>) -> bool {
    exists|i: int| 0 <= i < s.len() && s[i].vault == vault
}

/// The index of the first route for `vault`.
pub open spec fn first_route_index(s: Seq<VaultRewardRouteView>, vault: Seq<u8>) -> int {
    choose|i: int| first_route_at(s, vault, i)
}

/// Giving `rewards` to `vault`: counted as processed, then added to the
/// vault's route, or to a new route in the first unused slot.
pub open spec fn vault_in(v: NcnRewardRouterView, vault: Seq<u8>, rewards: u64) -> (NcnRewardRouterView, Result<
    (),
    TipRouterError,
>) {
    if rewards == 0 {
        (v, Ok(()))
    } else {
        match processed_in(v, rewards) {
            Err(e) => (v, Err(e)),
            Ok(v1) => if has_route(v1.vault_reward_routes, vault) {
                let i = first_route_index(v1.vault_reward_routes, vault);
                let route = v1.vault_reward_routes[i];
                if route.rewards + rewards > u64::MAX {
                    (v1, Err(TipRouterError::ArithmeticOverflow))
                } else {
                    (
                        NcnRewardRouterView {
                            vault_reward_routes: v1.vault_reward_routes.update(
                                i,
                                VaultRewardRouteView { rewards: (route.rewards + rewards) as u64, ..route },
                            ),
                            ..v1
                        },
                        Ok(()),
                    )
                }
            } else if has_route(v1.vault_reward_routes, default_key()) {
                let j = first_route_index(v1.vault_reward_routes, default_key());
                (
                    NcnRewardRouterView {
                        vault_reward_routes: v1.vault_reward_routes.update(
                            j,
                            VaultRewardRouteView { vault, rewards },
                        ),
                        ..v1
                    },
                    Ok(()),
                )
            } else {
                (v1, Err(TipRouterError::OperatorRewardListFull))
            },
        }
    }
}

/// Routing the share of one delegation: its reward, out of the pool and to
/// its vault.
#[verifier::opaque]
pub open spec fn route_delegation(
    v: NcnRewardRouterView,
    d: VaultOperatorStakeWeightView,
    operator_weights: StakeWeights,
    rewards_to_process: u64,
) -> (NcnRewardRouterView, Result<(), TipRouterError>) {
    if v.ncn_fee_group.group >= 8 {
        (v, Err(TipRouterError::InvalidNcnFeeGroup))
    } else {
        let g = v.ncn_fee_group.group as int;
        match vault_reward(d.stake_weight.group(g), operator_weights.group(g), rewards_to_process) {
            Err(e) => (v, Err(e)),
            Ok(reward) => match pool_out(v, reward) {
                Err(e) => (v, Err(e)),
                Ok(v1) => vault_in(v1, d.vault, reward),
            },
        }
    }
}

/// Routing the delegations from `from` up to (not including) `to`, in order,
/// stopping at the first error.
pub open spec fn route_delegations(
    v: NcnRewardRouterView,
    delegations: Seq<VaultOperatorStakeWeightView>,
    operator_weights: StakeWeights,
    rewards_to_process: u64,
    from: int,
    to: int,
) -> (NcnRewardRouterView, Result<(), TipRouterError>)
    decreases to - from,
{
    if to <= from {
        (v, Ok(()))
    } else {
        let (v1, r1) = route_delegations(v, delegations, operator_weights, rewards_to_process, from, to - 1);
        if r1 is Err {
            (v1, r1)
        } else {
            route_delegation(v1, delegations[to - 1], operator_weights, rewards_to_process)
        }
    }
}

/// Whether every delegation from `from` up to `to` has a share that
/// spl-math can round without panicking.
pub open spec fn delegation_rewards_fit(
    group: NcnFeeGroup,
    delegations: Seq<VaultOperatorStakeWeightView>,
    operator_weights: StakeWeights,
    rewards_to_process: u64,
    from: int,
    to: int,
) -> bool {
    forall|i: int|
        from <= i < to && group.group < 8 ==> vault_reward_fits(
            (#[trigger] delegations[i]).stake_weight.group(group.group as int),
            operator_weights.group(group.group as int),
            rewards_to_process,
        )
}

/// Where routing the pool resumes: the saved state if a routing was cut
/// short, else the whole pool from the first delegation.
pub open spec fn routing_start(v: NcnRewardRouterView) -> (u64, int) {
    if still_routing(v) {
        (v.last_rewards_to_process, v.last_vault_operator_delegation_index as int)
    } else {
        (v.reward_pool, 0)
    }
}

/// How many delegations one call routes before it stops to save its place.
pub open spec fn routed_per_call(max_iterations: u16) -> int {
    if max_iterations == 0 {
        0
    } else {
        max_iterations - 1
    }
}

/// Routing the reward pool to the vaults of an operator's delegations, in
/// proportion of stake weight, at most `max_iterations - 1` delegations per
/// call. A call that stops early saves where it stopped; the call that
/// reaches the end clears that and gives the operator what remains.
pub open spec fn reward_pool_routing(
    v: NcnRewardRouterView,
    snapshot: OperatorSnapshotView,
    max_iterations: u16,
) -> (NcnRewardRouterView, Result<(), TipRouterError>) {
    let (rewards_to_process, start) = routing_start(v);
    let n = routed_per_call(max_iterations);
    let delegations = snapshot.vault_operator_stake_weight;
    if start + n < 64 {
        let (v1, r1) = route_delegations(v, delegations, snapshot.stake_weights, rewards_to_process, start, start + n);
        if r1 is Err {
            (v1, r1)
        } else {
            (
                NcnRewardRouterView {
                    last_rewards_to_process: rewards_to_process,
                    last_vault_operator_delegation_index: (start + n) as u16,
                    ..v1
                },
                Ok(()),
            )
        }
    } else {
        let (v1, r1) = route_delegations(v, delegations, snapshot.stake_weights, rewards_to_process, start, 64);
        if r1 is Err {
            (v1, r1)
        } else {
            let v2 = NcnRewardRouterView {
                last_rewards_to_process: NO_LAST_REWARDS_TO_PROCESS,
                last_vault_operator_delegation_index: NO_LAST_VAULT_OPERATION_DELEGATION_INDEX,
                ..v1
            };
            let leftover = v2.reward_pool;
            operator_in(NcnRewardRouterView { reward_pool: 0, ..v2 }, leftover)
        }
    }
}

/// The seeds of the address of a reward router.
pub open spec fn ncn_reward_router_seeds(group: NcnFeeGroup, operator: Seq<u8>, ncn: Seq<u8>, ncn_epoch: u64) -> Seq<
    Seq<u8>,
> {
    seq!["ncn_reward_router".spec_bytes(), seq![group.group], operator, ncn, le_bytes(ncn_epoch as nat, 8)]
}

/// The seeds of the address of a reward receiver.
pub open spec fn ncn_reward_receiver_seeds(group: NcnFeeGroup, operator: Seq<u8>, ncn: Seq<u8>, ncn_epoch: u64) -> Seq<
    Seq<u8>,
> {
    seq!["ncn_reward_receiver".spec_bytes(), seq![group.group], operator, ncn, le_bytes(ncn_epoch as nat, 8)]
}

/// The rewards of one NCN fee group for one operator in an epoch: a pool
/// routed to the operator's fee and to its vaults by stake weight.
#[derive(Debug, Clone, Copy)]
pub struct NcnRewardRouter {
    ncn_fee_group: NcnFeeGroup,
    operator: Pubkey,
    ncn: Pubkey,
    epoch: u64,
    bump: u8,
    slot_created: u64,
    total_rewards: u64,
    reward_pool: u64,
    rewards_processed: u64,
    operator_rewards: u64,
    last_rewards_to_process: u64,
    last_vault_operator_delegation_index: u16,
    vault_reward_routes: [VaultRewardRoute; 64],
}

impl View for NcnRewardRouter {
    type V = NcnRewardRouterView;

    closed spec fn view(&self) -> NcnRewardRouterView {
        NcnRewardRouterView {
            ncn_fee_group: self.ncn_fee_group,
            operator: self.operator@,
            ncn: self.ncn@,
            epoch: self.epoch,
            bump: self.bump,
            slot_created: self.slot_created,
            total_rewards: self.total_rewards,
            reward_pool: self.reward_pool,
            rewards_processed: self.rewards_processed,
            operator_rewards: self.operator_rewards,
            last_rewards_to_process: self.last_rewards_to_process,
            last_vault_operator_delegation_index: self.last_vault_operator_delegation_index,
            vault_reward_routes: self.vault_reward_routes@.map_values(|r: VaultRewardRoute| r@),
        }
    }
}

/// Whether every delegation that routing the pool reaches has a share that
/// spl-math can round without panicking.
#[verifier::opaque]
pub open spec fn routing_fits(v: NcnRewardRouterView, snapshot: OperatorSnapshotView, max_iterations: u16) -> bool {
    let (rewards_to_process, start) = routing_start(v);
    let n = routed_per_call(max_iterations);
    let end = if start + n < 64 {
        start + n
    } else {
        64
    };
    let delegations = snapshot.vault_operator_stake_weight;
    let g = v.ncn_fee_group.group as int;
    forall|i: int|
        start <= i < end && v.ncn_fee_group.group < 8 && (route_delegations(
            v,
            delegations,
            snapshot.stake_weights,
            rewards_to_process,
            start,
            i,
        ).1 is Ok) ==> vault_reward_fits(
            (#[trigger] delegations[i]).stake_weight.group(g),
            snapshot.stake_weights.group(g),
            rewards_to_process,
        )
}

impl NcnRewardRouter {
    pub proof fn lemma_lengths(&self)
        ensures
            self@.vault_reward_routes.len() == 64,
    {
    }

    pub fn new(
        ncn_fee_group: NcnFeeGroup,
        operator: &Pubkey,
        ncn: &Pubkey,
        ncn_epoch: u64,
        bump: u8,
        slot_created: u64,
    ) -> (r: Self)
        ensures
            r@ == (NcnRewardRouterView {
                ncn_fee_group,
                operator: operator@,
                ncn: ncn@,
                epoch: ncn_epoch,
                bump,
                slot_created,
                total_rewards: 0,
                reward_pool: 0,
                rewards_processed: 0,
                operator_rewards: 0,
                last_rewards_to_process: NO_LAST_REWARDS_TO_PROCESS,
                last_vault_operator_delegation_index: NO_LAST_VAULT_OPERATION_DELEGATION_INDEX,
                vault_reward_routes: Seq::new(64, |i: int| VaultRewardRouteView { vault: default_key(), rewards: 0 }),
            }),
    {
        let r = NcnRewardRouter {
            ncn_fee_group,
            operator: *operator,
            ncn: *ncn,
            epoch: ncn_epoch,
            bump,
            slot_created,
            total_rewards: 0,
            reward_pool: 0,
            rewards_processed: 0,
            operator_rewards: 0,
            last_rewards_to_process: NO_LAST_REWARDS_TO_PROCESS,
            last_vault_operator_delegation_index: NO_LAST_VAULT_OPERATION_DELEGATION_INDEX,
            vault_reward_routes: [VaultRewardRoute::default(); 64],
        };
        assert(r@.vault_reward_routes =~= Seq::new(
            64,
            |i: int| VaultRewardRouteView { vault: default_key(), rewards: 0 },
        ));
        r
    }

    pub fn seeds(ncn_fee_group: NcnFeeGroup, operator: &Pubkey, ncn: &Pubkey, ncn_epoch: u64) -> (s: Vec<Vec<u8>>)
        ensures
            s.deep_view() == ncn_reward_router_seeds(ncn_fee_group, operator@, ncn@, ncn_epoch),
    {
        let s = seed_list(
            vec![
                tag_bytes("ncn_reward_router"),
                byte_seed(ncn_fee_group.group),
                operator.to_byte_vec(),
                ncn.to_byte_vec(),
                u64_to_le_bytes(ncn_epoch),
            ],
        );
        assert(s.deep_view() =~= ncn_reward_router_seeds(ncn_fee_group, operator@, ncn@, ncn_epoch));
        s
    }

    /// The router's address, bump seed and seeds; `None` where no bump seed
    /// gives an address.
    pub fn find_program_address(
        program_id: &Pubkey,
        ncn_fee_group: NcnFeeGroup,
        operator: &Pubkey,
        ncn: &Pubkey,
        ncn_epoch: u64,
    ) -> (r: Option<(Pubkey, u8, Vec<Vec<u8>>)>)
        ensures
            address_with_seeds(ncn_reward_router_seeds(ncn_fee_group, operator@, ncn@, ncn_epoch), program_id@, r),
    {
        find_address(Self::seeds(ncn_fee_group, operator, ncn, ncn_epoch), program_id)
    }

    /// Checks that `account` is the router of `ncn_fee_group`, `operator`,
    /// `ncn` and `ncn_epoch`.
    pub fn load(
        program_id: &Pubkey,
        ncn_fee_group: NcnFeeGroup,
        operator: &Pubkey,
        ncn: &Pubkey,
        ncn_epoch: u64,
        account: &AccountView,
        expect_writable: bool,
    ) -> (r: Result<(), ProgramError>)
        ensures
            r == snapshot_load_check(
                ncn_reward_router_seeds(ncn_fee_group, operator@, ncn@, ncn_epoch),
                program_id@,
                *account,
                discriminator_value(Discriminators::NcnRewardRouter),
                expect_writable,
            ),
    {
        let seeds = Self::seeds(ncn_fee_group, operator, ncn, ncn_epoch);
        check_snapshot_load(&seeds, program_id, account, Discriminators::NcnRewardRouter.value(), expect_writable)
    }

    pub fn ncn_fee_group(&self) -> (g: NcnFeeGroup)
        ensures
            g == self@.ncn_fee_group,
    {
        self.ncn_fee_group
    }

    pub fn operator(&self) -> (k: &Pubkey)
        ensures
            k@ == self@.operator,
    {
        &self.operator
    }

    pub fn ncn(&self) -> (k: &Pubkey)
        ensures
            k@ == self@.ncn,
    {
        &self.ncn
    }

    pub fn ncn_epoch(&self) -> (e: u64)
        ensures
            e == self@.epoch,
    {
        self.epoch
    }

    pub fn slot_created(&self) -> (s: u64)
        ensures
            s == self@.slot_created,
    {
        self.slot_created
    }

    pub fn vault_reward_routes(&self) -> (r: &[VaultRewardRoute; 64])
        ensures
            r@.map_values(|x: VaultRewardRoute| x@) == self@.vault_reward_routes,
    {
        &self.vault_reward_routes
    }

    /// The rewards held by all vault routes together.
    pub fn total_vault_rewards(&self) -> (r: u64)
        requires
            routes_sum(self@.vault_reward_routes, 64) <= u64::MAX,
        ensures
            r == routes_sum(self@.vault_reward_routes, 64),
    {
        let mut total: u64 = 0;
        let mut i: usize = 0;
        while i < 64
            invariant
                i <= 64,
                self@.vault_reward_routes.len() == 64,
                routes_sum(self@.vault_reward_routes, 64) <= u64::MAX,
                total == routes_sum(self@.vault_reward_routes, i as int),
            decreases 64 - i,
        {
            proof {
                lemma_routes_sum_monotonic(self@.vault_reward_routes, i as int + 1, 64);
            }
            total = total + self.vault_reward_routes[i].rewards();
            i = i + 1;
        }
        total
    }

    /// The vaults of the routes in use, in route order: the vaults whose
    /// rewards a distribution round hands out.
    pub fn vaults_to_route(&self) -> (v: Vec<Pubkey>)
        ensures
            v@.map_values(|k: Pubkey| k@) == routed_vaults(self@.vault_reward_routes),
    {
        let mut v: Vec<Pubkey> = Vec::new();
        let mut i: usize = 0;
        while i < 64
            invariant
                i <= 64,
                self@.vault_reward_routes.len() == 64,
                v@.map_values(|k: Pubkey| k@) == routed_vaults(self@.vault_reward_routes.take(i as int)),
            decreases 64 - i,
        {
            let ghost before = v@;
            let route = self.vault_reward_routes[i];
            proof {
                let next = self@.vault_reward_routes.take(i as int + 1);
                assert(next.drop_last() =~= self@.vault_reward_routes.take(i as int));
                assert(next.last() == route@);
            }
            if !route.is_empty() {
                v.push(route.vault());
                assert(v@.map_values(|k: Pubkey| k@) =~= before.map_values(|k: Pubkey| k@).push(route@.vault));
            }
            i = i + 1;
        }
        assert(self@.vault_reward_routes.take(64) =~= self@.vault_reward_routes);
        v
    }

    pub fn last_rewards_to_process(&self) -> (r: u64)
        ensures
            r == self@.last_rewards_to_process,
    {
        self.last_rewards_to_process
    }

    pub fn last_vault_operator_delegation_index(&self) -> (i: u16)
        ensures
            i == self@.last_vault_operator_delegation_index,
    {
        self.last_vault_operator_delegation_index
    }

    /// Where to resume routing: the saved place, or `rewards_to_process`
    /// from the first delegation.
    pub fn resume_routing_state(&mut self, rewards_to_process: u64) -> (r: (u64, usize))
        ensures
            final(self)@ == old(self)@,
            still_routing(old(self)@) ==> r == (
                old(self)@.last_rewards_to_process,
                old(self)@.last_vault_operator_delegation_index as usize,
            ),
            !still_routing(old(self)@) ==> r == (rewards_to_process, 0usize),
    {
        if !self.still_routing() {
            return (rewards_to_process, 0);
        }
        (self.last_rewards_to_process, self.last_vault_operator_delegation_index as usize)
    }

    /// Saves where routing stopped.
    pub fn save_routing_state(&mut self, rewards_to_process: u64, vault_operator_delegation_index: usize)
        ensures
            final(self)@ == (NcnRewardRouterView {
                last_rewards_to_process: rewards_to_process,
                last_vault_operator_delegation_index: vault_operator_delegation_index as u16,
                ..old(self)@
            }),
    {
        self.last_rewards_to_process = rewards_to_process;
        self.last_vault_operator_delegation_index = vault_operator_delegation_index as u16;
    }

    /// Clears the saved place.
    pub fn finish_routing_state(&mut self)
        ensures
            final(self)@ == (NcnRewardRouterView {
                last_rewards_to_process: NO_LAST_REWARDS_TO_PROCESS,
                last_vault_operator_delegation_index: NO_LAST_VAULT_OPERATION_DELEGATION_INDEX,
                ..old(self)@
            }),
    {
        self.last_rewards_to_process = NO_LAST_REWARDS_TO_PROCESS;
        self.last_vault_operator_delegation_index = NO_LAST_VAULT_OPERATION_DELEGATION_INDEX;
    }

    pub fn still_routing(&self) -> (b: bool)
        ensures
            b == still_routing(self@),
    {
        self.last_rewards_to_process != NO_LAST_REWARDS_TO_PROCESS || self.last_vault_operator_delegation_index
            != NO_LAST_VAULT_OPERATION_DELEGATION_INDEX
    }

    /// Puts into the pool what the account holds beyond the rewards already
    /// in transit and its rent.
    pub fn route_incoming_rewards(&mut self, rent_cost: u64, account_balance: u64) -> (r: Result<(), TipRouterError>)
        ensures
            ({
                let o = old(self)@;
                if o.reward_pool + o.rewards_processed > u64::MAX {
                    r == Err::<(), TipRouterError>(TipRouterError::ArithmeticOverflow) && final(self)@ == o
                } else if account_balance < o.reward_pool + o.rewards_processed + rent_cost {
                    r == Err::<(), TipRouterError>(TipRouterError::ArithmeticUnderflowError) && final(self)@ == o
                } else {
                    (final(self)@, r) == pool_in(
                        o,
                        (account_balance - o.reward_pool - o.rewards_processed - rent_cost) as u64,
                    )
                }
            }),
    {
        let total_rewards = self.total_rewards_in_transit()?;
        let incoming_rewards = match account_balance.checked_sub(total_rewards) {
            Some(v) => v,
            None => {
                return Err(TipRouterError::ArithmeticUnderflowError);
            },
        };
        let rewards_to_route = match incoming_rewards.checked_sub(rent_cost) {
            Some(v) => v,
            None => {
                return Err(TipRouterError::ArithmeticUnderflowError);
            },
        };
        self.route_to_reward_pool(rewards_to_route)
    }

    /// Routes the operator's fee share of the pool to the operator.
    pub fn route_operator_rewards(&mut self, operator_snapshot: &OperatorSnapshot) -> (r: Result<(), TipRouterError>)
        ensures
            ({
                let o = old(self)@;
                match operator_reward(operator_snapshot@.operator_fee_bps as u64, o.reward_pool) {
                    Err(e) => r == Err::<(), TipRouterError>(e) && final(self)@ == o,
                    Ok(reward) => match pool_out(o, reward) {
                        Err(e) => r == Err::<(), TipRouterError>(e) && final(self)@ == o,
                        Ok(o1) => (final(self)@, r) == operator_in(o1, reward),
                    },
                }
            }),
    {
        let rewards_to_process = self.reward_pool;
        let operator_fee_bps = operator_snapshot.operator_fee_bps();
        let operator_rewards = Self::calculate_operator_reward(operator_fee_bps as u64, rewards_to_process)?;
        self.route_from_reward_pool(operator_rewards)?;
        self.route_to_operator_rewards(operator_rewards)
    }

    /// Routes the pool to the vaults of the operator's delegations and the
    /// remainder to the operator, as `reward_pool_routing` states.
    pub fn route_reward_pool(&mut self, operator_snapshot: &OperatorSnapshot, max_iterations: u16) -> (r: Result<
        (),
        TipRouterError,
    >)
        requires
            routing_fits(old(self)@, operator_snapshot@, max_iterations),
        ensures
            (final(self)@, r) == reward_pool_routing(old(self)@, operator_snapshot@, max_iterations),
    {
        let ghost v0 = self@;
        let ghost delegations = operator_snapshot@.vault_operator_stake_weight;
        proof {
            operator_snapshot.lemma_lengths();
        }
        let operator_stake_weight = operator_snapshot.stake_weights();
        let vault_ncn_fee_group = self.ncn_fee_group;
        let rewards_to_process = self.reward_pool;
        let (rewards_to_process, start) = self.resume_routing_state(rewards_to_process);
        let ghost n = routed_per_call(max_iterations);
        let mut iterations: u16 = 0;
        let mut idx: usize = start;
        while idx < 64
            invariant
                v0 == old(self)@,
                routing_fits(v0, operator_snapshot@, max_iterations),
                delegations == operator_snapshot@.vault_operator_stake_weight,
                delegations.len() == 64,
                *operator_stake_weight == operator_snapshot@.stake_weights,
                vault_ncn_fee_group == v0.ncn_fee_group,
                (rewards_to_process, start as int) == routing_start(v0),
                n == routed_per_call(max_iterations),
                self@.ncn_fee_group == v0.ncn_fee_group,
                start <= idx,
                start >= 64 ==> idx == start,
                start < 64 ==> idx <= 64,
                idx - start <= n,
                iterations == idx - start,
                self@ == route_delegations(
                    v0,
                    delegations,
                    *operator_stake_weight,
                    rewards_to_process,
                    start as int,
                    idx as int,
                ).0,
                route_delegations(
                    v0,
                    delegations,
                    *operator_stake_weight,
                    rewards_to_process,
                    start as int,
                    idx as int,
                ).1 is Ok,
            decreases 64 - idx,
        {
            let vault_operator_delegation = operator_snapshot.vault_operator_stake_weight()[idx];
            assert(vault_operator_delegation@ == delegations[idx as int]);
            iterations = iterations + 1;
            if iterations >= max_iterations {
                self.save_routing_state(rewards_to_process, idx);
                return Ok(());
            }
            let ghost before = self@;
            proof {
                assert(idx < start + n);
                if v0.ncn_fee_group.group < 8 {
                    lemma_routing_fits_at(v0, operator_snapshot@, max_iterations, idx as int);
                }
                assert(route_delegations(v0, delegations, *operator_stake_weight, rewards_to_process, start as int, idx as int + 1) == route_delegation(
                    before,
                    delegations[idx as int],
                    *operator_stake_weight,
                    rewards_to_process,
                ));
            }
            let step = self.route_delegation(&vault_operator_delegation, operator_stake_weight, rewards_to_process);
            match step {
                Ok(()) => {},
                Err(e) => {
                    proof {
                        let end = if start + n < 64 {
                            start + n
                        } else {
                            64
                        };
                        lemma_route_error_sticks(
                            v0,
                            delegations,
                            *operator_stake_weight,
                            rewards_to_process,
                            start as int,
                            idx as int + 1,
                            end,
                        );
                    }
                    return Err(e);
                },
            }
            idx = idx + 1;
        }
        proof {
            assert(start + n >= 64);
            if start >= 64 {
                assert(idx == start);
            } else {
                assert(idx == 64);
            }
        }
        self.finish_routing_state();
        let leftover_rewards = self.reward_pool;
        self.route_from_reward_pool(leftover_rewards)?;
        self.route_to_operator_rewards(leftover_rewards)
    }

    /// Routes the share of one delegation.
    fn route_delegation(
        &mut self,
        vault_operator_delegation: &crate::epoch_snapshot::VaultOperatorStakeWeight,
        operator_stake_weight: &StakeWeights,
        rewards_to_process: u64,
    ) -> (r: Result<(), TipRouterError>)
        requires
            old(self)@.ncn_fee_group.group < 8 ==> vault_reward_fits(
                vault_operator_delegation@.stake_weight.group(old(self)@.ncn_fee_group.group as int),
                operator_stake_weight.group(old(self)@.ncn_fee_group.group as int),
                rewards_to_process,
            ),
        ensures
            (final(self)@, r) == route_delegation(
                old(self)@,
                vault_operator_delegation@,
                *operator_stake_weight,
                rewards_to_process,
            ),
            final(self)@.ncn_fee_group == old(self)@.ncn_fee_group,
    {
        proof {
            reveal(route_delegation);
        }
        let vault = vault_operator_delegation.vault();
        let vault_ncn_fee_group = self.ncn_fee_group;
        let vault_reward_stake_weight = vault_operator_delegation.stake_weights().ncn_fee_group_stake_weight(
            vault_ncn_fee_group,
        )?;
        let operator_reward_stake_weight = operator_stake_weight.ncn_fee_group_stake_weight(vault_ncn_fee_group)?;
        let vault_reward = Self::calculate_vault_reward(
            vault_reward_stake_weight,
            operator_reward_stake_weight,
            rewards_to_process,
        )?;
        self.route_from_reward_pool(vault_reward)?;
        self.route_to_vault_reward_route(&vault, vault_reward)
    }

    /// The rewards in the pool and processed, together.
    pub fn total_rewards_in_transit(&self) -> (r: Result<u64, TipRouterError>)
        ensures
            self@.reward_pool + self@.rewards_processed > u64::MAX ==> r == Err::<u64, TipRouterError>(
                TipRouterError::ArithmeticOverflow,
            ),
            self@.reward_pool + self@.rewards_processed <= u64::MAX ==> r == Ok::<u64, TipRouterError>(
                (self@.reward_pool + self@.rewards_processed) as u64,
            ),
    {
        match self.reward_pool.checked_add(self.rewards_processed) {
            Some(v) => Ok(v),
            None => Err(TipRouterError::ArithmeticOverflow),
        }
    }

    pub fn total_rewards(&self) -> (r: u64)
        ensures
            r == self@.total_rewards,
    {
        self.total_rewards
    }

    pub fn reward_pool(&self) -> (r: u64)
        ensures
            r == self@.reward_pool,
    {
        self.reward_pool
    }

    pub fn route_to_reward_pool(&mut self, rewards: u64) -> (r: Result<(), TipRouterError>)
        ensures
            (final(self)@, r) == pool_in(old(self)@, rewards),
    {
        if rewards == 0 {
            return Ok(());
        }
        self.total_rewards = match self.total_rewards.checked_add(rewards) {
            Some(v) => v,
            None => {
                return Err(TipRouterError::ArithmeticOverflow);
            },
        };
        self.reward_pool = match self.reward_pool.checked_add(rewards) {
            Some(v) => v,
            None => {
                return Err(TipRouterError::ArithmeticOverflow);
            },
        };
        Ok(())
    }

    pub fn route_from_reward_pool(&mut self, rewards: u64) -> (r: Result<(), TipRouterError>)
        ensures
            match pool_out(old(self)@, rewards) {
                Ok(v) => r == Ok::<(), TipRouterError>(()) && final(self)@ == v,
                Err(e) => r == Err::<(), TipRouterError>(e) && final(self)@ == old(self)@,
            },
    {
        if rewards == 0 {
            return Ok(());
        }
        self.reward_pool = match self.reward_pool.checked_sub(rewards) {
            Some(v) => v,
            None => {
                return Err(TipRouterError::ArithmeticUnderflowError);
            },
        };
        Ok(())
    }

    pub fn rewards_processed(&self) -> (r: u64)
        ensures
            r == self@.rewards_processed,
    {
        self.rewards_processed
    }

    pub fn increment_rewards_processed(&mut self, rewards: u64) -> (r: Result<(), TipRouterError>)
        ensures
            match processed_in(old(self)@, rewards) {
                Ok(v) => r == Ok::<(), TipRouterError>(()) && final(self)@ == v,
                Err(e) => r == Err::<(), TipRouterError>(e) && final(self)@ == old(self)@,
            },
    {
        if rewards == 0 {
            return Ok(());
        }
        self.rewards_processed = match self.rewards_processed.checked_add(rewards) {
            Some(v) => v,
            None => {
                return Err(TipRouterError::ArithmeticOverflow);
            },
        };
        Ok(())
    }

    pub fn decrement_rewards_processed(&mut self, rewards: u64) -> (r: Result<(), TipRouterError>)
        ensures
            match processed_out(old(self)@, rewards) {
                Ok(v) => r == Ok::<(), TipRouterError>(()) && final(self)@ == v,
                Err(e) => r == Err::<(), TipRouterError>(e) && final(self)@ == old(self)@,
            },
    {
        if rewards == 0 {
            return Ok(());
        }
        self.rewards_processed = match self.rewards_processed.checked_sub(rewards) {
            Some(v) => v,
            None => {
                return Err(TipRouterError::ArithmeticUnderflowError);
            },
        };
        Ok(())
    }

    pub fn operator_rewards(&self) -> (r: u64)
        ensures
            r == self@.operator_rewards,
    {
        self.operator_rewards
    }

    pub fn route_to_operator_rewards(&mut self, rewards: u64) -> (r: Result<(), TipRouterError>)
        ensures
            (final(self)@, r) == operator_in(old(self)@, rewards),
    {
        if rewards == 0 {
            return Ok(());
        }
        self.increment_rewards_processed(rewards)?;
        self.operator_rewards = match self.operator_rewards.checked_add(rewards) {
            Some(v) => v,
            None => {
                return Err(TipRouterError::ArithmeticOverflow);
            },
        };
        Ok(())
    }

    /// Pays out the operator's rewards: returns them and clears them.
    pub fn distribute_operator_rewards(&mut self) -> (r: Result<u64, TipRouterError>)
        ensures
            ({
                let o = old(self)@;
                let cleared = NcnRewardRouterView { operator_rewards: 0, ..o };
                match processed_out(cleared, o.operator_rewards) {
                    Ok(v) => r == Ok::<u64, TipRouterError>(o.operator_rewards) && final(self)@ == v,
                    Err(e) => r == Err::<u64, TipRouterError>(e) && final(self)@ == cleared,
                }
            }),
    {
        let rewards = self.operator_rewards;
        self.operator_rewards = self.operator_rewards - rewards;
        self.decrement_rewards_processed(rewards)?;
        Ok(rewards)
    }

    /// The index of the first route for `vault`, if any.
    fn find_route_index(&self, vault: &Pubkey) -> (r: Option<usize>)
        ensures
            match r {
                Some(i) => first_route_at(self@.vault_reward_routes, vault@, i as int),
                None => !has_route(self@.vault_reward_routes, vault@),
            },
    {
        let mut i: usize = 0;
        while i < 64
            invariant
                i <= 64,
                self@.vault_reward_routes.len() == 64,
                forall|j: int| 0 <= j < i ==> self@.vault_reward_routes[j].vault != vault@,
            decreases 64 - i,
        {
            if self.vault_reward_routes[i].vault.same_as(vault) {
                return Some(i);
            }
            i = i + 1;
        }
        None
    }

    /// The route of `vault`.
    pub fn vault_reward_route(&self, vault: &Pubkey) -> (r: Result<&VaultRewardRoute, TipRouterError>)
        ensures
            !has_route(self@.vault_reward_routes, vault@) ==> r is Err && r->Err_0
                == TipRouterError::VaultRewardNotFound,
            forall|i: int|
                first_route_at(self@.vault_reward_routes, vault@, i) ==> (r matches Ok(route) && route@
                    == self@.vault_reward_routes[i]),
    {
        match self.find_route_index(vault) {
            Some(i) => Ok(&self.vault_reward_routes[i]),
            None => Err(TipRouterError::VaultRewardNotFound),
        }
    }

    pub fn route_to_vault_reward_route(&mut self, vault: &Pubkey, rewards: u64) -> (r: Result<(), TipRouterError>)
        ensures
            (final(self)@, r) == vault_in(old(self)@, vault@, rewards),
    {
        if rewards == 0 {
            return Ok(());
        }
        self.increment_rewards_processed(rewards)?;
        let ghost v1 = self@;
        match self.find_route_index(vault) {
            Some(i) => {
                proof {
                    lemma_first_route_unique(v1.vault_reward_routes, vault@, i as int);
                }
                let mut route = self.vault_reward_routes[i];
                route.increment_rewards(rewards)?;
                self.vault_reward_routes[i] = route;
                assert(self@.vault_reward_routes =~= v1.vault_reward_routes.update(i as int, route@));
                return Ok(());
            },
            None => {},
        }
        let zero = Pubkey::default();
        match self.find_route_index(&zero) {
            Some(j) => {
                proof {
                    lemma_first_route_unique(v1.vault_reward_routes, default_key(), j as int);
                }
                let route = VaultRewardRoute { vault: *vault, rewards };
                self.vault_reward_routes[j] = route;
                assert(self@.vault_reward_routes =~= v1.vault_reward_routes.update(j as int, route@));
                Ok(())
            },
            None => Err(TipRouterError::OperatorRewardListFull),
        }
    }

    /// Pays out the rewards of `vault`: returns them and clears its route.
    pub fn distribute_vault_reward_route(&mut self, vault: &Pubkey) -> (r: Result<u64, TipRouterError>)
        ensures
            !has_route(old(self)@.vault_reward_routes, vault@) ==> r == Err::<u64, TipRouterError>(
                TipRouterError::OperatorRewardNotFound,
            ) && final(self)@ == old(self)@,
            forall|i: int|
                first_route_at(old(self)@.vault_reward_routes, vault@, i) ==> {
                    let o = old(self)@;
                    let rewards = o.vault_reward_routes[i].rewards;
                    let cleared = NcnRewardRouterView {
                        vault_reward_routes: o.vault_reward_routes.update(
                            i,
                            VaultRewardRouteView { rewards: 0, ..o.vault_reward_routes[i] },
                        ),
                        ..o
                    };
                    match processed_out(cleared, rewards) {
                        Ok(v) => r == Ok::<u64, TipRouterError>(rewards) && final(self)@ == v,
                        Err(e) => r == Err::<u64, TipRouterError>(e) && final(self)@ == cleared,
                    }
                },
    {
        match self.find_route_index(vault) {
            Some(i) => {
                let mut route = self.vault_reward_routes[i];
                let rewards = route.rewards();
                let _ = route.decrement_rewards(rewards);
                self.vault_reward_routes[i] = route;
                assert(self@.vault_reward_routes =~= old(self)@.vault_reward_routes.update(
                    i as int,
                    VaultRewardRouteView { rewards: 0, ..old(self)@.vault_reward_routes[i as int] },
                ));
                self.decrement_rewards_processed(rewards)?;
                Ok(rewards)
            },
            None => Err(TipRouterError::OperatorRewardNotFound),
        }
    }
}

/// The delegation that routing reaches at `i` has a share that rounds
/// without panicking.
pub proof fn lemma_routing_fits_at(v: NcnRewardRouterView, snapshot: OperatorSnapshotView, max_iterations: u16, i: int)
    requires
        routing_fits(v, snapshot, max_iterations),
        routing_start(v).1 <= i,
        i < routing_start(v).1 + routed_per_call(max_iterations),
        i < 64,
        v.ncn_fee_group.group < 8,
        route_delegations(
            v,
            snapshot.vault_operator_stake_weight,
            snapshot.stake_weights,
            routing_start(v).0,
            routing_start(v).1,
            i,
        ).1 is Ok,
    ensures
        vault_reward_fits(
            snapshot.vault_operator_stake_weight[i].stake_weight.group(v.ncn_fee_group.group as int),
            snapshot.stake_weights.group(v.ncn_fee_group.group as int),
            routing_start(v).0,
        ),
{
    reveal(routing_fits);
    assert(snapshot.vault_operator_stake_weight[i] == snapshot.vault_operator_stake_weight[i]);
}

/// Once routing a delegation fails, routing further ones changes nothing.
pub proof fn lemma_route_error_sticks(
    v: NcnRewardRouterView,
    delegations: Seq<VaultOperatorStakeWeightView>,
    operator_weights: StakeWeights,
    rewards_to_process: u64,
    from: int,
    k: int,
    to: int,
)
    requires
        from <= k <= to,
        route_delegations(v, delegations, operator_weights, rewards_to_process, from, k).1 is Err,
    ensures
        route_delegations(v, delegations, operator_weights, rewards_to_process, from, to) == route_delegations(
            v,
            delegations,
            operator_weights,
            rewards_to_process,
            from,
            k,
        ),
    decreases to - k,
{
    if k < to {
        lemma_route_error_sticks(v, delegations, operator_weights, rewards_to_process, from, k, to - 1);
    }
}

/// The first route for a vault is one route.
pub proof fn lemma_first_route_unique(s: Seq<VaultRewardRouteView>, vault: Seq<u8>, i: int)
    requires
        first_route_at(s, vault, i),
    ensures
        first_route_index(s, vault) == i,
        has_route(s, vault),
{
    let j = first_route_index(s, vault);
    assert(first_route_at(s, vault, j));
    if j < i {
        assert(s[j].vault != vault);
    } else if i < j {
        assert(s[i].vault != vault);
    }
}

/// An account without data that holds SOL on its way to a reward router. It
/// must stay empty and uninitialized, or transfers from it fail.
pub struct NcnRewardReceiver {}

/// What checking a reward receiver gives: owned by the system program,
/// writable if it must be, and at its address.
pub open spec fn receiver_check(seeds: Seq<Seq<u8>>, program_id: Seq<u8>, account: AccountView, expect_writable: bool) -> Result<
    (),
    ProgramError,
> {
    if account.owner@ != default_key() {
        Err(ProgramError::InvalidAccountOwner)
    } else if expect_writable && !account.is_writable {
        Err(ProgramError::InvalidAccountData)
    } else {
        match program_address(seeds, program_id) {
            None => Err(ProgramError::NoProgramAddress),
            Some((pda, _)) => if account.key@ != pda {
                Err(ProgramError::InvalidAccountData)
            } else {
                Ok(())
            },
        }
    }
}

impl NcnRewardReceiver {
    pub fn seeds(ncn_fee_group: NcnFeeGroup, operator: &Pubkey, ncn: &Pubkey, ncn_epoch: u64) -> (s: Vec<Vec<u8>>)
        ensures
            s.deep_view() == ncn_reward_receiver_seeds(ncn_fee_group, operator@, ncn@, ncn_epoch),
    {
        let s = seed_list(
            vec![
                tag_bytes("ncn_reward_receiver"),
                byte_seed(ncn_fee_group.group),
                operator.to_byte_vec(),
                ncn.to_byte_vec(),
                u64_to_le_bytes(ncn_epoch),
            ],
        );
        assert(s.deep_view() =~= ncn_reward_receiver_seeds(ncn_fee_group, operator@, ncn@, ncn_epoch));
        s
    }

    /// The receiver's address, bump seed and seeds; `None` where no bump
    /// seed gives an address.
    pub fn find_program_address(
        program_id: &Pubkey,
        ncn_fee_group: NcnFeeGroup,
        operator: &Pubkey,
        ncn: &Pubkey,
        ncn_epoch: u64,
    ) -> (r: Option<(Pubkey, u8, Vec<Vec<u8>>)>)
        ensures
            address_with_seeds(ncn_reward_receiver_seeds(ncn_fee_group, operator@, ncn@, ncn_epoch), program_id@, r),
    {
        find_address(Self::seeds(ncn_fee_group, operator, ncn, ncn_epoch), program_id)
    }

    /// Checks that `account` is the receiver of `ncn_fee_group`, `operator`,
    /// `ncn` and `ncn_epoch`.
    pub fn load(
        program_id: &Pubkey,
        account: &AccountView,
        ncn_fee_group: NcnFeeGroup,
        operator: &Pubkey,
        ncn: &Pubkey,
        ncn_epoch: u64,
        expect_writable: bool,
    ) -> (r: Result<(), ProgramError>)
        ensures
            r == receiver_check(
                ncn_reward_receiver_seeds(ncn_fee_group, operator@, ncn@, ncn_epoch),
                program_id@,
                *account,
                expect_writable,
            ),
    {
        if !account.owner.is_default() {
            return Err(ProgramError::InvalidAccountOwner);
        }
        if expect_writable && !account.is_writable {
            return Err(ProgramError::InvalidAccountData);
        }
        let seeds = Self::seeds(ncn_fee_group, operator, ncn, ncn_epoch);
        match try_find_program_address(&seeds, program_id) {
            None => Err(ProgramError::NoProgramAddress),
            Some((pda, _)) => if !account.key.same_as(&pda) {
                Err(ProgramError::InvalidAccountData)
            } else {
                Ok(())
            },
        }
    }
}

/// The precise operator reward computation ends in `rewards * fee / 10_000`,
/// rounded down.
proof fn lemma_operator_reward_steps(fee_bps: u64, rewards: u64)
    ensures
        spec_mul(spec_new(rewards as u128), spec_new(fee_bps as u128)) == Some(
            (rewards * fee_bps * precise_one()) as nat,
        ),
        spec_div(
            (rewards * fee_bps * precise_one()) as nat,
            spec_new(MAX_BPS as u128),
        ) == Some((rewards * fee_bps * 100_000_000) as nat),
        spec_floor((rewards * fee_bps * 100_000_000) as nat) == (rewards * fee_bps / 10_000) * precise_one(),
        spec_to_imprecise(((rewards * fee_bps / 10_000) * precise_one()) as nat) == Some(
            (rewards * fee_bps / 10_000) as nat,
        ),
        0 <= rewards * fee_bps / 10_000 <= u128::MAX,
{
    let x: int = rewards * fee_bps;
    let one: int = 1_000_000_000_000;
    assert(0 <= x <= 0xffff_ffff_ffff_ffff * 0xffff_ffff_ffff_ffff) by (nonlinear_arith)
        requires
            x == rewards * fee_bps,
    ;
    assert(spec_new(rewards as u128) * spec_new(fee_bps as u128) == x * one * one) by (nonlinear_arith)
        requires
            x == rewards * fee_bps,
            one == 1_000_000_000_000,
    ;
    assert(x * one * one + one / 2 < u256_bound()) by (nonlinear_arith)
        requires
            0 <= x <= 0xffff_ffff_ffff_ffff * 0xffff_ffff_ffff_ffff,
            one == 1_000_000_000_000,
    ;
    assert((x * one * one + one / 2) / one == x * one) by {
        lemma_fundamental_div_mod_converse_div(x * one * one + one / 2, one, x * one, one / 2);
    }
    assert((x * one) * one + one / 2 < u256_bound()) by (nonlinear_arith)
        requires
            x * one * one + one / 2 < u256_bound(),
    ;
    assert(((x * one) * one + one / 2) / (MAX_BPS as int * one) == x * 100_000_000) by {
        lemma_fundamental_div_mod_converse_div(
            (x * one) * one + one / 2,
            MAX_BPS as int * one,
            x * 100_000_000,
            one / 2,
        );
    }
    assert((x * 100_000_000) / one == x / 10_000) by {
        lemma_fundamental_div_mod(x, 10_000);
        lemma_fundamental_div_mod_converse_div(
            x * 100_000_000,
            one,
            x / 10_000,
            (x % 10_000) * 100_000_000,
        );
    }
    assert(((x / 10_000) * one + one / 2) / one == x / 10_000) by {
        lemma_fundamental_div_mod_converse_div((x / 10_000) * one + one / 2, one, x / 10_000, one / 2);
    }
    assert((x / 10_000) * one + one / 2 < u256_bound()) by (nonlinear_arith)
        requires
            0 <= x <= 0xffff_ffff_ffff_ffff * 0xffff_ffff_ffff_ffff,
            one == 1_000_000_000_000,
    ;
    assert(0 <= x / 10_000 <= u128::MAX) by (nonlinear_arith)
        requires
            0 <= x <= 0xffff_ffff_ffff_ffff * 0xffff_ffff_ffff_ffff,
    ;
}

/// The precise vault reward computation ends in `rewards * vault_weight /
/// operator_weight`, rounded down, whenever the product scaled twice by
/// 10^12 fits in 256 bits.
pub proof fn lemma_vault_reward_closed_form(vault_weight: u128, operator_weight: u128, rewards: u64)
    requires
        operator_weight > 0,
        rewards * vault_weight * precise_one() * precise_one() + precise_one() / 2 < u256_bound(),
        (rewards * vault_weight) / (operator_weight as int) <= u128::MAX,
    ensures
        vault_reward_steps(vault_weight, operator_weight, rewards) == Ok::<nat, TipRouterError>(
            ((rewards * vault_weight) / (operator_weight as int)) as nat,
        ),
        vault_reward_fits(vault_weight, operator_weight, rewards),
{
    let x: int = rewards * vault_weight;
    let o: int = operator_weight as int;
    let one: int = 1_000_000_000_000;
    assert(x >= 0) by (nonlinear_arith)
        requires
            x == rewards * vault_weight,
    ;
    assert(x * one * one + one / 2 < u256_bound());
    assert(spec_new(rewards as u128) * spec_new(vault_weight) == x * one * one) by (nonlinear_arith)
        requires
            x == rewards * vault_weight,
            one == 1_000_000_000_000,
    ;
    assert((x * one * one + one / 2) / one == x * one) by {
        lemma_fundamental_div_mod_converse_div(x * one * one + one / 2, one, x * one, one / 2);
    }
    assert(spec_mul(spec_new(rewards as u128), spec_new(vault_weight)) == Some((x * one) as nat));
    let n: int = (x * one) * one + one / 2;
    assert((x * one) * one == x * one * one) by (nonlinear_arith);
    assert(n < u256_bound());
    assert(o * one > 0) by (nonlinear_arith)
        requires
            o > 0,
            one > 0,
    ;
    let q: int = n / (o * one);
    assert(spec_div((x * one) as nat, spec_new(operator_weight)) == Some(q as nat)) by {
        assert(spec_new(operator_weight) == o * one);
        assert(q >= 0) by (nonlinear_arith)
            requires
                n >= 0,
                o * one > 0,
                q == n / (o * one),
        ;
    }
    // The floor of the precise quotient: q / one = n / (o * one * one).
    assert(q / one == n / (o * one * one)) by {
        lemma_div_denominator(n, o * one, one);
    }
    let k: int = x / o;
    let rem: int = x % o;
    assert(x == k * o + rem && 0 <= rem < o) by {
        lemma_fundamental_div_mod(x, o);
    }
    assert(n == k * (o * one * one) + (rem * one * one + one / 2)) by (nonlinear_arith)
        requires
            x == k * o + rem,
            n == (x * one) * one + one / 2,
    ;
    assert(rem * one * one + one / 2 < o * one * one) by (nonlinear_arith)
        requires
            0 <= rem < o,
            one == 1_000_000_000_000,
    ;
    assert(n / (o * one * one) == k) by {
        lemma_fundamental_div_mod_converse_div(n, o * one * one, k, rem * one * one + one / 2);
    }
    assert(k >= 0) by (nonlinear_arith)
        requires
            x >= 0,
            o > 0,
            k == x / o,
    ;
    assert(spec_floor(q as nat) == k * one);
    assert(k <= x) by (nonlinear_arith)
        requires
            x >= 0,
            o > 0,
            k == x / o,
    ;
    assert(k * one + one / 2 < u256_bound()) by (nonlinear_arith)
        requires
            0 <= k <= x,
            x * one * one + one / 2 < u256_bound(),
            one == 1_000_000_000_000,
    ;
    assert((k * one + one / 2) / one == k) by {
        lemma_fundamental_div_mod_converse_div(k * one + one / 2, one, k, one / 2);
    }
}

impl NcnRewardRouter {
    /// The operator's fee share of `rewards_to_process`.
    fn calculate_operator_reward(fee_bps: u64, rewards_to_process: u64) -> (r: Result<u64, TipRouterError>)
        ensures
            r == operator_reward(fee_bps, rewards_to_process),
    {
        if fee_bps == 0 || rewards_to_process == 0 {
            return Ok(0);
        }
        proof {
            lemma_operator_reward_steps(fee_bps, rewards_to_process);
        }
        let precise_operator_fee_bps = match precise_new(fee_bps as u128) {
            Some(p) => p,
            None => {
                return Err(TipRouterError::NewPreciseNumberError);
            },
        };
        let precise_max_bps = match precise_new(MAX_BPS as u128) {
            Some(p) => p,
            None => {
                return Err(TipRouterError::NewPreciseNumberError);
            },
        };
        let precise_rewards_to_process = match precise_new(rewards_to_process as u128) {
            Some(p) => p,
            None => {
                return Err(TipRouterError::NewPreciseNumberError);
            },
        };
        let product = match precise_checked_mul(&precise_rewards_to_process, &precise_operator_fee_bps) {
            Some(p) => p,
            None => {
                return Err(TipRouterError::ArithmeticOverflow);
            },
        };
        let precise_operator_rewards = match precise_checked_div(&product, &precise_max_bps) {
            Some(p) => p,
            None => {
                return Err(TipRouterError::ArithmeticOverflow);
            },
        };
        let floored = match precise_floor(&precise_operator_rewards) {
            Some(p) => p,
            None => {
                return Err(TipRouterError::ArithmeticFloorError);
            },
        };
        let operator_rewards_u128 = match precise_to_imprecise(&floored) {
            Some(v) => v,
            None => {
                return Err(TipRouterError::CastToImpreciseNumberError);
            },
        };
        if operator_rewards_u128 > u64::MAX as u128 {
            return Err(TipRouterError::CastToU64Error);
        }
        Ok(operator_rewards_u128 as u64)
    }

    /// The vault's share of `rewards_to_process`, in proportion of its stake
    /// weight to the operator's.
    fn calculate_vault_reward(
        vault_reward_stake_weight: u128,
        operator_reward_stake_weight: u128,
        rewards_to_process: u64,
    ) -> (r: Result<u64, TipRouterError>)
        requires
            vault_reward_fits(vault_reward_stake_weight, operator_reward_stake_weight, rewards_to_process),
        ensures
            r == vault_reward(vault_reward_stake_weight, operator_reward_stake_weight, rewards_to_process),
    {
        if operator_reward_stake_weight == 0 || rewards_to_process == 0 {
            return Ok(0);
        }
        let precise_rewards_to_process = match precise_new(rewards_to_process as u128) {
            Some(p) => p,
            None => {
                return Err(TipRouterError::NewPreciseNumberError);
            },
        };
        let precise_vault_reward_stake_weight = match precise_new(vault_reward_stake_weight) {
            Some(p) => p,
            None => {
                return Err(TipRouterError::NewPreciseNumberError);
            },
        };
        let precise_operator_reward_stake_weight = match precise_new(operator_reward_stake_weight) {
            Some(p) => p,
            None => {
                return Err(TipRouterError::NewPreciseNumberError);
            },
        };
        let product = match precise_checked_mul(&precise_rewards_to_process, &precise_vault_reward_stake_weight) {
            Some(p) => p,
            None => {
                return Err(TipRouterError::ArithmeticOverflow);
            },
        };
        let precise_vault_reward = match precise_checked_div(&product, &precise_operator_reward_stake_weight) {
            Some(p) => p,
            None => {
                return Err(TipRouterError::ArithmeticOverflow);
            },
        };
        let floored = match precise_floor(&precise_vault_reward) {
            Some(p) => p,
            None => {
                return Err(TipRouterError::ArithmeticFloorError);
            },
        };
        let vault_reward_u128 = match precise_to_imprecise(&floored) {
            Some(v) => v,
            None => {
                return Err(TipRouterError::CastToImpreciseNumberError);
            },
        };
        if vault_reward_u128 > u64::MAX as u128 {
            return Err(TipRouterError::CastToU64Error);
        }
        Ok(vault_reward_u128 as u64)
    }
}

/// The rewards a router holds: in its pool, or processed but not paid out.
pub open spec fn in_transit(v: NcnRewardRouterView) -> int {
    v.reward_pool + v.rewards_processed
}

/// The rewards held by the first `n` routes.
pub open spec fn routes_sum(s: Seq<VaultRewardRouteView>, n: int) -> int
    decreases n,
{
    if n <= 0 {
        0
    } else {
        routes_sum(s, n - 1) + s[n - 1].rewards
    }
}

/// Sums of route rewards grow with the number of routes counted.
pub proof fn lemma_routes_sum_monotonic(s: Seq<VaultRewardRouteView>, m: int, n: int)
    requires
        0 <= m <= n,
    ensures
        routes_sum(s, m) <= routes_sum(s, n),
    decreases n - m,
{
    if m < n {
        lemma_routes_sum_monotonic(s, m, n - 1);
    }
}

/// The processed rewards are exactly those owed to the operator and the
/// vaults.
pub open spec fn processed_balanced(v: NcnRewardRouterView) -> bool {
    v.rewards_processed == v.operator_rewards + routes_sum(v.vault_reward_routes, v.vault_reward_routes.len() as int)
}

/// Unused routes hold nothing.
pub open spec fn unused_routes_empty(v: NcnRewardRouterView) -> bool {
    forall|i: int|
        0 <= i < v.vault_reward_routes.len() && (#[trigger] v.vault_reward_routes[i]).vault == default_key()
            ==> v.vault_reward_routes[i].rewards == 0
}

/// Changing one route changes the sum by the change of its rewards.
pub proof fn lemma_routes_sum_update(s: Seq<VaultRewardRouteView>, i: int, route: VaultRewardRouteView, n: int)
    requires
        0 <= i < s.len(),
        0 <= n <= s.len(),
    ensures
        routes_sum(s.update(i, route), n) == routes_sum(s, n) + if i < n {
            route.rewards - s[i].rewards
        } else {
            0
        },
    decreases n,
{
    if n > 0 {
        lemma_routes_sum_update(s, i, route, n - 1);
    }
}

/// Routing one delegation keeps the rewards in transit and the total.
pub proof fn lemma_route_delegation_conserves(
    v: NcnRewardRouterView,
    d: VaultOperatorStakeWeightView,
    operator_weights: StakeWeights,
    rewards_to_process: u64,
)
    requires
        route_delegation(v, d, operator_weights, rewards_to_process).1 is Ok,
    ensures
        in_transit(route_delegation(v, d, operator_weights, rewards_to_process).0) == in_transit(v),
        route_delegation(v, d, operator_weights, rewards_to_process).0.total_rewards == v.total_rewards,
        route_delegation(v, d, operator_weights, rewards_to_process).0.operator_rewards == v.operator_rewards,
{
    reveal(route_delegation);
}

/// Routing delegations keeps the rewards in transit and the total.
pub proof fn lemma_route_delegations_conserve(
    v: NcnRewardRouterView,
    delegations: Seq<VaultOperatorStakeWeightView>,
    operator_weights: StakeWeights,
    rewards_to_process: u64,
    from: int,
    to: int,
)
    requires
        route_delegations(v, delegations, operator_weights, rewards_to_process, from, to).1 is Ok,
    ensures
        in_transit(route_delegations(v, delegations, operator_weights, rewards_to_process, from, to).0)
            == in_transit(v),
        route_delegations(v, delegations, operator_weights, rewards_to_process, from, to).0.total_rewards
            == v.total_rewards,
    decreases to - from,
{
    if to > from {
        let (v1, r1) = route_delegations(v, delegations, operator_weights, rewards_to_process, from, to - 1);
        lemma_route_delegations_conserve(v, delegations, operator_weights, rewards_to_process, from, to - 1);
        lemma_route_delegation_conserves(v1, delegations[to - 1], operator_weights, rewards_to_process);
    }
}

/// Routing the reward pool moves rewards from the pool to the operator and
/// the vaults: what the router holds, and its total, stay the same.
pub proof fn lemma_reward_pool_routing_conserves(v: NcnRewardRouterView, snapshot: OperatorSnapshotView, max_iterations: u16)
    requires
        reward_pool_routing(v, snapshot, max_iterations).1 is Ok,
    ensures
        in_transit(reward_pool_routing(v, snapshot, max_iterations).0) == in_transit(v),
        reward_pool_routing(v, snapshot, max_iterations).0.total_rewards == v.total_rewards,
{
    let (rewards_to_process, start) = routing_start(v);
    let n = routed_per_call(max_iterations);
    let end = if start + n < 64 {
        start + n
    } else {
        64
    };
    lemma_route_delegations_conserve(
        v,
        snapshot.vault_operator_stake_weight,
        snapshot.stake_weights,
        rewards_to_process,
        start,
        end,
    );
}

/// Routing the operator's fee moves it from the pool to the operator: what
/// the router holds, and its total, stay the same.
pub proof fn lemma_operator_fee_routing_conserves(v: NcnRewardRouterView, fee_bps: u16)
    requires
        operator_reward(fee_bps as u64, v.reward_pool) matches Ok(reward) && (pool_out(v, reward) matches Ok(v1)
            && operator_in(v1, reward).1 is Ok),
    ensures
        ({
            let reward = operator_reward(fee_bps as u64, v.reward_pool)->Ok_0;
            let after = operator_in(pool_out(v, reward)->Ok_0, reward).0;
            in_transit(after) == in_transit(v) && after.total_rewards == v.total_rewards
        }),
{
}

/// Giving rewards to a vault other than the unused one keeps the processed
/// rewards equal to what is owed, and unused routes empty.
pub proof fn lemma_vault_in_balanced(v: NcnRewardRouterView, vault: Seq<u8>, rewards: u64)
    requires
        processed_balanced(v),
        unused_routes_empty(v),
        vault != default_key(),
        vault_in(v, vault, rewards).1 is Ok,
    ensures
        processed_balanced(vault_in(v, vault, rewards).0),
        unused_routes_empty(vault_in(v, vault, rewards).0),
{
    if rewards > 0 {
        let v1 = processed_in(v, rewards)->Ok_0;
        let s = v1.vault_reward_routes;
        if has_route(s, vault) {
            let i = first_route_index(s, vault);
            let route = s[i];
            lemma_first_route_exists(s, vault);
            lemma_routes_sum_update(
                s,
                i,
                VaultRewardRouteView { rewards: (route.rewards + rewards) as u64, ..route },
                s.len() as int,
            );
        } else {
            let j = first_route_index(s, default_key());
            lemma_first_route_exists(s, default_key());
            lemma_routes_sum_update(s, j, VaultRewardRouteView { vault, rewards }, s.len() as int);
        }
    }
}

/// Giving rewards to the operator keeps the processed rewards equal to what
/// is owed.
pub proof fn lemma_operator_in_balanced(v: NcnRewardRouterView, rewards: u64)
    requires
        processed_balanced(v),
        operator_in(v, rewards).1 is Ok,
    ensures
        processed_balanced(operator_in(v, rewards).0),
        unused_routes_empty(v) ==> unused_routes_empty(operator_in(v, rewards).0),
{
}

/// A route list with a route for `vault` has a first one.
pub proof fn lemma_first_route_exists(s: Seq<VaultRewardRouteView>, vault: Seq<u8>)
    requires
        has_route(s, vault),
    ensures
        first_route_at(s, vault, first_route_index(s, vault)),
    decreases s.len(),
{
    let k = choose|k: int| 0 <= k < s.len() && s[k].vault == vault;
    if exists|j: int| 0 <= j < k && s[j].vault == vault {
        let t = s.take(k);
        let j = choose|j: int| 0 <= j < k && s[j].vault == vault;
        assert(t[j].vault == vault);
        lemma_first_route_exists(t, vault);
        let f = first_route_index(t, vault);
        assert forall|i: int| 0 <= i < f implies s[i].vault != vault by {
            assert(t[i] == s[i]);
        }
        assert(t[f] == s[f]);
        assert(first_route_at(s, vault, f));
    } else {
        assert(first_route_at(s, vault, k));
    }
}

/// Routing delegations whose shares are all zero changes nothing.
pub proof fn lemma_route_zero_delegations(
    v: NcnRewardRouterView,
    delegations: Seq<VaultOperatorStakeWeightView>,
    operator_weights: StakeWeights,
    rewards_to_process: u64,
    from: int,
    to: int,
)
    requires
        v.ncn_fee_group.group < 8,
        operator_weights.group(v.ncn_fee_group.group as int) == 0 || rewards_to_process == 0,
    ensures
        route_delegations(v, delegations, operator_weights, rewards_to_process, from, to) == (
        v,
        Ok::<(), TipRouterError>(()),
        ),
    decreases to - from,
{
    if to > from {
        lemma_route_zero_delegations(v, delegations, operator_weights, rewards_to_process, from, to - 1);
        reveal(route_delegation);
    }
}

/// A routing call that reaches the last delegation and succeeds leaves the
/// pool empty and routing ended; one that stops earlier saves the place it
/// stopped at and is still routing.
pub proof fn lemma_reward_pool_routing_ends(v: NcnRewardRouterView, snapshot: OperatorSnapshotView, max_iterations: u16)
    requires
        reward_pool_routing(v, snapshot, max_iterations).1 is Ok,
    ensures
        routing_start(v).1 + routed_per_call(max_iterations) >= 64 ==> reward_pool_routing(
            v,
            snapshot,
            max_iterations,
        ).0.reward_pool == 0 && !still_routing(reward_pool_routing(v, snapshot, max_iterations).0),
        routing_start(v).1 + routed_per_call(max_iterations) < 64 ==> still_routing(
            reward_pool_routing(v, snapshot, max_iterations).0,
        ) && reward_pool_routing(v, snapshot, max_iterations).0.last_vault_operator_delegation_index
            == routing_start(v).1 + routed_per_call(max_iterations),
{
}

/// Where no delegation gets a share (the operator has no stake in the
/// router's group, or there is nothing to route), a call that reaches the
/// last delegation succeeds as long as the operator's rewards and the
/// processed rewards can take the pool: all of the pool goes to the operator,
/// and routing ends.
pub proof fn lemma_reward_pool_routing_succeeds(
    v: NcnRewardRouterView,
    snapshot: OperatorSnapshotView,
    max_iterations: u16,
)
    requires
        v.ncn_fee_group.group < 8,
        snapshot.stake_weights.group(v.ncn_fee_group.group as int) == 0 || routing_start(v).0 == 0,
        routing_start(v).1 + routed_per_call(max_iterations) >= 64,
        v.rewards_processed + v.reward_pool <= u64::MAX,
        v.operator_rewards + v.reward_pool <= u64::MAX,
    ensures
        reward_pool_routing(v, snapshot, max_iterations).1 is Ok,
        reward_pool_routing(v, snapshot, max_iterations).0.reward_pool == 0,
        reward_pool_routing(v, snapshot, max_iterations).0.operator_rewards == v.operator_rewards + v.reward_pool,
        !still_routing(reward_pool_routing(v, snapshot, max_iterations).0),
{
    let (rewards_to_process, start) = routing_start(v);
    lemma_route_zero_delegations(
        v,
        snapshot.vault_operator_stake_weight,
        snapshot.stake_weights,
        rewards_to_process,
        start,
        64,
    );
}

/// The sum of the group-`g` stake weights of the first `n` delegations.
pub open spec fn group_weights_sum(ds: Seq<VaultOperatorStakeWeightView>, g: int, n: int) -> int
    decreases n,
{
    if n <= 0 {
        0
    } else {
        group_weights_sum(ds, g, n - 1) + ds[n - 1].stake_weight.group(g)
    }
}

/// The sum of the shares of `rewards` of the first `n` delegations, each
/// `rewards * weight / operator_weight` rounded down.
pub open spec fn shares_sum(
    ds: Seq<VaultOperatorStakeWeightView>,
    g: int,
    operator_weight: int,
    rewards: int,
    n: int,
) -> int
    decreases n,
{
    if n <= 0 {
        0
    } else {
        shares_sum(ds, g, operator_weight, rewards, n - 1) + (rewards * ds[n - 1].stake_weight.group(g))
            / operator_weight
    }
}

/// Whether a route is unused, as a predicate.
pub open spec fn is_free_route() -> spec_fn(VaultRewardRouteView) -> bool {
    |x: VaultRewardRouteView| x.vault == default_key()
}

/// Whether a delegation has stake in group `g` and its vault has no route
/// yet, as a predicate.
pub open spec fn needs_route(routes: Seq<VaultRewardRouteView>, g: int) -> spec_fn(
    VaultOperatorStakeWeightView,
) -> bool {
    |d: VaultOperatorStakeWeightView| d.stake_weight.group(g) > 0 && !has_route(routes, d.vault)
}

/// The conditions under which routing the whole pool in one call cannot
/// fail: a new routing (not a resumed one) of a valid group; delegations
/// whose group weights sum to at most the operator's, each with a vault
/// key where it has stake; unused routes that hold nothing; a pool small
/// enough for spl-math's exact path;
/// room in the processed rewards, the operator's rewards and each route for
/// the whole pool; and an unused route for every vault that needs one.
pub open spec fn routing_can_complete(v: NcnRewardRouterView, snapshot: OperatorSnapshotView) -> bool {
    let ds = snapshot.vault_operator_stake_weight;
    let g = v.ncn_fee_group.group as int;
    let o = snapshot.stake_weights.group(g);
    let p = v.reward_pool;
    &&& !still_routing(v)
    &&& v.ncn_fee_group.group < 8
    &&& ds.len() == 64
    &&& v.vault_reward_routes.len() == 64
    &&& group_weights_sum(ds, g, 64) <= o
    &&& p * o * precise_one() * precise_one() + precise_one() / 2 < u256_bound()
    &&& v.rewards_processed + p <= u64::MAX
    &&& v.operator_rewards + p <= u64::MAX
    &&& forall|k: int| 0 <= k < 64 ==> #[trigger] v.vault_reward_routes[k].rewards + p <= u64::MAX
    &&& forall|k: int|
        0 <= k < 64 && (#[trigger] v.vault_reward_routes[k]).vault == default_key() ==> v.vault_reward_routes[k].rewards
            == 0
    &&& forall|i: int|
        0 <= i < 64 && (#[trigger] ds[i]).stake_weight.group(g) > 0 ==> ds[i].vault != default_key()
    &&& count_where(ds, needs_route(v.vault_reward_routes, g)) <= count_where(
        v.vault_reward_routes,
        is_free_route(),
    )
}

/// Group weight sums grow with the number of delegations counted.
pub proof fn lemma_weights_sum_mono(ds: Seq<VaultOperatorStakeWeightView>, g: int, m: int, n: int)
    requires
        0 <= m <= n,
    ensures
        group_weights_sum(ds, g, m) <= group_weights_sum(ds, g, n),
    decreases n - m,
{
    if m < n {
        lemma_weights_sum_mono(ds, g, m, n - 1);
    }
}

/// What routing the first `to` delegations of a new routing does when
/// `routing_can_complete` holds: it succeeds, takes the shares out of the
/// pool into the processed rewards and the routes, and keeps an unused
/// route for each vault still to come that needs one.
proof fn lemma_routing_prefix(v: NcnRewardRouterView, snapshot: OperatorSnapshotView, to: int)
    requires
        routing_can_complete(v, snapshot),
        snapshot.stake_weights.group(v.ncn_fee_group.group as int) > 0,
        v.reward_pool > 0,
        0 <= to <= 64,
    ensures
        ({
            let ds = snapshot.vault_operator_stake_weight;
            let g = v.ncn_fee_group.group as int;
            let o = snapshot.stake_weights.group(g) as int;
            let p = v.reward_pool as int;
            let (vt, rt) = route_delegations(v, ds, snapshot.stake_weights, v.reward_pool, 0, to);
            let sum = shares_sum(ds, g, o, p, to);
            &&& rt is Ok
            &&& 0 <= sum <= p
            &&& sum * o <= p * group_weights_sum(ds, g, to)
            &&& vt.reward_pool == p - sum
            &&& vt.rewards_processed == v.rewards_processed + sum
            &&& vt.operator_rewards == v.operator_rewards
            &&& vt.total_rewards == v.total_rewards
            &&& vt.ncn_fee_group == v.ncn_fee_group
            &&& vt.last_rewards_to_process == v.last_rewards_to_process
            &&& vt.last_vault_operator_delegation_index == v.last_vault_operator_delegation_index
            &&& vt.vault_reward_routes.len() == 64
            &&& forall|k: int| 0 <= k < 64 ==> #[trigger] vt.vault_reward_routes[k].rewards + (p - sum) <= u64::MAX
            &&& routes_sum(vt.vault_reward_routes, 64) == routes_sum(v.vault_reward_routes, 64) + sum
            &&& forall|k: int|
                0 <= k < 64 && (#[trigger] vt.vault_reward_routes[k]).vault == default_key()
                    ==> vt.vault_reward_routes[k].rewards == 0
            &&& forall|x: Seq<u8>|
                x != default_key() && #[trigger] has_route(v.vault_reward_routes, x) ==> has_route(
                    vt.vault_reward_routes,
                    x,
                )
            &&& count_where(ds.subrange(to, 64), needs_route(vt.vault_reward_routes, g)) <= count_where(
                vt.vault_reward_routes,
                is_free_route(),
            )
        }),
    decreases to,
{
    let ds = snapshot.vault_operator_stake_weight;
    let g = v.ncn_fee_group.group as int;
    let ow = snapshot.stake_weights;
    let o = ow.group(g) as int;
    let p = v.reward_pool as int;
    if to == 0 {
        assert(ds.subrange(0, 64) =~= ds);
        return;
    }
    let j = to - 1;
    lemma_routing_prefix(v, snapshot, j);
    let (vj, rj) = route_delegations(v, ds, ow, v.reward_pool, 0, j);
    let sj = shares_sum(ds, g, o, p, j);
    let d = ds[j];
    let w = d.stake_weight.group(g) as int;
    let share = (p * w) / o;
    // The share of delegation `j`, in closed form.
    lemma_weights_sum_mono(ds, g, to, 64);
    lemma_weights_sum_mono(ds, g, 0, j);
    assert(group_weights_sum(ds, g, to) == group_weights_sum(ds, g, j) + w);
    assert(w <= o);
    assert(p * w * precise_one() * precise_one() + precise_one() / 2 < u256_bound()) by (nonlinear_arith)
        requires
            0 <= w <= o,
            p >= 0,
            p * o * precise_one() * precise_one() + precise_one() / 2 < u256_bound(),
            precise_one() > 0,
    ;
    assert(0 <= share <= p) by (nonlinear_arith)
        requires
            0 <= w <= o,
            o > 0,
            p >= 0,
            share == (p * w) / o,
    ;
    lemma_vault_reward_closed_form(d.stake_weight.group(g), ow.group(g), v.reward_pool);
    assert(vault_reward(d.stake_weight.group(g), ow.group(g), v.reward_pool) == Ok::<u64, TipRouterError>(
        share as u64,
    ));
    // The shares so far stay within the pool.
    assert(share * o <= p * w) by (nonlinear_arith)
        requires
            o > 0,
            p >= 0,
            w >= 0,
            share == (p * w) / o,
    ;
    let s2 = sj + share;
    assert(shares_sum(ds, g, o, p, to) == s2);
    assert(group_weights_sum(ds, g, to) == group_weights_sum(ds, g, j) + w);
    let wt = group_weights_sum(ds, g, to);
    assert(s2 * o <= p * wt) by (nonlinear_arith)
        requires
            sj * o <= p * group_weights_sum(ds, g, j),
            share * o <= p * w,
            wt == group_weights_sum(ds, g, j) + w,
            s2 == sj + share,
    ;
    assert(s2 <= p) by (nonlinear_arith)
        requires
            s2 * o <= p * wt,
            wt <= o,
            o > 0,
            p >= 0,
    ;
    assert(share > 0 ==> w > 0) by (nonlinear_arith)
        requires
            share == (p * w) / o,
            o > 0,
            w >= 0,
    ;
    // The unused routes still cover the vaults to come.
    let r0 = vj.vault_reward_routes;
    let rest = ds.subrange(j, 64);
    lemma_count_first(rest, needs_route(r0, g));
    assert(rest.subrange(1, rest.len() as int) =~= ds.subrange(to, 64));
    assert(rest[0] == d);
    reveal(route_delegation);
    let v1 = NcnRewardRouterView { reward_pool: (vj.reward_pool - share) as u64, ..vj };
    assert(pool_out(vj, share as u64) == Ok::<NcnRewardRouterView, TipRouterError>(v1));
    let (vn, rn) = route_delegations(v, ds, ow, v.reward_pool, 0, to);
    assert((vn, rn) == vault_in(v1, d.vault, share as u64));
    if share == 0 {
        assert(vn == v1);
        lemma_count_mono(ds.subrange(to, 64), needs_route(vn.vault_reward_routes, g), needs_route(r0, g));
    } else {
        let v2 = NcnRewardRouterView {
            rewards_processed: (v1.rewards_processed + share) as u64,
            ..v1
        };
        assert(processed_in(v1, share as u64) == Ok::<NcnRewardRouterView, TipRouterError>(v2));
        assert(d.vault != default_key());
        if has_route(r0, d.vault) {
            lemma_first_route_exists(r0, d.vault);
            let i = first_route_index(r0, d.vault);
            let route = r0[i];
            assert(route.rewards + share <= u64::MAX);
            let nr = VaultRewardRouteView { rewards: (route.rewards + share) as u64, ..route };
            assert(vn.vault_reward_routes == r0.update(i, nr));
            lemma_count_update(r0, is_free_route(), i, nr);
            lemma_routes_sum_update(r0, i, nr, 64);
            assert forall|x: Seq<u8>| x != default_key() && #[trigger] has_route(r0, x) implies has_route(
                vn.vault_reward_routes,
                x,
            ) by {
                let k = choose|k: int| 0 <= k < r0.len() && r0[k].vault == x;
                assert(vn.vault_reward_routes[k].vault == x);
            }
            assert forall|k: int|
                0 <= k < ds.subrange(to, 64).len() && #[trigger] needs_route(vn.vault_reward_routes, g)(
                    ds.subrange(to, 64)[k],
                ) implies needs_route(r0, g)(ds.subrange(to, 64)[k]) by {
                let e = ds.subrange(to, 64)[k];
                assert(e == ds[to + k]);
                if has_route(r0, e.vault) {
                    assert(e.vault != default_key());
                }
            }
            lemma_count_mono(ds.subrange(to, 64), needs_route(vn.vault_reward_routes, g), needs_route(r0, g));
        } else {
            assert(needs_route(r0, g)(d));
            lemma_count_zero(r0, is_free_route());
            let k0 = choose|k: int| 0 <= k < r0.len() && is_free_route()(r0[k]);
            assert(r0[k0].vault == default_key());
            assert(has_route(r0, default_key()));
            lemma_first_route_exists(r0, default_key());
            let jj = first_route_index(r0, default_key());
            let nr = VaultRewardRouteView { vault: d.vault, rewards: share as u64 };
            assert(vn.vault_reward_routes == r0.update(jj, nr));
            lemma_count_update(r0, is_free_route(), jj, nr);
            lemma_routes_sum_update(r0, jj, nr, 64);
            assert(r0[jj].rewards + (p - sj) <= u64::MAX);
            assert forall|x: Seq<u8>| x != default_key() && #[trigger] has_route(r0, x) implies has_route(
                vn.vault_reward_routes,
                x,
            ) by {
                let k = choose|k: int| 0 <= k < r0.len() && r0[k].vault == x;
                assert(k != jj);
                assert(vn.vault_reward_routes[k].vault == x);
            }
            assert forall|k: int|
                0 <= k < ds.subrange(to, 64).len() && #[trigger] needs_route(vn.vault_reward_routes, g)(
                    ds.subrange(to, 64)[k],
                ) implies needs_route(r0, g)(ds.subrange(to, 64)[k]) by {
                let e = ds.subrange(to, 64)[k];
                assert(e == ds[to + k]);
                if has_route(r0, e.vault) {
                    assert(e.vault != default_key());
                }
            }
            lemma_count_mono(ds.subrange(to, 64), needs_route(vn.vault_reward_routes, g), needs_route(r0, g));
        }
    }
    assert forall|x: Seq<u8>| x != default_key() && #[trigger] has_route(v.vault_reward_routes, x) implies has_route(
        vn.vault_reward_routes,
        x,
    ) by {
        assert(has_route(r0, x));
    }
}

/// Under `routing_can_complete`, routing the reward pool with more than 64
/// iterations succeeds in one call: the pool is emptied into the vault
/// routes and the operator's rewards, the rewards in transit and the total
/// stay the same, and routing ends.
pub proof fn lemma_reward_pool_routing_completes(
    v: NcnRewardRouterView,
    snapshot: OperatorSnapshotView,
    max_iterations: u16,
)
    requires
        routing_can_complete(v, snapshot),
        max_iterations > 64,
    ensures
        routing_fits(v, snapshot, max_iterations),
        reward_pool_routing(v, snapshot, max_iterations).1 is Ok,
        reward_pool_routing(v, snapshot, max_iterations).0.reward_pool == 0,
        !still_routing(reward_pool_routing(v, snapshot, max_iterations).0),
        in_transit(reward_pool_routing(v, snapshot, max_iterations).0) == in_transit(v),
        reward_pool_routing(v, snapshot, max_iterations).0.total_rewards == v.total_rewards,
        reward_pool_routing(v, snapshot, max_iterations).0.operator_rewards + routes_sum(
            reward_pool_routing(v, snapshot, max_iterations).0.vault_reward_routes,
            64,
        ) == v.operator_rewards + routes_sum(v.vault_reward_routes, 64) + v.reward_pool,
{
    let ds = snapshot.vault_operator_stake_weight;
    let g = v.ncn_fee_group.group as int;
    let ow = snapshot.stake_weights;
    assert(routing_start(v) == (v.reward_pool, 0int));
    reveal(routing_fits);
    if ow.group(g) == 0 || v.reward_pool == 0 {
        lemma_reward_pool_routing_succeeds(v, snapshot, max_iterations);
        lemma_route_zero_delegations(v, ds, ow, v.reward_pool, 0, 64);
    } else {
        lemma_routing_prefix(v, snapshot, 64);
        assert forall|i: int| 0 <= i < 64 implies vault_reward_fits(
            (#[trigger] ds[i]).stake_weight.group(g),
            ow.group(g),
            v.reward_pool,
        ) by {
            let w = ds[i].stake_weight.group(g) as int;
            let o = ow.group(g) as int;
            let p = v.reward_pool as int;
            lemma_weights_sum_mono(ds, g, i + 1, 64);
            lemma_weights_sum_mono(ds, g, 0, i);
            assert(group_weights_sum(ds, g, i + 1) == group_weights_sum(ds, g, i) + w);
            assert(w <= o);
            assert(p * w * precise_one() * precise_one() + precise_one() / 2 < u256_bound()) by (nonlinear_arith)
                requires
                    0 <= w <= o,
                    p >= 0,
                    p * o * precise_one() * precise_one() + precise_one() / 2 < u256_bound(),
                    precise_one() > 0,
            ;
            assert((p * w) / o <= u128::MAX) by (nonlinear_arith)
                requires
                    0 <= w <= o,
                    o > 0,
                    0 <= p <= u64::MAX,
            ;
            lemma_vault_reward_closed_form(ds[i].stake_weight.group(g), ow.group(g), v.reward_pool);
        }
    }
    lemma_reward_pool_routing_conserves(v, snapshot, max_iterations);
}

} // verus!
