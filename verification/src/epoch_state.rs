use vstd::prelude::*;

use vstd::string::StringSliceAdditionalSpecFns;

use crate::{
    error::TipRouterError,
    le_bytes::{le_bytes, u64_to_le_bytes},
    discriminators::{Discriminators, discriminator_value},
    loaders::{AccountView, ProgramError, check_load_at, load_at},
    pda::{address_with_seeds, find_address, seed_list, tag_bytes},
    ncn_fee_group::NcnFeeGroup,
    pubkey::Pubkey,
    counting::count_where,
};

verus! {

/// Whether an epoch account does not exist yet, exists, or was closed.
#[derive(Debug, Clone, Copy, PartialEq, Eq, Structural)]
pub enum AccountStatus {
    DNE,
    Created,
    Closed,
}

/// The byte that stands for a status.
pub open spec fn account_status_code(s: AccountStatus) -> u8 {
    match s {
        AccountStatus::DNE => 0,
        AccountStatus::Created => 1,
        AccountStatus::Closed => 2,
    }
}

/// The status a stored byte stands for.
pub open spec fn account_status_of(u: u8) -> Result<AccountStatus, TipRouterError> {
    if u == 0 {
        Ok(AccountStatus::DNE)
    } else if u == 1 {
        Ok(AccountStatus::Created)
    } else if u == 2 {
        Ok(AccountStatus::Closed)
    } else {
        Err(TipRouterError::InvalidAccountStatus)
    }
}

impl AccountStatus {
    /// The byte that stands for this status.
    pub fn code(&self) -> (u: u8)
        ensures
            u == account_status_code(*self),
    {
        match self {
            AccountStatus::DNE => 0,
            AccountStatus::Created => 1,
            AccountStatus::Closed => 2,
        }
    }
}

/// Reading back the byte of a status gives the status.
pub proof fn lemma_account_status_round_trip(s: AccountStatus)
    ensures
        account_status_of(account_status_code(s)) == Ok::<AccountStatus, TipRouterError>(s),
{
}

/// Where the status of the NCN reward router of an operator and group is
/// kept: `operator_index * 8 + group`, or an overflow error.
pub open spec fn ncn_reward_router_index(operator_index: usize, group: NcnFeeGroup) -> Result<
    usize,
    TipRouterError,
> {
    if operator_index * 8 > usize::MAX {
        Err(TipRouterError::ArithmeticOverflow)
    } else if operator_index * 8 + group.group > usize::MAX {
        Err(TipRouterError::ArithmeticOverflow)
    } else {
        Ok((operator_index * 8 + group.group) as usize)
    }
}

/// Whether an index computation either fails or lands inside a table of
/// `len` entries.
pub open spec fn index_fits(r: Result<usize, TipRouterError>, len: int) -> bool {
    r matches Ok(i) ==> i < len
}

/// The model of the statuses of the accounts of an epoch, one byte each.
pub struct EpochAccountStatusView {
    pub epoch_state: u8,
    pub weight_table: u8,
    pub epoch_snapshot: u8,
    pub operator_snapshot: Seq<u8>,
    pub ballot_box: u8,
    pub base_reward_router: u8,
    pub ncn_reward_router: Seq<u8>,
}

/// How many accounts of a kind do not exist, are open, or were closed.
#[derive(Debug, Clone, Copy, PartialEq, Eq, Structural)]
pub struct AccountStatusCounts {
    pub dne: u64,
    pub open: u64,
    pub closed: u64,
}

/// Whether a status byte is `c`, as a predicate.
pub open spec fn code_is(c: u8) -> spec_fn(u8) -> bool {
    |u: u8| u == c
}

/// Whether some status byte of `s` stands for no status.
pub open spec fn has_invalid_status(s: Seq<u8>) -> bool {
    exists|i: int| 0 <= i < s.len() && s[i] > 2
}

/// The counts of the statuses in `s`, or the error an invalid byte gives.
pub open spec fn status_counts(s: Seq<u8>) -> Result<AccountStatusCounts, TipRouterError> {
    if has_invalid_status(s) {
        Err(TipRouterError::InvalidAccountStatus)
    } else {
        Ok(
            AccountStatusCounts {
                dne: count_where(s, code_is(0)) as u64,
                open: count_where(s, code_is(1)) as u64,
                closed: count_where(s, code_is(2)) as u64,
            },
        )
    }
}

/// Counts the statuses in `codes`: the accounts that do not exist, that are
/// open, and that were closed.
fn count_statuses(codes: &[u8]) -> (r: Result<AccountStatusCounts, TipRouterError>)
    requires
        codes@.len() <= 4096,
    ensures
        r == status_counts(codes@),
{
    let mut dne: u64 = 0;
    let mut open: u64 = 0;
    let mut closed: u64 = 0;
    let mut i: usize = 0;
    while i < codes.len()
        invariant
            i <= codes@.len(),
            codes@.len() <= 4096,
            !has_invalid_status(codes@.take(i as int)),
            dne == count_where(codes@.take(i as int), code_is(0)),
            open == count_where(codes@.take(i as int), code_is(1)),
            closed == count_where(codes@.take(i as int), code_is(2)),
            dne + open + closed == i,
        decreases codes@.len() - i,
    {
        let c = codes[i];
        if c > 2 {
            assert(codes@[i as int] > 2);
            return Err(TipRouterError::InvalidAccountStatus);
        }
        proof {
            let next = codes@.take(i as int + 1);
            assert(next.drop_last() =~= codes@.take(i as int));
            assert(next.last() == c);
            assert forall|k: int| 0 <= k < next.len() implies !(next[k] > 2) by {
                if k < i {
                    assert(next[k] == codes@.take(i as int)[k]);
                }
            }
        }
        if c == 0 {
            dne = dne + 1;
        } else if c == 1 {
            open = open + 1;
        } else {
            closed = closed + 1;
        }
        i = i + 1;
    }
    assert(codes@.take(codes@.len() as int) =~= codes@);
    Ok(AccountStatusCounts { dne, open, closed })
}

/// The statuses of the accounts of an epoch.
#[derive(Debug, Clone, Copy)]
pub struct EpochAccountStatus {
    epoch_state: u8,
    weight_table: u8,
    epoch_snapshot: u8,
    operator_snapshot: [u8; 256],
    ballot_box: u8,
    base_reward_router: u8,
    ncn_reward_router: [u8; 2048],
}

impl View for EpochAccountStatus {
    type V = EpochAccountStatusView;

    closed spec fn view(&self) -> EpochAccountStatusView {
        EpochAccountStatusView {
            epoch_state: self.epoch_state,
            weight_table: self.weight_table,
            epoch_snapshot: self.epoch_snapshot,
            operator_snapshot: self.operator_snapshot@,
            ballot_box: self.ballot_box,
            base_reward_router: self.base_reward_router,
            ncn_reward_router: self.ncn_reward_router@,
        }
    }
}

impl Default for EpochAccountStatus {
    fn default() -> (s: Self)
        ensures
            s@ == (EpochAccountStatusView {
                epoch_state: 0,
                weight_table: 0,
                epoch_snapshot: 0,
                operator_snapshot: Seq::new(256, |i: int| 0u8),
                ballot_box: 0,
                base_reward_router: 0,
                ncn_reward_router: Seq::new(2048, |i: int| 0u8),
            }),
    {
        let s = EpochAccountStatus {
            epoch_state: 0,
            weight_table: 0,
            epoch_snapshot: 0,
            operator_snapshot: [0u8; 256],
            ballot_box: 0,
            base_reward_router: 0,
            ncn_reward_router: [0u8; 2048],
        };
        assert(s@.operator_snapshot =~= Seq::new(256, |i: int| 0u8));
        assert(s@.ncn_reward_router =~= Seq::new(2048, |i: int| 0u8));
        s
    }
}

impl EpochAccountStatus {
    /// The counts of the operator snapshots by status.
    pub fn operator_snapshot_counts(&self) -> (r: Result<AccountStatusCounts, TipRouterError>)
        ensures
            r == status_counts(self@.operator_snapshot),
    {
        count_statuses(vstd::array::array_as_slice(&self.operator_snapshot))
    }

    /// The counts of the NCN reward routers, of every operator and group, by status.
    pub fn ncn_reward_router_counts(&self) -> (r: Result<AccountStatusCounts, TipRouterError>)
        ensures
            r == status_counts(self@.ncn_reward_router),
    {
        count_statuses(vstd::array::array_as_slice(&self.ncn_reward_router))
    }

    pub proof fn lemma_lengths(&self)
        ensures
            self@.operator_snapshot.len() == 256,
            self@.ncn_reward_router.len() == 2048,
    {
    }

    pub fn get_account_status(u: u8) -> (r: Result<AccountStatus, TipRouterError>)
        ensures
            r == account_status_of(u),
    {
        match u {
            0 => Ok(AccountStatus::DNE),
            1 => Ok(AccountStatus::Created),
            2 => Ok(AccountStatus::Closed),
            _ => Err(TipRouterError::InvalidAccountStatus),
        }
    }

    pub fn epoch_state(&self) -> (r: Result<AccountStatus, TipRouterError>)
        ensures
            r == account_status_of(self@.epoch_state),
    {
        Self::get_account_status(self.epoch_state)
    }

    pub fn weight_table(&self) -> (r: Result<AccountStatus, TipRouterError>)
        ensures
            r == account_status_of(self@.weight_table),
    {
        Self::get_account_status(self.weight_table)
    }

    pub fn epoch_snapshot(&self) -> (r: Result<AccountStatus, TipRouterError>)
        ensures
            r == account_status_of(self@.epoch_snapshot),
    {
        Self::get_account_status(self.epoch_snapshot)
    }

    pub fn operator_snapshot(&self, index: usize) -> (r: Result<AccountStatus, TipRouterError>)
        requires
            index < 256,
        ensures
            r == account_status_of(self@.operator_snapshot[index as int]),
    {
        Self::get_account_status(self.operator_snapshot[index])
    }

    pub fn ballot_box(&self) -> (r: Result<AccountStatus, TipRouterError>)
        ensures
            r == account_status_of(self@.ballot_box),
    {
        Self::get_account_status(self.ballot_box)
    }

    pub fn base_reward_router(&self) -> (r: Result<AccountStatus, TipRouterError>)
        ensures
            r == account_status_of(self@.base_reward_router),
    {
        Self::get_account_status(self.base_reward_router)
    }

    pub fn ncn_reward_router(&self, index: usize, group: NcnFeeGroup) -> (r: Result<
        AccountStatus,
        TipRouterError,
    >)
        requires
            index_fits(ncn_reward_router_index(index, group), 2048),
        ensures
            r == match ncn_reward_router_index(index, group) {
                Ok(i) => account_status_of(self@.ncn_reward_router[i as int]),
                Err(e) => Err(e),
            },
    {
        let i = EpochState::get_ncn_reward_router_index(index, group)?;
        Self::get_account_status(self.ncn_reward_router[i])
    }

    pub fn set_epoch_state(&mut self, status: AccountStatus)
        ensures
            final(self)@ == (EpochAccountStatusView {
                epoch_state: account_status_code(status),
                ..old(self)@
            }),
    {
        self.epoch_state = status.code();
    }

    pub fn set_weight_table(&mut self, status: AccountStatus)
        ensures
            final(self)@ == (EpochAccountStatusView {
                weight_table: account_status_code(status),
                ..old(self)@
            }),
    {
        self.weight_table = status.code();
    }

    pub fn set_epoch_snapshot(&mut self, status: AccountStatus)
        ensures
            final(self)@ == (EpochAccountStatusView {
                epoch_snapshot: account_status_code(status),
                ..old(self)@
            }),
    {
        self.epoch_snapshot = status.code();
    }

    pub fn set_operator_snapshot(&mut self, index: usize, status: AccountStatus)
        requires
            index < 256,
        ensures
            final(self)@ == (EpochAccountStatusView {
                operator_snapshot: old(self)@.operator_snapshot.update(
                    index as int,
                    account_status_code(status),
                ),
                ..old(self)@
            }),
    {
        self.operator_snapshot[index] = status.code();
        assert(self@.operator_snapshot =~= old(self)@.operator_snapshot.update(
            index as int,
            account_status_code(status),
        ));
    }

    pub fn set_ballot_box(&mut self, status: AccountStatus)
        ensures
            final(self)@ == (EpochAccountStatusView {
                ballot_box: account_status_code(status),
                ..old(self)@
            }),
    {
        self.ballot_box = status.code();
    }

    pub fn set_base_reward_router(&mut self, status: AccountStatus)
        ensures
            final(self)@ == (EpochAccountStatusView {
                base_reward_router: account_status_code(status),
                ..old(self)@
            }),
    {
        self.base_reward_router = status.code();
    }

    pub fn set_ncn_reward_router(&mut self, index: usize, group: NcnFeeGroup, status: AccountStatus) -> (r:
        Result<(), TipRouterError>)
        requires
            index_fits(ncn_reward_router_index(index, group), 2048),
        ensures
            match ncn_reward_router_index(index, group) {
                Ok(i) => r == Ok::<(), TipRouterError>(()) && final(self)@ == (EpochAccountStatusView {
                    ncn_reward_router: old(self)@.ncn_reward_router.update(
                        i as int,
                        account_status_code(status),
                    ),
                    ..old(self)@
                }),
                Err(e) => r == Err::<(), TipRouterError>(e) && final(self)@ == old(self)@,
            },
    {
        let i = EpochState::get_ncn_reward_router_index(index, group)?;
        self.ncn_reward_router[i] = status.code();
        assert(self@.ncn_reward_router =~= old(self)@.ncn_reward_router.update(
            i as int,
            account_status_code(status),
        ));
        Ok(())
    }
}

/// The model of a progress counter: how much is done and how much there is.
pub struct ProgressView {
    pub tally: u64,
    pub total: u64,
}

/// The marker of a counter not yet set up.
pub const PROGRESS_INVALID: u64 = 0xffff_ffff_ffff_ffff;

/// Whether a counter is not set up: either value is the marker.
pub open spec fn progress_invalid(p: ProgressView) -> bool {
    p.tally == PROGRESS_INVALID || p.total == PROGRESS_INVALID
}

/// Whether a counter is set up and has reached its total.
pub open spec fn progress_complete(p: ProgressView) -> bool {
    !progress_invalid(p) && p.tally == p.total
}

/// Adding `amount` to the tally of a counter, or `None` on overflow.
pub open spec fn progress_added(p: ProgressView, amount: u64) -> Option<ProgressView> {
    if p.tally + amount > u64::MAX {
        None
    } else {
        Some(ProgressView { tally: (p.tally + amount) as u64, ..p })
    }
}

/// A counter of work done towards a total.
#[derive(Debug, Clone, Copy)]
pub struct Progress {
    tally: u64,
    total: u64,
}

impl View for Progress {
    type V = ProgressView;

    closed spec fn view(&self) -> ProgressView {
        ProgressView { tally: self.tally, total: self.total }
    }
}

impl Default for Progress {
    /// A counter not yet set up.
    fn default() -> (p: Self)
        ensures
            p@ == (ProgressView { tally: PROGRESS_INVALID, total: PROGRESS_INVALID }),
    {
        Progress { tally: PROGRESS_INVALID, total: PROGRESS_INVALID }
    }
}

impl Progress {
    /// A counter at zero of `total`.
    pub fn new(total: u64) -> (p: Self)
        ensures
            p@ == (ProgressView { tally: 0, total }),
    {
        Progress { tally: 0, total }
    }

    pub fn tally(&self) -> (t: u64)
        ensures
            t == self@.tally,
    {
        self.tally
    }

    pub fn total(&self) -> (t: u64)
        ensures
            t == self@.total,
    {
        self.total
    }

    pub fn increment_one(&mut self) -> (r: Result<(), TipRouterError>)
        ensures
            match progress_added(old(self)@, 1) {
                Some(p) => r == Ok::<(), TipRouterError>(()) && final(self)@ == p,
                None => r == Err::<(), TipRouterError>(TipRouterError::ArithmeticOverflow) && final(self)@
                    == old(self)@,
            },
    {
        self.increment(1)
    }

    pub fn increment(&mut self, amount: u64) -> (r: Result<(), TipRouterError>)
        ensures
            match progress_added(old(self)@, amount) {
                Some(p) => r == Ok::<(), TipRouterError>(()) && final(self)@ == p,
                None => r == Err::<(), TipRouterError>(TipRouterError::ArithmeticOverflow) && final(self)@
                    == old(self)@,
            },
    {
        match self.tally.checked_add(amount) {
            Some(t) => {
                self.tally = t;
                Ok(())
            },
            None => Err(TipRouterError::ArithmeticOverflow),
        }
    }

    pub fn set_tally(&mut self, tally: u64)
        ensures
            final(self)@ == (ProgressView { tally, ..old(self)@ }),
    {
        self.tally = tally;
    }

    pub fn set_total(&mut self, total: u64)
        ensures
            final(self)@ == (ProgressView { total, ..old(self)@ }),
    {
        self.total = total;
    }

    pub fn is_invalid(&self) -> (b: bool)
        ensures
            b == progress_invalid(self@),
    {
        self.tally == PROGRESS_INVALID || self.total == PROGRESS_INVALID
    }

    pub fn is_complete(&self) -> (b: bool)
        ensures
            b == progress_complete(self@),
    {
        if self.is_invalid() {
            false
        } else {
            self.tally == self.total
        }
    }
}

/// The stage an epoch is in.
#[derive(Debug, Clone, Copy, PartialEq, Eq, Structural)]
pub enum State {
    SetWeight,
    Snapshot,
    Vote,
    SetupRouter,
    Upload,
    Distribute,
    Done,
}

/// The model of the progress record of an epoch.
pub struct EpochStateView {
    pub ncn: Seq<u8>,
    pub epoch: u64,
    pub bump: u8,
    pub slot_created: u64,
    pub operator_count: u64,
    pub vault_count: u64,
    pub account_status: EpochAccountStatusView,
    pub set_weight_progress: ProgressView,
    pub epoch_snapshot_progress: ProgressView,
    pub operator_snapshot_progress: Seq<ProgressView>,
    pub voting_progress: ProgressView,
    pub validation_progress: ProgressView,
    pub upload_progress: ProgressView,
    pub total_distribution_progress: ProgressView,
    pub base_distribution_progress: ProgressView,
    pub ncn_distribution_progress: Seq<ProgressView>,
}

/// A status byte read as a status, or the error for a bad byte; `DNE`
/// compared with the status, the error passed on.
pub open spec fn status_is_dne(u: u8) -> Result<bool, TipRouterError> {
    match account_status_of(u) {
        Ok(s) => Ok(s == AccountStatus::DNE),
        Err(e) => Err(e),
    }
}

/// The stage an epoch is in: the first stage whose account does not exist
/// or whose work is not complete. Distribution is done only once a total
/// was set and reached.
pub open spec fn epoch_stage(v: EpochStateView) -> Result<State, TipRouterError> {
    match status_is_dne(v.account_status.weight_table) {
        Err(e) => Err(e),
        Ok(wt_dne) => if wt_dne || !progress_complete(v.set_weight_progress) {
            Ok(State::SetWeight)
        } else {
            match status_is_dne(v.account_status.epoch_snapshot) {
                Err(e) => Err(e),
                Ok(es_dne) => if es_dne || !progress_complete(v.epoch_snapshot_progress) {
                    Ok(State::Snapshot)
                } else {
                    match status_is_dne(v.account_status.ballot_box) {
                        Err(e) => Err(e),
                        Ok(bb_dne) => if bb_dne || !progress_complete(v.voting_progress) {
                            Ok(State::Vote)
                        } else {
                            match status_is_dne(v.account_status.base_reward_router) {
                                Err(e) => Err(e),
                                Ok(rr_dne) => if rr_dne {
                                    Ok(State::SetupRouter)
                                } else if !progress_complete(v.total_distribution_progress)
                                    || v.total_distribution_progress.total == 0 {
                                    Ok(State::Distribute)
                                } else {
                                    Ok(State::Done)
                                },
                            }
                        },
                    }
                },
            }
        },
    }
}

/// Whether a stage is complete: its account exists (created, or closed
/// since) and its counter is set up and has reached its total.
pub open spec fn stage_complete(status: u8, p: ProgressView) -> bool {
    &&& status == 1 || status == 2
    &&& p.tally != PROGRESS_INVALID
    &&& p.total != PROGRESS_INVALID
    &&& p.tally == p.total
}

/// The stages come in order: an epoch is at the first stage that is not
/// complete. It sets weights until the weight table exists and every weight
/// is set, snapshots until the snapshot is complete, votes until the ballot
/// box exists and voting is complete, sets up the router until it exists,
/// distributes until a non-zero total is fully distributed, and is then done.
/// A status byte that stands for no status is an error.
pub proof fn lemma_epoch_stage_order(v: EpochStateView)
    ensures
        v.account_status.weight_table > 2 ==> epoch_stage(v) == Err::<State, TipRouterError>(
            TipRouterError::InvalidAccountStatus,
        ),
        v.account_status.weight_table <= 2 && !stage_complete(v.account_status.weight_table, v.set_weight_progress)
            ==> epoch_stage(v) == Ok::<State, TipRouterError>(State::SetWeight),
        stage_complete(v.account_status.weight_table, v.set_weight_progress) && v.account_status.epoch_snapshot <= 2
            && !stage_complete(v.account_status.epoch_snapshot, v.epoch_snapshot_progress) ==> epoch_stage(v)
            == Ok::<State, TipRouterError>(State::Snapshot),
        stage_complete(v.account_status.weight_table, v.set_weight_progress) && stage_complete(
            v.account_status.epoch_snapshot,
            v.epoch_snapshot_progress,
        ) && v.account_status.ballot_box <= 2 && !stage_complete(v.account_status.ballot_box, v.voting_progress)
            ==> epoch_stage(v) == Ok::<State, TipRouterError>(State::Vote),
        stage_complete(v.account_status.weight_table, v.set_weight_progress) && stage_complete(
            v.account_status.epoch_snapshot,
            v.epoch_snapshot_progress,
        ) && stage_complete(v.account_status.ballot_box, v.voting_progress) && v.account_status.base_reward_router
            == 0 ==> epoch_stage(v) == Ok::<State, TipRouterError>(State::SetupRouter),
        stage_complete(v.account_status.weight_table, v.set_weight_progress) && stage_complete(
            v.account_status.epoch_snapshot,
            v.epoch_snapshot_progress,
        ) && stage_complete(v.account_status.ballot_box, v.voting_progress) && (
        v.account_status.base_reward_router == 1 || v.account_status.base_reward_router == 2) ==> epoch_stage(v)
            == Ok::<State, TipRouterError>(
            if v.total_distribution_progress.total != 0 && v.total_distribution_progress.total != PROGRESS_INVALID
                && v.total_distribution_progress.tally == v.total_distribution_progress.total {
                State::Done
            } else {
                State::Distribute
            },
        ),
{
}

/// The progress of one epoch of the tip router: which of its accounts exist,
/// and how far each stage has come.
#[derive(Debug, Clone, Copy)]
pub struct EpochState {
    ncn: Pubkey,
    epoch: u64,
    /// The bump seed of the account's address.
    pub bump: u8,
    slot_created: u64,
    operator_count: u64,
    vault_count: u64,
    account_status: EpochAccountStatus,
    set_weight_progress: Progress,
    epoch_snapshot_progress: Progress,
    operator_snapshot_progress: [Progress; 256],
    voting_progress: Progress,
    validation_progress: Progress,
    upload_progress: Progress,
    total_distribution_progress: Progress,
    base_distribution_progress: Progress,
    ncn_distribution_progress: [Progress; 2048],
}

impl View for EpochState {
    type V = EpochStateView;

    closed spec fn view(&self) -> EpochStateView {
        EpochStateView {
            ncn: self.ncn@,
            epoch: self.epoch,
            bump: self.bump,
            slot_created: self.slot_created,
            operator_count: self.operator_count,
            vault_count: self.vault_count,
            account_status: self.account_status@,
            set_weight_progress: self.set_weight_progress@,
            epoch_snapshot_progress: self.epoch_snapshot_progress@,
            operator_snapshot_progress: self.operator_snapshot_progress@.map_values(|p: Progress| p@),
            voting_progress: self.voting_progress@,
            validation_progress: self.validation_progress@,
            upload_progress: self.upload_progress@,
            total_distribution_progress: self.total_distribution_progress@,
            base_distribution_progress: self.base_distribution_progress@,
            ncn_distribution_progress: self.ncn_distribution_progress@.map_values(|p: Progress| p@),
        }
    }
}

impl EpochState {
    pub proof fn lemma_lengths(&self)
        ensures
            self@.operator_snapshot_progress.len() == 256,
            self@.ncn_distribution_progress.len() == 2048,
            self@.account_status.operator_snapshot.len() == 256,
            self@.account_status.ncn_reward_router.len() == 2048,
    {
        self.account_status.lemma_lengths();
    }

    /// A fresh record: no account exists and no counter is set up.
    pub fn new(ncn: &Pubkey, epoch: u64, bump: u8, slot_created: u64) -> (s: Self)
        ensures
            s@ == (EpochStateView {
                ncn: ncn@,
                epoch,
                bump,
                slot_created,
                operator_count: 0,
                vault_count: 0,
                account_status: EpochAccountStatus::default_view(),
                set_weight_progress: ProgressView { tally: PROGRESS_INVALID, total: PROGRESS_INVALID },
                epoch_snapshot_progress: ProgressView { tally: PROGRESS_INVALID, total: PROGRESS_INVALID },
                operator_snapshot_progress: Seq::new(
                    256,
                    |i: int| ProgressView { tally: PROGRESS_INVALID, total: PROGRESS_INVALID },
                ),
                voting_progress: ProgressView { tally: PROGRESS_INVALID, total: PROGRESS_INVALID },
                validation_progress: ProgressView { tally: PROGRESS_INVALID, total: PROGRESS_INVALID },
                upload_progress: ProgressView { tally: PROGRESS_INVALID, total: PROGRESS_INVALID },
                total_distribution_progress: ProgressView { tally: PROGRESS_INVALID, total: PROGRESS_INVALID },
                base_distribution_progress: ProgressView { tally: PROGRESS_INVALID, total: PROGRESS_INVALID },
                ncn_distribution_progress: Seq::new(
                    2048,
                    |i: int| ProgressView { tally: PROGRESS_INVALID, total: PROGRESS_INVALID },
                ),
            }),
    {
        let p = Progress::default();
        let s = EpochState {
            ncn: *ncn,
            epoch,
            bump,
            slot_created,
            operator_count: 0,
            vault_count: 0,
            account_status: EpochAccountStatus::default(),
            set_weight_progress: p,
            epoch_snapshot_progress: p,
            operator_snapshot_progress: [p; 256],
            voting_progress: p,
            validation_progress: p,
            upload_progress: p,
            total_distribution_progress: p,
            base_distribution_progress: p,
            ncn_distribution_progress: [p; 2048],
        };
        assert(s@.operator_snapshot_progress =~= Seq::new(
            256,
            |i: int| ProgressView { tally: PROGRESS_INVALID, total: PROGRESS_INVALID },
        ));
        assert(s@.ncn_distribution_progress =~= Seq::new(
            2048,
            |i: int| ProgressView { tally: PROGRESS_INVALID, total: PROGRESS_INVALID },
        ));
        s
    }

    /// Sets the identity of the record, leaving its progress as it is.
    pub fn initialize(&mut self, ncn: &Pubkey, epoch: u64, bump: u8, slot_created: u64)
        ensures
            final(self)@ == (EpochStateView { ncn: ncn@, epoch, bump, slot_created, ..old(self)@ }),
    {
        self.ncn = *ncn;
        self.bump = bump;
        self.epoch = epoch;
        self.slot_created = slot_created;
    }

    pub fn get_ncn_reward_router_index(operator_index: usize, group: NcnFeeGroup) -> (r: Result<
        usize,
        TipRouterError,
    >)
        ensures
            r == ncn_reward_router_index(operator_index, group),
    {
        let index = match operator_index.checked_mul(8) {
            Some(i) => i,
            None => {
                return Err(TipRouterError::ArithmeticOverflow);
            },
        };
        match index.checked_add(group.group as usize) {
            Some(i) => Ok(i),
            None => Err(TipRouterError::ArithmeticOverflow),
        }
    }

    pub fn _set_upload_progress(&mut self)
        ensures
            final(self)@ == (EpochStateView { upload_progress: ProgressView { tally: 0, total: 1 }, ..old(self)@ }),
    {
        self.upload_progress = Progress::new(1);
    }

    pub fn ncn(&self) -> (k: &Pubkey)
        ensures
            k@ == self@.ncn,
    {
        &self.ncn
    }

    pub fn epoch(&self) -> (e: u64)
        ensures
            e == self@.epoch,
    {
        self.epoch
    }

    pub fn slot_created(&self) -> (s: u64)
        ensures
            s == self@.slot_created,
    {
        self.slot_created
    }

    pub fn operator_count(&self) -> (c: u64)
        ensures
            c == self@.operator_count,
    {
        self.operator_count
    }

    pub fn vault_count(&self) -> (c: u64)
        ensures
            c == self@.vault_count,
    {
        self.vault_count
    }

    pub fn account_status(&self) -> (a: &EpochAccountStatus)
        ensures
            a@ == self@.account_status,
    {
        &self.account_status
    }

    pub fn set_weight_progress(&self) -> (p: Progress)
        ensures
            p@ == self@.set_weight_progress,
    {
        self.set_weight_progress
    }

    pub fn epoch_snapshot_progress(&self) -> (p: Progress)
        ensures
            p@ == self@.epoch_snapshot_progress,
    {
        self.epoch_snapshot_progress
    }

    pub fn operator_snapshot_progress(&self, ncn_operator_index: usize) -> (p: Progress)
        requires
            ncn_operator_index < 256,
        ensures
            p@ == self@.operator_snapshot_progress[ncn_operator_index as int],
    {
        self.operator_snapshot_progress[ncn_operator_index]
    }

    pub fn voting_progress(&self) -> (p: Progress)
        ensures
            p@ == self@.voting_progress,
    {
        self.voting_progress
    }

    pub fn validation_progress(&self) -> (p: Progress)
        ensures
            p@ == self@.validation_progress,
    {
        self.validation_progress
    }

    pub fn upload_progress(&self) -> (p: Progress)
        ensures
            p@ == self@.upload_progress,
    {
        self.upload_progress
    }

    pub fn total_distribution_progress(&self) -> (p: Progress)
        ensures
            p@ == self@.total_distribution_progress,
    {
        self.total_distribution_progress
    }

    pub fn base_distribution_progress(&self) -> (p: Progress)
        ensures
            p@ == self@.base_distribution_progress,
    {
        self.base_distribution_progress
    }

    pub fn ncn_distribution_progress(&self, ncn_operator_index: usize, group: NcnFeeGroup) -> (p: Progress)
        requires
            ncn_reward_router_index(ncn_operator_index, group) matches Ok(i) && i < 2048,
        ensures
            p@ == self@.ncn_distribution_progress[ncn_reward_router_index(ncn_operator_index, group)->Ok_0 as int],
    {
        self.ncn_distribution_progress[Self::get_ncn_reward_router_index(ncn_operator_index, group).unwrap()]
    }
}

impl EpochAccountStatus {
    /// The statuses of a fresh record: every account does not exist.
    pub open spec fn default_view() -> EpochAccountStatusView {
        EpochAccountStatusView {
            epoch_state: 0,
            weight_table: 0,
            epoch_snapshot: 0,
            operator_snapshot: Seq::new(256, |i: int| 0u8),
            ballot_box: 0,
            base_reward_router: 0,
            ncn_reward_router: Seq::new(2048, |i: int| 0u8),
        }
    }
}

impl EpochState {
    pub fn update_realloc_epoch_state(&mut self)
        ensures
            final(self)@ == (EpochStateView {
                account_status: EpochAccountStatusView { epoch_state: 1, ..old(self)@.account_status },
                ..old(self)@
            }),
    {
        self.account_status.set_epoch_state(AccountStatus::Created);
    }

    /// Marks the weight table as created and sets up its counter for
    /// `vault_count` weights.
    pub fn update_realloc_weight_table(&mut self, vault_count: u64)
        ensures
            final(self)@ == (EpochStateView {
                account_status: EpochAccountStatusView { weight_table: 1, ..old(self)@.account_status },
                vault_count,
                set_weight_progress: ProgressView { tally: 0, total: vault_count },
                ..old(self)@
            }),
    {
        self.account_status.set_weight_table(AccountStatus::Created);
        self.vault_count = vault_count;
        self.set_weight_progress = Progress::new(vault_count);
    }

    pub fn update_set_weight(&mut self, weights_set: u64)
        ensures
            final(self)@ == (EpochStateView {
                set_weight_progress: ProgressView { tally: weights_set, ..old(self)@.set_weight_progress },
                ..old(self)@
            }),
    {
        self.set_weight_progress.set_tally(weights_set);
    }

    pub fn update_initialize_epoch_snapshot(&mut self, operator_count: u64)
        ensures
            final(self)@ == (EpochStateView {
                account_status: EpochAccountStatusView { epoch_snapshot: 1, ..old(self)@.account_status },
                operator_count,
                epoch_snapshot_progress: ProgressView { tally: 0, total: operator_count },
                ..old(self)@
            }),
    {
        self.account_status.set_epoch_snapshot(AccountStatus::Created);
        self.operator_count = operator_count;
        self.epoch_snapshot_progress = Progress::new(operator_count);
    }

    /// Marks the snapshot of operator `operator_index` as created. An active
    /// operator's counter waits for one delegation per vault; an inactive
    /// one is complete at once and counts as one operator done.
    pub fn update_realloc_operator_snapshot(&mut self, operator_index: usize, is_active: bool) -> (r: Result<
        (),
        TipRouterError,
    >)
        requires
            operator_index < 256,
        ensures
            ({
                let marked = EpochStateView {
                    account_status: EpochAccountStatusView {
                        operator_snapshot: old(self)@.account_status.operator_snapshot.update(
                            operator_index as int,
                            1,
                        ),
                        ..old(self)@.account_status
                    },
                    ..old(self)@
                };
                if is_active {
                    r == Ok::<(), TipRouterError>(()) && final(self)@ == (EpochStateView {
                        operator_snapshot_progress: marked.operator_snapshot_progress.update(
                            operator_index as int,
                            ProgressView { tally: 0, total: old(self)@.vault_count },
                        ),
                        ..marked
                    })
                } else {
                    let done_one = EpochStateView {
                        operator_snapshot_progress: marked.operator_snapshot_progress.update(
                            operator_index as int,
                            ProgressView { tally: 1, total: 1 },
                        ),
                        ..marked
                    };
                    match progress_added(old(self)@.epoch_snapshot_progress, 1) {
                        Some(p) => r == Ok::<(), TipRouterError>(()) && final(self)@ == (EpochStateView {
                            epoch_snapshot_progress: p,
                            ..done_one
                        }),
                        None => r == Err::<(), TipRouterError>(TipRouterError::ArithmeticOverflow)
                            && final(self)@ == done_one,
                    }
                }
            }),
    {
        proof {
            self.lemma_lengths();
        }
        self.account_status.set_operator_snapshot(operator_index, AccountStatus::Created);
        if is_active {
            self.operator_snapshot_progress[operator_index] = Progress::new(self.vault_count);
        } else {
            let mut p = Progress::new(1);
            p.increment_one()?;
            self.operator_snapshot_progress[operator_index] = p;
            assert(self@.operator_snapshot_progress =~= old(self)@.operator_snapshot_progress.update(
                operator_index as int,
                ProgressView { tally: 1, total: 1 },
            ));
            self.epoch_snapshot_progress.increment_one()?;
            return Ok(());
        }
        assert(self@.operator_snapshot_progress =~= old(self)@.operator_snapshot_progress.update(
            operator_index as int,
            ProgressView { tally: 0, total: old(self)@.vault_count },
        ));
        Ok(())
    }
}

impl EpochState {
    pub fn update_snapshot_vault_operator_delegation(&mut self, operator_index: usize, finalized: bool) -> (r:
        Result<(), TipRouterError>)
        requires
            operator_index < 256,
        ensures
            match progress_added(old(self)@.operator_snapshot_progress[operator_index as int], 1) {
                None => r == Err::<(), TipRouterError>(TipRouterError::ArithmeticOverflow) && final(self)@
                    == old(self)@,
                Some(op) => {
                    let stepped = EpochStateView {
                        operator_snapshot_progress: old(self)@.operator_snapshot_progress.update(
                            operator_index as int,
                            op,
                        ),
                        ..old(self)@
                    };
                    if !finalized {
                        r == Ok::<(), TipRouterError>(()) && final(self)@ == stepped
                    } else {
                        match progress_added(old(self)@.epoch_snapshot_progress, 1) {
                            Some(ep) => r == Ok::<(), TipRouterError>(()) && final(self)@ == (EpochStateView {
                                epoch_snapshot_progress: ep,
                                ..stepped
                            }),
                            None => r == Err::<(), TipRouterError>(TipRouterError::ArithmeticOverflow)
                                && final(self)@ == stepped,
                        }
                    }
                },
            },
    {
        proof {
            self.lemma_lengths();
        }
        let mut p = self.operator_snapshot_progress[operator_index];
        p.increment_one()?;
        self.operator_snapshot_progress[operator_index] = p;
        assert(self@.operator_snapshot_progress =~= old(self)@.operator_snapshot_progress.update(
            operator_index as int,
            p@,
        ));
        if finalized {
            self.epoch_snapshot_progress.increment_one()?;
        }
        Ok(())
    }

    /// Marks the ballot box as created and sets up the voting, validation and
    /// upload counters for one step each.
    pub fn update_realloc_ballot_box(&mut self)
        ensures
            final(self)@ == (EpochStateView {
                account_status: EpochAccountStatusView { ballot_box: 1, ..old(self)@.account_status },
                voting_progress: ProgressView { tally: 0, total: 1 },
                validation_progress: ProgressView { tally: 0, total: 1 },
                upload_progress: ProgressView { tally: 0, total: 1 },
                ..old(self)@
            }),
    {
        self.account_status.set_ballot_box(AccountStatus::Created);
        self.voting_progress = Progress::new(1);
        self.validation_progress = Progress::new(1);
        self.upload_progress = Progress::new(1);
    }

    pub fn update_cast_vote(&mut self) -> (r: Result<(), TipRouterError>)
        ensures
            match progress_added(old(self)@.voting_progress, 1) {
                Some(p) => r == Ok::<(), TipRouterError>(()) && final(self)@ == (EpochStateView {
                    voting_progress: p,
                    ..old(self)@
                }),
                None => r == Err::<(), TipRouterError>(TipRouterError::ArithmeticOverflow) && final(self)@
                    == old(self)@,
            },
    {
        self.voting_progress.increment_one()
    }

    pub fn update_set_merkle_root(&mut self) -> (r: Result<(), TipRouterError>)
        ensures
            match progress_added(old(self)@.upload_progress, 1) {
                Some(p) => r == Ok::<(), TipRouterError>(()) && final(self)@ == (EpochStateView {
                    upload_progress: p,
                    ..old(self)@
                }),
                None => r == Err::<(), TipRouterError>(TipRouterError::ArithmeticOverflow) && final(self)@
                    == old(self)@,
            },
    {
        self.upload_progress.increment_one()
    }

    pub fn update_realloc_base_reward_router(&mut self)
        ensures
            final(self)@ == (EpochStateView {
                account_status: EpochAccountStatusView { base_reward_router: 1, ..old(self)@.account_status },
                base_distribution_progress: ProgressView { tally: 0, total: 0 },
                ..old(self)@
            }),
    {
        self.account_status.set_base_reward_router(AccountStatus::Created);
        self.base_distribution_progress = Progress::new(0);
    }

    pub fn update_realloc_ncn_reward_router(&mut self, operator_index: usize, group: NcnFeeGroup) -> (r: Result<
        (),
        TipRouterError,
    >)
        requires
            index_fits(ncn_reward_router_index(operator_index, group), 2048),
        ensures
            match ncn_reward_router_index(operator_index, group) {
                Ok(i) => r == Ok::<(), TipRouterError>(()) && final(self)@ == (EpochStateView {
                    account_status: EpochAccountStatusView {
                        ncn_reward_router: old(self)@.account_status.ncn_reward_router.update(i as int, 1),
                        ..old(self)@.account_status
                    },
                    ncn_distribution_progress: old(self)@.ncn_distribution_progress.update(
                        i as int,
                        ProgressView { tally: 0, total: 0 },
                    ),
                    ..old(self)@
                }),
                Err(e) => r == Err::<(), TipRouterError>(e) && final(self)@ == old(self)@,
            },
    {
        proof {
            self.lemma_lengths();
        }
        self.account_status.set_ncn_reward_router(operator_index, group, AccountStatus::Created)?;
        let i = Self::get_ncn_reward_router_index(operator_index, group)?;
        self.ncn_distribution_progress[i] = Progress::new(0);
        assert(self@.ncn_distribution_progress =~= old(self)@.ncn_distribution_progress.update(
            i as int,
            ProgressView { tally: 0, total: 0 },
        ));
        Ok(())
    }

    pub fn update_route_base_rewards(&mut self, total_rewards: u64)
        ensures
            final(self)@ == (EpochStateView {
                total_distribution_progress: ProgressView {
                    total: total_rewards,
                    ..old(self)@.total_distribution_progress
                },
                base_distribution_progress: ProgressView {
                    total: total_rewards,
                    ..old(self)@.base_distribution_progress
                },
                ..old(self)@
            }),
    {
        self.total_distribution_progress.set_total(total_rewards);
        self.base_distribution_progress.set_total(total_rewards);
    }

    pub fn update_route_ncn_rewards(&mut self, operator_index: usize, group: NcnFeeGroup, total_rewards: u64) -> (r:
        Result<(), TipRouterError>)
        requires
            index_fits(ncn_reward_router_index(operator_index, group), 2048),
        ensures
            match ncn_reward_router_index(operator_index, group) {
                Ok(i) => r == Ok::<(), TipRouterError>(()) && final(self)@ == (EpochStateView {
                    ncn_distribution_progress: old(self)@.ncn_distribution_progress.update(
                        i as int,
                        ProgressView { total: total_rewards, ..old(self)@.ncn_distribution_progress[i as int] },
                    ),
                    ..old(self)@
                }),
                Err(e) => r == Err::<(), TipRouterError>(e) && final(self)@ == old(self)@,
            },
    {
        proof {
            self.lemma_lengths();
        }
        let i = Self::get_ncn_reward_router_index(operator_index, group)?;
        let mut p = self.ncn_distribution_progress[i];
        p.set_total(total_rewards);
        self.ncn_distribution_progress[i] = p;
        assert(self@.ncn_distribution_progress =~= old(self)@.ncn_distribution_progress.update(
            i as int,
            ProgressView { total: total_rewards, ..old(self)@.ncn_distribution_progress[i as int] },
        ));
        Ok(())
    }

    pub fn update_distribute_base_rewards(&mut self, rewards: u64) -> (r: Result<(), TipRouterError>)
        ensures
            match progress_added(old(self)@.total_distribution_progress, rewards) {
                None => r == Err::<(), TipRouterError>(TipRouterError::ArithmeticOverflow) && final(self)@
                    == old(self)@,
                Some(t) => match progress_added(old(self)@.base_distribution_progress, rewards) {
                    Some(b) => r == Ok::<(), TipRouterError>(()) && final(self)@ == (EpochStateView {
                        total_distribution_progress: t,
                        base_distribution_progress: b,
                        ..old(self)@
                    }),
                    None => r == Err::<(), TipRouterError>(TipRouterError::ArithmeticOverflow) && final(self)@
                        == (EpochStateView { total_distribution_progress: t, ..old(self)@ }),
                },
            },
    {
        self.total_distribution_progress.increment(rewards)?;
        self.base_distribution_progress.increment(rewards)?;
        Ok(())
    }

    pub fn update_distribute_base_ncn_rewards(&mut self, rewards: u64) -> (r: Result<(), TipRouterError>)
        ensures
            match progress_added(old(self)@.base_distribution_progress, rewards) {
                Some(b) => r == Ok::<(), TipRouterError>(()) && final(self)@ == (EpochStateView {
                    base_distribution_progress: b,
                    ..old(self)@
                }),
                None => r == Err::<(), TipRouterError>(TipRouterError::ArithmeticOverflow) && final(self)@
                    == old(self)@,
            },
    {
        self.base_distribution_progress.increment(rewards)?;
        Ok(())
    }

    pub fn update_distribute_ncn_rewards(&mut self, operator_index: usize, group: NcnFeeGroup, rewards: u64) -> (r:
        Result<(), TipRouterError>)
        requires
            index_fits(ncn_reward_router_index(operator_index, group), 2048),
        ensures
            match progress_added(old(self)@.total_distribution_progress, rewards) {
                None => r == Err::<(), TipRouterError>(TipRouterError::ArithmeticOverflow) && final(self)@
                    == old(self)@,
                Some(t) => {
                    let stepped = EpochStateView { total_distribution_progress: t, ..old(self)@ };
                    match ncn_reward_router_index(operator_index, group) {
                        Err(e) => r == Err::<(), TipRouterError>(e) && final(self)@ == stepped,
                        Ok(i) => match progress_added(old(self)@.ncn_distribution_progress[i as int], rewards) {
                            Some(n) => r == Ok::<(), TipRouterError>(()) && final(self)@ == (EpochStateView {
                                ncn_distribution_progress: old(self)@.ncn_distribution_progress.update(
                                    i as int,
                                    n,
                                ),
                                ..stepped
                            }),
                            None => r == Err::<(), TipRouterError>(TipRouterError::ArithmeticOverflow)
                                && final(self)@ == stepped,
                        },
                    }
                },
            },
    {
        proof {
            self.lemma_lengths();
        }
        self.total_distribution_progress.increment(rewards)?;
        let i = Self::get_ncn_reward_router_index(operator_index, group)?;
        let mut p = self.ncn_distribution_progress[i];
        p.increment(rewards)?;
        self.ncn_distribution_progress[i] = p;
        assert(self@.ncn_distribution_progress =~= old(self)@.ncn_distribution_progress.update(i as int, p@));
        Ok(())
    }

    /// The stage the epoch is in.
    pub fn current_state(&self) -> (r: Result<State, TipRouterError>)
        ensures
            r == epoch_stage(self@),
            stage_complete(self@.account_status.weight_table, self@.set_weight_progress) && stage_complete(
                self@.account_status.epoch_snapshot,
                self@.epoch_snapshot_progress,
            ) && self@.account_status.ballot_box <= 2 && !stage_complete(
                self@.account_status.ballot_box,
                self@.voting_progress,
            ) ==> r == Ok::<State, TipRouterError>(State::Vote),
            r == Ok::<State, TipRouterError>(State::SetupRouter) ==> stage_complete(
                self@.account_status.ballot_box,
                self@.voting_progress,
            ),
    {
        proof {
            lemma_epoch_stage_order(self@);
        }
        if self.account_status.weight_table()? == AccountStatus::DNE || !self.set_weight_progress.is_complete() {
            return Ok(State::SetWeight);
        }
        if self.account_status.epoch_snapshot()? == AccountStatus::DNE
            || !self.epoch_snapshot_progress.is_complete() {
            return Ok(State::Snapshot);
        }
        if self.account_status.ballot_box()? == AccountStatus::DNE || !self.voting_progress.is_complete() {
            return Ok(State::Vote);
        }
        if self.account_status.base_reward_router()? == AccountStatus::DNE {
            return Ok(State::SetupRouter);
        }
        if !self.total_distribution_progress.is_complete() || self.total_distribution_progress.total() == 0 {
            return Ok(State::Distribute);
        }
        Ok(State::Done)
    }
}

/// The seeds of the address of an epoch's progress record.
pub open spec fn epoch_state_seeds(ncn: Seq<u8>, epoch: u64) -> Seq<Seq<u8>> {
    seq!["epoch_state".spec_bytes(), ncn, le_bytes(epoch as nat, 8)]
}

impl EpochState {
    pub fn seeds(ncn: &Pubkey, epoch: u64) -> (s: Vec<Vec<u8>>)
        ensures
            s.deep_view() == epoch_state_seeds(ncn@, epoch),
    {
        let s = seed_list(vec![tag_bytes("epoch_state"), ncn.to_byte_vec(), u64_to_le_bytes(epoch)]);
        assert(s.deep_view() =~= epoch_state_seeds(ncn@, epoch));
        s
    }

    /// The address of the record, its bump seed and its seeds; `None` where
    /// no bump seed gives an address.
    pub fn find_program_address(program_id: &Pubkey, ncn: &Pubkey, epoch: u64) -> (r: Option<(Pubkey, u8, Vec<Vec<u8>>)>)
        ensures
            address_with_seeds(epoch_state_seeds(ncn@, epoch), program_id@, r),
    {
        find_address(Self::seeds(ncn, epoch), program_id)
    }

    /// Checks that `account` is the progress record of `ncn` for `epoch`.
    pub fn load(
        program_id: &Pubkey,
        ncn: &Pubkey,
        epoch: u64,
        account: &AccountView,
        expect_writable: bool,
    ) -> (r: Result<(), ProgramError>)
        ensures
            r == load_at(
                epoch_state_seeds(ncn@, epoch),
                program_id@,
                program_id@,
                *account,
                Some(discriminator_value(Discriminators::EpochState)),
                expect_writable,
            ),
    {
        let seeds = Self::seeds(ncn, epoch);
        check_load_at(&seeds, program_id, program_id, account, Some(Discriminators::EpochState.value()), expect_writable)
    }
}

} // verus!
