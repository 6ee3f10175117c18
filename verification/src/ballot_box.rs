use vstd::prelude::*;

use vstd::string::StringSliceAdditionalSpecFns;

use crate::{
    discriminators::{Discriminators, discriminator_value},
    le_bytes::{le_bytes, u64_to_le_bytes},
    loaders::{AccountView, ProgramError, check_load_at, load_at},
    pda::{address_with_seeds, find_address, seed_list, tag_bytes},
    counting::{count_where, lemma_count_bound, lemma_count_update, lemma_count_zero},
    constants::{
        DEFAULT_CONSENSUS_REACHED_SLOT, MAX_OPERATORS, consensus_value, precise_consensus,
    },
    error::TipRouterError,
    precise_number::{
        precise_checked_div, precise_greater_than_or_equal, precise_new, spec_div, spec_new,
        precise_one, u256_bound, lemma_spec_div_whole,
    },
    pubkey::{Pubkey, bytes32_eq, default_key},
    stake_weight::StakeWeights,
};

verus! {

/// A vote for a meta merkle root. A ballot is valid when its root has a
/// non-zero byte.
#[derive(Debug, Clone, Copy)]
pub struct Ballot {
    meta_merkle_root: [u8; 32],
    is_valid: bool,
}

/// Whether a root has a non-zero byte.
pub open spec fn root_nonzero(root: Seq<u8>) -> bool {
    exists|i: int| 0 <= i < root.len() && root[i] != 0
}

/// Two ballots count as the same vote when both are valid and their roots agree.
pub open spec fn same_ballot(a: Ballot, b: Ballot) -> bool {
    a.spec_is_valid() && b.spec_is_valid() && a.spec_root() == b.spec_root()
}

impl Ballot {
    pub closed spec fn spec_root(self) -> Seq<u8> {
        self.meta_merkle_root@
    }

    pub closed spec fn spec_is_valid(self) -> bool {
        self.is_valid
    }

    /// A ballot for `merkle_root`, valid exactly when the root is not all zeros.
    pub fn new(merkle_root: &[u8; 32]) -> (ballot: Self)
        ensures
            ballot.spec_root() == merkle_root@,
            ballot.spec_is_valid() == root_nonzero(merkle_root@),
    {
        let mut i: usize = 0;
        while i < 32
            invariant
                0 <= i <= 32,
                merkle_root@.len() == 32,
                forall|j: int| 0 <= j < i ==> merkle_root@[j] == 0,
            decreases 32 - i,
        {
            if merkle_root[i] != 0 {
                return Ballot { meta_merkle_root: *merkle_root, is_valid: true };
            }
            i = i + 1;
        }
        Ballot { meta_merkle_root: *merkle_root, is_valid: false }
    }

    pub fn root(&self) -> (root: [u8; 32])
        ensures
            root@ == self.spec_root(),
    {
        self.meta_merkle_root
    }

    pub fn is_valid(&self) -> (valid: bool)
        ensures
            valid == self.spec_is_valid(),
    {
        self.is_valid
    }

    /// Whether `self` and `other` are the same vote.
    pub fn same_as(&self, other: &Ballot) -> (r: bool)
        ensures
            r == same_ballot(*self, *other),
    {
        if !self.is_valid || !other.is_valid {
            return false;
        }
        bytes32_eq(&self.meta_merkle_root, &other.meta_merkle_root)
    }
}

impl Default for Ballot {
    fn default() -> (ballot: Self)
        ensures
            ballot.spec_root() == default_key(),
            !ballot.spec_is_valid(),
    {
        let ballot = Ballot { meta_merkle_root: [0u8; 32], is_valid: false };
        assert(ballot.spec_root() =~= default_key());
        ballot
    }
}

impl PartialEq for Ballot {
    fn eq(&self, other: &Self) -> (r: bool) {
        self.same_as(other)
    }
}

impl Eq for Ballot {}

impl vstd::std_specs::cmp::PartialEqSpecImpl for Ballot {
    open spec fn obeys_eq_spec() -> bool {
        true
    }

    open spec fn eq_spec(&self, other: &Ballot) -> bool {
        same_ballot(*self, *other)
    }
}

/// The votes cast for one ballot.
#[derive(Debug, Clone, Copy)]
pub struct BallotTally {
    index: u16,
    ballot: Ballot,
    stake_weights: StakeWeights,
    tally: u64,
}

impl BallotTally {
    pub closed spec fn spec_index(self) -> u16 {
        self.index
    }

    pub closed spec fn spec_ballot(self) -> Ballot {
        self.ballot
    }

    pub closed spec fn spec_stake_weights(self) -> StakeWeights {
        self.stake_weights
    }

    pub closed spec fn spec_tally(self) -> u64 {
        self.tally
    }

    pub open spec fn spec_is_valid(self) -> bool {
        self.spec_ballot().spec_is_valid()
    }

    /// The tally of `self` after the votes of `sw` were added to it.
    pub open spec fn incremented(self, sw: StakeWeights, r: BallotTally) -> bool {
        &&& r.spec_index() == self.spec_index()
        &&& r.spec_ballot() == self.spec_ballot()
        &&& self.spec_stake_weights().added_below(sw, 8, r.spec_stake_weights())
        &&& r.spec_tally() == self.spec_tally() + 1
    }

    /// The tally of `self` after the votes of `sw` were taken from it.
    pub open spec fn decremented(self, sw: StakeWeights, r: BallotTally) -> bool {
        &&& r.spec_index() == self.spec_index()
        &&& r.spec_ballot() == self.spec_ballot()
        &&& self.spec_stake_weights().subtracted_below(sw, 8, r.spec_stake_weights())
        &&& r.spec_tally() == self.spec_tally() - 1
    }

    /// Whether adding `sw` and one vote stays in range.
    pub open spec fn can_increment(self, sw: StakeWeights) -> bool {
        &&& add_fits_u128(self.spec_stake_weights().total(), sw.total())
        &&& self.spec_stake_weights().groups_add_fit(sw)
        &&& self.spec_tally() < u64::MAX
    }

    /// Whether taking `sw` and one vote stays in range.
    pub open spec fn can_decrement(self, sw: StakeWeights) -> bool {
        &&& self.spec_stake_weights().total() >= sw.total()
        &&& self.spec_stake_weights().groups_sub_fit_below(sw, 8)
        &&& self.spec_tally() >= 1
    }

    pub open spec fn is_default(self) -> bool {
        &&& self.spec_index() == u16::MAX
        &&& self.spec_ballot().spec_root() == default_key()
        &&& !self.spec_ballot().spec_is_valid()
        &&& self.spec_stake_weights().only_total(0)
        &&& self.spec_tally() == 0
    }

    /// Tallies that agree in every field are equal.
    pub proof fn lemma_ext(a: BallotTally, b: BallotTally)
        requires
            a.spec_index() == b.spec_index(),
            a.spec_ballot() == b.spec_ballot(),
            a.spec_stake_weights() == b.spec_stake_weights(),
            a.spec_tally() == b.spec_tally(),
        ensures
            a == b,
    {
    }

    pub fn new(index: u16, ballot: &Ballot, stake_weights: &StakeWeights) -> (t: Self)
        ensures
            t.spec_index() == index,
            t.spec_ballot() == *ballot,
            t.spec_stake_weights() == *stake_weights,
            t.spec_tally() == 1,
    {
        BallotTally { index, ballot: *ballot, stake_weights: *stake_weights, tally: 1 }
    }

    pub fn ballot(&self) -> (b: &Ballot)
        ensures
            *b == self.spec_ballot(),
    {
        &self.ballot
    }

    pub fn stake_weights(&self) -> (sw: &StakeWeights)
        ensures
            *sw == self.spec_stake_weights(),
    {
        &self.stake_weights
    }

    pub fn tally(&self) -> (t: u64)
        ensures
            t == self.spec_tally(),
    {
        self.tally
    }

    pub fn index(&self) -> (i: u16)
        ensures
            i == self.spec_index(),
    {
        self.index
    }

    pub fn is_valid(&self) -> (valid: bool)
        ensures
            valid == self.spec_is_valid(),
    {
        self.ballot.is_valid()
    }

    /// Adds one vote of weight `stake_weights`.
    pub fn increment_tally(&mut self, stake_weights: &StakeWeights) -> (r: Result<(), TipRouterError>)
        ensures
            r is Ok <==> old(self).can_increment(*stake_weights),
            r is Ok ==> old(self).incremented(*stake_weights, *final(self)),
            r is Err ==> r == Err::<(), TipRouterError>(TipRouterError::ArithmeticOverflow),
    {
        self.stake_weights.increment(stake_weights)?;
        match self.tally.checked_add(1) {
            Some(t) => {
                self.tally = t;
                Ok(())
            },
            None => Err(TipRouterError::ArithmeticOverflow),
        }
    }

    /// Takes away one vote of weight `stake_weights`.
    pub fn decrement_tally(&mut self, stake_weights: &StakeWeights) -> (r: Result<(), TipRouterError>)
        ensures
            r is Ok <==> old(self).can_decrement(*stake_weights),
            r is Ok ==> old(self).decremented(*stake_weights, *final(self)),
            r is Err ==> r == Err::<(), TipRouterError>(TipRouterError::ArithmeticOverflow),
    {
        self.stake_weights.decrement(stake_weights)?;
        match self.tally.checked_sub(1) {
            Some(t) => {
                self.tally = t;
                Ok(())
            },
            None => Err(TipRouterError::ArithmeticOverflow),
        }
    }
}

/// Whether `a + b` fits in a `u128`.
pub open spec fn add_fits_u128(a: u128, b: u128) -> bool {
    a + b <= u128::MAX
}

impl Default for BallotTally {
    fn default() -> (t: Self)
        ensures
            t.is_default(),
    {
        BallotTally {
            index: u16::MAX,
            ballot: Ballot::default(),
            stake_weights: StakeWeights::default(),
            tally: 0,
        }
    }
}

/// One operator's vote.
#[derive(Debug, Clone, Copy)]
pub struct OperatorVote {
    operator: Pubkey,
    slot_voted: u64,
    stake_weights: StakeWeights,
    ballot_index: u16,
}

impl OperatorVote {
    pub closed spec fn spec_operator(self) -> Pubkey {
        self.operator
    }

    pub closed spec fn spec_slot_voted(self) -> u64 {
        self.slot_voted
    }

    pub closed spec fn spec_stake_weights(self) -> StakeWeights {
        self.stake_weights
    }

    pub closed spec fn spec_ballot_index(self) -> u16 {
        self.ballot_index
    }

    pub open spec fn spec_is_empty(self) -> bool {
        self.spec_ballot_index() == u16::MAX
    }

    pub open spec fn is_default(self) -> bool {
        &&& self.spec_operator()@ == default_key()
        &&& self.spec_slot_voted() == 0
        &&& self.spec_stake_weights().only_total(0)
        &&& self.spec_ballot_index() == u16::MAX
    }

    /// The vote that `new` records.
    pub open spec fn records(
        self,
        ballot_index: usize,
        operator: Pubkey,
        current_slot: u64,
        stake_weights: StakeWeights,
    ) -> bool {
        &&& self.spec_operator() == operator
        &&& self.spec_ballot_index() == ballot_index as u16
        &&& self.spec_slot_voted() == current_slot
        &&& self.spec_stake_weights() == stake_weights
    }

    pub fn new(ballot_index: usize, operator: &Pubkey, current_slot: u64, stake_weights: &StakeWeights) -> (v:
        Self)
        ensures
            v.records(ballot_index, *operator, current_slot, *stake_weights),
    {
        OperatorVote {
            operator: *operator,
            ballot_index: ballot_index as u16,
            slot_voted: current_slot,
            stake_weights: *stake_weights,
        }
    }

    pub fn operator(&self) -> (op: &Pubkey)
        ensures
            *op == self.spec_operator(),
    {
        &self.operator
    }

    pub fn slot_voted(&self) -> (s: u64)
        ensures
            s == self.spec_slot_voted(),
    {
        self.slot_voted
    }

    pub fn stake_weights(&self) -> (sw: &StakeWeights)
        ensures
            *sw == self.spec_stake_weights(),
    {
        &self.stake_weights
    }

    pub fn ballot_index(&self) -> (i: u16)
        ensures
            i == self.spec_ballot_index(),
    {
        self.ballot_index
    }

    pub fn is_empty(&self) -> (empty: bool)
        ensures
            empty == self.spec_is_empty(),
    {
        self.ballot_index == u16::MAX
    }
}

impl Default for OperatorVote {
    fn default() -> (v: Self)
        ensures
            v.is_default(),
    {
        OperatorVote {
            operator: Pubkey::default(),
            slot_voted: 0,
            stake_weights: StakeWeights::default(),
            ballot_index: u16::MAX,
        }
    }
}

/// The votes of one epoch: each operator's vote, the tally of each ballot,
/// and the ballot that won consensus.
#[derive(Debug, Clone, Copy)]
pub struct BallotBox {
    ncn: Pubkey,
    epoch: u64,
    bump: u8,
    slot_created: u64,
    /// The slot consensus was reached in, or `DEFAULT_CONSENSUS_REACHED_SLOT`.
    pub slot_consensus_reached: u64,
    operators_voted: u64,
    unique_ballots: u64,
    winning_ballot: Ballot,
    operator_votes: [OperatorVote; 256],
    ballot_tallies: [BallotTally; 256],
}

/// Whether tally `t` is a live tally for ballot `b`.
pub open spec fn tally_for(t: BallotTally, b: Ballot) -> bool {
    t.spec_is_valid() && same_ballot(t.spec_ballot(), b)
}

impl BallotBox {
    pub closed spec fn spec_ncn(self) -> Pubkey {
        self.ncn
    }

    pub closed spec fn spec_epoch(self) -> u64 {
        self.epoch
    }

    pub closed spec fn spec_bump(self) -> u8 {
        self.bump
    }

    pub closed spec fn spec_slot_created(self) -> u64 {
        self.slot_created
    }

    pub closed spec fn spec_slot_consensus_reached(self) -> u64 {
        self.slot_consensus_reached
    }

    pub closed spec fn spec_operators_voted(self) -> u64 {
        self.operators_voted
    }

    pub closed spec fn spec_unique_ballots(self) -> u64 {
        self.unique_ballots
    }

    pub closed spec fn spec_winning_ballot(self) -> Ballot {
        self.winning_ballot
    }

    pub closed spec fn spec_votes(self) -> Seq<OperatorVote> {
        self.operator_votes@
    }

    pub closed spec fn spec_tallies(self) -> Seq<BallotTally> {
        self.ballot_tallies@
    }

    /// `other` is the same box as `self`: same NCN, epoch, bump and creation slot.
    pub open spec fn same_box(self, other: BallotBox) -> bool {
        &&& other.spec_ncn() == self.spec_ncn()
        &&& other.spec_epoch() == self.spec_epoch()
        &&& other.spec_bump() == self.spec_bump()
        &&& other.spec_slot_created() == self.spec_slot_created()
    }

    /// `other` is `self` with its winning ballot replaced by `ballot`.
    pub open spec fn winning_set(self, ballot: Ballot, other: BallotBox) -> bool {
        &&& self.differs_only_in_consensus(other)
        &&& other.spec_slot_consensus_reached() == self.spec_slot_consensus_reached()
        &&& other.spec_winning_ballot() == ballot
    }

    /// `other` differs from `self` at most in its tallies and its count of unique ballots.
    pub open spec fn differs_only_in_tallies(self, other: BallotBox) -> bool {
        &&& self.same_box(other)
        &&& other.spec_slot_consensus_reached() == self.spec_slot_consensus_reached()
        &&& other.spec_winning_ballot() == self.spec_winning_ballot()
        &&& other.spec_operators_voted() == self.spec_operators_voted()
        &&& other.spec_votes() == self.spec_votes()
    }

    /// `other` differs from `self` at most in its votes, tallies and counts.
    pub open spec fn differs_only_in_votes(self, other: BallotBox) -> bool {
        &&& self.same_box(other)
        &&& other.spec_slot_consensus_reached() == self.spec_slot_consensus_reached()
        &&& other.spec_winning_ballot() == self.spec_winning_ballot()
    }

    /// `other` differs from `self` at most in its consensus slot and winning ballot.
    pub open spec fn differs_only_in_consensus(self, other: BallotBox) -> bool {
        &&& self.same_box(other)
        &&& other.spec_operators_voted() == self.spec_operators_voted()
        &&& other.spec_unique_ballots() == self.spec_unique_ballots()
        &&& other.spec_votes() == self.spec_votes()
        &&& other.spec_tallies() == self.spec_tallies()
    }

    /// Two ballot boxes that agree in every field are equal.
    pub proof fn lemma_box_ext(a: BallotBox, b: BallotBox)
        requires
            a.differs_only_in_votes(b),
            a.spec_votes() == b.spec_votes(),
            a.spec_tallies() == b.spec_tallies(),
            a.spec_operators_voted() == b.spec_operators_voted(),
            a.spec_unique_ballots() == b.spec_unique_ballots(),
        ensures
            a == b,
    {
        assert(a.operator_votes =~= b.operator_votes);
        assert(a.ballot_tallies =~= b.ballot_tallies);
    }

    pub proof fn lemma_lengths(self)
        ensures
            self.spec_votes().len() == 256,
            self.spec_tallies().len() == 256,
    {
    }

    pub open spec fn spec_consensus_reached(self) -> bool {
        self.spec_slot_consensus_reached() != DEFAULT_CONSENSUS_REACHED_SLOT
            || self.spec_winning_ballot().spec_is_valid()
    }

    pub open spec fn spec_tie_breaker_set(self) -> bool {
        self.spec_slot_consensus_reached() == DEFAULT_CONSENSUS_REACHED_SLOT
            && self.spec_winning_ballot().spec_is_valid()
    }

    /// Whether some tally is for `ballot`.
    pub open spec fn spec_has_ballot(self, ballot: Ballot) -> bool {
        exists|i: int| 0 <= i < 256 && same_ballot(#[trigger] self.spec_tallies()[i].spec_ballot(), ballot)
    }

    /// A fresh ballot box: no votes, no tallies, no consensus.
    pub open spec fn is_fresh(self, ncn: Pubkey, epoch: u64, bump: u8, current_slot: u64) -> bool {
        &&& self.spec_ncn() == ncn
        &&& self.spec_epoch() == epoch
        &&& self.spec_bump() == bump
        &&& self.spec_slot_created() == current_slot
        &&& self.spec_slot_consensus_reached() == DEFAULT_CONSENSUS_REACHED_SLOT
        &&& self.spec_operators_voted() == 0
        &&& self.spec_unique_ballots() == 0
        &&& self.spec_winning_ballot().spec_root() == default_key()
        &&& !self.spec_winning_ballot().spec_is_valid()
        &&& self.spec_votes().len() == 256
        &&& self.spec_tallies().len() == 256
        &&& forall|i: int| 0 <= i < 256 ==> (#[trigger] self.spec_votes()[i]).is_default()
        &&& forall|i: int| 0 <= i < 256 ==> (#[trigger] self.spec_tallies()[i]).is_default()
    }

    pub fn new(ncn: &Pubkey, epoch: u64, bump: u8, current_slot: u64) -> (b: Self)
        ensures
            b.is_fresh(*ncn, epoch, bump, current_slot),
            b.votes_counted(),
    {
        let vote = OperatorVote::default();
        let tally = BallotTally::default();
        let b = BallotBox {
            ncn: *ncn,
            epoch,
            bump,
            slot_created: current_slot,
            slot_consensus_reached: DEFAULT_CONSENSUS_REACHED_SLOT,
            operators_voted: 0,
            unique_ballots: 0,
            winning_ballot: Ballot::default(),
            operator_votes: [vote; 256],
            ballot_tallies: [tally; 256],
        };
        proof {
            b.lemma_fresh_votes_counted(*ncn, epoch, bump, current_slot);
        }
        b
    }

    /// Resets `self` to a fresh ballot box.
    pub fn initialize(&mut self, ncn: &Pubkey, epoch: u64, bump: u8, current_slot: u64)
        ensures
            final(self).is_fresh(*ncn, epoch, bump, current_slot),
            final(self).votes_counted(),
    {
        let vote = OperatorVote::default();
        let tally = BallotTally::default();
        self.ncn = *ncn;
        self.epoch = epoch;
        self.bump = bump;
        self.slot_created = current_slot;
        self.slot_consensus_reached = DEFAULT_CONSENSUS_REACHED_SLOT;
        self.operators_voted = 0;
        self.unique_ballots = 0;
        self.winning_ballot = Ballot::default();
        self.operator_votes = [vote; 256];
        self.ballot_tallies = [tally; 256];
        proof {
            self.lemma_fresh_votes_counted(*ncn, epoch, bump, current_slot);
        }
    }

    pub fn ncn(&self) -> (ncn: &Pubkey)
        ensures
            *ncn == self.spec_ncn(),
    {
        &self.ncn
    }

    pub fn epoch(&self) -> (e: u64)
        ensures
            e == self.spec_epoch(),
    {
        self.epoch
    }

    pub fn bump(&self) -> (b: u8)
        ensures
            b == self.spec_bump(),
    {
        self.bump
    }

    pub fn slot_created(&self) -> (s: u64)
        ensures
            s == self.spec_slot_created(),
    {
        self.slot_created
    }

    pub fn slot_consensus_reached(&self) -> (s: u64)
        ensures
            s == self.spec_slot_consensus_reached(),
    {
        self.slot_consensus_reached
    }

    pub fn unique_ballots(&self) -> (u: u64)
        ensures
            u == self.spec_unique_ballots(),
    {
        self.unique_ballots
    }

    pub fn operators_voted(&self) -> (o: u64)
        ensures
            o == self.spec_operators_voted(),
    {
        self.operators_voted
    }

    /// Whether some tally is for `ballot`.
    pub fn has_ballot(&self, ballot: &Ballot) -> (r: bool)
        ensures
            r == self.spec_has_ballot(*ballot),
    {
        let mut i: usize = 0;
        while i < MAX_OPERATORS
            invariant
                0 <= i <= 256,
                self.spec_tallies().len() == 256,
                forall|j: int| 0 <= j < i ==> !same_ballot(#[trigger] self.spec_tallies()[j].spec_ballot(), *ballot),
            decreases 256 - i,
        {
            if self.ballot_tallies[i].ballot.same_as(ballot) {
                assert(same_ballot(self.spec_tallies()[i as int].spec_ballot(), *ballot));
                return true;
            }
            i = i + 1;
        }
        false
    }

    pub fn ballot_tallies(&self) -> (t: &[BallotTally; 256])
        ensures
            t@ == self.spec_tallies(),
    {
        &self.ballot_tallies
    }

    pub fn operator_votes(&self) -> (v: &[OperatorVote; 256])
        ensures
            v@ == self.spec_votes(),
    {
        &self.operator_votes
    }

    pub fn is_consensus_reached(&self) -> (r: bool)
        ensures
            r == self.spec_consensus_reached(),
    {
        self.slot_consensus_reached != DEFAULT_CONSENSUS_REACHED_SLOT || self.winning_ballot.is_valid()
    }

    pub fn tie_breaker_set(&self) -> (r: bool)
        ensures
            r == self.spec_tie_breaker_set(),
    {
        self.slot_consensus_reached == DEFAULT_CONSENSUS_REACHED_SLOT && self.winning_ballot.is_valid()
    }

    pub fn get_winning_ballot(&self) -> (r: Result<&Ballot, TipRouterError>)
        ensures
            self.spec_winning_ballot().spec_is_valid() ==> (r matches Ok(b) && *b == self.spec_winning_ballot()),
            !self.spec_winning_ballot().spec_is_valid() ==> (r matches Err(e) && e == TipRouterError::ConsensusNotReached),
    {
        if !self.winning_ballot.is_valid() {
            Err(TipRouterError::ConsensusNotReached)
        } else {
            Ok(&self.winning_ballot)
        }
    }

    /// The first tally for the winning ballot.
    pub fn get_winning_ballot_tally(&self) -> (r: Result<&BallotTally, TipRouterError>)
        ensures
            !self.spec_winning_ballot().spec_is_valid() ==> (r matches Err(e) && e == TipRouterError::ConsensusNotReached),
            self.spec_winning_ballot().spec_is_valid() && !self.spec_has_ballot(self.spec_winning_ballot())
                ==> (r matches Err(e) && e == TipRouterError::BallotTallyNotFoundFull),
            r matches Ok(t) ==> exists|i: int|
                0 <= i < 256 && *t == #[trigger] self.spec_tallies()[i] && same_ballot(
                    t.spec_ballot(),
                    self.spec_winning_ballot(),
                ) && forall|j: int|
                    0 <= j < i ==> !same_ballot(
                        #[trigger] self.spec_tallies()[j].spec_ballot(),
                        self.spec_winning_ballot(),
                    ),
            r is Ok <==> self.spec_winning_ballot().spec_is_valid() && self.spec_has_ballot(
                self.spec_winning_ballot(),
            ),
    {
        if !self.winning_ballot.is_valid() {
            return Err(TipRouterError::ConsensusNotReached);
        }
        let mut i: usize = 0;
        while i < MAX_OPERATORS
            invariant
                0 <= i <= 256,
                self.spec_tallies().len() == 256,
                forall|j: int|
                    0 <= j < i ==> !same_ballot(
                        #[trigger] self.spec_tallies()[j].spec_ballot(),
                        self.spec_winning_ballot(),
                    ),
            decreases 256 - i,
        {
            if self.ballot_tallies[i].ballot.same_as(&self.winning_ballot) {
                assert(same_ballot(self.spec_tallies()[i as int].spec_ballot(), self.spec_winning_ballot()));
                return Ok(&self.ballot_tallies[i]);
            }
            i = i + 1;
        }
        Err(TipRouterError::BallotTallyNotFoundFull)
    }

    pub fn has_winning_ballot(&self) -> (r: bool)
        ensures
            r == self.spec_winning_ballot().spec_is_valid(),
    {
        self.winning_ballot.is_valid()
    }

    pub fn set_winning_ballot(&mut self, ballot: &Ballot)
        ensures
            old(self).winning_set(*ballot, *final(self)),
    {
        self.winning_ballot = *ballot;
    }

    /// Whether an operator may still vote: not after a tie breaker was set,
    /// and after consensus only for `valid_slots_after_consensus` slots.
    pub fn is_voting_valid(&self, current_slot: u64, valid_slots_after_consensus: u64) -> (r: Result<
        bool,
        TipRouterError,
    >)
        ensures
            r == self.voting_valid_result(current_slot, valid_slots_after_consensus),
            self.spec_slot_consensus_reached() == DEFAULT_CONSENSUS_REACHED_SLOT
                && self.spec_winning_ballot().spec_is_valid() ==> r == Ok::<bool, TipRouterError>(false),
            self.spec_slot_consensus_reached() == DEFAULT_CONSENSUS_REACHED_SLOT
                && !self.spec_winning_ballot().spec_is_valid() ==> r == Ok::<bool, TipRouterError>(true),
            self.spec_slot_consensus_reached() != DEFAULT_CONSENSUS_REACHED_SLOT
                && self.spec_slot_consensus_reached() + valid_slots_after_consensus <= u64::MAX ==> r == Ok::<
                bool,
                TipRouterError,
            >(current_slot <= self.spec_slot_consensus_reached() + valid_slots_after_consensus),
            self.spec_slot_consensus_reached() != DEFAULT_CONSENSUS_REACHED_SLOT
                && self.spec_slot_consensus_reached() + valid_slots_after_consensus > u64::MAX ==> r == Err::<
                bool,
                TipRouterError,
            >(TipRouterError::ArithmeticOverflow),
    {
        if self.tie_breaker_set() {
            return Ok(false);
        }
        if self.is_consensus_reached() {
            let end = match self.slot_consensus_reached.checked_add(valid_slots_after_consensus) {
                Some(e) => e,
                None => {
                    return Err(TipRouterError::ArithmeticOverflow);
                },
            };
            return Ok(current_slot <= end);
        }
        Ok(true)
    }

    /// The voting window: once a tie breaker decided the epoch (a valid
    /// winning ballot while the consensus slot is unset) no vote is valid;
    /// after consensus at a slot, votes stay valid for the given number of
    /// slots after it; before either, every vote is valid.
    pub proof fn lemma_voting_window(self, current_slot: u64, valid_slots_after_consensus: u64)
        ensures
            self.spec_slot_consensus_reached() == DEFAULT_CONSENSUS_REACHED_SLOT
                && self.spec_winning_ballot().spec_is_valid() ==> self.voting_valid_result(
                current_slot,
                valid_slots_after_consensus,
            ) == Ok::<bool, TipRouterError>(false),
            self.spec_slot_consensus_reached() == DEFAULT_CONSENSUS_REACHED_SLOT
                && !self.spec_winning_ballot().spec_is_valid() ==> self.voting_valid_result(
                current_slot,
                valid_slots_after_consensus,
            ) == Ok::<bool, TipRouterError>(true),
            self.spec_slot_consensus_reached() != DEFAULT_CONSENSUS_REACHED_SLOT
                && self.spec_slot_consensus_reached() + valid_slots_after_consensus <= u64::MAX
                ==> self.voting_valid_result(current_slot, valid_slots_after_consensus) == Ok::<
                bool,
                TipRouterError,
            >(current_slot <= self.spec_slot_consensus_reached() + valid_slots_after_consensus),
            self.spec_slot_consensus_reached() != DEFAULT_CONSENSUS_REACHED_SLOT
                && self.spec_slot_consensus_reached() + valid_slots_after_consensus > u64::MAX
                ==> self.voting_valid_result(current_slot, valid_slots_after_consensus) == Err::<
                bool,
                TipRouterError,
            >(TipRouterError::ArithmeticOverflow),
    {
    }

    pub open spec fn voting_valid_result(self, current_slot: u64, valid_slots_after_consensus: u64) -> Result<
        bool,
        TipRouterError,
    > {
        if self.spec_tie_breaker_set() {
            Ok(false)
        } else if self.spec_consensus_reached() {
            if self.spec_slot_consensus_reached() + valid_slots_after_consensus > u64::MAX {
                Err(TipRouterError::ArithmeticOverflow)
            } else {
                Ok(current_slot <= self.spec_slot_consensus_reached() + valid_slots_after_consensus)
            }
        } else {
            Ok(true)
        }
    }

    /// Once voting has stalled for `epochs_before_stall` epochs without
    /// consensus, makes the ballot for `meta_merkle_root` the winner, if
    /// some operator voted for it.
    pub fn set_tie_breaker_ballot(&mut self, meta_merkle_root: &[u8; 32], current_epoch: u64, epochs_before_stall: u64) -> (r:
        Result<(), TipRouterError>)
        ensures
            old(self).spec_consensus_reached() ==> (r matches Err(e) && e == TipRouterError::ConsensusAlreadyReached),
            !old(self).spec_consensus_reached() && old(self).spec_epoch() + epochs_before_stall > u64::MAX
                ==> (r matches Err(e) && e == TipRouterError::ArithmeticOverflow),
            !old(self).spec_consensus_reached() && old(self).spec_epoch() + epochs_before_stall <= u64::MAX
                && current_epoch < old(self).spec_epoch() + epochs_before_stall ==> (r matches Err(e) && e == TipRouterError::VotingNotFinalized),
            r is Ok <==> !old(self).spec_consensus_reached() && old(self).spec_epoch() + epochs_before_stall
                <= current_epoch && root_nonzero(meta_merkle_root@) && exists|i: int|
                0 <= i < 256 && #[trigger] old(self).spec_tallies()[i].spec_ballot().spec_is_valid()
                    && old(self).spec_tallies()[i].spec_ballot().spec_root() == meta_merkle_root@,
            r is Err && !old(self).spec_consensus_reached() && old(self).spec_epoch() + epochs_before_stall
                <= current_epoch ==> (r matches Err(e) && e == TipRouterError::TieBreakerNotInPriorVotes),
            r is Ok ==> old(self).winning_set(final(self).spec_winning_ballot(), *final(self))
                && final(self).spec_winning_ballot().spec_root() == meta_merkle_root@
                && final(self).spec_winning_ballot().spec_is_valid(),
            r is Err ==> *final(self) == *old(self),
    {
        if self.is_consensus_reached() {
            return Err(TipRouterError::ConsensusAlreadyReached);
        }
        let stall_epoch = match self.epoch.checked_add(epochs_before_stall) {
            Some(e) => e,
            None => {
                return Err(TipRouterError::ArithmeticOverflow);
            },
        };
        if current_epoch < stall_epoch {
            return Err(TipRouterError::VotingNotFinalized);
        }
        let finalized_ballot = Ballot::new(meta_merkle_root);
        if !self.has_ballot(&finalized_ballot) {
            assert(!(exists|i: int|
                0 <= i < 256 && #[trigger] self.spec_tallies()[i].spec_ballot().spec_is_valid()
                    && self.spec_tallies()[i].spec_ballot().spec_root() == meta_merkle_root@)
                || !root_nonzero(meta_merkle_root@)) by {
                if root_nonzero(meta_merkle_root@) {
                    assert forall|i: int| 0 <= i < 256 && #[trigger] self.spec_tallies()[i].spec_ballot().spec_is_valid()
                        implies self.spec_tallies()[i].spec_ballot().spec_root() != meta_merkle_root@ by {
                        assert(!same_ballot(self.spec_tallies()[i].spec_ballot(), finalized_ballot));
                    }
                }
            }
            return Err(TipRouterError::TieBreakerNotInPriorVotes);
        }
        self.set_winning_ballot(&finalized_ballot);
        Ok(())
    }
}

/// Two sequences agree everywhere except perhaps at index `i`.
pub open spec fn agree_except<T>(a: Seq<T>, b: Seq<T>, i: int) -> bool {
    a.len() == b.len() && forall|j: int| 0 <= j < a.len() && j != i ==> #[trigger] a[j] == b[j]
}

impl BallotBox {
    /// `i` is the first tally for `ballot`.
    pub open spec fn first_tally_for(self, ballot: Ballot, i: int) -> bool {
        &&& 0 <= i < 256
        &&& tally_for(self.spec_tallies()[i], ballot)
        &&& forall|j: int| 0 <= j < i ==> !tally_for(#[trigger] self.spec_tallies()[j], ballot)
    }

    pub open spec fn no_tally_for(self, ballot: Ballot) -> bool {
        forall|j: int| 0 <= j < 256 ==> !tally_for(#[trigger] self.spec_tallies()[j], ballot)
    }

    /// `i` is the first free (invalid) tally.
    pub open spec fn first_free_tally(self, i: int) -> bool {
        &&& 0 <= i < 256
        &&& !self.spec_tallies()[i].spec_is_valid()
        &&& forall|j: int| 0 <= j < i ==> (#[trigger] self.spec_tallies()[j]).spec_is_valid()
    }

    pub open spec fn no_free_tally(self) -> bool {
        forall|j: int| 0 <= j < 256 ==> (#[trigger] self.spec_tallies()[j]).spec_is_valid()
    }

    /// `next` is `self` after one vote of weight `sw` for `ballot` was added
    /// to tally `idx`: the first tally for `ballot` if there is one, else a
    /// new tally in the first free place.
    pub open spec fn tallied(self, ballot: Ballot, sw: StakeWeights, next: BallotBox, idx: int) -> bool {
        &&& self.differs_only_in_tallies(next)
        &&& agree_except(self.spec_tallies(), next.spec_tallies(), idx)
        &&& {
            ||| {
                &&& self.first_tally_for(ballot, idx)
                &&& self.spec_tallies()[idx].can_increment(sw)
                &&& self.spec_tallies()[idx].incremented(sw, next.spec_tallies()[idx])
                &&& next.spec_unique_ballots() == self.spec_unique_ballots()
            }
            ||| {
                &&& self.no_tally_for(ballot)
                &&& self.first_free_tally(idx)
                &&& self.spec_unique_ballots() < u64::MAX
                &&& next.spec_tallies()[idx].spec_index() == idx as u16
                &&& next.spec_tallies()[idx].spec_ballot() == ballot
                &&& next.spec_tallies()[idx].spec_stake_weights() == sw
                &&& next.spec_tallies()[idx].spec_tally() == 1
                &&& next.spec_unique_ballots() == self.spec_unique_ballots() + 1
            }
        }
    }

    /// Whether a vote of weight `sw` for `ballot` can be tallied.
    pub open spec fn can_tally(self, ballot: Ballot, sw: StakeWeights) -> bool {
        ||| exists|i: int| self.first_tally_for(ballot, i) && self.spec_tallies()[i].can_increment(sw)
        ||| self.no_tally_for(ballot) && !self.no_free_tally() && self.spec_unique_ballots() < u64::MAX
    }

    /// Adds a vote of weight `stake_weights` for `ballot` to the first tally
    /// for it, or else starts a tally in the first free place. Returns the
    /// index of the tally.
    pub fn increment_or_create_ballot_tally(&mut self, ballot: &Ballot, stake_weights: &StakeWeights) -> (r:
        Result<usize, TipRouterError>)
        ensures
            r is Ok <==> old(self).can_tally(*ballot, *stake_weights),
            r matches Ok(idx) ==> old(self).tallied(*ballot, *stake_weights, *final(self), idx as int),
            old(self).no_tally_for(*ballot) && old(self).no_free_tally() ==> r == Err::<usize, TipRouterError>(
                TipRouterError::BallotTallyFull,
            ) && *final(self) == *old(self),
            r is Err && !(old(self).no_tally_for(*ballot) && old(self).no_free_tally()) ==> r == Err::<
                usize,
                TipRouterError,
            >(TipRouterError::ArithmeticOverflow),
            old(self).differs_only_in_tallies(*final(self)),
    {
        let mut i: usize = 0;
        while i < MAX_OPERATORS
            invariant
                0 <= i <= 256,
                self == old(self),
                self.spec_tallies().len() == 256,
                forall|j: int| 0 <= j < i ==> !tally_for(#[trigger] self.spec_tallies()[j], *ballot),
            decreases 256 - i,
        {
            let t = self.ballot_tallies[i];
            if t.is_valid() && t.ballot.same_as(ballot) {
                assert(self.first_tally_for(*ballot, i as int));
                let mut updated = t;
                let res = updated.increment_tally(stake_weights);
                self.ballot_tallies[i] = updated;
                assert(agree_except(old(self).spec_tallies(), self.spec_tallies(), i as int));
                match res {
                    Ok(()) => {
                        assert(old(self).tallied(*ballot, *stake_weights, *self, i as int));
                        return Ok(i);
                    },
                    Err(e) => {
                        assert forall|k: int| old(self).first_tally_for(*ballot, k) implies k == i by {
                            if k < i {
                                assert(!tally_for(old(self).spec_tallies()[k], *ballot));
                            }
                            if k > i {
                                assert(tally_for(old(self).spec_tallies()[i as int], *ballot));
                            }
                        }
                        return Err(e);
                    },
                }
            }
            i = i + 1;
        }
        assert(self.no_tally_for(*ballot));
        let mut i: usize = 0;
        while i < MAX_OPERATORS
            invariant
                0 <= i <= 256,
                self == old(self),
                self.spec_tallies().len() == 256,
                self.no_tally_for(*ballot),
                forall|j: int| 0 <= j < i ==> (#[trigger] self.spec_tallies()[j]).spec_is_valid(),
            decreases 256 - i,
        {
            if !self.ballot_tallies[i].is_valid() {
                assert(self.first_free_tally(i as int));
                self.ballot_tallies[i] = BallotTally::new(i as u16, ballot, stake_weights);
                assert(agree_except(old(self).spec_tallies(), self.spec_tallies(), i as int));
                match self.unique_ballots.checked_add(1) {
                    Some(u) => {
                        self.unique_ballots = u;
                        assert(old(self).tallied(*ballot, *stake_weights, *self, i as int));
                        return Ok(i);
                    },
                    None => {
                        return Err(TipRouterError::ArithmeticOverflow);
                    },
                }
            }
            i = i + 1;
        }
        Err(TipRouterError::BallotTallyFull)
    }
}


/// Whether vote slot `v` can hold the vote of `operator`: it is the
/// operator's earlier vote, or it is empty.
pub open spec fn vote_slot_for(v: OperatorVote, operator: Pubkey) -> bool {
    v.spec_operator()@ == operator@ || v.spec_is_empty()
}

impl BallotBox {
    /// `j` is the first vote slot that can hold the vote of `operator`.
    pub open spec fn first_vote_slot(self, operator: Pubkey, j: int) -> bool {
        &&& 0 <= j < 256
        &&& vote_slot_for(self.spec_votes()[j], operator)
        &&& forall|k: int| 0 <= k < j ==> !vote_slot_for(#[trigger] self.spec_votes()[k], operator)
    }

    pub open spec fn no_vote_slot(self, operator: Pubkey) -> bool {
        forall|k: int| 0 <= k < 256 ==> !vote_slot_for(#[trigger] self.spec_votes()[k], operator)
    }

    /// Whether slot `j`, which holds the operator's earlier vote, can take the
    /// new vote: no consensus yet, and the earlier vote can be taken from its tally.
    pub open spec fn can_revote(self, j: int) -> bool {
        let v = self.spec_votes()[j];
        let prev = v.spec_ballot_index() as int;
        &&& !self.spec_consensus_reached()
        &&& prev < 256 ==> {
            &&& self.spec_tallies()[prev].can_decrement(v.spec_stake_weights())
            &&& self.spec_tallies()[prev].spec_tally() == 1 ==> self.spec_unique_ballots() >= 1
        }
    }

    /// `next` is `self` after the operator's earlier vote in slot `j` was
    /// replaced: the earlier vote is taken from its tally, which is cleared
    /// when no vote is left in it.
    pub open spec fn revoted(
        self,
        j: int,
        operator: Pubkey,
        idx: int,
        sw: StakeWeights,
        slot: u64,
        next: BallotBox,
    ) -> bool {
        let v = self.spec_votes()[j];
        let prev = v.spec_ballot_index() as int;
        &&& self.differs_only_in_votes(next)
        &&& next.spec_operators_voted() == self.spec_operators_voted()
        &&& agree_except(self.spec_votes(), next.spec_votes(), j)
        &&& next.spec_votes()[j].records(idx as usize, operator, slot, sw)
        &&& prev >= 256 ==> next.spec_tallies() == self.spec_tallies() && next.spec_unique_ballots()
            == self.spec_unique_ballots()
        &&& prev < 256 ==> {
            &&& agree_except(self.spec_tallies(), next.spec_tallies(), prev)
            &&& self.spec_tallies()[prev].spec_tally() == 1 ==> next.spec_tallies()[prev].is_default()
                && next.spec_unique_ballots() == self.spec_unique_ballots() - 1
            &&& self.spec_tallies()[prev].spec_tally() != 1 ==> self.spec_tallies()[prev].decremented(
                v.spec_stake_weights(),
                next.spec_tallies()[prev],
            ) && next.spec_unique_ballots() == self.spec_unique_ballots()
        }
    }

    /// `next` is `self` after the vote was written to the empty slot `j`.
    pub open spec fn newly_voted(
        self,
        j: int,
        operator: Pubkey,
        idx: int,
        sw: StakeWeights,
        slot: u64,
        next: BallotBox,
    ) -> bool {
        &&& self.differs_only_in_votes(next)
        &&& next.spec_tallies() == self.spec_tallies()
        &&& next.spec_unique_ballots() == self.spec_unique_ballots()
        &&& next.spec_operators_voted() == self.spec_operators_voted() + 1
        &&& agree_except(self.spec_votes(), next.spec_votes(), j)
        &&& next.spec_votes()[j].records(idx as usize, operator, slot, sw)
    }

    /// Whether, after tallying, the vote of `operator` can be recorded.
    pub open spec fn can_record(self, operator: Pubkey) -> bool {
        exists|j: int|
            self.first_vote_slot(operator, j) && if self.spec_votes()[j].spec_operator()@ == operator@ {
                self.can_revote(j)
            } else {
                self.spec_operators_voted() < u64::MAX
            }
    }

    /// `next` is `self` (already tallied) after the vote was recorded.
    pub open spec fn recorded(self, operator: Pubkey, idx: int, sw: StakeWeights, slot: u64, next: BallotBox) -> bool {
        exists|j: int|
            self.first_vote_slot(operator, j) && if self.spec_votes()[j].spec_operator()@ == operator@ {
                self.revoted(j, operator, idx, sw, slot, next)
            } else {
                self.newly_voted(j, operator, idx, sw, slot, next)
            }
    }

    /// What a successful `cast_vote` does: the vote is tallied, then recorded
    /// in the operator's slot.
    pub open spec fn vote_cast(
        self,
        operator: Pubkey,
        ballot: Ballot,
        sw: StakeWeights,
        slot: u64,
        next: BallotBox,
    ) -> bool {
        exists|mid: BallotBox, idx: int|
            self.tallied(ballot, sw, mid, idx) && mid.recorded(operator, idx, sw, slot, next)
    }

    /// Whether `cast_vote` succeeds.
    pub open spec fn can_cast_vote(
        self,
        operator: Pubkey,
        ballot: Ballot,
        sw: StakeWeights,
        slot: u64,
        valid_slots_after_consensus: u64,
    ) -> bool {
        &&& self.voting_valid_result(slot, valid_slots_after_consensus) == Ok::<bool, TipRouterError>(true)
        &&& ballot.spec_is_valid()
        &&& exists|mid: BallotBox, idx: int| self.tallied(ballot, sw, mid, idx) && mid.can_record(operator)
    }

    /// Records the vote of `operator` for `ballot` with weight `stake_weights`:
    /// adds it to the ballot's tally and, when the operator voted before,
    /// takes the earlier vote from its tally.
    pub fn cast_vote(
        &mut self,
        operator: &Pubkey,
        ballot: &Ballot,
        stake_weights: &StakeWeights,
        current_slot: u64,
        valid_slots_after_consensus: u64,
    ) -> (r: Result<(), TipRouterError>)
        ensures
            r is Ok <==> old(self).can_cast_vote(
                *operator,
                *ballot,
                *stake_weights,
                current_slot,
                valid_slots_after_consensus,
            ),
            r is Ok ==> old(self).vote_cast(*operator, *ballot, *stake_weights, current_slot, *final(self)),
            old(self).voting_valid_result(current_slot, valid_slots_after_consensus) is Err ==> r == Err::<
                (),
                TipRouterError,
            >(TipRouterError::ArithmeticOverflow) && *final(self) == *old(self),
            old(self).voting_valid_result(current_slot, valid_slots_after_consensus) == Ok::<
                bool,
                TipRouterError,
            >(false) ==> r == Err::<(), TipRouterError>(TipRouterError::VotingNotValid) && *final(self)
                == *old(self),
            old(self).voting_valid_result(current_slot, valid_slots_after_consensus) == Ok::<
                bool,
                TipRouterError,
            >(true) && !ballot.spec_is_valid() ==> r == Err::<(), TipRouterError>(TipRouterError::BadBallot)
                && *final(self) == *old(self),
            old(self).voting_valid_result(current_slot, valid_slots_after_consensus) == Ok::<
                bool,
                TipRouterError,
            >(true) && ballot.spec_is_valid() && old(self).no_tally_for(*ballot) && old(self).no_free_tally()
                ==> r == Err::<(), TipRouterError>(TipRouterError::BallotTallyFull),
            forall|mid: BallotBox, idx: int|
                old(self).voting_valid_result(current_slot, valid_slots_after_consensus) == Ok::<
                    bool,
                    TipRouterError,
                >(true) && ballot.spec_is_valid() && #[trigger] old(self).tallied(
                    *ballot,
                    *stake_weights,
                    mid,
                    idx,
                ) ==> {
                    &&& mid.no_vote_slot(*operator) ==> r == Err::<(), TipRouterError>(
                        TipRouterError::OperatorVotesFull,
                    ) && *final(self) == mid
                    &&& (exists|j: int|
                        mid.first_vote_slot(*operator, j) && mid.spec_votes()[j].spec_operator()@
                            == operator@) && mid.spec_consensus_reached() ==> r == Err::<(), TipRouterError>(
                        TipRouterError::ConsensusAlreadyReached,
                    ) && *final(self) == mid
                },
            r is Err ==> r == Err::<(), TipRouterError>(TipRouterError::ArithmeticOverflow) || r == Err::<
                (),
                TipRouterError,
            >(TipRouterError::VotingNotValid) || r == Err::<(), TipRouterError>(TipRouterError::BadBallot)
                || r == Err::<(), TipRouterError>(TipRouterError::BallotTallyFull) || r == Err::<
                (),
                TipRouterError,
            >(TipRouterError::OperatorVotesFull) || r == Err::<(), TipRouterError>(
                TipRouterError::ConsensusAlreadyReached,
            ),
            old(self).differs_only_in_votes(*final(self)),
            old(self).spec_slot_consensus_reached() == DEFAULT_CONSENSUS_REACHED_SLOT
                && old(self).spec_winning_ballot().spec_is_valid() ==> r == Err::<(), TipRouterError>(
                TipRouterError::VotingNotValid,
            ) && *final(self) == *old(self),
            r == Err::<(), TipRouterError>(TipRouterError::VotingNotValid) || r == Err::<(), TipRouterError>(
                TipRouterError::BadBallot,
            ) || r == Err::<(), TipRouterError>(TipRouterError::BallotTallyFull) ==> *final(self) == *old(self),
            old(self).votes_counted() && r is Ok ==> final(self).votes_counted(),
    {
        match self.is_voting_valid(current_slot, valid_slots_after_consensus) {
            Err(e) => {
                return Err(e);
            },
            Ok(false) => {
                return Err(TipRouterError::VotingNotValid);
            },
            Ok(true) => {},
        }
        if !ballot.is_valid() {
            return Err(TipRouterError::BadBallot);
        }
        let ballot_index = self.increment_or_create_ballot_tally(ballot, stake_weights)?;
        let ghost mid = *self;
        proof {
            self.lemma_tallied_unique(*old(self), *ballot, *stake_weights, ballot_index as int);
        }
        let unique_ballots = self.unique_ballots;
        let consensus_reached = self.is_consensus_reached();
        let mut j: usize = 0;
        while j < MAX_OPERATORS
            invariant
                0 <= j <= 256,
                *self == mid,
                mid.spec_votes().len() == 256,
                mid.spec_tallies().len() == 256,
                unique_ballots == mid.spec_unique_ballots(),
                consensus_reached == mid.spec_consensus_reached(),
                old(self).differs_only_in_tallies(mid),
                old(self).voting_valid_result(current_slot, valid_slots_after_consensus) == Ok::<
                    bool,
                    TipRouterError,
                >(true),
                ballot.spec_is_valid(),
                old(self).tallied(*ballot, *stake_weights, mid, ballot_index as int),
                forall|m: BallotBox, i: int| #[trigger] old(self).tallied(*ballot, *stake_weights, m, i) ==> m == mid
                    && i == ballot_index as int,
                forall|k: int| 0 <= k < j ==> !vote_slot_for(#[trigger] mid.spec_votes()[k], *operator),
            decreases 256 - j,
        {
            let vote = self.operator_votes[j];
            if vote.operator.same_as(operator) {
                assert(mid.first_vote_slot(*operator, j as int));
                if consensus_reached {
                    return Err(TipRouterError::ConsensusAlreadyReached);
                }
                let prev = vote.ballot_index as usize;
                if prev < MAX_OPERATORS {
                    let mut prev_tally = self.ballot_tallies[prev];
                    let res = prev_tally.decrement_tally(&vote.stake_weights);
                    self.ballot_tallies[prev] = prev_tally;
                    if res.is_err() {
                        return Err(TipRouterError::ArithmeticOverflow);
                    }
                    if prev_tally.tally == 0 {
                        self.ballot_tallies[prev] = BallotTally::default();
                        match unique_ballots.checked_sub(1) {
                            Some(u) => {
                                self.unique_ballots = u;
                            },
                            None => {
                                return Err(TipRouterError::ArithmeticOverflow);
                            },
                        }
                    }
                    assert(agree_except(mid.spec_tallies(), self.spec_tallies(), prev as int));
                }
                self.operator_votes[j] = OperatorVote::new(ballot_index, operator, current_slot, stake_weights);
                assert(agree_except(mid.spec_votes(), self.spec_votes(), j as int));
                assert(mid.revoted(j as int, *operator, ballot_index as int, *stake_weights, current_slot, *self));
                proof {
                    if old(self).votes_counted() {
                        old(self).lemma_vote_cast_counted(*operator, *ballot, *stake_weights, current_slot, *self);
                    }
                }
                return Ok(());
            }
            if vote.is_empty() {
                assert(mid.first_vote_slot(*operator, j as int));
                self.operator_votes[j] = OperatorVote::new(ballot_index, operator, current_slot, stake_weights);
                assert(agree_except(mid.spec_votes(), self.spec_votes(), j as int));
                match self.operators_voted.checked_add(1) {
                    Some(o) => {
                        self.operators_voted = o;
                    },
                    None => {
                        return Err(TipRouterError::ArithmeticOverflow);
                    },
                }
                assert(mid.newly_voted(j as int, *operator, ballot_index as int, *stake_weights, current_slot, *self));
                proof {
                    if old(self).votes_counted() {
                        old(self).lemma_vote_cast_counted(*operator, *ballot, *stake_weights, current_slot, *self);
                    }
                }
                return Ok(());
            }
            j = j + 1;
        }
        Err(TipRouterError::OperatorVotesFull)
    }

    /// Ballot boxes that agree on everything but tallies and unique count,
    /// and on those too, are equal.
    proof fn lemma_tallies_ext(start: BallotBox, a: BallotBox, b: BallotBox)
        requires
            start.differs_only_in_tallies(a),
            start.differs_only_in_tallies(b),
            a.spec_tallies() == b.spec_tallies(),
            a.spec_unique_ballots() == b.spec_unique_ballots(),
        ensures
            a == b,
    {
        BallotBox::lemma_box_ext(a, b);
    }

    /// The tallying step is deterministic: one start state gives one result.
    pub proof fn lemma_tallied_unique(self, start: BallotBox, ballot: Ballot, sw: StakeWeights, idx: int)
        requires
            start.tallied(ballot, sw, self, idx),
        ensures
            forall|mid: BallotBox, i: int| #[trigger] start.tallied(ballot, sw, mid, i) ==> mid == self && i == idx,
    {
        assert forall|mid: BallotBox, i: int| #[trigger] start.tallied(ballot, sw, mid, i) implies mid == self && i
            == idx by {
            if start.first_tally_for(ballot, idx) {
                if !start.first_tally_for(ballot, i) {
                    assert(!start.no_tally_for(ballot));
                }
                if i < idx {
                    assert(tally_for(start.spec_tallies()[i], ballot));
                }
                if i > idx {
                    assert(tally_for(start.spec_tallies()[idx], ballot));
                }
            } else {
                if start.first_tally_for(ballot, i) {
                    assert(!start.no_tally_for(ballot));
                }
                if i < idx {
                    assert(!start.spec_tallies()[i].spec_is_valid());
                }
                if i > idx {
                    assert(!start.spec_tallies()[idx].spec_is_valid());
                }
            }
            assert(i == idx);
            let x = mid.spec_tallies()[idx];
            let y = self.spec_tallies()[idx];
            StakeWeights::lemma_ext(x.spec_stake_weights(), y.spec_stake_weights());
            BallotTally::lemma_ext(x, y);
            start.lemma_lengths();
            assert forall|j: int| 0 <= j < 256 implies mid.spec_tallies()[j] == self.spec_tallies()[j] by {
                if j != idx {
                    assert(mid.spec_tallies()[j] == start.spec_tallies()[j]);
                    assert(self.spec_tallies()[j] == start.spec_tallies()[j]);
                }
            }
            assert(mid.spec_tallies() =~= self.spec_tallies());
            BallotBox::lemma_tallies_ext(start, mid, self);
        }
    }
}


/// Whether a ballot with stake weight `ballot_stake_weight` out of
/// `total_stake_weight` reaches the two-thirds consensus threshold, as the
/// precise division compares them.
pub open spec fn consensus_met(ballot_stake_weight: u128, total_stake_weight: u128) -> bool {
    match spec_div(spec_new(ballot_stake_weight), spec_new(total_stake_weight)) {
        Some(v) => v >= consensus_value(),
        None => false,
    }
}

/// Consensus takes at least two thirds of the stake: a ballot with stake
/// weight `w` out of `t` reaches it exactly when `w * 10^12` is at least
/// `666_666_666_666 * t` (two thirds as spl-math rounds it down), so a ballot
/// with two thirds or more of the stake always reaches it, and one with a
/// third or less never does.
pub proof fn lemma_consensus_threshold(w: u128, t: u128)
    requires
        t > 0,
    ensures
        consensus_met(w, t) <==> w * 1_000_000_000_000 >= 666_666_666_666 * t,
        3 * w >= 2 * t ==> consensus_met(w, t),
        3 * w <= t ==> !consensus_met(w, t),
{
    let e: int = 1_000_000_000_000;
    let k: int = 666_666_666_666;
    lemma_spec_div_whole(w, t);
    lemma_spec_div_whole(2, 3);
    assert((2 * e) / 3 == k);
    assert(consensus_value() == k);
    let a: int = w * e;
    let q: int = a / (t as int);
    assert(consensus_met(w, t) <==> q >= k);
    assert(q >= k <==> a >= k * t) by (nonlinear_arith)
        requires
            t > 0,
            a >= 0,
            q == a / (t as int),
    ;
    assert(3 * w >= 2 * t ==> a >= k * t) by (nonlinear_arith)
        requires
            a == w * e,
            e == 1_000_000_000_000,
            k == 666_666_666_666,
            t > 0,
    ;
    assert(3 * w <= t ==> a < k * t) by (nonlinear_arith)
        requires
            a == w * e,
            e == 1_000_000_000_000,
            k == 666_666_666_666,
            t > 0,
    ;
}

impl BallotBox {
    /// `i` is the last tally with the largest total stake weight.
    pub open spec fn is_max_tally(self, i: int) -> bool {
        &&& 0 <= i < 256
        &&& forall|j: int|
            0 <= j < 256 ==> (#[trigger] self.spec_tallies()[j]).spec_stake_weights().total()
                <= self.spec_tallies()[i].spec_stake_weights().total()
        &&& forall|j: int|
            i < j < 256 ==> (#[trigger] self.spec_tallies()[j]).spec_stake_weights().total()
                < self.spec_tallies()[i].spec_stake_weights().total()
    }

    /// The result of counting the votes against `total_stake_weight`.
    pub open spec fn tallied_votes(self, total_stake_weight: u128, current_slot: u64, next: BallotBox) -> bool {
        &&& self.differs_only_in_consensus(next)
        &&& forall|i: int| #[trigger] self.is_max_tally(i) ==> {
            let t = self.spec_tallies()[i];
            if consensus_met(t.spec_stake_weights().total(), total_stake_weight)
                && !self.spec_winning_ballot().spec_is_valid() {
                &&& next.spec_slot_consensus_reached() == current_slot
                &&& next.spec_winning_ballot() == t.spec_ballot()
            } else {
                next == self
            }
        }
    }

    /// Counts the votes: when consensus was not reached before, and the tally
    /// with the most stake weight (the last of them, on a tie) has at least
    /// two thirds of `total_stake_weight`, its ballot wins at `current_slot`.
    pub fn tally_votes(&mut self, total_stake_weight: u128, current_slot: u64) -> (r: Result<(), TipRouterError>)
        ensures
            old(self).spec_slot_consensus_reached() != DEFAULT_CONSENSUS_REACHED_SLOT ==> r is Ok && *final(self)
                == *old(self),
            old(self).spec_slot_consensus_reached() == DEFAULT_CONSENSUS_REACHED_SLOT && total_stake_weight
                == 0 ==> r == Err::<(), TipRouterError>(TipRouterError::DenominatorIsZero) && *final(self)
                == *old(self),
            old(self).spec_slot_consensus_reached() == DEFAULT_CONSENSUS_REACHED_SLOT && total_stake_weight
                > 0 ==> r is Ok && old(self).tallied_votes(total_stake_weight, current_slot, *final(self)),
            forall|i: int|
                #![trigger old(self).is_max_tally(i)]
                old(self).spec_slot_consensus_reached() == DEFAULT_CONSENSUS_REACHED_SLOT && total_stake_weight > 0
                    && !old(self).spec_winning_ballot().spec_is_valid() && old(self).is_max_tally(i)
                    && old(self).spec_tallies()[i].spec_stake_weights().total() * 1_000_000_000_000
                    >= 666_666_666_666 * total_stake_weight ==> final(self).spec_slot_consensus_reached()
                    == current_slot && final(self).spec_winning_ballot() == old(self).spec_tallies()[i].spec_ballot(),
            forall|i: int|
                #![trigger old(self).is_max_tally(i)]
                old(self).spec_slot_consensus_reached() == DEFAULT_CONSENSUS_REACHED_SLOT && total_stake_weight > 0
                    && old(self).is_max_tally(i) && old(self).spec_tallies()[i].spec_stake_weights().total()
                    * 1_000_000_000_000 < 666_666_666_666 * total_stake_weight ==> *final(self) == *old(self),
            *final(self) != *old(self) ==> exists|i: int|
                0 <= i < 256 && final(self).spec_winning_ballot() == #[trigger] old(self).spec_tallies()[i].spec_ballot()
                    && final(self).spec_slot_consensus_reached() == current_slot
                    && old(self).spec_tallies()[i].spec_stake_weights().total() * 1_000_000_000_000
                    >= 666_666_666_666 * total_stake_weight && (forall|j: int|
                    0 <= j < 256 ==> (#[trigger] old(self).spec_tallies()[j]).spec_stake_weights().total()
                        <= old(self).spec_tallies()[i].spec_stake_weights().total()) && (forall|j: int|
                    i < j < 256 ==> (#[trigger] old(self).spec_tallies()[j]).spec_stake_weights().total()
                        < old(self).spec_tallies()[i].spec_stake_weights().total()),
    {
        if self.slot_consensus_reached != DEFAULT_CONSENSUS_REACHED_SLOT {
            return Ok(());
        }
        let mut best: usize = 0;
        let mut i: usize = 1;
        while i < MAX_OPERATORS
            invariant
                1 <= i <= 256,
                best < i,
                self.spec_tallies().len() == 256,
                forall|j: int|
                    0 <= j < i ==> (#[trigger] self.spec_tallies()[j]).spec_stake_weights().total()
                        <= self.spec_tallies()[best as int].spec_stake_weights().total(),
                forall|j: int|
                    best < j < i ==> (#[trigger] self.spec_tallies()[j]).spec_stake_weights().total()
                        < self.spec_tallies()[best as int].spec_stake_weights().total(),
            decreases 256 - i,
        {
            if self.ballot_tallies[i].stake_weights.stake_weight() >= self.ballot_tallies[best].stake_weights.stake_weight() {
                best = i;
            }
            i = i + 1;
        }
        assert(self.is_max_tally(best as int));
        assert forall|k: int| #[trigger] self.is_max_tally(k) implies k == best as int by {
            if k < best {
                assert(self.spec_tallies()[best as int].spec_stake_weights().total()
                    <= self.spec_tallies()[k].spec_stake_weights().total());
            }
            if k > best {
                assert(self.spec_tallies()[k].spec_stake_weights().total()
                    <= self.spec_tallies()[best as int].spec_stake_weights().total());
            }
        }
        let max_tally = self.ballot_tallies[best];
        let ballot_stake_weight = max_tally.stake_weights.stake_weight();
        proof {
            if total_stake_weight > 0 {
                lemma_consensus_threshold(ballot_stake_weight, total_stake_weight);
            }
        }
        let precise_ballot_stake_weight = match precise_new(ballot_stake_weight) {
            Some(p) => p,
            None => {
                return Err(TipRouterError::NewPreciseNumberError);
            },
        };
        let precise_total_stake_weight = match precise_new(total_stake_weight) {
            Some(p) => p,
            None => {
                return Err(TipRouterError::NewPreciseNumberError);
            },
        };
        proof {
            lemma_precise_ratio_fits(ballot_stake_weight);
        }
        let ballot_percentage_of_total = match precise_checked_div(
            &precise_ballot_stake_weight,
            &precise_total_stake_weight,
        ) {
            Some(p) => p,
            None => {
                return Err(TipRouterError::DenominatorIsZero);
            },
        };
        let target_precise_percentage = match precise_consensus() {
            Ok(p) => p,
            Err(e) => {
                return Err(e);
            },
        };
        let consensus_reached = precise_greater_than_or_equal(
            &ballot_percentage_of_total,
            &target_precise_percentage,
        );
        let ghost before = *self;
        if consensus_reached && !self.winning_ballot.is_valid() {
            self.slot_consensus_reached = current_slot;
            self.set_winning_ballot(&max_tally.ballot);
            proof {
                assert(consensus_met(ballot_stake_weight, total_stake_weight));
                assert(self.spec_winning_ballot() == before.spec_tallies()[best as int].spec_ballot());
                assert(before.is_max_tally(best as int));
            }
        }
        Ok(())
    }
}

/// A stake weight scaled twice by 10^12, plus the rounding half, stays below
/// 2^256, so the precise division of two stake weights never overflows.
pub proof fn lemma_precise_ratio_fits(w: u128)
    ensures
        spec_new(w) * precise_one() + precise_one() / 2 < u256_bound(),
        spec_new(w) * precise_one() < u256_bound(),
{
    assert(w * 1_000_000_000_000nat * 1_000_000_000_000nat + 500_000_000_000nat
        < 0x1_0000_0000_0000_0000_0000_0000_0000_0000_0000_0000_0000_0000_0000_0000_0000_0000_0000_0000_0000_0000nat)
        by (nonlinear_arith)
        requires
            w <= 0xffff_ffff_ffff_ffff_ffff_ffff_ffff_ffff,
    ;
}

/// The seeds of the address of an NCN's ballot box for an epoch.
pub open spec fn ballot_box_seeds(ncn: Seq<u8>, epoch: u64) -> Seq<Seq<u8>> {
    seq!["ballot_box".spec_bytes(), ncn, le_bytes(epoch as nat, 8)]
}

impl BallotBox {
    pub fn seeds(ncn: &Pubkey, epoch: u64) -> (s: Vec<Vec<u8>>)
        ensures
            s.deep_view() == ballot_box_seeds(ncn@, epoch),
    {
        let s = seed_list(vec![tag_bytes("ballot_box"), ncn.to_byte_vec(), u64_to_le_bytes(epoch)]);
        assert(s.deep_view() =~= ballot_box_seeds(ncn@, epoch));
        s
    }

    /// The ballot box's address, bump seed and seeds; `None` where no bump
    /// seed gives an address.
    pub fn find_program_address(program_id: &Pubkey, ncn: &Pubkey, epoch: u64) -> (r: Option<
        (Pubkey, u8, Vec<Vec<u8>>),
    >)
        ensures
            address_with_seeds(ballot_box_seeds(ncn@, epoch), program_id@, r),
    {
        find_address(Self::seeds(ncn, epoch), program_id)
    }

    /// Checks that `account` is the ballot box of `ncn` for `epoch`.
    pub fn load(program_id: &Pubkey, account: &AccountView, ncn: &Pubkey, epoch: u64, expect_writable: bool) -> (r:
        Result<(), ProgramError>)
        ensures
            r == load_at(
                ballot_box_seeds(ncn@, epoch),
                program_id@,
                program_id@,
                *account,
                Some(discriminator_value(Discriminators::BallotBox)),
                expect_writable,
            ),
    {
        let seeds = Self::seeds(ncn, epoch);
        check_load_at(&seeds, program_id, program_id, account, Some(Discriminators::BallotBox.value()), expect_writable)
    }

    /// Checks that `account_to_close` is the ballot box to close: writable.
    pub fn load_to_close(program_id: &Pubkey, account_to_close: &AccountView, ncn: &Pubkey, epoch: u64) -> (r:
        Result<(), ProgramError>)
        ensures
            r == load_at(
                ballot_box_seeds(ncn@, epoch),
                program_id@,
                program_id@,
                *account_to_close,
                Some(discriminator_value(Discriminators::BallotBox)),
                true,
            ),
    {
        Self::load(program_id, account_to_close, ncn, epoch, true)
    }
}

/// Whether vote `v` is a vote for the tally at index `i`.
pub open spec fn votes_at(i: int) -> spec_fn(OperatorVote) -> bool {
    |v: OperatorVote| !v.spec_is_empty() && v.spec_ballot_index() == i
}

/// Whether vote `v` is a vote at all.
pub open spec fn is_cast() -> spec_fn(OperatorVote) -> bool {
    |v: OperatorVote| !v.spec_is_empty()
}

/// Whether tally `t` is live.
pub open spec fn is_live() -> spec_fn(BallotTally) -> bool {
    |t: BallotTally| t.spec_is_valid()
}

impl BallotBox {
    /// The votes are counted in the tallies: each live tally sits at its own
    /// index and counts the votes for it, each vote is for a live tally, and
    /// the counts of voters and of unique ballots are within the votes cast
    /// and the live tallies.
    pub open spec fn votes_counted(self) -> bool {
        &&& self.spec_votes().len() == 256
        &&& self.spec_tallies().len() == 256
        &&& self.spec_operators_voted() <= count_where(self.spec_votes(), is_cast())
        &&& self.spec_unique_ballots() <= count_where(self.spec_tallies(), is_live())
        &&& forall|i: int|
            0 <= i < 256 && (#[trigger] self.spec_tallies()[i]).spec_is_valid() ==> {
                &&& self.spec_tallies()[i].spec_index() == i
                &&& self.spec_tallies()[i].spec_tally() == count_where(self.spec_votes(), votes_at(i))
            }
        &&& forall|k: int|
            0 <= k < 256 && !(#[trigger] self.spec_votes()[k]).spec_is_empty() ==> {
                &&& self.spec_votes()[k].spec_ballot_index() < 256
                &&& self.spec_tallies()[self.spec_votes()[k].spec_ballot_index() as int].spec_is_valid()
            }
    }

    /// Where the votes are counted, at most 256 operators voted and at most
    /// 256 ballots are held.
    pub proof fn lemma_votes_counted_bounds(self)
        requires
            self.votes_counted(),
        ensures
            self.spec_operators_voted() <= 256,
            self.spec_unique_ballots() <= 256,
    {
        lemma_count_bound(self.spec_votes(), is_cast());
        lemma_count_bound(self.spec_tallies(), is_live());
    }

    /// A fresh ballot box counts its votes.
    pub proof fn lemma_fresh_votes_counted(self, ncn: Pubkey, epoch: u64, bump: u8, current_slot: u64)
        requires
            self.is_fresh(ncn, epoch, bump, current_slot),
        ensures
            self.votes_counted(),
    {
        self.lemma_lengths();
        assert forall|i: int| 0 <= i < 256 && (#[trigger] self.spec_tallies()[i]).spec_is_valid() implies false by {
            assert(self.spec_tallies()[i].is_default());
        }
        assert forall|k: int| 0 <= k < 256 && !(#[trigger] self.spec_votes()[k]).spec_is_empty() implies false by {
            assert(self.spec_votes()[k].is_default());
        }
    }

    /// A vote cast keeps the votes counted in the tallies.
    pub proof fn lemma_vote_cast_counted(
        self,
        operator: Pubkey,
        ballot: Ballot,
        sw: StakeWeights,
        slot: u64,
        next: BallotBox,
    )
        requires
            self.votes_counted(),
            ballot.spec_is_valid(),
            self.vote_cast(operator, ballot, sw, slot, next),
        ensures
            next.votes_counted(),
    {
        let (mid, idx) = choose|mid: BallotBox, idx: int|
            self.tallied(ballot, sw, mid, idx) && mid.recorded(operator, idx, sw, slot, next);
        let j = choose|j: int|
            mid.first_vote_slot(operator, j) && if mid.spec_votes()[j].spec_operator()@ == operator@ {
                mid.revoted(j, operator, idx, sw, slot, next)
            } else {
                mid.newly_voted(j, operator, idx, sw, slot, next)
            };
        mid.lemma_lengths();
        next.lemma_lengths();
        let tt = self.spec_tallies();
        let mt = mid.spec_tallies();
        let nt = next.spec_tallies();
        let v = mid.spec_votes();
        let w = next.spec_votes();
        assert(v == self.spec_votes());
        let old_vote = v[j];
        let new_vote = w[j];
        assert(w =~= v.update(j, new_vote));
        assert(new_vote.spec_ballot_index() == idx);
        assert(!new_vote.spec_is_empty());
        // The tally step.
        assert(mt =~= tt.update(idx, mt[idx]));
        lemma_count_update(tt, is_live(), idx, mt[idx]);
        if !self.first_tally_for(ballot, idx) {
            assert(!tt[idx].spec_is_valid());
            assert forall|k: int| 0 <= k < 256 implies !#[trigger] votes_at(idx)(v[k]) by {
                if !v[k].spec_is_empty() {
                    assert(tt[v[k].spec_ballot_index() as int].spec_is_valid());
                }
            }
            lemma_count_zero(v, votes_at(idx));
        }
        assert(mt[idx].spec_is_valid());
        assert(mt[idx].spec_index() == idx);
        assert(mt[idx].spec_tally() == count_where(v, votes_at(idx)) + 1);
        // The vote step.
        lemma_count_update(v, is_cast(), j, new_vote);
        assert forall|i: int| 0 <= i < 256 implies count_where(w, #[trigger] votes_at(i)) + (if votes_at(i)(old_vote) {
            1int
        } else {
            0int
        }) == count_where(v, votes_at(i)) + (if i == idx {
            1int
        } else {
            0int
        }) by {
            lemma_count_update(v, votes_at(i), j, new_vote);
        }
        if mid.spec_votes()[j].spec_operator()@ == operator@ {
            let prev = old_vote.spec_ballot_index() as int;
            if prev < 256 {
                assert(!old_vote.spec_is_empty());
                assert(tt[prev].spec_is_valid());
                assert(votes_at(prev)(old_vote));
                if mt[prev].spec_tally() == 1 {
                    assert(prev != idx) by {
                        if prev == idx {
                            lemma_count_zero(v, votes_at(idx));
                        }
                    }
                    assert(nt =~= mt.update(prev, nt[prev]));
                    lemma_count_update(mt, is_live(), prev, nt[prev]);
                    assert(count_where(w, votes_at(prev)) == 0);
                    lemma_count_zero(w, votes_at(prev));
                    assert forall|k: int| 0 <= k < 256 && !(#[trigger] w[k]).spec_is_empty() implies {
                        &&& w[k].spec_ballot_index() < 256
                        &&& nt[w[k].spec_ballot_index() as int].spec_is_valid()
                    } by {
                        if k != j {
                            assert(w[k] == v[k]);
                            assert(!votes_at(prev)(w[k]));
                        }
                    }
                } else {
                    assert(nt =~= mt.update(prev, nt[prev]));
                    lemma_count_update(mt, is_live(), prev, nt[prev]);
                    assert forall|k: int| 0 <= k < 256 && !(#[trigger] w[k]).spec_is_empty() implies {
                        &&& w[k].spec_ballot_index() < 256
                        &&& nt[w[k].spec_ballot_index() as int].spec_is_valid()
                    } by {
                        if k != j {
                            assert(w[k] == v[k]);
                        }
                    }
                }
            } else {
                assert(old_vote.spec_is_empty());
                assert forall|k: int| 0 <= k < 256 && !(#[trigger] w[k]).spec_is_empty() implies {
                    &&& w[k].spec_ballot_index() < 256
                    &&& nt[w[k].spec_ballot_index() as int].spec_is_valid()
                } by {
                    if k != j {
                        assert(w[k] == v[k]);
                    }
                }
            }
        } else {
            assert(old_vote.spec_is_empty());
            assert forall|k: int| 0 <= k < 256 && !(#[trigger] w[k]).spec_is_empty() implies {
                &&& w[k].spec_ballot_index() < 256
                &&& nt[w[k].spec_ballot_index() as int].spec_is_valid()
            } by {
                if k != j {
                    assert(w[k] == v[k]);
                }
            }
        }
        assert forall|i: int| 0 <= i < 256 && (#[trigger] nt[i]).spec_is_valid() implies {
            &&& nt[i].spec_index() == i
            &&& nt[i].spec_tally() == count_where(w, votes_at(i))
        } by {
            assert(count_where(w, votes_at(i)) + (if votes_at(i)(old_vote) { 1int } else { 0int })
                == count_where(v, votes_at(i)) + (if i == idx { 1int } else { 0int }));
            if i != idx {
                assert(mt[i] == tt[i]);
            }
        }
    }
}

} // verus!
