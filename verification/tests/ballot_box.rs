use tip_router::ballot_box::{Ballot, BallotBox};
use std::collections::HashMap;

use tip_router::constants::{DEFAULT_CONSENSUS_REACHED_SLOT, MAX_OPERATORS};
use tip_router::error::TipRouterError;
use tip_router::pubkey::Pubkey;
use tip_router::stake_weight::StakeWeights;

fn unique_key() -> Pubkey {
    Pubkey::new_from_array(solana_program::pubkey::Pubkey::new_unique().to_bytes())
}

fn assert_tip_router_error<T>(test_error: Result<T, TipRouterError>, tip_router_error: TipRouterError) {
    assert!(test_error.is_err());
    assert_eq!(test_error.err().unwrap(), tip_router_error);
}



#[test]
fn test_cast_vote() {
    let ncn = unique_key();
    let operator = unique_key();
    let current_slot = 100;
    let epoch = 1;
    let stake_weights = StakeWeights::new(1000);
    let valid_slots_after_consensus = 10;
    let mut ballot_box = BallotBox::new(&ncn, epoch, 0, current_slot);
    let ballot = Ballot::new(&[1; 32]);

    // Test initial cast vote
    ballot_box
        .cast_vote(
            &operator,
            &ballot,
            &stake_weights,
            current_slot,
            valid_slots_after_consensus,
        )
        .unwrap();

    // Verify vote was recorded correctly
    let operator_vote = ballot_box
        .operator_votes()
        .iter()
        .find(|v| v.operator().eq(&operator))
        .unwrap();
    assert_eq!(
        operator_vote.stake_weights().stake_weight(),
        stake_weights.stake_weight()
    );
    assert_eq!(operator_vote.slot_voted(), current_slot);

    // Verify ballot tally
    let tally = ballot_box
        .ballot_tallies()
        .iter()
        .find(|t| t.ballot().eq(&ballot))
        .unwrap();
    assert_eq!(
        tally.stake_weights().stake_weight(),
        stake_weights.stake_weight()
    );

    // Test re-vote with different ballot
    let new_ballot = Ballot::new(&[2u8; 32]);
    let new_slot = current_slot + 1;
    ballot_box
        .cast_vote(
            &operator,
            &new_ballot,
            &stake_weights,
            new_slot,
            valid_slots_after_consensus,
        )
        .unwrap();

    // Verify new ballot tally increased
    let new_tally = ballot_box
        .ballot_tallies()
        .iter()
        .find(|t| t.ballot().eq(&new_ballot))
        .unwrap();
    assert_eq!(
        new_tally.stake_weights().stake_weight(),
        stake_weights.stake_weight()
    );

    // Test error on changing vote after consensus
    let winning_ballot = *new_tally.ballot();
    ballot_box.set_winning_ballot(&winning_ballot);
    ballot_box.slot_consensus_reached = new_slot;
    let result = ballot_box.cast_vote(
        &operator,
        &ballot,
        &stake_weights,
        new_slot + 1,
        valid_slots_after_consensus,
    );
    assert!(matches!(
        result,
        Err(TipRouterError::ConsensusAlreadyReached)
    ));

    // Test voting window expired after consensus
    let result = ballot_box.cast_vote(
        &operator,
        &ballot,
        &stake_weights,
        new_slot + valid_slots_after_consensus + 1,
        valid_slots_after_consensus,
    );
    assert!(matches!(result, Err(TipRouterError::VotingNotValid)));
}

#[test]
fn test_get_winning_ballot() {
    // Create a new ballot box (should have no winning ballot)
    let ballot_box = BallotBox::new(&Pubkey::default(), 0, 0, 0);

    // Test with no winning ballot initialized
    let result = ballot_box.get_winning_ballot();
    assert_eq!(
        result,
        Err(TipRouterError::ConsensusNotReached),
        "Should return ConsensusNotReached when no winning ballot is set"
    );

    // Create a new ballot box and set a winning ballot
    let mut ballot_box = BallotBox::new(&Pubkey::default(), 0, 0, 0);
    let expected_ballot = Ballot::new(&[1; 32]);
    ballot_box.set_winning_ballot(&expected_ballot);

    // Test with winning ballot set
    let result = ballot_box.get_winning_ballot();
    assert!(result.is_ok(), "Should succeed when winning ballot is set");
    assert_eq!(
        result.unwrap(),
        &expected_ballot,
        "Should return the correct winning ballot"
    );
}

#[test]
fn test_operator_votes_full() {
    let current_slot = 100;
    let epoch = 1;
    let valid_slots_after_consensus = 10;
    let mut ballot_box = BallotBox::new(&Pubkey::default(), epoch, 0, current_slot);
    let ballot = Ballot::new(&[1; 32]);
    let stake_weights = StakeWeights::new(1000);

    // Fill up all operator vote slots (MAX_OPERATORS = 256)
    for _ in 0..MAX_OPERATORS {
        let operator = unique_key();
        let result = ballot_box.cast_vote(
            &operator,
            &ballot,
            &stake_weights,
            current_slot,
            valid_slots_after_consensus,
        );
        assert!(result.is_ok(), "Vote should succeed when slots available");
    }

    // Try to add one more vote, which should fail
    let extra_operator = unique_key();
    let result = ballot_box.cast_vote(
        &extra_operator,
        &ballot,
        &stake_weights,
        current_slot,
        valid_slots_after_consensus,
    );
    assert_eq!(
        result,
        Err(TipRouterError::OperatorVotesFull),
        "Should return OperatorVotesFull when no slots available"
    );
}

#[test]
fn test_increment_or_create_ballot_tally() {
    let mut ballot_box = BallotBox::new(&unique_key(), 1, 1, 1);
    let ballot = Ballot::new(&[1u8; 32]);
    let stake_weights = StakeWeights::new(100);

    // Test creating new ballot tally
    let tally_index = ballot_box
        .increment_or_create_ballot_tally(&ballot, &stake_weights)
        .unwrap();
    assert_eq!(tally_index, 0);
    assert_eq!(ballot_box.unique_ballots(), 1);
    assert_eq!(
        ballot_box.ballot_tallies()[0].stake_weights().stake_weight(),
        stake_weights.stake_weight()
    );
    assert_eq!(*ballot_box.ballot_tallies()[0].ballot(), ballot);

    // Test incrementing existing ballot tally
    let tally_index = ballot_box
        .increment_or_create_ballot_tally(&ballot, &stake_weights)
        .unwrap();
    assert_eq!(tally_index, 0);
    assert_eq!(ballot_box.unique_ballots(), 1);
    assert_eq!(
        ballot_box.ballot_tallies()[0].stake_weights().stake_weight(),
        stake_weights.stake_weight() * 2
    );
    assert_eq!(*ballot_box.ballot_tallies()[0].ballot(), ballot);

    // Test creating second ballot tally
    let ballot2 = Ballot::new(&[2u8; 32]);
    let tally_index = ballot_box
        .increment_or_create_ballot_tally(&ballot2, &stake_weights)
        .unwrap();
    assert_eq!(tally_index, 1);
    assert_eq!(ballot_box.unique_ballots(), 2);
    assert_eq!(
        ballot_box.ballot_tallies()[1].stake_weights().stake_weight(),
        stake_weights.stake_weight()
    );
    assert_eq!(*ballot_box.ballot_tallies()[1].ballot(), ballot2);

    // Test error when ballot tallies are full
    for _ in 3..=ballot_box.ballot_tallies().len() {
        let ballot = Ballot::new(&unique_key().to_bytes());
        ballot_box
            .increment_or_create_ballot_tally(&ballot, &stake_weights)
            .unwrap();
    }
    let ballot_full = Ballot::new(&unique_key().to_bytes());
    let result = ballot_box.increment_or_create_ballot_tally(&ballot_full, &stake_weights);
    assert!(matches!(result, Err(TipRouterError::BallotTallyFull)));
}

#[test]
fn test_tally_votes() {
    let ncn = unique_key();
    let current_slot = 100;
    let epoch = 1;
    let quarter_stake_weights = StakeWeights::new(500);
    let half_stake_weights = StakeWeights::new(500);
    let full_stake_weights = StakeWeights::new(1000);
    let total_stake_weight: u128 = 1000;
    let mut ballot_box = BallotBox::new(&ncn, epoch, 0, current_slot);
    let ballot = Ballot::new(&[1; 32]);

    // Test no consensus when below threshold
    ballot_box
        .increment_or_create_ballot_tally(&ballot, &half_stake_weights)
        .unwrap();
    ballot_box
        .tally_votes(total_stake_weight, current_slot)
        .unwrap();
    assert!(!ballot_box.is_consensus_reached());
    assert_eq!(
        ballot_box.slot_consensus_reached(),
        DEFAULT_CONSENSUS_REACHED_SLOT
    );
    assert!(matches!(
        ballot_box.get_winning_ballot_tally(),
        Err(TipRouterError::ConsensusNotReached)
    ));

    // Test consensus reached when above threshold
    ballot_box
        .increment_or_create_ballot_tally(&ballot, &half_stake_weights)
        .unwrap();
    ballot_box
        .tally_votes(total_stake_weight, current_slot)
        .unwrap();
    assert!(ballot_box.is_consensus_reached());
    assert_eq!(ballot_box.slot_consensus_reached(), current_slot);
    assert_eq!(
        *ballot_box.get_winning_ballot_tally().unwrap().ballot(),
        ballot
    );

    // Consensus remains after additional votes
    let ballot2 = Ballot::new(&[2; 32]);
    ballot_box
        .increment_or_create_ballot_tally(&ballot2, &full_stake_weights)
        .unwrap();
    ballot_box
        .tally_votes(total_stake_weight, current_slot + 1)
        .unwrap();
    assert!(ballot_box.is_consensus_reached());
    assert_eq!(ballot_box.slot_consensus_reached(), current_slot);
    assert_eq!(
        *ballot_box.get_winning_ballot_tally().unwrap().ballot(),
        ballot
    );

    // Test with multiple competing ballots
    let mut ballot_box = BallotBox::new(&ncn, epoch, 0, current_slot);
    let ballot1 = Ballot::new(&[1; 32]);
    let ballot2 = Ballot::new(&[2; 32]);
    let ballot3 = Ballot::new(&[3; 32]);

    ballot_box
        .increment_or_create_ballot_tally(&ballot1, &quarter_stake_weights)
        .unwrap();
    ballot_box
        .increment_or_create_ballot_tally(&ballot2, &quarter_stake_weights)
        .unwrap();
    ballot_box
        .increment_or_create_ballot_tally(&ballot3, &half_stake_weights)
        .unwrap();

    ballot_box
        .tally_votes(total_stake_weight, current_slot)
        .unwrap();
    assert!(!ballot_box.is_consensus_reached());

    // Add more votes to reach consensus
    ballot_box
        .increment_or_create_ballot_tally(&ballot3, &half_stake_weights)
        .unwrap();
    ballot_box
        .tally_votes(total_stake_weight, current_slot)
        .unwrap();
    assert!(ballot_box.is_consensus_reached());
    assert_eq!(
        *ballot_box.get_winning_ballot_tally().unwrap().ballot(),
        ballot3
    );
}

#[test]
fn test_cast_bad_ballot() {
    let ncn = unique_key();
    let current_slot = 100;
    let epoch = 1;
    let valid_slots_after_consensus = 10;
    let stake_weight_per_operator = 1000;
    let mut ballot_box = BallotBox::new(&ncn, epoch, 0, current_slot);

    let operator1 = unique_key();

    let stake_weights = StakeWeights::new(stake_weight_per_operator);
    let ballot1 = Ballot::new(&[0; 32]);

    // Operator 1 votes for ballot1 initially
    let result = ballot_box.cast_vote(
        &operator1,
        &ballot1,
        &stake_weights,
        current_slot,
        valid_slots_after_consensus,
    );

    assert_tip_router_error(result, TipRouterError::BadBallot);
}

#[test]
fn test_multiple_operators_converging_votes() {
    let ncn = unique_key();
    let current_slot = 100;
    let epoch = 1;
    let valid_slots_after_consensus = 10;
    let stake_weight_per_operator = 1000;
    let total_stake_weight = stake_weight_per_operator * 3;
    let mut ballot_box = BallotBox::new(&ncn, epoch, 0, current_slot);

    let operator1 = unique_key();
    let operator2 = unique_key();
    let operator3 = unique_key();

    let stake_weights = StakeWeights::new(stake_weight_per_operator);
    let ballot1 = Ballot::new(&[1; 32]);
    let ballot2 = Ballot::new(&[2; 32]);

    // Operator 1 votes for ballot1 initially
    ballot_box
        .cast_vote(
            &operator1,
            &ballot1,
            &stake_weights,
            current_slot,
            valid_slots_after_consensus,
        )
        .unwrap();

    assert_eq!(ballot_box.unique_ballots(), 1);

    // Operator 1 changes vote to ballot2
    ballot_box
        .cast_vote(
            &operator1,
            &ballot2,
            &stake_weights,
            current_slot + 1,
            valid_slots_after_consensus,
        )
        .unwrap();

    // Ballot1 should be removed and ballot2 should be the only ballot
    assert_eq!(ballot_box.unique_ballots(), 1);

    // Operator 2 votes for ballot2
    ballot_box
        .cast_vote(
            &operator2,
            &ballot2,
            &stake_weights,
            current_slot + 2,
            valid_slots_after_consensus,
        )
        .unwrap();
    assert_eq!(ballot_box.unique_ballots(), 1);

    // Operator 3 votes for ballot2
    ballot_box
        .cast_vote(
            &operator3,
            &ballot2,
            &stake_weights,
            current_slot + 3,
            valid_slots_after_consensus,
        )
        .unwrap();

    // Still only one unique ballot
    assert_eq!(ballot_box.unique_ballots(), 1);

    // Check total stake weight
    let winning_tally = ballot_box
        .ballot_tallies()
        .iter()
        .find(|t| t.ballot().eq(&ballot2))
        .unwrap();

    assert_eq!(
        winning_tally.stake_weights().stake_weight(),
        total_stake_weight as u128
    );
    assert_eq!(winning_tally.tally(), 3);

    // Verify ballot2 wins consensus with all votes
    ballot_box
        .tally_votes(total_stake_weight as u128, current_slot + 4)
        .unwrap();
    assert!(ballot_box.has_winning_ballot());
    assert_eq!(*ballot_box.get_winning_ballot().unwrap(), ballot2);
}

#[test]
fn test_set_tie_breaker_ballot() {
    let ncn = unique_key();
    let epoch = 0;
    let current_slot = 1000;
    let mut ballot_box = BallotBox::new(&ncn, epoch, 0, current_slot);

    // Create some initial ballots
    let ballot1 = Ballot::new(&[1; 32]);
    let ballot2 = Ballot::new(&[2; 32]);
    let stake_weights = StakeWeights::new(100);
    let double_stake_weights = StakeWeights::new(200);

    ballot_box
        .increment_or_create_ballot_tally(&ballot1, &stake_weights)
        .unwrap();
    ballot_box
        .increment_or_create_ballot_tally(&ballot2, &stake_weights)
        .unwrap();

    // Test setting tie breaker before voting is stalled
    let current_epoch = epoch + 1;
    let epochs_before_stall = 3;

    assert_eq!(
        ballot_box.set_tie_breaker_ballot(&ballot1.root(), current_epoch, epochs_before_stall),
        Err(TipRouterError::VotingNotFinalized)
    );

    // Test setting tie breaker after voting is stalled (current_epoch >= epoch + epochs_before_stall)
    let current_epoch = epoch + epochs_before_stall;
    ballot_box
        .set_tie_breaker_ballot(&ballot1.root(), current_epoch, epochs_before_stall)
        .unwrap();
    assert!(ballot_box.is_consensus_reached());
    assert_eq!(
        *ballot_box.get_winning_ballot_tally().unwrap().ballot(),
        ballot1
    );

    // Test setting tie breaker with invalid merkle root
    let mut ballot_box = BallotBox::new(&ncn, epoch, 0, current_slot);
    ballot_box
        .increment_or_create_ballot_tally(&ballot1, &stake_weights)
        .unwrap();
    assert_eq!(
        ballot_box.set_tie_breaker_ballot(&[99; 32], current_epoch, epochs_before_stall),
        Err(TipRouterError::TieBreakerNotInPriorVotes)
    );

    // Test setting tie breaker when consensus already reached
    let mut ballot_box = BallotBox::new(&ncn, epoch, 0, current_slot);
    ballot_box
        .increment_or_create_ballot_tally(&ballot1, &double_stake_weights)
        .unwrap();
    ballot_box
        .tally_votes(double_stake_weights.stake_weight(), current_slot)
        .unwrap();
    assert!(ballot_box.is_consensus_reached());
    assert_eq!(
        ballot_box.set_tie_breaker_ballot(&ballot1.root(), current_epoch, epochs_before_stall),
        Err(TipRouterError::ConsensusAlreadyReached)
    );
}

#[test]
fn test_cast_vote_stake_weight_accounting() {
    let ncn = unique_key();
    let operator = unique_key();
    let current_slot = 100;
    let epoch = 1;
    let stake_weights = StakeWeights::new(1000);
    let valid_slots_after_consensus = 10;
    let mut ballot_box = BallotBox::new(&ncn, epoch, 0, current_slot);

    // Initial ballot
    let ballot1 = Ballot::new(&[1; 32]);
    ballot_box
        .cast_vote(
            &operator,
            &ballot1,
            &stake_weights,
            current_slot,
            valid_slots_after_consensus,
        )
        .unwrap();

    // Verify initial stake weight
    let initial_tally = *ballot_box
        .ballot_tallies()
        .iter()
        .find(|t| t.ballot().eq(&ballot1))
        .unwrap();
    assert_eq!(
        initial_tally.stake_weights().stake_weight(),
        stake_weights.stake_weight()
    );

    // Change vote to new ballot
    let ballot2 = Ballot::new(&[2; 32]);
    ballot_box
        .cast_vote(
            &operator,
            &ballot2,
            &stake_weights,
            current_slot + 1,
            valid_slots_after_consensus,
        )
        .unwrap();

    // Verify old tally is gone
    let old_tally = ballot_box
        .ballot_tallies()
        .iter()
        .find(|t| t.ballot().eq(&ballot1));
    assert!(old_tally.is_none());
    assert_eq!(
        ballot_box.ballot_tallies()[initial_tally.index() as usize]
            .ballot()
            .root(),
        Ballot::default().root()
    );

    // Verify stake weight moved from ballot1 to ballot2
    let new_tally = ballot_box
        .ballot_tallies()
        .iter()
        .find(|t| t.ballot().eq(&ballot2))
        .unwrap();
    assert_eq!(
        new_tally.stake_weights().stake_weight(),
        stake_weights.stake_weight()
    );

    // Verify total operators voted hasn't changed
    assert_eq!(ballot_box.operators_voted(), 1);
}

// Generate pseudo-random ballot roots using Pubkey's random bytes
fn generate_ballot_root() -> [u8; 32] {
    unique_key().to_bytes()
}

// Generate random stake weight for initial operator assignment
fn generate_stake_weights() -> StakeWeights {
    let random_bytes = unique_key().to_bytes();
    let stake = u64::from_le_bytes(random_bytes[0..8].try_into().unwrap());
    let stake = (stake % 1_000_000 + 1) as u128;
    StakeWeights::new(stake)
}

#[test]
fn test_fuzz_ballot_box_vote_changes() {
    let ncn = unique_key();
    let current_slot = 100;
    let epoch = 1;
    let valid_slots_after_consensus = 100;
    let mut ballot_box = BallotBox::new(&ncn, epoch, 0, current_slot);

    // Set total stake for the entire test
    let total_stake: u128 = 10_000_000;
    let mut remaining_stake = total_stake;

    // Generate a pool of operators with fixed stake weights
    let num_operators = 50;
    let mut operator_stakes: HashMap<Pubkey, StakeWeights> = HashMap::new();
    let operators: Vec<Pubkey> = (0..num_operators)
        .map(|_| {
            let operator = unique_key();
            let stake_weight = if remaining_stake > 0 {
                let stake = generate_stake_weights();
                remaining_stake = remaining_stake.saturating_sub(stake.stake_weight());
                stake
            } else {
                StakeWeights::new(0)
            };
            operator_stakes.insert(operator, stake_weight);
            operator
        })
        .collect();

    // Generate a pool of ballots
    let num_ballots = 20;
    let ballots: Vec<Ballot> = (0..num_ballots)
        .map(|_| Ballot::new(&generate_ballot_root()))
        .collect();

    // Perform random operations
    let num_operations = 1000;
    for i in 0..num_operations {
        let random_bytes = unique_key().to_bytes();
        let operator_idx = u64::from_le_bytes(random_bytes[0..8].try_into().unwrap()) as usize
            % operators.len();
        let ballot_idx = u64::from_le_bytes(random_bytes[8..16].try_into().unwrap()) as usize
            % ballots.len();

        let operator = operators[operator_idx];
        let ballot = ballots[ballot_idx];
        let stake_weights = operator_stakes[&operator];
        let slot = current_slot + i as u64;

        // Cast vote and verify BallotBox state
        match ballot_box.cast_vote(
            &operator,
            &ballot,
            &stake_weights,
            slot,
            valid_slots_after_consensus,
        ) {
            Ok(_) => {
                // Verify operator vote was recorded
                let operator_vote = ballot_box
                    .operator_votes()
                    .iter()
                    .find(|v| v.operator().eq(&operator))
                    .expect("Operator vote should be recorded");

                // Verify stake weight hasn't changed
                assert_eq!(
                    operator_vote.stake_weights().stake_weight(),
                    stake_weights.stake_weight(),
                    "Operator stake weight should never change"
                );
                assert_eq!(operator_vote.slot_voted(), slot);

                // Verify ballot tally exists
                let _ballot_tally = ballot_box
                    .ballot_tallies()
                    .iter()
                    .find(|t| t.ballot().eq(&ballot))
                    .expect("Ballot tally should exist");

                // Calculate total stake weight for verification
                let current_total_stake: u128 = ballot_box
                    .operator_votes()
                    .iter()
                    .filter(|v| !v.is_empty())
                    .map(|v| v.stake_weights().stake_weight())
                    .sum();

                // Since each operator's stake is fixed, total stake should never exceed initial total
                assert!(current_total_stake <= total_stake);

                // Periodically check consensus
                if i % 10 == 0 {
                    ballot_box.tally_votes(total_stake, slot).unwrap();

                    if ballot_box.is_consensus_reached() {
                        let winning_tally = ballot_box.get_winning_ballot_tally().unwrap();

                        // Verify winning ballot has highest stake
                        for tally in ballot_box.ballot_tallies().iter().filter(|t| t.is_valid())
                        {
                            assert!(
                                tally.stake_weights().stake_weight()
                                    <= winning_tally.stake_weights().stake_weight()
                            );
                        }

                        // Verify consensus state is consistent
                        assert!(
                            ballot_box.slot_consensus_reached()
                                != DEFAULT_CONSENSUS_REACHED_SLOT
                        );
                        assert!(ballot_box.has_winning_ballot());
                        assert!(ballot_box.is_consensus_reached());
                    }
                }
            }
            Err(e) => match e {
                TipRouterError::OperatorVotesFull => {
                    assert_eq!(
                        ballot_box.operators_voted() as usize,
                        MAX_OPERATORS,
                        "OperatorVotesFull error but max operators not reached"
                    );
                }
                TipRouterError::BallotTallyFull => {
                    assert_eq!(
                        ballot_box.unique_ballots() as usize,
                        MAX_OPERATORS,
                        "BallotTallyFull error but max tallies not reached"
                    );
                }
                TipRouterError::VotingNotValid => {
                    assert!(!ballot_box
                        .is_voting_valid(slot, valid_slots_after_consensus)
                        .unwrap());
                }
                TipRouterError::ConsensusAlreadyReached => {
                    assert!(ballot_box.is_consensus_reached());
                }
                _ => panic!("Unexpected error: {:?}", e),
            },
        }

        // Verify invariants
        assert!(ballot_box.operators_voted() <= MAX_OPERATORS as u64);
        assert!(ballot_box.unique_ballots() <= MAX_OPERATORS as u64);

        // Verify each ballot tally matches its vote count
        for tally in ballot_box.ballot_tallies().iter().filter(|t| t.is_valid()) {
            let vote_count = ballot_box
                .operator_votes()
                .iter()
                .filter(|v| !v.is_empty() && v.ballot_index() == tally.index())
                .count();

            assert_eq!(vote_count as u64, tally.tally());
        }
    }
}

#[test]
fn test_ballot_box_vote_change() {
    let ncn = unique_key();
    let current_slot = 100;
    let epoch = 1;
    let valid_slots_after_consensus = 100;
    let mut ballot_box = BallotBox::new(&ncn, epoch, 0, current_slot);

    // Create two distinct ballots
    let ballot1 = Ballot::new(&unique_key().to_bytes());
    let ballot2 = Ballot::new(&unique_key().to_bytes());

    // Create a single operator
    let operator = unique_key();
    let stake_weights = StakeWeights::new(1000);

    // Cast initial vote for ballot1
    ballot_box
        .cast_vote(
            &operator,
            &ballot1,
            &stake_weights,
            current_slot,
            valid_slots_after_consensus,
        )
        .unwrap();

    // Verify initial state
    let ballot1_tally = ballot_box
        .ballot_tallies()
        .iter()
        .find(|t| t.ballot().eq(&ballot1))
        .expect("Ballot1 tally should exist");

    assert_eq!(
        ballot1_tally.tally(),
        1,
        "Initial ballot should have tally of 1"
    );

    // Change vote to ballot2
    ballot_box
        .cast_vote(
            &operator,
            &ballot2,
            &stake_weights,
            current_slot + 1,
            valid_slots_after_consensus,
        )
        .unwrap();

    // Verify ballot1 tally decreased
    let ballot1_tally = ballot_box
        .ballot_tallies()
        .iter()
        .find(|t| t.ballot().eq(&ballot1));

    assert!(
        ballot1_tally.is_none() || !ballot1_tally.unwrap().is_valid(),
        "Ballot1 tally should be removed or invalid"
    );

    // Verify ballot2 tally
    let ballot2_tally = ballot_box
        .ballot_tallies()
        .iter()
        .find(|t| t.ballot().eq(&ballot2))
        .expect("Ballot2 tally should exist");

    assert_eq!(
        ballot2_tally.tally(),
        1,
        "New ballot should have tally of 1"
    );

    // Verify operator vote record
    let operator_vote = ballot_box
        .operator_votes()
        .iter()
        .find(|v| v.operator().eq(&operator))
        .expect("Operator vote should exist");

    assert_eq!(
        operator_vote.ballot_index(),
        ballot2_tally.index(),
        "Operator should be recorded as voting for ballot2"
    );

    // Verify total counts
    let total_votes: u64 = ballot_box
        .ballot_tallies()
        .iter()
        .filter(|t| t.is_valid())
        .map(|t| t.tally())
        .sum();

    assert_eq!(
        total_votes,
        ballot_box.operators_voted(),
        "Total votes should match number of operators"
    );
}

#[test]
fn test_multiple_vote_changes() {
    let ncn = unique_key();
    let current_slot = 100;
    let epoch = 1;
    let valid_slots_after_consensus = 100;
    let mut ballot_box = BallotBox::new(&ncn, epoch, 0, current_slot);

    let num_operators = 5;
    let operators: Vec<Pubkey> = (0..num_operators).map(|_| unique_key()).collect();

    let num_ballots = 3;
    let ballots: Vec<Ballot> = (0..num_ballots)
        .map(|_| Ballot::new(&unique_key().to_bytes()))
        .collect();

    let stake_weights = StakeWeights::new(1000);
    let mut slot = current_slot;

    // Have each operator vote for each ballot in sequence
    for ballot in &ballots {
        for operator in &operators {
            ballot_box
                .cast_vote(
                    operator,
                    ballot,
                    &stake_weights,
                    slot,
                    valid_slots_after_consensus,
                )
                .unwrap();
            slot += 1;

            // Verify counts after each vote
            for tally in ballot_box.ballot_tallies().iter().filter(|t| t.is_valid()) {
                let vote_count = ballot_box
                    .operator_votes()
                    .iter()
                    .filter(|v| !v.is_empty() && v.ballot_index() == tally.index())
                    .count();

                assert_eq!(
                    vote_count as u64,
                    tally.tally(),
                    "Ballot tally count mismatch. Expected {} but got {}",
                    vote_count,
                    tally.tally()
                );
            }
        }
    }
}

#[test]
fn test_revote_same_ballot_different_stake() {
    let ncn = unique_key();
    let current_slot = 100;
    let epoch = 1;
    let valid_slots_after_consensus = 100;
    let mut ballot_box = BallotBox::new(&ncn, epoch, 0, current_slot);

    // Create ballot and operator
    let ballot = Ballot::new(&[1; 32]);
    let operator = unique_key();

    // Initial vote with stake 1000
    let stake_weights1 = StakeWeights::new(1000);
    ballot_box
        .cast_vote(
            &operator,
            &ballot,
            &stake_weights1,
            current_slot,
            valid_slots_after_consensus,
        )
        .unwrap();

    // Verify initial state
    let ballot_tally = ballot_box
        .ballot_tallies()
        .iter()
        .find(|t| t.ballot().eq(&ballot))
        .expect("Ballot tally should exist");
    assert_eq!(ballot_tally.tally(), 1);
    assert_eq!(ballot_tally.stake_weights().stake_weight(), 1000);

    // Vote again for same ballot with different stake
    let stake_weights2 = StakeWeights::new(2000);
    ballot_box
        .cast_vote(
            &operator,
            &ballot,
            &stake_weights2,
            current_slot + 1,
            valid_slots_after_consensus,
        )
        .unwrap();

    // Verify state after revote
    let ballot_tally = ballot_box
        .ballot_tallies()
        .iter()
        .find(|t| t.ballot().eq(&ballot))
        .expect("Ballot tally should exist");

    // Should still be only 1 vote, just with updated stake
    assert_eq!(
        ballot_tally.tally(),
        1,
        "Vote count should not change when revoting for same ballot"
    );
    assert_eq!(
        ballot_tally.stake_weights().stake_weight(),
        2000,
        "Stake weight should be updated"
    );

    // Verify operator vote record
    let operator_vote = ballot_box
        .operator_votes()
        .iter()
        .find(|v| v.operator().eq(&operator))
        .expect("Operator vote should exist");
    assert_eq!(operator_vote.stake_weights().stake_weight(), 2000);

    // Verify total counts
    assert_eq!(ballot_box.operators_voted(), 1);
    assert_eq!(ballot_box.unique_ballots(), 1);
}

#[test]
fn test_revote_same_ballot() {
    let ncn = unique_key();
    let current_slot = 100;
    let epoch = 1;
    let valid_slots_after_consensus = 100;
    let mut ballot_box = BallotBox::new(&ncn, epoch, 0, current_slot);

    // Create ballot and operator
    let ballot = Ballot::new(&unique_key().to_bytes());
    let operator = unique_key();
    let stake_weights = StakeWeights::new(1000);

    // Cast initial vote
    ballot_box
        .cast_vote(
            &operator,
            &ballot,
            &stake_weights,
            current_slot,
            valid_slots_after_consensus,
        )
        .unwrap();

    // Record state after first vote
    let initial_operators_voted = ballot_box.operators_voted();
    let initial_unique_ballots = ballot_box.unique_ballots();
    let initial_ballot_tally = ballot_box
        .ballot_tallies()
        .iter()
        .find(|t| t.ballot().eq(&ballot))
        .expect("Ballot tally should exist")
        .clone();

    // Vote again for the same ballot
    ballot_box
        .cast_vote(
            &operator,
            &ballot,
            &stake_weights,
            current_slot + 1,
            valid_slots_after_consensus,
        )
        .unwrap();

    // Verify nothing changed except the slot voted
    assert_eq!(ballot_box.operators_voted(), initial_operators_voted);
    assert_eq!(ballot_box.unique_ballots(), initial_unique_ballots);

    let final_ballot_tally = ballot_box
        .ballot_tallies()
        .iter()
        .find(|t| t.ballot().eq(&ballot))
        .expect("Ballot tally should exist");

    assert_eq!(final_ballot_tally.tally(), initial_ballot_tally.tally());
    assert_eq!(
        final_ballot_tally.stake_weights().stake_weight(),
        initial_ballot_tally.stake_weights().stake_weight()
    );
    assert_eq!(final_ballot_tally.index(), initial_ballot_tally.index());

    // Verify operator vote record
    let operator_vote = ballot_box
        .operator_votes()
        .iter()
        .find(|v| v.operator().eq(&operator))
        .expect("Operator vote should exist");

    assert_eq!(operator_vote.ballot_index(), final_ballot_tally.index());
    assert_eq!(
        operator_vote.stake_weights().stake_weight(),
        stake_weights.stake_weight()
    );
    assert_eq!(operator_vote.slot_voted(), current_slot + 1);

    // Try voting one more time with same ballot
    ballot_box
        .cast_vote(
            &operator,
            &ballot,
            &stake_weights,
            current_slot + 2,
            valid_slots_after_consensus,
        )
        .unwrap();

    // Verify still nothing changed except slot
    assert_eq!(ballot_box.operators_voted(), initial_operators_voted);
    assert_eq!(ballot_box.unique_ballots(), initial_unique_ballots);

    let final_ballot_tally = ballot_box
        .ballot_tallies()
        .iter()
        .find(|t| t.ballot().eq(&ballot))
        .expect("Ballot tally should exist");

    assert_eq!(final_ballot_tally.tally(), initial_ballot_tally.tally());
    assert_eq!(
        final_ballot_tally.stake_weights().stake_weight(),
        initial_ballot_tally.stake_weights().stake_weight()
    );
    assert_eq!(final_ballot_tally.index(), initial_ballot_tally.index());

    let operator_vote = ballot_box
        .operator_votes()
        .iter()
        .find(|v| v.operator().eq(&operator))
        .expect("Operator vote should exist");

    assert_eq!(operator_vote.slot_voted(), current_slot + 2);
}

#[test]
fn test_zero_stake_operator_basic_voting() {
    let ncn = unique_key();
    let current_slot = 100;
    let epoch = 1;
    let valid_slots_after_consensus = 100;
    let mut ballot_box = BallotBox::new(&ncn, epoch, 0, current_slot);

    // Create ballots and operators
    let ballot1 = Ballot::new(&unique_key().to_bytes());
    let ballot2 = Ballot::new(&unique_key().to_bytes());

    let zero_stake_operator = unique_key();
    let zero_stake = StakeWeights::new(0);

    // Zero stake operator can cast a vote
    ballot_box
        .cast_vote(
            &zero_stake_operator,
            &ballot1,
            &zero_stake,
            current_slot,
            valid_slots_after_consensus,
        )
        .unwrap();

    // Verify vote was recorded
    let operator_vote = ballot_box
        .operator_votes()
        .iter()
        .find(|v| v.operator().eq(&zero_stake_operator))
        .expect("Zero stake operator vote should be recorded");

    assert_eq!(operator_vote.stake_weights().stake_weight(), 0);

    // Verify ballot tally
    let ballot_tally = ballot_box
        .ballot_tallies()
        .iter()
        .find(|t| t.ballot().eq(&ballot1))
        .expect("Ballot tally should exist");

    assert_eq!(ballot_tally.stake_weights().stake_weight(), 0);
    assert_eq!(ballot_tally.tally(), 1);

    // Zero stake operator can change their vote
    ballot_box
        .cast_vote(
            &zero_stake_operator,
            &ballot2,
            &zero_stake,
            current_slot + 1,
            valid_slots_after_consensus,
        )
        .unwrap();

    // Verify both ballot tallies
    let ballot1_tally = ballot_box
        .ballot_tallies()
        .iter()
        .find(|t| t.ballot().eq(&ballot1));
    assert!(
        ballot1_tally.is_none() || !ballot1_tally.unwrap().is_valid(),
        "First ballot tally should be removed since zero stake operator was only voter"
    );

    let ballot2_tally = ballot_box
        .ballot_tallies()
        .iter()
        .find(|t| t.ballot().eq(&ballot2))
        .expect("Second ballot tally should exist");

    assert_eq!(ballot2_tally.stake_weights().stake_weight(), 0);
    assert_eq!(ballot2_tally.tally(), 1);
}

#[test]
fn test_zero_stake_operator_consensus() {
    let ncn = unique_key();
    let current_slot = 100;
    let epoch = 1;
    let valid_slots_after_consensus = 100;
    let mut ballot_box = BallotBox::new(&ncn, epoch, 0, current_slot);

    let ballot = Ballot::new(&unique_key().to_bytes());

    // Create multiple zero stake operators
    let num_zero_stake = 5;
    let zero_stake_operators: Vec<Pubkey> =
        (0..num_zero_stake).map(|_| unique_key()).collect();
    let zero_stake = StakeWeights::new(0);

    // Have all zero stake operators vote for the same ballot
    for (i, operator) in zero_stake_operators.iter().enumerate() {
        ballot_box
            .cast_vote(
                operator,
                &ballot,
                &zero_stake,
                current_slot + i as u64,
                valid_slots_after_consensus,
            )
            .unwrap();
    }

    // Check ballot state after zero stake votes
    let ballot_tally = ballot_box
        .ballot_tallies()
        .iter()
        .find(|t| t.ballot().eq(&ballot))
        .expect("Ballot tally should exist");

    assert_eq!(ballot_tally.stake_weights().stake_weight(), 0);
    assert_eq!(ballot_tally.tally(), num_zero_stake as u64);

    // Calculate consensus with only zero stake votes
    let total_stake = 1000u128;
    ballot_box
        .tally_votes(total_stake, current_slot + num_zero_stake as u64)
        .unwrap();
    assert!(
        !ballot_box.is_consensus_reached(),
        "Zero stake votes alone should not reach consensus"
    );

    // Add one normal stake vote
    let normal_operator = unique_key();
    let normal_stake = StakeWeights::new(700); // 70% of total stake

    ballot_box
        .cast_vote(
            &normal_operator,
            &ballot,
            &normal_stake,
            current_slot + num_zero_stake as u64,
            valid_slots_after_consensus,
        )
        .unwrap();

    // Verify ballot tally includes both zero and normal stakes
    let ballot_tally = ballot_box
        .ballot_tallies()
        .iter()
        .find(|t| t.ballot().eq(&ballot))
        .expect("Ballot tally should exist");

    assert_eq!(
        ballot_tally.stake_weights().stake_weight(),
        normal_stake.stake_weight()
    );
    assert_eq!(ballot_tally.tally(), (num_zero_stake + 1) as u64);

    // Check consensus again
    ballot_box
        .tally_votes(total_stake, current_slot + num_zero_stake as u64 + 1)
        .unwrap();
    assert!(
        ballot_box.is_consensus_reached(),
        "Consensus should be reached with normal stake vote despite zero stake votes"
    );
}

#[test]
fn test_zero_stake_operator_mixed_voting() {
    let ncn = unique_key();
    let current_slot = 100;
    let epoch = 1;
    let valid_slots_after_consensus = 100;
    let mut ballot_box = BallotBox::new(&ncn, epoch, 0, current_slot);

    let ballot1 = Ballot::new(&unique_key().to_bytes());
    let ballot2 = Ballot::new(&unique_key().to_bytes());

    // Create mix of zero and normal stake operators
    let zero_stake_operator = unique_key();
    let zero_stake = StakeWeights::new(0);

    let normal_operator1 = unique_key();
    let normal_stake1 = StakeWeights::new(300);

    let normal_operator2 = unique_key();
    let normal_stake2 = StakeWeights::new(400);

    // Cast votes for ballot1
    ballot_box
        .cast_vote(
            &zero_stake_operator,
            &ballot1,
            &zero_stake,
            current_slot,
            valid_slots_after_consensus,
        )
        .unwrap();
    ballot_box
        .cast_vote(
            &normal_operator1,
            &ballot1,
            &normal_stake1,
            current_slot,
            valid_slots_after_consensus,
        )
        .unwrap();

    // Cast vote for ballot2
    ballot_box
        .cast_vote(
            &normal_operator2,
            &ballot2,
            &normal_stake2,
            current_slot,
            valid_slots_after_consensus,
        )
        .unwrap();

    // Verify ballot tallies
    let ballot1_tally = ballot_box
        .ballot_tallies()
        .iter()
        .find(|t| t.ballot().eq(&ballot1))
        .expect("Ballot1 tally should exist");

    assert_eq!(
        ballot1_tally.stake_weights().stake_weight(),
        normal_stake1.stake_weight()
    );
    assert_eq!(ballot1_tally.tally(), 2); // Counts both zero and normal stake votes

    let ballot2_tally = ballot_box
        .ballot_tallies()
        .iter()
        .find(|t| t.ballot().eq(&ballot2))
        .expect("Ballot2 tally should exist");

    assert_eq!(
        ballot2_tally.stake_weights().stake_weight(),
        normal_stake2.stake_weight()
    );
    assert_eq!(ballot2_tally.tally(), 1);

    // Check consensus
    let total_stake = 1000u128;
    ballot_box.tally_votes(total_stake, current_slot).unwrap();

    // Neither ballot should have consensus yet
    assert!(!ballot_box.is_consensus_reached());

    // Add another normal stake vote to ballot2 to reach consensus
    let normal_operator3 = unique_key();
    let normal_stake3 = StakeWeights::new(300);
    ballot_box
        .cast_vote(
            &normal_operator3,
            &ballot2,
            &normal_stake3,
            current_slot,
            valid_slots_after_consensus,
        )
        .unwrap();

    ballot_box.tally_votes(total_stake, current_slot).unwrap();

    assert!(ballot_box.is_consensus_reached());
    assert_eq!(ballot_box.get_winning_ballot().unwrap(), &ballot2);
}

