# tip_router

The core accounts and rules of a tip router for a Jito restaking NCN, written in
Verus: the executable functions of `src/` carry `requires`/`ensures` contracts that
Verus proves, and the laws that span functions are proof functions.

## Layout

- `src/fees.rs`, `base_fee_group.rs`, `ncn_fee_group.rs`: fee schedules, their
  epoch-gated updates and the fee caps.
- `src/stake_weight.rs`, `ballot_box.rs`: stake weights, vote casting, tallying,
  the two-thirds consensus rule and the tie breaker.
- `src/epoch_state.rs`, `epoch_marker.rs`: per-epoch account status and progress.
- `src/vault_registry.rs`, `weight_entry.rs`, `weight_table.rs`: registered mints
  and vaults, and the per-epoch weight table.
- `src/epoch_snapshot.rs`: epoch and operator snapshots and stake weights.
- `src/ncn_reward_router.rs`: routing of NCN rewards to operators and vaults.
- `src/le_bytes.rs`, `jito_number.rs`, `precise_numbers.rs`, `precise_number.rs`:
  little-endian number storage and spl-math fixed-point arithmetic.
- `src/counting.rs`: counting the items of a sequence that satisfy a predicate.
- `src/pda.rs`, `loaders.rs`, `config.rs`, `claim_status_payer.rs`: program
  addresses and account loading checks.
- `app/`: conversions between the library's types and solana / jito types, and
  the error type with its messages.

Laws that span several functions are public proof functions whose names start
with `lemma_`.
