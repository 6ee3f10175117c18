//! Tip router core: fee configuration, stake weights, consensus voting,
//! epoch progress tracking, vault registry, weight tables, snapshots and
//! reward routing, with their contracts proved by Verus.

pub mod pubkey;
pub mod counting;
pub mod error;
pub mod base_fee_group;
pub mod ncn_fee_group;
pub mod stake_weight;
pub mod precise_number;
pub mod constants;
pub mod ballot_box;
pub mod fees;
pub mod epoch_state;
pub mod le_bytes;
pub mod jito_number;
pub mod precise_numbers;
pub mod pda;
pub mod discriminators;
pub mod loaders;
pub mod utils;
pub mod claim_status_payer;
pub mod config;
pub mod epoch_marker;
pub mod vault_registry;
pub mod weight_entry;
pub mod weight_table;
pub mod epoch_snapshot;
pub mod ncn_reward_router;
