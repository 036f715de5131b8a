//! A staking registry: entities register capabilities, participants stake
//! with entities in two denominations, and withdrawals pass a timelock.
//!
//! Every operation is split into an access-control step, which decides
//! whether the request may proceed and mutates nothing, and a state
//! transition, which applies the already-validated request to the records.
//! Each step is stated as a spec function, and each executable step is
//! proved to agree with it.
use vstd::prelude::*;

pub mod pubkey;
pub mod error;
pub mod weights;
pub mod accounts;
pub mod initialize;
pub mod register_capability;
pub mod set_capability_weights;
pub mod create_entity;
pub mod update_entity;
pub mod stake;
pub mod add_stake;
pub mod initiate_stake_withdrawal;
pub mod complete_stake_withdrawal;
pub mod collect_rewards;
pub mod laws;
pub mod donate;
pub mod instruction;
pub mod processor;
