//! Core engine of a multi-round, single-zero roulette game with pooled
//! liquidity provision.
//!
//! The engine is the business logic of the game: the round lifecycle state
//! machine, bet validation and settlement, the payout-multiplier table and
//! the winner-determination predicate, and the liquidity / reward accounting
//! (a fixed-point reward-per-share index with per-provider checkpoints).
//!
//! The host ledger supplies account storage, signature verification, token
//! transfers and a clock; every function here is a pure transition on plain
//! state values, so the host executes an operation by reading the accounts it
//! touches, applying the transition, and committing the new state together
//! with the token transfer the operation calls for.

pub mod constants;
pub mod errors;
pub mod events;
pub mod game;
pub mod player;
pub mod rewards;
pub mod state;
pub mod vault;
