//! The facts each successful operation reports to observers.
//!
//! The host emits these to its log stream; the engine returns them so their
//! contents are pinned by the operations' contracts.

use vstd::prelude::*;

use crate::state::{Bet, Pubkey};

verus! {

/// A new round has opened.
#[derive(Clone, Copy, Debug, PartialEq, Eq, Structural)]
pub struct RoundStarted {
    pub round: u64,
    pub starter: Pubkey,
    pub start_time: i64,
}

/// A player collected winnings for a round.
#[derive(Clone, Copy, Debug, PartialEq, Eq, Structural)]
pub struct WinningsClaimed {
    pub round: u64,
    pub player: Pubkey,
    pub token_mint: Pubkey,
    pub amount: u64,
    pub timestamp: i64,
}

/// The betting phase of a round has closed.
#[derive(Clone, Copy, Debug, PartialEq, Eq, Structural)]
pub struct BetsClosed {
    pub round: u64,
    pub closer: Pubkey,
    pub close_time: i64,
}

/// A round's outcome was drawn, with the digest that produced it.
#[derive(Clone, Copy, Debug)]
pub struct RandomGenerated {
    pub round: u64,
    pub initiator: Pubkey,
    pub winning_number: u8,
    pub generation_time: i64,
    pub slot: u64,
    pub last_bettor: Pubkey,
    pub hash_result: [u8; 32],
    pub hash_prefix_u64: u64,
}

/// A provider deposited liquidity.
#[derive(Clone, Copy, Debug, PartialEq, Eq, Structural)]
pub struct LiquidityProvided {
    pub provider: Pubkey,
    pub token_mint: Pubkey,
    pub amount: u64,
    pub timestamp: i64,
}

/// A provider withdrew their principal (and any final rewards).
#[derive(Clone, Copy, Debug, PartialEq, Eq, Structural)]
pub struct LiquidityWithdrawn {
    pub provider: Pubkey,
    pub token_mint: Pubkey,
    pub amount: u64,
    pub timestamp: i64,
}

/// A bet was staked into a vault.
#[derive(Clone, Copy, Debug)]
pub struct BetPlaced {
    pub player: Pubkey,
    pub token_mint: Pubkey,
    pub round: u64,
    pub bet: Bet,
    pub timestamp: i64,
}

/// A provider withdrew accrued rewards, principal untouched.
#[derive(Clone, Copy, Debug, PartialEq, Eq, Structural)]
pub struct ProviderRevenueWithdrawn {
    pub provider: Pubkey,
    pub token_mint: Pubkey,
    pub amount: u64,
    pub timestamp: i64,
}

/// Part of a vault's payout reserve was folded into the reward accounts.
#[derive(Clone, Copy, Debug, PartialEq, Eq, Structural)]
pub struct PayoutReserveDistributed {
    pub token_mint: Pubkey,
    pub amount_distributed: u64,
    pub timestamp: i64,
}

} // verus!
