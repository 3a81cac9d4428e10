//! Tunable constants of the game's monetary rules.

use vstd::prelude::*;

verus! {

/// Flat fee, in lamports, charged to the provider who creates a new vault.
pub const CREATE_VAULT_FEE_SOL_LAMPORTS: u64 = 537_000_000;

/// Upper bound on the number of bets one player may hold in one round.
pub const MAX_BETS_PER_ROUND: usize = 8;

/// Divisor of the liquidity providers' cut of every bet (~1.4%).
pub const PROVIDER_DIVISOR: u64 = 71;

/// Divisor of the program owner's cut of every bet (~0.8%).
pub const OWNER_DIVISOR: u64 = 125;

/// Fixed-point precision of the reward-per-share index.
pub const REWARD_PRECISION: u128 = 1_000_000_000_000;

/// Numerator of the per-bet exposure cap, as a percentage of liquidity.
pub const MAX_BET_PERCENTAGE: u64 = 11;

/// Denominator of the per-bet exposure cap.
pub const MAX_BET_PERCENTAGE_DIVISOR: u64 = 100;

/// Largest numeric value that encodes a valid bet type.
pub const BET_TYPE_MAX: u8 = 15;

} // verus!
