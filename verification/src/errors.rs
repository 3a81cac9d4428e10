//! The failure modes the engine distinguishes.
//!
//! Every variant is a precondition violation, an accounting shortfall or a
//! checked-arithmetic overflow; each operation's contract says exactly on
//! which inputs each variant is returned. No operation mutates state when it
//! fails, with one deliberate exception: a claim that finds no winnings still
//! consumes the claim right (see `claim_my_winnings`). Some variants are
//! produced only by the host's account validation around the engine, not by
//! the engine itself.

use vstd::prelude::*;

verus! {

/// Error codes surfaced verbatim to the caller of a rejected operation.
#[derive(Clone, Copy, Debug, PartialEq, Eq, Structural)]
pub enum RouletteError {
    /// A checked integer operation overflowed or underflowed.
    ArithmeticOverflow,
    /// The player already holds the maximum number of bets this round.
    InvalidNumberOfBets,
    /// The player's token account cannot cover the bet.
    InsufficientFunds,
    /// The vault cannot cover the requested payout or withdrawal.
    InsufficientLiquidity,
    /// The signer does not have the required permissions.
    Unauthorized,
    /// No reward is available for withdrawal.
    NoReward,
    /// A liquidity withdrawal must take the whole remaining position.
    MustWithdrawExactAmount,
    /// The bet's type or amount is invalid.
    InvalidBet,
    /// The bet amount exceeds the per-bet exposure cap.
    BetAmountExceedsLimit,
    /// A round is already in progress.
    RoundInProgress,
    /// The round is not accepting bets.
    BetsNotAccepted,
    /// The round's phase does not allow this operation.
    InvalidRoundStatus,
    /// The player has no bets recorded for this round.
    NoBetsInRound,
    /// The global game session does not exist.
    GameSessionNotFound,
    /// The reward token account does not match the configured mint.
    InvalidRewardToken,
    /// The vault does not match the one bound to the player's bets.
    VaultMismatch,
    /// The outcome cannot be drawn before betting is closed.
    RandomBeforeClosing,
    /// The round's outcome has already been drawn.
    RandomAlreadyGenerated,
    /// The provided bets record does not match expectations.
    InvalidPlayerBetsAccount,
    /// The game session already exists.
    AlreadyInitialized,
    /// No bets were placed in the round, so no outcome can be drawn.
    NoBetsPlacedInRound,
    /// Bets cannot be closed while no bet has been placed.
    CannotCloseBetsWithoutBets,
    /// The vault's custody account is not owned by the vault.
    InvalidTokenAccountOwner,
    /// The derived vault address does not match the provided account.
    VaultPDAMismatch,
    /// The token account is invalid: wrong mint, owner or state.
    InvalidTokenAccount,
    /// The claimed round is not the most recently completed round.
    ClaimRoundMismatchOrNotCompleted,
    /// The claim found no winning bet; the claim right is consumed.
    NoWinningsFound,
    /// The treasury token account is not owned by the treasury.
    InvalidTreasuryAccountOwner,
    /// The treasury token account's mint differs from the vault's.
    TreasuryAccountMintMismatch,
    /// The player's stored bets belong to a different round.
    BetsRoundMismatch,
    /// No further liquidity providers fit in this vault.
    ProviderLimitReached,
    /// Only the game authority can perform this operation.
    AdminOnly,
}

} // verus!
