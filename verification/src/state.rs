//! The engine's persisted state records and the wheel predicates.
//!
//! Identities (players, mints, accounts) are opaque to the engine: it only
//! ever compares them and hands them back to the host, so they are modelled
//! by [`Pubkey`], a plain value the host maps to real addresses.

use vstd::prelude::*;

use crate::constants::MAX_BETS_PER_ROUND;

verus! {

/// An opaque identity: a player, a token mint, a token account or the game
/// authority. The engine never inspects it beyond equality.
#[derive(Clone, Copy, Debug, PartialEq, Eq, Structural)]
pub struct Pubkey {
    pub id: u64,
}

impl Default for Pubkey {
    /// The empty identity, used for not-yet-bound fields.
    fn default() -> (r: Self)
        ensures
            r == (Pubkey { id: 0 }),
    {
        Pubkey { id: 0 }
    }
}

/// A single bet: a stake, a bet-type tag (0 to 15) and up to four numbers
/// whose meaning depends on the tag.
#[derive(Clone, Copy, Debug)]
pub struct Bet {
    pub amount: u64,
    pub bet_type: u8,
    pub numbers: [u8; 4],
}

/// The phases of a game round.
#[derive(Clone, Copy, Debug, PartialEq, Eq, Structural)]
pub enum RoundStatus {
    NotStarted,
    AcceptingBets,
    BetsClosed,
    Completed,
}

/// The tagged form of the flat `(bet_type, numbers)` encoding carried by
/// [`Bet`]. The numeric tags are, in order: straight 0, split 1, corner 2,
/// street 3, six-line 4, first-four 5, red 6, black 7, even 8, odd 9,
/// manque 10, passe 11, column 12 and the three dozens 13 to 15.
#[derive(Clone, Copy, Debug, PartialEq, Eq, Structural)]
pub enum BetType {
    Straight { number: u8 },
    Split { first: u8, second: u8 },
    Corner { top_left: u8 },
    Street { street: u8 },
    SixLine { six_line: u8 },
    FirstFour,
    Red,
    Black,
    Even,
    Odd,
    Manque,
    Passe,
    Column { column: u8 },
    P12,
    M12,
    D12,
}

/// The liquidity pool backing one accepted token type.
#[derive(Clone, Copy, Debug, PartialEq, Eq, Structural)]
pub struct VaultAccount {
    /// Mint of the token this vault accepts.
    pub token_mint: Pubkey,
    /// The external token-custody account holding the vault's funds.
    pub token_account: Pubkey,
    /// Tokens actually held by the vault's custody account.
    pub total_liquidity: u64,
    /// Sum of all providers' principal, excluding house edge and reserve.
    pub total_provider_capital: u64,
    /// The program owner's accrued, not yet withdrawn cut.
    pub owner_reward: u64,
    /// Monotone fixed-point reward-per-share accumulator
    /// (scaled by `REWARD_PRECISION`).
    pub reward_per_share_index: u128,
}

/// The global game session: one per deployment.
#[derive(Clone, Copy, Debug, PartialEq, Eq, Structural)]
pub struct GameSession {
    pub current_round: u64,
    pub round_start_time: i64,
    pub round_status: RoundStatus,
    /// The drawn outcome (0 to 36); present exactly while the round is
    /// `Completed`.
    pub winning_number: Option<u8>,
    pub bets_closed_timestamp: i64,
    pub get_random_timestamp: i64,
    /// The player who placed the round's most recent bet; seeds the outcome.
    pub last_bettor: Option<Pubkey>,
    pub last_completed_round: u64,
    /// The identity allowed to drive the lifecycle when admin gating is on.
    pub authority: Pubkey,
}

impl GameSession {
    /// Internal consistency of a session: the outcome is recorded exactly in
    /// the `Completed` phase, is a number on the wheel, and the completed
    /// round counter never runs ahead of the current round.
    pub open spec fn wf(self) -> bool {
        &&& (self.winning_number is Some) <==> (self.round_status == RoundStatus::Completed)
        &&& match self.winning_number {
            Some(w) => w <= 36,
            None => true,
        }
        &&& self.last_completed_round <= self.current_round
    }
}

/// One player's bets for one round, plus the claim watermark.
#[derive(Clone, Debug)]
pub struct PlayerBets {
    pub player: Pubkey,
    /// The round the stored bets belong to.
    pub round: u64,
    /// The vault the stored bets were staked into.
    pub vault: Pubkey,
    pub token_mint: Pubkey,
    pub bets: Vec<Bet>,
    /// High-water mark of the last round this player claimed; monotone, so
    /// each round can be claimed at most once.
    pub claimed_round: u64,
}

impl PlayerBets {
    /// The bets list never exceeds the per-round bound.
    pub open spec fn wf(self) -> bool {
        self.bets@.len() <= MAX_BETS_PER_ROUND
    }
}

/// One liquidity provider's accounting for one vault.
#[derive(Clone, Copy, Debug, PartialEq, Eq, Structural)]
pub struct ProviderState {
    /// The vault this record belongs to.
    pub vault: Pubkey,
    /// The provider's identity.
    pub provider: Pubkey,
    /// Principal currently deposited.
    pub amount: u64,
    /// Rewards settled but not yet paid out.
    pub unclaimed_rewards: u64,
    /// The reward index at this provider's last settlement.
    pub reward_per_share_index_last_claimed: u128,
}

/// The numbers the wheel colours red; every other number except zero is
/// black.
pub open spec fn spec_is_red(n: u8) -> bool {
    ||| n == 1
    ||| n == 3
    ||| n == 5
    ||| n == 7
    ||| n == 9
    ||| n == 12
    ||| n == 14
    ||| n == 16
    ||| n == 18
    ||| n == 19
    ||| n == 21
    ||| n == 23
    ||| n == 25
    ||| n == 27
    ||| n == 30
    ||| n == 32
    ||| n == 34
    ||| n == 36
}

/// The fixed payout-multiplier table, by bet-type tag. Tags outside the
/// valid range pay nothing.
pub open spec fn spec_payout_multiplier(bet_type: u8) -> u64 {
    if bet_type == 0 {
        36
    } else if bet_type == 1 {
        18
    } else if bet_type == 2 {
        9
    } else if bet_type == 3 {
        12
    } else if bet_type == 4 {
        6
    } else if bet_type == 5 {
        9
    } else if 6 <= bet_type && bet_type <= 11 {
        2
    } else if 12 <= bet_type && bet_type <= 15 {
        3
    } else {
        0
    }
}

/// Whether a bet with tag `bet_type` and parameters `n0`, `n1` (the first
/// two cells of the bet's number list; the rest are never read) wins when
/// the wheel lands on `w`. Malformed parameters never win; they never fail
/// the operation.
pub open spec fn spec_is_bet_winner(bet_type: u8, n0: u8, n1: u8, w: u8) -> bool {
    if bet_type == 0 {
        n0 == w
    } else if bet_type == 1 {
        n0 == w || n1 == w
    } else if bet_type == 2 {
        &&& n0 != 0
        &&& n0 <= 34
        &&& n0 % 3 != 0
        &&& (w == n0 || w == n0 + 1 || w == n0 + 3 || w == n0 + 4)
    } else if bet_type == 3 {
        &&& n0 != 0
        &&& n0 <= 34
        &&& (n0 - 1) % 3 == 0
        &&& w > 0
        &&& n0 <= w < n0 + 3
    } else if bet_type == 4 {
        &&& n0 != 0
        &&& n0 <= 31
        &&& (n0 - 1) % 3 == 0
        &&& w > 0
        &&& n0 <= w < n0 + 6
    } else if bet_type == 5 {
        w <= 3
    } else if bet_type == 6 {
        spec_is_red(w)
    } else if bet_type == 7 {
        w != 0 && !spec_is_red(w)
    } else if bet_type == 8 {
        w != 0 && w % 2 == 0
    } else if bet_type == 9 {
        w != 0 && w % 2 == 1
    } else if bet_type == 10 {
        1 <= w <= 18
    } else if bet_type == 11 {
        19 <= w <= 36
    } else if bet_type == 12 {
        1 <= n0 <= 3 && w != 0 && w % 3 == n0 % 3
    } else if bet_type == 13 {
        1 <= w <= 12
    } else if bet_type == 14 {
        13 <= w <= 24
    } else if bet_type == 15 {
        25 <= w <= 36
    } else {
        false
    }
}

impl PlayerBets {
    /// The fixed payout-multiplier table: straight 36, split 18, corner 9,
    /// street 12, six-line 6, first-four 9, the even-money bets 2, column
    /// and dozens 3, anything else 0.
    pub fn calculate_payout_multiplier(bet_type: u8) -> (r: u64)
        ensures
            r == spec_payout_multiplier(bet_type),
    {
        if bet_type == 0 {
            36
        } else if bet_type == 1 {
            18
        } else if bet_type == 2 {
            9
        } else if bet_type == 3 {
            12
        } else if bet_type == 4 {
            6
        } else if bet_type == 5 {
            9
        } else if bet_type <= 11 {
            2
        } else if bet_type <= 15 {
            3
        } else {
            0
        }
    }

    /// Whether a bet wins against the drawn number, per the single-zero
    /// wheel layout. Only the first two cells of `numbers` are ever read.
    pub fn is_bet_winner(bet_type: u8, numbers: &[u8; 4], winning_number: u8) -> (r: bool)
        ensures
            r == spec_is_bet_winner(bet_type, numbers[0], numbers[1], winning_number),
    {
        let w = winning_number;
        if bet_type == 0 {
            numbers[0] == w
        } else if bet_type == 1 {
            numbers[0] == w || numbers[1] == w
        } else if bet_type == 2 {
            let top_left = numbers[0];
            if top_left == 0 || top_left > 34 || top_left % 3 == 0 {
                false
            } else {
                w == top_left || w == top_left + 1 || w == top_left + 3 || w == top_left + 4
            }
        } else if bet_type == 3 {
            let start = numbers[0];
            if start == 0 || start > 34 || (start - 1) % 3 != 0 {
                false
            } else {
                w > 0 && w >= start && w < start + 3
            }
        } else if bet_type == 4 {
            let start = numbers[0];
            if start == 0 || start > 31 || (start - 1) % 3 != 0 {
                false
            } else {
                w > 0 && w >= start && w < start + 6
            }
        } else if bet_type == 5 {
            w <= 3
        } else if bet_type == 6 {
            Self::is_red(w)
        } else if bet_type == 7 {
            w != 0 && !Self::is_red(w)
        } else if bet_type == 8 {
            w != 0 && w % 2 == 0
        } else if bet_type == 9 {
            w != 0 && w % 2 == 1
        } else if bet_type == 10 {
            w >= 1 && w <= 18
        } else if bet_type == 11 {
            w >= 19 && w <= 36
        } else if bet_type == 12 {
            let column = numbers[0];
            if column < 1 || column > 3 {
                false
            } else {
                w != 0 && w % 3 == column % 3
            }
        } else if bet_type == 13 {
            w >= 1 && w <= 12
        } else if bet_type == 14 {
            w >= 13 && w <= 24
        } else if bet_type == 15 {
            w >= 25 && w <= 36
        } else {
            false
        }
    }

    /// Membership in the wheel's fixed red set.
    fn is_red(n: u8) -> (r: bool)
        ensures
            r == spec_is_red(n),
    {
        n == 1 || n == 3 || n == 5 || n == 7 || n == 9 || n == 12 || n == 14 || n == 16 || n == 18
            || n == 19 || n == 21 || n == 23 || n == 25 || n == 27 || n == 30 || n == 32 || n == 34
            || n == 36
    }
}

} // verus!
