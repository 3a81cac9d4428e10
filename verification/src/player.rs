//! Bet placement and winnings claims.
//!
//! A bet stakes tokens into a vault while a round is accepting bets; the
//! stake raises the vault's liquidity and skims the providers' and owner's
//! cuts. After the outcome is drawn, a player claims the round once: every
//! winning bet pays its stake times the payout multiplier, capped as a
//! whole by the vault's liquidity — an underfunded vault sheds the excess
//! rather than failing the claim.

use vstd::prelude::*;

use crate::constants::{
    BET_TYPE_MAX, MAX_BETS_PER_ROUND, MAX_BET_PERCENTAGE, MAX_BET_PERCENTAGE_DIVISOR,
    OWNER_DIVISOR, PROVIDER_DIVISOR, REWARD_PRECISION,
};
use crate::errors::RouletteError;
use crate::events::{BetPlaced, WinningsClaimed};
use crate::state::{
    Bet, GameSession, PlayerBets, Pubkey, RoundStatus, VaultAccount, spec_is_bet_winner,
    spec_payout_multiplier,
};
use vstd::arithmetic::mul::lemma_mul_nonnegative;

verus! {

/// What one bet pays when the wheel lands on `w`: stake times multiplier if
/// it wins, nothing otherwise.
pub open spec fn spec_bet_payout(bet: Bet, w: u8) -> int {
    if spec_is_bet_winner(bet.bet_type, bet.numbers[0], bet.numbers[1], w) {
        bet.amount * spec_payout_multiplier(bet.bet_type)
    } else {
        0
    }
}

/// The total payout a list of bets is owed when the wheel lands on `w`.
pub open spec fn spec_payout_sum(bets: Seq<Bet>, w: u8) -> int
    decreases bets.len(),
{
    if bets.len() == 0 {
        0
    } else {
        spec_payout_sum(bets.drop_last(), w) + spec_bet_payout(bets.last(), w)
    }
}

/// No bet pays a negative amount.
proof fn lemma_bet_payout_nonneg(bet: Bet, w: u8)
    ensures
        spec_bet_payout(bet, w) >= 0,
{
    if spec_is_bet_winner(bet.bet_type, bet.numbers[0], bet.numbers[1], w) {
        lemma_mul_nonnegative(bet.amount as int, spec_payout_multiplier(bet.bet_type) as int);
    }
}

/// Extending a prefix by one bet adds exactly that bet's payout.
proof fn lemma_payout_sum_take_succ(bets: Seq<Bet>, w: u8, j: int)
    requires
        0 <= j < bets.len(),
    ensures
        spec_payout_sum(bets.take(j + 1), w) == spec_payout_sum(bets.take(j), w)
            + spec_bet_payout(bets[j], w),
{
    assert(bets.take(j + 1).drop_last() =~= bets.take(j));
    assert(bets.take(j + 1).last() == bets[j]);
}

/// A prefix never pays more than the whole list.
proof fn lemma_payout_sum_prefix_le(bets: Seq<Bet>, w: u8, j: int)
    requires
        0 <= j <= bets.len(),
    ensures
        spec_payout_sum(bets.take(j), w) <= spec_payout_sum(bets, w),
    decreases bets.len() - j,
{
    if j == bets.len() {
        assert(bets.take(j) =~= bets);
    } else {
        lemma_payout_sum_take_succ(bets, w, j);
        lemma_bet_payout_nonneg(bets[j], w);
        lemma_payout_sum_prefix_le(bets, w, j + 1);
    }
}

/// A fresh, unbound bets record for `player`: round zero, no vault, no
/// bets, nothing claimed.
pub fn initialize_player_bets(player: Pubkey) -> (pb: PlayerBets)
    ensures
        pb.player == player,
        pb.round == 0,
        pb.vault == (Pubkey { id: 0 }),
        pb.token_mint == (Pubkey { id: 0 }),
        pb.bets@ == Seq::<Bet>::empty(),
        pb.claimed_round == 0,
        pb.wf(),
{
    PlayerBets {
        player,
        round: 0,
        vault: Pubkey { id: 0 },
        token_mint: Pubkey { id: 0 },
        bets: Vec::new(),
        claimed_round: 0,
    }
}

/// The largest stake a single bet may carry against a vault holding
/// `total_liquidity`: a fixed percentage of the liquidity, floored. This
/// bounds the house's exposure to any one bet.
pub open spec fn spec_max_bet(total_liquidity: u64) -> int {
    (total_liquidity * MAX_BET_PERCENTAGE) / (MAX_BET_PERCENTAGE_DIVISOR as int)
}

/// Stakes `bet` for `player` in the current round. The round must be
/// accepting bets, the bet type valid, the stake positive and within the
/// exposure cap. A bets record left over from an earlier round is cleared
/// and rebound to the current round and vault; within a round all bets must
/// go to one vault, and at most `MAX_BETS_PER_ROUND` of them. On success
/// the host transfers the stake into custody; the vault's liquidity grows
/// by the stake, the owner's and providers' cuts are skimmed into the
/// reward accounts, and the player becomes the session's last bettor.
pub fn place_bet(
    session: &mut GameSession,
    vault: &mut VaultAccount,
    player_bets: &mut PlayerBets,
    vault_key: Pubkey,
    player: Pubkey,
    bet: Bet,
    now: i64,
) -> (r: Result<BetPlaced, RouletteError>)
    ensures
        ({
            let s = *old(session);
            let v = *old(vault);
            let pb = *old(player_bets);
            let rebind = pb.round != s.current_round;
            let provider_revenue = (bet.amount as int) / (PROVIDER_DIVISOR as int);
            let owner_revenue = (bet.amount as int) / (OWNER_DIVISOR as int);
            let increase = if v.total_provider_capital > 0 {
                (provider_revenue * (REWARD_PRECISION as int)) / (v.total_provider_capital as int)
            } else {
                0
            };
            let unchanged = *final(session) == s && *final(vault) == v && *final(player_bets)
                == pb;
            if s.round_status != RoundStatus::AcceptingBets {
                r == Err::<BetPlaced, RouletteError>(RouletteError::BetsNotAccepted) && unchanged
            } else if bet.bet_type > BET_TYPE_MAX {
                r == Err::<BetPlaced, RouletteError>(RouletteError::InvalidBet) && unchanged
            } else if bet.amount > spec_max_bet(v.total_liquidity) {
                r == Err::<BetPlaced, RouletteError>(RouletteError::BetAmountExceedsLimit)
                    && unchanged
            } else if !rebind && pb.vault != vault_key {
                r == Err::<BetPlaced, RouletteError>(RouletteError::VaultMismatch) && unchanged
            } else if !rebind && pb.bets@.len() >= MAX_BETS_PER_ROUND {
                r == Err::<BetPlaced, RouletteError>(RouletteError::InvalidNumberOfBets)
                    && unchanged
            } else if bet.amount == 0 {
                r == Err::<BetPlaced, RouletteError>(RouletteError::InvalidBet) && unchanged
            } else if v.total_liquidity + bet.amount > u64::MAX || v.owner_reward + owner_revenue
                > u64::MAX || v.reward_per_share_index + increase > u128::MAX {
                r == Err::<BetPlaced, RouletteError>(RouletteError::ArithmeticOverflow)
                    && unchanged
            } else {
                &&& *final(session) == (GameSession { last_bettor: Some(player), ..s })
                &&& *final(vault) == (VaultAccount {
                    total_liquidity: (v.total_liquidity + bet.amount) as u64,
                    owner_reward: (v.owner_reward + owner_revenue) as u64,
                    reward_per_share_index: (v.reward_per_share_index + increase) as u128,
                    ..v
                })
                &&& final(player_bets).round == s.current_round
                &&& final(player_bets).vault == (if rebind { vault_key } else { pb.vault })
                &&& final(player_bets).token_mint == (if rebind { v.token_mint } else { pb.token_mint })
                &&& final(player_bets).player == (
                    if rebind && pb.player == (Pubkey { id: 0 }) { player } else { pb.player }
                )
                &&& final(player_bets).claimed_round == pb.claimed_round
                &&& final(player_bets).bets@ == (
                    if rebind { seq![bet] } else { pb.bets@.push(bet) }
                )
                &&& r == Ok::<BetPlaced, RouletteError>(BetPlaced {
                    player,
                    token_mint: v.token_mint,
                    round: s.current_round,
                    bet,
                    timestamp: now,
                })
            }
        }),
        old(session).wf() ==> final(session).wf(),
        old(player_bets).wf() ==> final(player_bets).wf(),
        old(vault).total_liquidity >= old(vault).total_provider_capital
            ==> final(vault).total_liquidity >= final(vault).total_provider_capital,
{
    if session.round_status != RoundStatus::AcceptingBets {
        return Err(RouletteError::BetsNotAccepted);
    }
    if bet.bet_type > BET_TYPE_MAX {
        return Err(RouletteError::InvalidBet);
    }
    let percentage: u128 = MAX_BET_PERCENTAGE as u128;
    let divisor: u128 = MAX_BET_PERCENTAGE_DIVISOR as u128;
    let scaled: u128 = (vault.total_liquidity as u128) * percentage;
    let max_bet_wide: u128 = scaled / divisor;
    assert(max_bet_wide <= u64::MAX);
    let max_bet_amount: u64 = max_bet_wide as u64;
    if bet.amount > max_bet_amount {
        return Err(RouletteError::BetAmountExceedsLimit);
    }
    let rebind = player_bets.round != session.current_round;
    if !rebind {
        if player_bets.vault != vault_key {
            return Err(RouletteError::VaultMismatch);
        }
        if player_bets.bets.len() >= MAX_BETS_PER_ROUND {
            return Err(RouletteError::InvalidNumberOfBets);
        }
    }
    if bet.amount == 0 {
        return Err(RouletteError::InvalidBet);
    }
    let new_liquidity = match vault.total_liquidity.checked_add(bet.amount) {
        Some(n) => n,
        None => { return Err(RouletteError::ArithmeticOverflow) },
    };
    let provider_revenue = bet.amount / PROVIDER_DIVISOR;
    let owner_revenue = bet.amount / OWNER_DIVISOR;
    let new_owner_reward = match vault.owner_reward.checked_add(owner_revenue) {
        Some(n) => n,
        None => { return Err(RouletteError::ArithmeticOverflow) },
    };
    let new_index = if vault.total_provider_capital > 0 {
        let increment = (provider_revenue as u128) * REWARD_PRECISION / (
        vault.total_provider_capital as u128);
        match vault.reward_per_share_index.checked_add(increment) {
            Some(n) => n,
            None => { return Err(RouletteError::ArithmeticOverflow) },
        }
    } else {
        vault.reward_per_share_index
    };
    if rebind {
        player_bets.bets.clear();
        player_bets.round = session.current_round;
        player_bets.vault = vault_key;
        player_bets.token_mint = vault.token_mint;
        let zero = Pubkey { id: 0 };
        if player_bets.player == zero {
            player_bets.player = player;
        }
    }
    player_bets.bets.push(bet);
    vault.total_liquidity = new_liquidity;
    vault.owner_reward = new_owner_reward;
    vault.reward_per_share_index = new_index;
    session.last_bettor = Some(player);
    Ok(
        BetPlaced {
            player,
            token_mint: vault.token_mint,
            round: session.current_round,
            bet,
            timestamp: now,
        },
    )
}

/// Claims `round_to_claim` for `player`. Only the most recently completed
/// round is claimable, the stored bets must belong to it, and the claim
/// right is consumed exactly once: a repeat attempt fails `Unauthorized`
/// whatever the first attempt paid. A claim that finds no winning bet
/// fails `NoWinningsFound` but still consumes the claim right. A winning
/// claim pays the total payout capped by the vault's liquidity — an
/// underfunded vault sheds the excess — and the host transfers the paid
/// amount out of custody.
#[verifier::loop_isolation(false)]
pub fn claim_my_winnings(
    session: &GameSession,
    vault: &mut VaultAccount,
    player_bets: &mut PlayerBets,
    vault_key: Pubkey,
    player: Pubkey,
    round_to_claim: u64,
    now: i64,
) -> (r: Result<WinningsClaimed, RouletteError>)
    ensures
        ({
            let s = *session;
            let v = *old(vault);
            let pb = *old(player_bets);
            let w = s.winning_number->Some_0;
            let total = spec_payout_sum(pb.bets@, w);
            let unchanged = *final(vault) == v && *final(player_bets) == pb;
            if pb.player != player {
                r == Err::<WinningsClaimed, RouletteError>(RouletteError::Unauthorized) && unchanged
            } else if pb.vault != vault_key {
                r == Err::<WinningsClaimed, RouletteError>(RouletteError::VaultMismatch)
                    && unchanged
            } else if !(round_to_claim == s.last_completed_round && s.winning_number is Some) {
                r == Err::<WinningsClaimed, RouletteError>(
                    RouletteError::ClaimRoundMismatchOrNotCompleted,
                ) && unchanged
            } else if pb.round != round_to_claim {
                r == Err::<WinningsClaimed, RouletteError>(RouletteError::BetsRoundMismatch)
                    && unchanged
            } else if pb.claimed_round >= round_to_claim {
                r == Err::<WinningsClaimed, RouletteError>(RouletteError::Unauthorized) && unchanged
            } else if total > u64::MAX {
                r == Err::<WinningsClaimed, RouletteError>(RouletteError::ArithmeticOverflow)
                    && unchanged
            } else if total == 0 {
                &&& r == Err::<WinningsClaimed, RouletteError>(RouletteError::NoWinningsFound)
                &&& *final(vault) == v
                &&& *final(player_bets) == (PlayerBets { claimed_round: round_to_claim, ..pb })
            } else if v.total_liquidity == 0 {
                r == Err::<WinningsClaimed, RouletteError>(RouletteError::InsufficientLiquidity)
                    && unchanged
            } else {
                let actual = if total <= v.total_liquidity {
                    total
                } else {
                    v.total_liquidity as int
                };
                &&& *final(vault) == (VaultAccount {
                    total_liquidity: (v.total_liquidity - actual) as u64,
                    ..v
                })
                &&& *final(player_bets) == (PlayerBets { claimed_round: round_to_claim, ..pb })
                &&& r == Ok::<WinningsClaimed, RouletteError>(WinningsClaimed {
                    round: round_to_claim,
                    player,
                    token_mint: v.token_mint,
                    amount: actual as u64,
                    timestamp: now,
                })
            }
        }),
        ({
            let v = *old(vault);
            let pb = *old(player_bets);
            let total = spec_payout_sum(pb.bets@, session.winning_number->Some_0);
            let paid = if total <= v.total_liquidity {
                total
            } else {
                v.total_liquidity as int
            };
            v.total_liquidity >= v.total_provider_capital && v.total_liquidity
                >= v.total_provider_capital + paid
                ==> final(vault).total_liquidity >= final(vault).total_provider_capital
        }),
{
    if player_bets.player != player {
        return Err(RouletteError::Unauthorized);
    }
    if player_bets.vault != vault_key {
        return Err(RouletteError::VaultMismatch);
    }
    if !(round_to_claim <= session.last_completed_round) {
        return Err(RouletteError::ClaimRoundMismatchOrNotCompleted);
    }
    let winning_number = match session.winning_number {
        Some(w) => w,
        None => { return Err(RouletteError::ClaimRoundMismatchOrNotCompleted) },
    };
    if round_to_claim != session.last_completed_round {
        return Err(RouletteError::ClaimRoundMismatchOrNotCompleted);
    }
    if player_bets.round != round_to_claim {
        return Err(RouletteError::BetsRoundMismatch);
    }
    if player_bets.claimed_round >= round_to_claim {
        return Err(RouletteError::Unauthorized);
    }
    let ghost all_bets = player_bets.bets@;
    let mut total_payout: u64 = 0;
    let mut i: usize = 0;
    let n = player_bets.bets.len();
    while i < n
        invariant
            0 <= i <= n,
            n == all_bets.len(),
            player_bets.bets@ == all_bets,
            total_payout == spec_payout_sum(all_bets.take(i as int), winning_number),
        decreases n - i,
    {
        let bet = player_bets.bets[i];
        proof {
            lemma_payout_sum_take_succ(all_bets, winning_number, i as int);
            lemma_bet_payout_nonneg(all_bets[i as int], winning_number);
        }
        if PlayerBets::is_bet_winner(bet.bet_type, &bet.numbers, winning_number) {
            let payout_for_bet = match bet.amount.checked_mul(
                PlayerBets::calculate_payout_multiplier(bet.bet_type),
            ) {
                Some(p) => p,
                None => {
                    proof {
                        lemma_payout_sum_prefix_le(all_bets, winning_number, i as int + 1);
                    }
                    return Err(RouletteError::ArithmeticOverflow);
                },
            };
            total_payout = match total_payout.checked_add(payout_for_bet) {
                Some(t) => t,
                None => {
                    proof {
                        lemma_payout_sum_prefix_le(all_bets, winning_number, i as int + 1);
                    }
                    return Err(RouletteError::ArithmeticOverflow);
                },
            };
        }
        i = i + 1;
    }
    proof {
        assert(all_bets.take(n as int) =~= all_bets);
    }
    if total_payout == 0 {
        player_bets.claimed_round = round_to_claim;
        return Err(RouletteError::NoWinningsFound);
    }
    let actual_payout = if total_payout <= vault.total_liquidity {
        total_payout
    } else {
        vault.total_liquidity
    };
    if actual_payout == 0 {
        return Err(RouletteError::InsufficientLiquidity);
    }
    vault.total_liquidity = vault.total_liquidity - actual_payout;
    player_bets.claimed_round = round_to_claim;
    Ok(
        WinningsClaimed {
            round: round_to_claim,
            player,
            token_mint: vault.token_mint,
            amount: actual_payout,
            timestamp: now,
        },
    )
}

} // verus!
