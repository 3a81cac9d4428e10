//! Vault accounting: provision, withdrawal, rewards and the reserve.

use program_roulette::errors::RouletteError;
use program_roulette::game::initialize_game_session;
use program_roulette::rewards::pending_reward;
use program_roulette::state::{ProviderState, Pubkey, VaultAccount};
use program_roulette::vault::{
    distribute_payout_reserve, get_unclaimed_rewards, initialize_and_provide_liquidity,
    provide_liquidity, withdraw_liquidity, withdraw_owner_revenue, withdraw_provider_revenue,
};

fn mint() -> Pubkey {
    Pubkey { id: 2 }
}

fn vault_key() -> Pubkey {
    Pubkey { id: 4 }
}

fn fresh_provider_record() -> ProviderState {
    // What the host hands the engine for a just-created, zeroed record.
    ProviderState {
        vault: Pubkey { id: 0 },
        provider: Pubkey { id: 0 },
        amount: 0,
        unclaimed_rewards: 0,
        reward_per_share_index_last_claimed: 0,
    }
}

#[test]
fn seeding_creates_a_backed_vault() {
    let provider = Pubkey { id: 5 };
    let (v, ps, ev) = initialize_and_provide_liquidity(
        mint(),
        Pubkey { id: 3 },
        vault_key(),
        provider,
        10_000,
        100,
    );
    assert_eq!(v.total_liquidity, 10_000);
    assert_eq!(v.total_provider_capital, 10_000);
    assert_eq!(v.owner_reward, 0);
    assert_eq!(v.reward_per_share_index, 0);
    assert_eq!(ps.amount, 10_000);
    assert_eq!(ps.unclaimed_rewards, 0);
    assert_eq!(ps.vault, vault_key());
    assert_eq!(ps.provider, provider);
    assert_eq!(ev.amount, 10_000);
}

#[test]
fn provide_rejects_zero() {
    let provider = Pubkey { id: 5 };
    let (mut v, _, _) = initialize_and_provide_liquidity(
        mint(),
        Pubkey { id: 3 },
        vault_key(),
        provider,
        1_000,
        100,
    );
    let mut ps = fresh_provider_record();
    let r = provide_liquidity(&mut v, &mut ps, vault_key(), provider, 0, 101);
    assert_eq!(r.unwrap_err(), RouletteError::InvalidBet);
    assert_eq!(v.total_liquidity, 1_000);
}

#[test]
fn provide_binds_a_fresh_record() {
    let seeder = Pubkey { id: 5 };
    let joiner = Pubkey { id: 6 };
    let (mut v, _, _) = initialize_and_provide_liquidity(
        mint(),
        Pubkey { id: 3 },
        vault_key(),
        seeder,
        1_000,
        100,
    );
    let mut ps = fresh_provider_record();
    let ev = provide_liquidity(&mut v, &mut ps, vault_key(), joiner, 500, 101).unwrap();
    assert_eq!(ev.amount, 500);
    assert_eq!(ps.vault, vault_key());
    assert_eq!(ps.provider, joiner);
    assert_eq!(ps.amount, 500);
    assert_eq!(v.total_liquidity, 1_500);
    assert_eq!(v.total_provider_capital, 1_500);
}

#[test]
fn capital_equals_sum_of_provider_principals() {
    // Across any sequence of provides and withdrawals, the vault's
    // provider capital equals the sum of all live records' principals.
    let seeder = Pubkey { id: 5 };
    let joiner = Pubkey { id: 6 };
    let (mut v, ps0, _) = initialize_and_provide_liquidity(
        mint(),
        Pubkey { id: 3 },
        vault_key(),
        seeder,
        1_000,
        100,
    );
    let mut records: Vec<ProviderState> = vec![ps0];
    let check = |v: &VaultAccount, records: &Vec<ProviderState>| {
        let total: u64 = records.iter().map(|p| p.amount).sum();
        assert_eq!(v.total_provider_capital, total);
    };
    check(&v, &records);

    let mut ps1 = fresh_provider_record();
    provide_liquidity(&mut v, &mut ps1, vault_key(), joiner, 700, 101).unwrap();
    records.push(ps1);
    check(&v, &records);

    let mut ps0 = records[0];
    provide_liquidity(&mut v, &mut ps0, vault_key(), seeder, 300, 102).unwrap();
    records[0] = ps0;
    check(&v, &records);

    // Full withdrawal destroys the record.
    let (_ev, paid) = withdraw_liquidity(&mut v, &records[0], vault_key(), seeder, 103).unwrap();
    assert_eq!(paid, 1_300);
    records.remove(0);
    check(&v, &records);
    assert_eq!(v.total_provider_capital, 700);
    assert_eq!(v.total_liquidity, 700);
}

#[test]
fn liquidity_always_covers_capital() {
    // House-edge accrual and reserve distribution never leave the
    // providers' capital under-backed.
    let seeder = Pubkey { id: 5 };
    let auth = Pubkey { id: 7 };
    let session = initialize_game_session(auth);
    let (mut v, mut ps, _) = initialize_and_provide_liquidity(
        mint(),
        Pubkey { id: 3 },
        vault_key(),
        seeder,
        1_000,
        100,
    );
    assert!(v.total_liquidity >= v.total_provider_capital);
    provide_liquidity(&mut v, &mut ps, vault_key(), seeder, 250, 101).unwrap();
    assert!(v.total_liquidity >= v.total_provider_capital);
    // Simulate house edge: liquidity the bets left behind.
    v.total_liquidity += 500;
    distribute_payout_reserve(&mut v, &session, auth, 102).unwrap();
    assert!(v.total_liquidity >= v.total_provider_capital);
}

#[test]
fn withdraw_checks_record_bindings() {
    let seeder = Pubkey { id: 5 };
    let (mut v, ps, _) = initialize_and_provide_liquidity(
        mint(),
        Pubkey { id: 3 },
        vault_key(),
        seeder,
        1_000,
        100,
    );
    let r = withdraw_liquidity(&mut v, &ps, Pubkey { id: 99 }, seeder, 101);
    assert_eq!(r.unwrap_err(), RouletteError::VaultMismatch);
    let r = withdraw_liquidity(&mut v, &ps, vault_key(), Pubkey { id: 99 }, 101);
    assert_eq!(r.unwrap_err(), RouletteError::Unauthorized);
    assert_eq!(v.total_liquidity, 1_000);
}

#[test]
fn withdraw_fails_on_underfunded_vault() {
    let seeder = Pubkey { id: 5 };
    let (mut v, ps, _) = initialize_and_provide_liquidity(
        mint(),
        Pubkey { id: 3 },
        vault_key(),
        seeder,
        1_000,
        100,
    );
    // A capped claim payout can leave the custody short of the principal.
    v.total_liquidity = 400;
    let r = withdraw_liquidity(&mut v, &ps, vault_key(), seeder, 101);
    assert_eq!(r.unwrap_err(), RouletteError::InsufficientLiquidity);
    assert_eq!(v.total_liquidity, 400);
    assert_eq!(v.total_provider_capital, 1_000);
}

#[test]
fn settlement_formula_is_exact() {
    // With capital 1000 and an index delta of 10^10 (a provider cut of 10
    // spread over capital 1000), the provider earns exactly 10.
    let seeder = Pubkey { id: 5 };
    let (mut v, ps, _) = initialize_and_provide_liquidity(
        mint(),
        Pubkey { id: 3 },
        vault_key(),
        seeder,
        1_000,
        100,
    );
    v.reward_per_share_index = 10_000_000_000;
    v.total_liquidity += 10;
    assert_eq!(get_unclaimed_rewards(&v, &ps).unwrap(), 10);
    // Withdrawal pays principal plus the settled reward.
    let (ev, paid) = withdraw_liquidity(&mut v, &ps, vault_key(), seeder, 101).unwrap();
    assert_eq!(ev.amount, 1_000);
    assert_eq!(paid, 1_010);
    assert_eq!(v.total_liquidity, 0);
    assert_eq!(v.total_provider_capital, 0);
}

#[test]
fn settlement_timing_loses_at_most_dust() {
    // Settling midway can only lose truncation dust against settling once.
    let half: u128 = 500_000_000_000; // half the precision
    // One step over the whole interval: floor(10^12 * 1 / 10^12) = 1.
    let whole = pending_reward(0, 1, 2 * half).unwrap();
    assert_eq!(whole, 1);
    // Two steps truncate twice: 0 + 0.
    let first = pending_reward(0, 1, half).unwrap();
    let second = pending_reward(half, 1, 2 * half).unwrap();
    assert_eq!(first + second, 0);
    assert!(first + second <= whole);
    assert!(whole <= first + second + 1);
}

#[test]
fn settlement_timing_is_immaterial_on_exact_boundaries() {
    // With capital 2, the first interval's product is a precision
    // multiple, so the split settles exactly like the single settlement.
    let half: u128 = 500_000_000_000;
    let whole = pending_reward(0, 2, 2 * half).unwrap();
    let first = pending_reward(0, 2, half).unwrap();
    let second = pending_reward(half, 2, 2 * half).unwrap();
    assert_eq!(first + second, whole);
    assert_eq!(whole, 2);
}

#[test]
fn provider_revenue_requires_a_reward() {
    let seeder = Pubkey { id: 5 };
    let (mut v, mut ps, _) = initialize_and_provide_liquidity(
        mint(),
        Pubkey { id: 3 },
        vault_key(),
        seeder,
        1_000,
        100,
    );
    let r = withdraw_provider_revenue(&mut v, &mut ps, vault_key(), seeder, 101);
    assert_eq!(r.unwrap_err(), RouletteError::NoReward);
}

#[test]
fn provider_revenue_pays_rewards_only() {
    let seeder = Pubkey { id: 5 };
    let (mut v, mut ps, _) = initialize_and_provide_liquidity(
        mint(),
        Pubkey { id: 3 },
        vault_key(),
        seeder,
        1_000,
        100,
    );
    v.reward_per_share_index = 10_000_000_000;
    v.total_liquidity += 10;
    let ev = withdraw_provider_revenue(&mut v, &mut ps, vault_key(), seeder, 101).unwrap();
    assert_eq!(ev.amount, 10);
    assert_eq!(ps.amount, 1_000);
    assert_eq!(ps.unclaimed_rewards, 0);
    assert_eq!(ps.reward_per_share_index_last_claimed, 10_000_000_000);
    assert_eq!(v.total_liquidity, 1_000);
    // Settling again immediately finds nothing.
    let r = withdraw_provider_revenue(&mut v, &mut ps, vault_key(), seeder, 102);
    assert_eq!(r.unwrap_err(), RouletteError::NoReward);
}

#[test]
fn owner_revenue_is_gated_and_checked() {
    let auth = Pubkey { id: 7 };
    let treasury = Pubkey { id: 11 };
    let session = initialize_game_session(auth);
    let seeder = Pubkey { id: 5 };
    let (mut v, _, _) = initialize_and_provide_liquidity(
        mint(),
        Pubkey { id: 3 },
        vault_key(),
        seeder,
        1_000,
        100,
    );
    v.owner_reward = 40;
    v.total_liquidity += 40;
    let r = withdraw_owner_revenue(&mut v, &session, Pubkey { id: 8 }, treasury, treasury, mint());
    assert_eq!(r.unwrap_err(), RouletteError::AdminOnly);
    let r = withdraw_owner_revenue(&mut v, &session, auth, treasury, Pubkey { id: 12 }, mint());
    assert_eq!(r.unwrap_err(), RouletteError::InvalidTreasuryAccountOwner);
    let r = withdraw_owner_revenue(&mut v, &session, auth, treasury, treasury, Pubkey { id: 13 });
    assert_eq!(r.unwrap_err(), RouletteError::TreasuryAccountMintMismatch);
    let paid = withdraw_owner_revenue(&mut v, &session, auth, treasury, treasury, mint()).unwrap();
    assert_eq!(paid, 40);
    assert_eq!(v.owner_reward, 0);
    assert_eq!(v.total_liquidity, 1_000);
    let r = withdraw_owner_revenue(&mut v, &session, auth, treasury, treasury, mint());
    assert_eq!(r.unwrap_err(), RouletteError::NoReward);
}

#[test]
fn reserve_distribution_splits_and_shrinks() {
    let auth = Pubkey { id: 7 };
    let session = initialize_game_session(auth);
    let seeder = Pubkey { id: 5 };
    let (mut v, ps, _) = initialize_and_provide_liquidity(
        mint(),
        Pubkey { id: 3 },
        vault_key(),
        seeder,
        1_000,
        100,
    );
    let r = distribute_payout_reserve(&mut v, &session, auth, 101);
    assert_eq!(r.unwrap_err(), RouletteError::NoReward);
    // House edge of 101: distribute half (50), owner 25, providers 25.
    v.total_liquidity += 101;
    let r = distribute_payout_reserve(&mut v, &session, Pubkey { id: 8 }, 102);
    assert_eq!(r.unwrap_err(), RouletteError::AdminOnly);
    let ev = distribute_payout_reserve(&mut v, &session, auth, 102).unwrap();
    assert_eq!(ev.amount_distributed, 50);
    assert_eq!(v.owner_reward, 25);
    // 25 * 10^12 / 1000 providers' index increase.
    assert_eq!(v.reward_per_share_index, 25_000_000_000);
    assert_eq!(v.total_liquidity, 1_051);
    assert_eq!(get_unclaimed_rewards(&v, &ps).unwrap(), 25);
    // The remaining reserve shrank from 101 to 51.
    let ev = distribute_payout_reserve(&mut v, &session, auth, 103).unwrap();
    assert_eq!(ev.amount_distributed, 25);
    // An odd distribution gives the larger half to the providers.
    assert_eq!(v.owner_reward, 25 + 12);
}

#[test]
fn tiny_reserve_is_not_distributable() {
    let auth = Pubkey { id: 7 };
    let session = initialize_game_session(auth);
    let seeder = Pubkey { id: 5 };
    let (mut v, _, _) = initialize_and_provide_liquidity(
        mint(),
        Pubkey { id: 3 },
        vault_key(),
        seeder,
        1_000,
        100,
    );
    v.total_liquidity += 1;
    let r = distribute_payout_reserve(&mut v, &session, auth, 101);
    assert_eq!(r.unwrap_err(), RouletteError::NoReward);
}
