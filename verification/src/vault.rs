//! Vault accounting: liquidity provision, withdrawal and revenue payout.
//!
//! A vault's `total_liquidity` counts every token its custody account
//! holds; `total_provider_capital` counts only the providers' principal.
//! The difference is the payout reserve: house edge not yet attributed.
//! Every operation settles a provider's pending rewards against the current
//! reward index *before* touching their principal — settling afterwards
//! would corrupt the index-delta computation.
//!
//! Token movements themselves are the host's: each operation validates and
//! updates the accounting and tells its caller how much to transfer; a
//! rejected operation changes nothing.

use vstd::prelude::*;

use crate::constants::REWARD_PRECISION;
use crate::errors::RouletteError;
use crate::events::{LiquidityProvided, LiquidityWithdrawn, ProviderRevenueWithdrawn,
    PayoutReserveDistributed};
use crate::rewards::{pending_reward, spec_settled_rewards};
use crate::state::{GameSession, ProviderState, Pubkey, VaultAccount};

verus! {

/// The rewards a provider record is owed against a vault's current index.
pub open spec fn spec_provider_settled(ps: ProviderState, v: VaultAccount) -> int {
    spec_settled_rewards(
        ps.unclaimed_rewards,
        ps.reward_per_share_index_last_claimed,
        ps.amount,
        v.reward_per_share_index,
    )
}

/// Creates a vault for `token_mint` seeded with `amount` from `provider`,
/// together with the seeding provider's record. The host charges the
/// creation fee, moves `amount` into the new custody account and hands
/// custody to the vault before committing the records returned here.
pub fn initialize_and_provide_liquidity(
    token_mint: Pubkey,
    vault_token_account: Pubkey,
    vault_key: Pubkey,
    provider: Pubkey,
    amount: u64,
    now: i64,
) -> (r: (VaultAccount, ProviderState, LiquidityProvided))
    ensures
        r.0 == (VaultAccount {
            token_mint,
            token_account: vault_token_account,
            total_liquidity: amount,
            total_provider_capital: amount,
            owner_reward: 0,
            reward_per_share_index: 0,
        }),
        r.1 == (ProviderState {
            vault: vault_key,
            provider,
            amount,
            unclaimed_rewards: 0,
            reward_per_share_index_last_claimed: 0,
        }),
        r.2 == (LiquidityProvided { provider, token_mint, amount, timestamp: now }),
        r.0.total_liquidity >= r.0.total_provider_capital,
{
    let vault = VaultAccount {
        token_mint,
        token_account: vault_token_account,
        total_liquidity: amount,
        total_provider_capital: amount,
        owner_reward: 0,
        reward_per_share_index: 0,
    };
    let provider_state = ProviderState {
        vault: vault_key,
        provider,
        amount,
        unclaimed_rewards: 0,
        reward_per_share_index_last_claimed: 0,
    };
    let event = LiquidityProvided { provider, token_mint, amount, timestamp: now };
    (vault, provider_state, event)
}

/// Deposits `amount` into an existing vault for `provider`, settling their
/// pending rewards first and then raising the vault's liquidity, the
/// provider capital and the provider's principal in step. A zero deposit is
/// rejected; any overflow rejects the operation with nothing changed. The
/// host moves `amount` into custody on success. A freshly created (zeroed)
/// provider record is bound to `vault_key` and `provider` on first use.
pub fn provide_liquidity(
    vault: &mut VaultAccount,
    provider_state: &mut ProviderState,
    vault_key: Pubkey,
    provider: Pubkey,
    amount: u64,
    now: i64,
) -> (r: Result<LiquidityProvided, RouletteError>)
    ensures
        ({
            let v = *old(vault);
            let ps = *old(provider_state);
            let settled = spec_provider_settled(ps, v);
            if amount == 0 {
                &&& r == Err::<LiquidityProvided, RouletteError>(RouletteError::InvalidBet)
                &&& *final(vault) == v
                &&& *final(provider_state) == ps
            } else if settled > u64::MAX || v.total_liquidity + amount > u64::MAX
                || v.total_provider_capital + amount > u64::MAX || ps.amount + amount
                > u64::MAX {
                &&& r == Err::<LiquidityProvided, RouletteError>(RouletteError::ArithmeticOverflow)
                &&& *final(vault) == v
                &&& *final(provider_state) == ps
            } else {
                &&& *final(vault) == (VaultAccount {
                    total_liquidity: (v.total_liquidity + amount) as u64,
                    total_provider_capital: (v.total_provider_capital + amount) as u64,
                    ..v
                })
                &&& *final(provider_state) == (ProviderState {
                    vault: if ps.vault == (Pubkey { id: 0 }) { vault_key } else { ps.vault },
                    provider: if ps.vault == (Pubkey { id: 0 }) { provider } else { ps.provider },
                    amount: (ps.amount + amount) as u64,
                    unclaimed_rewards: settled as u64,
                    reward_per_share_index_last_claimed: v.reward_per_share_index,
                })
                &&& r == Ok::<LiquidityProvided, RouletteError>(LiquidityProvided {
                    provider,
                    token_mint: v.token_mint,
                    amount,
                    timestamp: now,
                })
            }
        }),
        old(vault).total_liquidity >= old(vault).total_provider_capital
            ==> final(vault).total_liquidity >= final(vault).total_provider_capital,
{
    if amount == 0 {
        return Err(RouletteError::InvalidBet);
    }
    let pending = match pending_reward(
        provider_state.reward_per_share_index_last_claimed,
        provider_state.amount,
        vault.reward_per_share_index,
    ) {
        Ok(p) => p,
        Err(e) => { return Err(e) },
    };
    let new_unclaimed = match provider_state.unclaimed_rewards.checked_add(pending) {
        Some(n) => n,
        None => { return Err(RouletteError::ArithmeticOverflow) },
    };
    let new_liquidity = match vault.total_liquidity.checked_add(amount) {
        Some(n) => n,
        None => { return Err(RouletteError::ArithmeticOverflow) },
    };
    let new_capital = match vault.total_provider_capital.checked_add(amount) {
        Some(n) => n,
        None => { return Err(RouletteError::ArithmeticOverflow) },
    };
    let new_principal = match provider_state.amount.checked_add(amount) {
        Some(n) => n,
        None => { return Err(RouletteError::ArithmeticOverflow) },
    };
    let zero = Pubkey { id: 0 };
    if provider_state.vault == zero {
        provider_state.vault = vault_key;
        provider_state.provider = provider;
    }
    vault.total_liquidity = new_liquidity;
    vault.total_provider_capital = new_capital;
    provider_state.amount = new_principal;
    provider_state.unclaimed_rewards = new_unclaimed;
    provider_state.reward_per_share_index_last_claimed = vault.reward_per_share_index;
    Ok(LiquidityProvided { provider, token_mint: vault.token_mint, amount, timestamp: now })
}

/// Withdraws a provider's entire position: principal plus finally settled
/// rewards. On success the returned amount is what the host transfers out
/// of custody, and the caller destroys the provider's record; the vault's
/// liquidity drops by the whole withdrawal but its provider capital only by
/// the principal. Rejected whole if the vault cannot cover the withdrawal.
pub fn withdraw_liquidity(
    vault: &mut VaultAccount,
    provider_state: &ProviderState,
    vault_key: Pubkey,
    provider: Pubkey,
    now: i64,
) -> (r: Result<(LiquidityWithdrawn, u64), RouletteError>)
    ensures
        ({
            let v = *old(vault);
            let ps = *provider_state;
            let settled = spec_provider_settled(ps, v);
            let total = ps.amount + settled;
            if ps.vault != vault_key {
                r == Err::<(LiquidityWithdrawn, u64), RouletteError>(RouletteError::VaultMismatch)
                    && *final(vault) == v
            } else if ps.provider != provider {
                r == Err::<(LiquidityWithdrawn, u64), RouletteError>(RouletteError::Unauthorized)
                    && *final(vault) == v
            } else if total > u64::MAX {
                r == Err::<(LiquidityWithdrawn, u64), RouletteError>(
                    RouletteError::ArithmeticOverflow,
                ) && *final(vault) == v
            } else if total > 0 && v.total_liquidity < total {
                r == Err::<(LiquidityWithdrawn, u64), RouletteError>(
                    RouletteError::InsufficientLiquidity,
                ) && *final(vault) == v
            } else if v.total_provider_capital < ps.amount {
                r == Err::<(LiquidityWithdrawn, u64), RouletteError>(
                    RouletteError::ArithmeticOverflow,
                ) && *final(vault) == v
            } else {
                &&& *final(vault) == (VaultAccount {
                    total_liquidity: (v.total_liquidity - total) as u64,
                    total_provider_capital: (v.total_provider_capital - ps.amount) as u64,
                    ..v
                })
                &&& r == Ok::<(LiquidityWithdrawn, u64), RouletteError>(
                    (
                        LiquidityWithdrawn {
                            provider,
                            token_mint: v.token_mint,
                            amount: ps.amount,
                            timestamp: now,
                        },
                        total as u64,
                    ),
                )
            }
        }),
        old(vault).total_liquidity >= old(vault).total_provider_capital + spec_provider_settled(
            *provider_state,
            *old(vault),
        ) ==> final(vault).total_liquidity >= final(vault).total_provider_capital,
{
    if provider_state.vault != vault_key {
        return Err(RouletteError::VaultMismatch);
    }
    if provider_state.provider != provider {
        return Err(RouletteError::Unauthorized);
    }
    let pending = match pending_reward(
        provider_state.reward_per_share_index_last_claimed,
        provider_state.amount,
        vault.reward_per_share_index,
    ) {
        Ok(p) => p,
        Err(e) => { return Err(e) },
    };
    let final_rewards = match provider_state.unclaimed_rewards.checked_add(pending) {
        Some(n) => n,
        None => { return Err(RouletteError::ArithmeticOverflow) },
    };
    let total_withdrawal = match provider_state.amount.checked_add(final_rewards) {
        Some(n) => n,
        None => { return Err(RouletteError::ArithmeticOverflow) },
    };
    if total_withdrawal > 0 && vault.total_liquidity < total_withdrawal {
        return Err(RouletteError::InsufficientLiquidity);
    }
    let new_capital = match vault.total_provider_capital.checked_sub(provider_state.amount) {
        Some(n) => n,
        None => { return Err(RouletteError::ArithmeticOverflow) },
    };
    vault.total_liquidity = vault.total_liquidity - total_withdrawal;
    vault.total_provider_capital = new_capital;
    Ok(
        (
            LiquidityWithdrawn {
                provider,
                token_mint: vault.token_mint,
                amount: provider_state.amount,
                timestamp: now,
            },
            total_withdrawal,
        ),
    )
}

/// Pays a provider their settled rewards only, leaving the principal in
/// place: rejected when nothing has accrued or the vault cannot cover the
/// payout; on success the returned event's `amount` is what the host
/// transfers, the provider's unclaimed rewards reset and their checkpoint
/// advances to the current index.
pub fn withdraw_provider_revenue(
    vault: &mut VaultAccount,
    provider_state: &mut ProviderState,
    vault_key: Pubkey,
    provider: Pubkey,
    now: i64,
) -> (r: Result<ProviderRevenueWithdrawn, RouletteError>)
    ensures
        ({
            let v = *old(vault);
            let ps = *old(provider_state);
            let settled = spec_provider_settled(ps, v);
            if ps.vault != vault_key {
                &&& r == Err::<ProviderRevenueWithdrawn, RouletteError>(
                    RouletteError::VaultMismatch,
                )
                &&& *final(vault) == v
                &&& *final(provider_state) == ps
            } else if ps.provider != provider {
                &&& r == Err::<ProviderRevenueWithdrawn, RouletteError>(RouletteError::Unauthorized)
                &&& *final(vault) == v
                &&& *final(provider_state) == ps
            } else if settled > u64::MAX {
                &&& r == Err::<ProviderRevenueWithdrawn, RouletteError>(
                    RouletteError::ArithmeticOverflow,
                )
                &&& *final(vault) == v
                &&& *final(provider_state) == ps
            } else if settled == 0 {
                &&& r == Err::<ProviderRevenueWithdrawn, RouletteError>(RouletteError::NoReward)
                &&& *final(vault) == v
                &&& *final(provider_state) == ps
            } else if v.total_liquidity < settled {
                &&& r == Err::<ProviderRevenueWithdrawn, RouletteError>(
                    RouletteError::InsufficientLiquidity,
                )
                &&& *final(vault) == v
                &&& *final(provider_state) == ps
            } else {
                &&& *final(vault) == (VaultAccount {
                    total_liquidity: (v.total_liquidity - settled) as u64,
                    ..v
                })
                &&& *final(provider_state) == (ProviderState {
                    unclaimed_rewards: 0,
                    reward_per_share_index_last_claimed: v.reward_per_share_index,
                    ..ps
                })
                &&& r == Ok::<ProviderRevenueWithdrawn, RouletteError>(ProviderRevenueWithdrawn {
                    provider,
                    token_mint: v.token_mint,
                    amount: settled as u64,
                    timestamp: now,
                })
            }
        }),
        old(vault).total_liquidity >= old(vault).total_provider_capital + spec_provider_settled(
            *old(provider_state),
            *old(vault),
        ) ==> final(vault).total_liquidity >= final(vault).total_provider_capital,
{
    if provider_state.vault != vault_key {
        return Err(RouletteError::VaultMismatch);
    }
    if provider_state.provider != provider {
        return Err(RouletteError::Unauthorized);
    }
    let pending = match pending_reward(
        provider_state.reward_per_share_index_last_claimed,
        provider_state.amount,
        vault.reward_per_share_index,
    ) {
        Ok(p) => p,
        Err(e) => { return Err(e) },
    };
    let total_rewards = match provider_state.unclaimed_rewards.checked_add(pending) {
        Some(n) => n,
        None => { return Err(RouletteError::ArithmeticOverflow) },
    };
    if total_rewards == 0 {
        return Err(RouletteError::NoReward);
    }
    if vault.total_liquidity < total_rewards {
        return Err(RouletteError::InsufficientLiquidity);
    }
    vault.total_liquidity = vault.total_liquidity - total_rewards;
    provider_state.unclaimed_rewards = 0;
    provider_state.reward_per_share_index_last_claimed = vault.reward_per_share_index;
    Ok(
        ProviderRevenueWithdrawn {
            provider,
            token_mint: vault.token_mint,
            amount: total_rewards,
            timestamp: now,
        },
    )
}

/// Reports the rewards a provider could withdraw right now, without
/// changing anything.
pub fn get_unclaimed_rewards(vault: &VaultAccount, provider_state: &ProviderState) -> (r: Result<
    u64,
    RouletteError,
>)
    ensures
        ({
            let settled = spec_provider_settled(*provider_state, *vault);
            if settled > u64::MAX {
                r == Err::<u64, RouletteError>(RouletteError::ArithmeticOverflow)
            } else {
                r == Ok::<u64, RouletteError>(settled as u64)
            }
        }),
{
    let pending = match pending_reward(
        provider_state.reward_per_share_index_last_claimed,
        provider_state.amount,
        vault.reward_per_share_index,
    ) {
        Ok(p) => p,
        Err(e) => { return Err(e) },
    };
    match provider_state.unclaimed_rewards.checked_add(pending) {
        Some(n) => Ok(n),
        None => Err(RouletteError::ArithmeticOverflow),
    }
}

/// Pays the accumulated owner reward out to a treasury-owned token account
/// of the vault's mint. Only the session authority may trigger it; the
/// destination must be owned by `treasury` and carry the vault's mint. On
/// success the returned amount is what the host transfers and the owner
/// accumulator resets.
pub fn withdraw_owner_revenue(
    vault: &mut VaultAccount,
    session: &GameSession,
    authority: Pubkey,
    treasury: Pubkey,
    treasury_owner: Pubkey,
    treasury_mint: Pubkey,
) -> (r: Result<u64, RouletteError>)
    ensures
        ({
            let v = *old(vault);
            if authority != session.authority {
                r == Err::<u64, RouletteError>(RouletteError::AdminOnly) && *final(vault) == v
            } else if treasury_owner != treasury {
                r == Err::<u64, RouletteError>(RouletteError::InvalidTreasuryAccountOwner)
                    && *final(vault) == v
            } else if treasury_mint != v.token_mint {
                r == Err::<u64, RouletteError>(RouletteError::TreasuryAccountMintMismatch)
                    && *final(vault) == v
            } else if v.owner_reward == 0 {
                r == Err::<u64, RouletteError>(RouletteError::NoReward) && *final(vault) == v
            } else if v.total_liquidity < v.owner_reward {
                r == Err::<u64, RouletteError>(RouletteError::InsufficientLiquidity)
                    && *final(vault) == v
            } else {
                &&& *final(vault) == (VaultAccount {
                    total_liquidity: (v.total_liquidity - v.owner_reward) as u64,
                    owner_reward: 0,
                    ..v
                })
                &&& r == Ok::<u64, RouletteError>(v.owner_reward)
            }
        }),
        old(vault).total_liquidity >= old(vault).total_provider_capital + old(vault).owner_reward
            ==> final(vault).total_liquidity >= final(vault).total_provider_capital,
{
    if authority != session.authority {
        return Err(RouletteError::AdminOnly);
    }
    if treasury_owner != treasury {
        return Err(RouletteError::InvalidTreasuryAccountOwner);
    }
    if treasury_mint != vault.token_mint {
        return Err(RouletteError::TreasuryAccountMintMismatch);
    }
    let reward_amount = vault.owner_reward;
    if reward_amount == 0 {
        return Err(RouletteError::NoReward);
    }
    if vault.total_liquidity < reward_amount {
        return Err(RouletteError::InsufficientLiquidity);
    }
    vault.total_liquidity = vault.total_liquidity - reward_amount;
    vault.owner_reward = 0;
    Ok(reward_amount)
}

/// The index increase a distribution of `providers_share` causes when
/// `capital` is the provider capital it is spread over.
pub open spec fn spec_index_increase(providers_share: int, capital: u64) -> int {
    if capital > 0 {
        providers_share * (REWARD_PRECISION as int) / (capital as int)
    } else {
        0
    }
}

/// Folds half the payout reserve (`total_liquidity` minus
/// `total_provider_capital`) back into the reward accounts: one half of the
/// distributed amount to the owner accumulator, the rest — the larger half,
/// so no dust is lost — to the providers via the reward index, the latter
/// only while any provider capital exists. Only the session authority may
/// trigger it; an empty reserve is rejected with `NoReward`. Each repeat
/// call halves a smaller reserve.
pub fn distribute_payout_reserve(
    vault: &mut VaultAccount,
    session: &GameSession,
    authority: Pubkey,
    now: i64,
) -> (r: Result<PayoutReserveDistributed, RouletteError>)
    ensures
        ({
            let v = *old(vault);
            let reserve = v.total_liquidity - v.total_provider_capital;
            let amount = reserve / 2;
            let owner_share = amount / 2;
            let providers_share = amount - owner_share;
            let increase = spec_index_increase(providers_share, v.total_provider_capital);
            if authority != session.authority {
                r == Err::<PayoutReserveDistributed, RouletteError>(RouletteError::AdminOnly)
                    && *final(vault) == v
            } else if reserve < 0 {
                r == Err::<PayoutReserveDistributed, RouletteError>(
                    RouletteError::ArithmeticOverflow,
                ) && *final(vault) == v
            } else if amount == 0 {
                r == Err::<PayoutReserveDistributed, RouletteError>(RouletteError::NoReward)
                    && *final(vault) == v
            } else if v.owner_reward + owner_share > u64::MAX {
                r == Err::<PayoutReserveDistributed, RouletteError>(
                    RouletteError::ArithmeticOverflow,
                ) && *final(vault) == v
            } else if v.reward_per_share_index + increase > u128::MAX {
                r == Err::<PayoutReserveDistributed, RouletteError>(
                    RouletteError::ArithmeticOverflow,
                ) && *final(vault) == v
            } else {
                &&& *final(vault) == (VaultAccount {
                    total_liquidity: (v.total_liquidity - amount) as u64,
                    owner_reward: (v.owner_reward + owner_share) as u64,
                    reward_per_share_index: (v.reward_per_share_index + increase) as u128,
                    ..v
                })
                &&& r == Ok::<PayoutReserveDistributed, RouletteError>(PayoutReserveDistributed {
                    token_mint: v.token_mint,
                    amount_distributed: amount as u64,
                    timestamp: now,
                })
            }
        }),
        old(vault).total_liquidity >= old(vault).total_provider_capital
            ==> final(vault).total_liquidity >= final(vault).total_provider_capital,
{
    if authority != session.authority {
        return Err(RouletteError::AdminOnly);
    }
    let payout_reserve = match vault.total_liquidity.checked_sub(vault.total_provider_capital) {
        Some(v) => v,
        None => { return Err(RouletteError::ArithmeticOverflow) },
    };
    if payout_reserve == 0 {
        return Err(RouletteError::NoReward);
    }
    let amount_to_distribute = payout_reserve / 2;
    if amount_to_distribute == 0 {
        return Err(RouletteError::NoReward);
    }
    let owner_share = amount_to_distribute / 2;
    let providers_share = amount_to_distribute - owner_share;
    let new_owner_reward = match vault.owner_reward.checked_add(owner_share) {
        Some(n) => n,
        None => { return Err(RouletteError::ArithmeticOverflow) },
    };
    let new_index = if vault.total_provider_capital > 0 {
        let increase = (providers_share as u128) * REWARD_PRECISION / (
        vault.total_provider_capital as u128);
        match vault.reward_per_share_index.checked_add(increase) {
            Some(n) => n,
            None => { return Err(RouletteError::ArithmeticOverflow) },
        }
    } else {
        vault.reward_per_share_index
    };
    vault.total_liquidity = vault.total_liquidity - amount_to_distribute;
    vault.owner_reward = new_owner_reward;
    vault.reward_per_share_index = new_index;
    Ok(
        PayoutReserveDistributed {
            token_mint: vault.token_mint,
            amount_distributed: amount_to_distribute,
            timestamp: now,
        },
    )
}

/// The sum of the principal deposited across a set of provider records:
/// what a vault's `total_provider_capital` is meant to count.
pub open spec fn spec_total_principal(providers: Seq<ProviderState>) -> int
    decreases providers.len(),
{
    if providers.len() == 0 {
        0
    } else {
        spec_total_principal(providers.drop_last()) + providers.last().amount
    }
}

/// Replacing one record changes the principal sum by exactly the change in
/// that record's principal.
proof fn lemma_total_principal_update(providers: Seq<ProviderState>, i: int, ps: ProviderState)
    requires
        0 <= i < providers.len(),
    ensures
        spec_total_principal(providers.update(i, ps)) == spec_total_principal(providers)
            - providers[i].amount + ps.amount,
    decreases providers.len(),
{
    let updated = providers.update(i, ps);
    if i == providers.len() - 1 {
        assert(updated.drop_last() =~= providers.drop_last());
    } else {
        assert(updated.drop_last() =~= providers.drop_last().update(i, ps));
        assert(updated.last() == providers.last());
        lemma_total_principal_update(providers.drop_last(), i, ps);
    }
}

/// Dropping one record lowers the principal sum by exactly that record's
/// principal.
proof fn lemma_total_principal_remove(providers: Seq<ProviderState>, i: int)
    requires
        0 <= i < providers.len(),
    ensures
        spec_total_principal(providers.remove(i)) == spec_total_principal(providers)
            - providers[i].amount,
    decreases providers.len(),
{
    let removed = providers.remove(i);
    if i == providers.len() - 1 {
        assert(removed =~= providers.drop_last());
    } else {
        assert(removed.drop_last() =~= providers.drop_last().remove(i));
        assert(removed.last() == providers.last());
        lemma_total_principal_remove(providers.drop_last(), i);
    }
}

/// Law: a deposit keeps the vault's provider capital equal to the sum of
/// all providers' principals. A successful `provide_liquidity` of `amount`
/// raises provider `i`'s principal and the vault's `total_provider_capital`
/// by the same `amount`, so if the capital equalled the principal sum
/// before, it still does after.
pub proof fn lemma_capital_tracks_providers_after_provide(
    providers: Seq<ProviderState>,
    i: int,
    ps_after: ProviderState,
    capital_before: int,
    amount: u64,
)
    requires
        0 <= i < providers.len(),
        capital_before == spec_total_principal(providers),
        ps_after.amount == providers[i].amount + amount,
    ensures
        capital_before + amount == spec_total_principal(providers.update(i, ps_after)),
{
    lemma_total_principal_update(providers, i, ps_after);
}

/// Law: a full withdrawal keeps the vault's provider capital equal to the
/// sum of all providers' principals. A successful `withdraw_liquidity`
/// destroys provider `i`'s record and lowers `total_provider_capital` by
/// exactly that record's principal, so if the capital equalled the
/// principal sum before, it still does after.
pub proof fn lemma_capital_tracks_providers_after_withdraw(
    providers: Seq<ProviderState>,
    i: int,
    capital_before: int,
)
    requires
        0 <= i < providers.len(),
        capital_before == spec_total_principal(providers),
    ensures
        capital_before - providers[i].amount == spec_total_principal(providers.remove(i)),
{
    lemma_total_principal_remove(providers, i);
}

} // verus!
