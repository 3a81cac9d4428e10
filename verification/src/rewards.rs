//! The reward-per-share ledger.
//!
//! Every bet skims a providers' cut and folds it into a global fixed-point
//! index (scaled by `REWARD_PRECISION`). A provider's newly accrued reward
//! since their last checkpoint is `floor((index - checkpoint) * principal /
//! REWARD_PRECISION)`; settlement adds that to their unclaimed rewards and
//! advances the checkpoint. This gives O(1) settlement per provider at the
//! cost of truncation dust that accrues to nobody.

use vstd::prelude::*;

use crate::constants::REWARD_PRECISION;
use crate::errors::RouletteError;
use vstd::arithmetic::div_mod::{
    lemma_div_is_ordered, lemma_div_multiples_vanish_fancy, lemma_fundamental_div_mod,
    lemma_mod_division_less_than_divisor,
};
use vstd::arithmetic::mul::lemma_mul_is_distributive_add;

verus! {

/// The reward newly accrued by a provider with `principal` deposited whose
/// last settlement was at `checkpoint`, once the index has reached `index`:
/// the index delta times the principal, descaled and floored. Zero when the
/// index has not moved or nothing is deposited.
pub open spec fn spec_newly_earned(checkpoint: u128, principal: u64, index: u128) -> int {
    if checkpoint < index && principal > 0 {
        ((index - checkpoint) * principal) / (REWARD_PRECISION as int)
    } else {
        0
    }
}

/// The reward a provider record is owed at `index`: what settlement has
/// already banked plus what has newly accrued since the checkpoint.
pub open spec fn spec_settled_rewards(
    unclaimed: u64,
    checkpoint: u128,
    principal: u64,
    index: u128,
) -> int {
    unclaimed + spec_newly_earned(checkpoint, principal, index)
}

/// Computes the reward newly accrued since `checkpoint`, failing instead of
/// truncating when the exact value does not fit in 64 bits.
pub fn pending_reward(checkpoint: u128, principal: u64, index: u128) -> (r: Result<
    u64,
    RouletteError,
>)
    ensures
        ({
            let earned = spec_newly_earned(checkpoint, principal, index);
            if earned <= u64::MAX {
                r == Ok::<u64, RouletteError>(earned as u64)
            } else {
                r == Err::<u64, RouletteError>(RouletteError::ArithmeticOverflow)
            }
        }),
{
    if checkpoint < index && principal > 0 {
        let delta = index - checkpoint;
        match delta.checked_mul(principal as u128) {
            Some(product) => {
                let earned = product / REWARD_PRECISION;
                if earned > u64::MAX as u128 {
                    Err(RouletteError::ArithmeticOverflow)
                } else {
                    Ok(earned as u64)
                }
            },
            None => {
                proof {
                    lemma_div_is_ordered(
                        u128::MAX as int + 1,
                        (index - checkpoint) * principal,
                        REWARD_PRECISION as int,
                    );
                }
                Err(RouletteError::ArithmeticOverflow)
            },
        }
    } else {
        Ok(0)
    }
}

/// Floor division distributes over a sum of non-negative numerators up to a
/// defect of at most one, and exactly when the first numerator is a
/// multiple of the divisor.
proof fn lemma_floor_div_add(a: int, b: int, d: int)
    requires
        0 <= a,
        0 <= b,
        0 < d,
    ensures
        a / d + b / d <= (a + b) / d,
        (a + b) / d <= a / d + b / d + 1,
        a % d == 0 ==> (a + b) / d == a / d + b / d,
{
    let qa = a / d;
    let ra = a % d;
    let qb = b / d;
    let rb = b % d;
    lemma_fundamental_div_mod(a, d);
    lemma_fundamental_div_mod(b, d);
    lemma_mod_division_less_than_divisor(a, d);
    lemma_mod_division_less_than_divisor(b, d);
    lemma_mul_is_distributive_add(d, qa, qb);
    if ra + rb < d {
        assert(a + b == d * (qa + qb) + (ra + rb));
        lemma_div_multiples_vanish_fancy(qa + qb, ra + rb, d);
    } else {
        assert(a + b == d * (qa + qb + 1) + (ra + rb - d)) by {
            lemma_mul_is_distributive_add(d, qa + qb, 1);
        }
        lemma_div_multiples_vanish_fancy(qa + qb + 1, ra + rb - d, d);
    }
}

/// Settling in two steps never pays more than settling once over the same
/// index interval, and undershoots it by at most one token unit: splitting
/// the interval `checkpoint..index_high` at `index_mid` loses only the
/// truncation dust of the extra floor.
pub proof fn lemma_settlement_split_bounds(
    checkpoint: u128,
    index_mid: u128,
    index_high: u128,
    principal: u64,
)
    requires
        checkpoint <= index_mid <= index_high,
    ensures
        spec_newly_earned(checkpoint, principal, index_mid) + spec_newly_earned(
            index_mid,
            principal,
            index_high,
        ) <= spec_newly_earned(checkpoint, principal, index_high),
        spec_newly_earned(checkpoint, principal, index_high) <= spec_newly_earned(
            checkpoint,
            principal,
            index_mid,
        ) + spec_newly_earned(index_mid, principal, index_high) + 1,
{
    if principal > 0 && checkpoint < index_high {
        let p = principal as int;
        let d1 = index_mid - checkpoint;
        let d2 = index_high - index_mid;
        assert((d1 + d2) * p == d1 * p + d2 * p) by (nonlinear_arith);
        assert(d1 * p >= 0 && d2 * p >= 0) by (nonlinear_arith)
            requires
                d1 >= 0 && d2 >= 0 && p > 0,
        ;
        lemma_floor_div_add(d1 * p, d2 * p, REWARD_PRECISION as int);
        if checkpoint == index_mid {
            assert(d1 * p == 0) by (nonlinear_arith)
                requires
                    d1 == 0,
            ;
            assert(0int / (REWARD_PRECISION as int) == 0);
        }
        if index_mid == index_high {
            assert(d2 * p == 0) by (nonlinear_arith)
                requires
                    d2 == 0,
            ;
            assert(0int / (REWARD_PRECISION as int) == 0);
        }
    }
}

/// A settlement schedule is valid when its checkpoints never move the
/// index backwards.
pub open spec fn spec_nondecreasing_from(checkpoint: u128, points: Seq<u128>) -> bool
    decreases points.len(),
{
    points.len() == 0 || (checkpoint <= points[0] && spec_nondecreasing_from(
        points[0],
        points.drop_first(),
    ))
}

/// The total a provider banks by settling at each index of `points` in
/// order, starting from `checkpoint`; each settlement advances the
/// checkpoint to the index it settled at.
pub open spec fn spec_settled_in_steps(checkpoint: u128, points: Seq<u128>, principal: u64) -> int
    decreases points.len(),
{
    if points.len() == 0 {
        0
    } else {
        spec_newly_earned(checkpoint, principal, points[0]) + spec_settled_in_steps(
            points[0],
            points.drop_first(),
            principal,
        )
    }
}

/// A valid schedule never runs past its final point.
proof fn lemma_nondecreasing_last(checkpoint: u128, points: Seq<u128>)
    requires
        points.len() > 0,
        spec_nondecreasing_from(checkpoint, points),
    ensures
        checkpoint <= points.last(),
    decreases points.len(),
{
    if points.len() > 1 {
        lemma_nondecreasing_last(points[0], points.drop_first());
        assert(points.drop_first().last() == points.last());
    }
}

/// Settlement timing is immaterial up to truncation dust, however many
/// settlements interleave the index's growth: a schedule of `k` settlements
/// over the interval `checkpoint..points.last()` banks at most what a
/// single settlement at the end would, and undershoots it by less than `k`
/// — one unit of floor dust per extra settlement.
pub proof fn lemma_settlement_schedule_bounds(checkpoint: u128, points: Seq<u128>, principal: u64)
    requires
        points.len() > 0,
        spec_nondecreasing_from(checkpoint, points),
    ensures
        spec_settled_in_steps(checkpoint, points, principal) <= spec_newly_earned(
            checkpoint,
            principal,
            points.last(),
        ),
        spec_newly_earned(checkpoint, principal, points.last()) <= spec_settled_in_steps(
            checkpoint,
            points,
            principal,
        ) + points.len() - 1,
    decreases points.len(),
{
    let mid = points[0];
    let rest = points.drop_first();
    assert(checkpoint <= mid && spec_nondecreasing_from(mid, rest));
    assert(spec_settled_in_steps(checkpoint, points, principal) == spec_newly_earned(
        checkpoint,
        principal,
        mid,
    ) + spec_settled_in_steps(mid, rest, principal));
    if points.len() == 1 {
        assert(points.last() == mid);
        assert(rest.len() == 0);
        assert(spec_settled_in_steps(mid, rest, principal) == 0);
    } else {
        assert(rest.last() == points.last());
        lemma_nondecreasing_last(mid, rest);
        lemma_settlement_schedule_bounds(mid, rest, principal);
        lemma_settlement_split_bounds(checkpoint, mid, points.last(), principal);
    }
}

/// Settlement timing is immaterial when the first interval's scaled product
/// is an exact multiple of the precision: settling at `index_mid` and again
/// at `index_high` then banks exactly what a single settlement at
/// `index_high` would have. (In general the split may lose one unit of
/// dust; see `lemma_settlement_split_bounds`.)
pub proof fn lemma_settlement_split_exact(
    checkpoint: u128,
    index_mid: u128,
    index_high: u128,
    principal: u64,
)
    requires
        checkpoint <= index_mid <= index_high,
        ((index_mid - checkpoint) * principal) % (REWARD_PRECISION as int) == 0,
    ensures
        spec_newly_earned(checkpoint, principal, index_mid) + spec_newly_earned(
            index_mid,
            principal,
            index_high,
        ) == spec_newly_earned(checkpoint, principal, index_high),
{
    if principal > 0 && checkpoint < index_high {
        let p = principal as int;
        let d1 = index_mid - checkpoint;
        let d2 = index_high - index_mid;
        assert((d1 + d2) * p == d1 * p + d2 * p) by (nonlinear_arith);
        assert(d1 * p >= 0 && d2 * p >= 0) by (nonlinear_arith)
            requires
                d1 >= 0 && d2 >= 0 && p > 0,
        ;
        lemma_floor_div_add(d1 * p, d2 * p, REWARD_PRECISION as int);
        if checkpoint == index_mid {
            assert(d1 * p == 0) by (nonlinear_arith)
                requires
                    d1 == 0,
            ;
            assert(0int / (REWARD_PRECISION as int) == 0);
        }
        if index_mid == index_high {
            assert(d2 * p == 0) by (nonlinear_arith)
                requires
                    d2 == 0,
            ;
            assert(0int / (REWARD_PRECISION as int) == 0);
        }
    }
}

} // verus!
