//! Integer curve math: the output of a swap on the constant-product curve,
//! and the amounts that a burn of liquidity shares pays out.

use vstd::prelude::*;
use crate::error::AmmError;

verus! {

/// Basis points in a whole.
pub const BPS: u64 = 10000;

/// The input that remains after the fee, rounded down (the fee rounds in the
/// pool's favor).
pub open spec fn effective_input(amount_in: int, fee_bps: int) -> int {
    amount_in * (10000 - fee_bps) / 10000
}

/// The output of a swap: what leaves the output reserve so that the product
/// of the reserves, with the effective input added, does not fall. It is
/// `reserve_out - ceil(reserve_in * reserve_out / (reserve_in + e))`, which is
/// the rounded-down value below.
pub open spec fn swap_output(reserve_in: int, reserve_out: int, amount_in: int, fee_bps: int) -> int {
    let e = effective_input(amount_in, fee_bps);
    reserve_out * e / (reserve_in + e)
}

/// What `compute_swap_output` returns on each input.
pub open spec fn swap_outcome(reserve_in: u64, reserve_out: u64, amount_in: u64, fee_bps: u16) -> Result<u64, AmmError> {
    if reserve_in == 0 || reserve_out == 0 {
        Err(AmmError::NoLiquidityInPool)
    } else if amount_in == 0 {
        Err(AmmError::InvalidAmount)
    } else if fee_bps > 10000 {
        Err(AmmError::ArithmeticUnderflow)
    } else {
        Ok(swap_output(reserve_in as int, reserve_out as int, amount_in as int, fee_bps as int) as u64)
    }
}

/// `m * d <= n` bounds `m` by the rounded-down quotient `n / d`.
proof fn lemma_le_floor(m: int, n: int, d: int)
    requires
        d > 0,
        m * d <= n,
    ensures
        m <= n / d,
{
    let q = n / d;
    let rem = n % d;
    vstd::arithmetic::div_mod::lemma_fundamental_div_mod(n, d);
    vstd::arithmetic::div_mod::lemma_mod_bound(n, d);
    assert(m <= q) by (nonlinear_arith)
        requires
            d > 0,
            m * d <= n,
            n == d * q + rem,
            0 <= rem < d,
    ;
}

/// The rounded-down quotient times the divisor does not pass the dividend.
proof fn lemma_floor_le(n: int, d: int)
    requires
        d > 0,
    ensures
        (n / d) * d <= n,
{
    vstd::arithmetic::div_mod::lemma_fundamental_div_mod(n, d);
    vstd::arithmetic::div_mod::lemma_mod_bound(n, d);
    assert((n / d) * d <= n) by (nonlinear_arith)
        requires
            n == d * (n / d) + n % d,
            0 <= n % d,
    ;
}

/// The fee never adds to the input.
proof fn lemma_effective_input_bounds(amount_in: int, fee_bps: int)
    requires
        0 <= amount_in,
        0 <= fee_bps <= 10000,
    ensures
        0 <= effective_input(amount_in, fee_bps) <= amount_in,
{
    let p = amount_in * (10000 - fee_bps);
    assert(0 <= p <= amount_in * 10000) by (nonlinear_arith)
        requires
            0 <= amount_in,
            0 <= fee_bps <= 10000,
            p == amount_in * (10000 - fee_bps),
    ;
}

/// One swap never empties the output reserve.
pub proof fn lemma_swap_output_below_reserve(reserve_in: u64, reserve_out: u64, amount_in: u64, fee_bps: u16)
    requires
        reserve_in > 0,
        reserve_out > 0,
        amount_in > 0,
        fee_bps <= 10000,
    ensures
        0 <= swap_output(reserve_in as int, reserve_out as int, amount_in as int, fee_bps as int),
        swap_output(reserve_in as int, reserve_out as int, amount_in as int, fee_bps as int) < reserve_out,
{
    let e = effective_input(amount_in as int, fee_bps as int);
    lemma_effective_input_bounds(amount_in as int, fee_bps as int);
    let d = reserve_in + e;
    let n = reserve_out * e;
    let out = n / d;
    lemma_floor_le(n, d);
    assert(0 <= n) by (nonlinear_arith)
        requires
            0 <= e,
            0 <= reserve_out,
            n == reserve_out * e,
    ;
    vstd::arithmetic::div_mod::lemma_div_pos_is_pos(n, d);
    assert(out < reserve_out) by (nonlinear_arith)
        requires
            out * d <= n,
            n == reserve_out * e,
            d == reserve_in + e,
            reserve_in > 0,
            reserve_out > 0,
            e >= 0,
    ;
}

/// The fee stays in the pool: with the effective input added to the input
/// reserve and the output taken from the output reserve, their product does
/// not fall.
pub proof fn lemma_swap_keeps_product(reserve_in: u64, reserve_out: u64, amount_in: u64, fee_bps: u16)
    requires
        reserve_in > 0,
        reserve_out > 0,
        amount_in > 0,
        fee_bps <= 10000,
    ensures
        reserve_in * reserve_out <= (reserve_in + effective_input(amount_in as int, fee_bps as int))
            * (reserve_out - swap_output(reserve_in as int, reserve_out as int, amount_in as int, fee_bps as int)),
{
    let e = effective_input(amount_in as int, fee_bps as int);
    lemma_effective_input_bounds(amount_in as int, fee_bps as int);
    let d = reserve_in + e;
    let n = reserve_out * e;
    let out = n / d;
    lemma_floor_le(n, d);
    assert(reserve_in * reserve_out <= d * (reserve_out - out)) by (nonlinear_arith)
        requires
            out * d <= n,
            n == reserve_out * e,
            d == reserve_in + e,
    ;
}

/// The same, with the whole input (fee included) added to the input reserve,
/// which is how the balances of the pool move in a swap.
pub proof fn lemma_swap_keeps_balance_product(reserve_in: u64, reserve_out: u64, amount_in: u64, fee_bps: u16)
    requires
        reserve_in > 0,
        reserve_out > 0,
        amount_in > 0,
        fee_bps <= 10000,
    ensures
        reserve_in * reserve_out <= (reserve_in + amount_in)
            * (reserve_out - swap_output(reserve_in as int, reserve_out as int, amount_in as int, fee_bps as int)),
{
    let e = effective_input(amount_in as int, fee_bps as int);
    let out = swap_output(reserve_in as int, reserve_out as int, amount_in as int, fee_bps as int);
    lemma_effective_input_bounds(amount_in as int, fee_bps as int);
    lemma_swap_keeps_product(reserve_in, reserve_out, amount_in, fee_bps);
    lemma_swap_output_below_reserve(reserve_in, reserve_out, amount_in, fee_bps);
    let r = reserve_out - out;
    assert((reserve_in + e) * r <= (reserve_in + amount_in) * r) by (nonlinear_arith)
        requires
            e <= amount_in,
            r >= 0,
    ;
}

/// A larger input never buys less.
pub proof fn lemma_swap_output_monotonic(reserve_in: u64, reserve_out: u64, a1: u64, a2: u64, fee_bps: u16)
    requires
        reserve_in > 0,
        reserve_out > 0,
        fee_bps <= 10000,
        a1 <= a2,
    ensures
        swap_output(reserve_in as int, reserve_out as int, a1 as int, fee_bps as int)
            <= swap_output(reserve_in as int, reserve_out as int, a2 as int, fee_bps as int),
{
    let f = fee_bps as int;
    let e1 = effective_input(a1 as int, f);
    let e2 = effective_input(a2 as int, f);
    lemma_effective_input_bounds(a1 as int, f);
    lemma_effective_input_bounds(a2 as int, f);
    assert(a1 * (10000 - f) <= a2 * (10000 - f)) by (nonlinear_arith)
        requires
            a1 <= a2,
            f <= 10000,
    ;
    vstd::arithmetic::div_mod::lemma_div_is_ordered(a1 * (10000 - f), a2 * (10000 - f), 10000);
    let d1 = reserve_in + e1;
    let d2 = reserve_in + e2;
    let n1 = reserve_out * e1;
    let n2 = reserve_out * e2;
    let q1 = n1 / d1;
    lemma_floor_le(n1, d1);
    assert(q1 <= reserve_out) by (nonlinear_arith)
        requires
            q1 * d1 <= n1,
            n1 == reserve_out * e1,
            d1 == reserve_in + e1,
            reserve_in > 0,
            reserve_out > 0,
            e1 >= 0,
    ;
    assert(q1 * d2 <= n2) by (nonlinear_arith)
        requires
            q1 * d1 <= n1,
            q1 <= reserve_out,
            n1 == reserve_out * e1,
            n2 == reserve_out * e2,
            d1 == reserve_in + e1,
            d2 == reserve_in + e2,
            e1 <= e2,
    ;
    lemma_le_floor(q1, n2, d2);
}

/// The output of a swap on the constant-product curve: the input less the
/// fee (rounded down) is added to `reserve_in`, and what leaves `reserve_out`
/// is rounded down. A zero reserve, a zero input or a fee above a whole is
/// refused.
pub fn compute_swap_output(reserve_in: u64, reserve_out: u64, amount_in: u64, fee_bps: u16) -> (r: Result<u64, AmmError>)
    ensures
        r == swap_outcome(reserve_in, reserve_out, amount_in, fee_bps),
        r is Ok ==> r->Ok_0 < reserve_out,
{
    if reserve_in == 0 || reserve_out == 0 {
        return Err(AmmError::NoLiquidityInPool);
    }
    if amount_in == 0 {
        return Err(AmmError::InvalidAmount);
    }
    if fee_bps as u64 > BPS {
        return Err(AmmError::ArithmeticUnderflow);
    }
    let keep: u128 = (BPS - fee_bps as u64) as u128;
    assert((amount_in as u128) * keep <= u128::MAX) by (nonlinear_arith)
        requires
            keep <= 10000,
    ;
    let scaled: u128 = (amount_in as u128) * keep;
    let e: u128 = scaled / (BPS as u128);
    proof {
        lemma_effective_input_bounds(amount_in as int, fee_bps as int);
        lemma_swap_output_below_reserve(reserve_in, reserve_out, amount_in, fee_bps);
    }
    assert((reserve_out as u128) * e <= u128::MAX) by (nonlinear_arith)
        requires
            e <= amount_in,
    ;
    let out: u128 = (reserve_out as u128) * e / ((reserve_in as u128) + e);
    Ok(out as u64)
}

/// The part of `reserve` that a burn of `shares` out of `supply` pays out,
/// rounded down.
pub open spec fn withdraw_amount(reserve: int, shares: int, supply: int) -> int {
    reserve * shares / supply
}

/// What `compute_withdraw_amounts` returns on each input.
pub open spec fn withdraw_outcome(reserve_x: u64, reserve_y: u64, supply: u64, shares: u64) -> Result<(u64, u64), AmmError> {
    if supply == 0 {
        Err(AmmError::NoLiquidityInPool)
    } else if shares == 0 {
        Err(AmmError::InvalidAmount)
    } else if withdraw_amount(reserve_x as int, shares as int, supply as int) > u64::MAX
        || withdraw_amount(reserve_y as int, shares as int, supply as int) > u64::MAX {
        Err(AmmError::ArithmeticOverflow)
    } else {
        Ok((
            withdraw_amount(reserve_x as int, shares as int, supply as int) as u64,
            withdraw_amount(reserve_y as int, shares as int, supply as int) as u64,
        ))
    }
}

/// A burn of no more than the supply pays out no more than the reserve.
pub proof fn lemma_withdraw_within_reserve(reserve: u64, shares: u64, supply: u64)
    requires
        0 < supply,
        shares <= supply,
    ensures
        0 <= withdraw_amount(reserve as int, shares as int, supply as int) <= reserve,
{
    let n = reserve * shares;
    assert(0 <= n <= reserve * supply) by (nonlinear_arith)
        requires
            n == reserve * shares,
            shares <= supply,
    ;
    vstd::arithmetic::div_mod::lemma_div_pos_is_pos(n, supply as int);
    vstd::arithmetic::div_mod::lemma_div_is_ordered(n, reserve * supply, supply as int);
    vstd::arithmetic::div_mod::lemma_div_by_multiple(reserve as int, supply as int);
}

/// The reserve's share for one burn, computed in `u128`, where the product
/// of two `u64` always fits; `None` where the quotient leaves `u64`.
fn share_of_reserve(reserve: u64, shares: u64, supply: u64) -> (r: Option<u64>)
    requires
        supply > 0,
    ensures
        r == (if withdraw_amount(reserve as int, shares as int, supply as int) <= u64::MAX {
            Some(withdraw_amount(reserve as int, shares as int, supply as int) as u64)
        } else {
            None
        }),
{
    assert((reserve as u128) * (shares as u128) <= u128::MAX) by (nonlinear_arith);
    let q: u128 = (reserve as u128) * (shares as u128) / (supply as u128);
    if q > u64::MAX as u128 {
        None
    } else {
        Some(q as u64)
    }
}

/// The amounts of each asset that a burn of `shares` out of `supply` pays
/// out: each reserve times `shares / supply`, the product taken whole before
/// the division, so that only the final quotient is rounded down. A zero
/// supply, a zero burn, or an amount out of range is refused.
pub fn compute_withdraw_amounts(reserve_x: u64, reserve_y: u64, supply: u64, shares: u64) -> (r: Result<(u64, u64), AmmError>)
    ensures
        r == withdraw_outcome(reserve_x, reserve_y, supply, shares),
        0 < shares <= supply ==> r is Ok && r->Ok_0.0 <= reserve_x && r->Ok_0.1 <= reserve_y,
{
    if supply == 0 {
        return Err(AmmError::NoLiquidityInPool);
    }
    if shares == 0 {
        return Err(AmmError::InvalidAmount);
    }
    proof {
        if shares <= supply {
            lemma_withdraw_within_reserve(reserve_x, shares, supply);
            lemma_withdraw_within_reserve(reserve_y, shares, supply);
        }
    }
    let x = share_of_reserve(reserve_x, shares, supply);
    let y = share_of_reserve(reserve_y, shares, supply);
    match (x, y) {
        (Some(x), Some(y)) => Ok((x, y)),
        _ => Err(AmmError::ArithmeticOverflow),
    }
}

/// Payouts grow linearly with the burn: twice the shares pay at least twice
/// as much of a reserve, and at most one unit more than that.
pub proof fn lemma_withdraw_doubling(reserve: u64, shares: u64, supply: u64)
    requires
        supply > 0,
    ensures
        2 * withdraw_amount(reserve as int, shares as int, supply as int)
            <= withdraw_amount(reserve as int, 2 * shares, supply as int),
        withdraw_amount(reserve as int, 2 * shares, supply as int)
            <= 2 * withdraw_amount(reserve as int, shares as int, supply as int) + 1,
{
    let s = supply as int;
    let n = reserve * shares;
    let q = n / s;
    let rem = n % s;
    vstd::arithmetic::div_mod::lemma_fundamental_div_mod(n, s);
    vstd::arithmetic::div_mod::lemma_mod_bound(n, s);
    let n2 = reserve * (2 * shares);
    assert(n2 == 2 * n) by (nonlinear_arith)
        requires
            n == reserve * shares,
            n2 == reserve * (2 * shares),
    ;
    assert(withdraw_amount(reserve as int, 2 * shares, supply as int) == n2 / s);
    let q2 = n2 / s;
    lemma_floor_le(n2, s);
    assert((2 * q) * s <= n2) by (nonlinear_arith)
        requires
            n == s * q + rem,
            0 <= rem,
            n2 == 2 * n,
    ;
    lemma_le_floor(2 * q, n2, s);
    assert(q2 <= 2 * q + 1) by (nonlinear_arith)
        requires
            q2 * s <= n2,
            n2 == 2 * n,
            n == s * q + rem,
            rem < s,
            s > 0,
    ;
}

} // verus!
