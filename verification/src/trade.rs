//! Swaps: one asset in, the other out, at the price the reserves set.
//!
//! The fee is taken off the input before the price is computed and stays in
//! the reserve that received it. The output is rounded down. Together the two
//! make the product of the reserves grow, or stay, with every swap.

use crate::error::AmmError;
use crate::math::{lemma_floor_bounds, lemma_product_fits, mul_div_floor};
use crate::pool::{Pool, PoolView, Reserves, MAX_FEE_BPS};
use vstd::prelude::*;

verus! {

/// What the ledger has to do for an accepted swap, and the balances it
/// leaves behind.
#[derive(Clone, Copy, Debug, PartialEq, Eq, Structural)]
pub struct SwapPlan {
    /// Whether asset X is paid in (and asset Y paid out).
    pub is_x_input: bool,
    /// To move from the caller into the vault of the input asset.
    pub amount_in: u64,
    /// To move from the vault of the output asset to the caller.
    pub amount_out: u64,
    /// The balances once both transfers are done.
    pub reserves_after: Reserves,
}

/// The part of `amount_in` that takes part in pricing: what is left when the
/// fee is taken off, rounded down.
pub open spec fn spec_net_input(amount_in: int, fee_bps: int) -> int {
    amount_in * (MAX_FEE_BPS - fee_bps) / (MAX_FEE_BPS as int)
}

/// What `net_in` buys from reserves `r_in` and `r_out`: the largest whole
/// amount that keeps `(r_in + net_in) * (r_out - out)` at or above
/// `r_in * r_out`. Nothing can be bought with nothing from an empty reserve.
pub open spec fn spec_output_for(r_in: int, r_out: int, net_in: int) -> int {
    if r_in + net_in == 0 {
        0
    } else {
        r_out * net_in / (r_in + net_in)
    }
}

/// The reserve that a swap pays into.
pub open spec fn input_reserve(reserves: Reserves, is_x_input: bool) -> u64 {
    if is_x_input {
        reserves.reserve_x
    } else {
        reserves.reserve_y
    }
}

/// The reserve that a swap pays out of.
pub open spec fn output_reserve(reserves: Reserves, is_x_input: bool) -> u64 {
    if is_x_input {
        reserves.reserve_y
    } else {
        reserves.reserve_x
    }
}

/// The amount a swap of `amount_in` pays out, before any bound is applied.
pub open spec fn swap_amount_out(
    pool: PoolView,
    reserves: Reserves,
    is_x_input: bool,
    amount_in: u64,
) -> int {
    spec_output_for(
        input_reserve(reserves, is_x_input) as int,
        output_reserve(reserves, is_x_input) as int,
        spec_net_input(amount_in as int, pool.fee_bps as int),
    )
}

/// Why a swap is refused, if it is. The reasons are tried in this order.
pub open spec fn swap_refusal(
    pool: PoolView,
    reserves: Reserves,
    is_x_input: bool,
    amount_in: u64,
    min_out: u64,
) -> Option<AmmError> {
    let amount_out = swap_amount_out(pool, reserves, is_x_input, amount_in);
    if pool.locked {
        Some(AmmError::Locked)
    } else if amount_in == 0 {
        Some(AmmError::ZeroAmount)
    } else if amount_out < min_out {
        Some(AmmError::SlippageExceeded)
    } else if amount_out >= output_reserve(reserves, is_x_input) {
        Some(AmmError::InsufficientLiquidity)
    } else if input_reserve(reserves, is_x_input) + amount_in > u64::MAX {
        Some(AmmError::ArithmeticOverflow)
    } else {
        None
    }
}

/// The plan of a swap that is not refused.
pub open spec fn swap_plan(
    pool: PoolView,
    reserves: Reserves,
    is_x_input: bool,
    amount_in: u64,
) -> SwapPlan {
    let amount_out = swap_amount_out(pool, reserves, is_x_input, amount_in);
    let new_in = (input_reserve(reserves, is_x_input) + amount_in) as u64;
    let new_out = (output_reserve(reserves, is_x_input) - amount_out) as u64;
    SwapPlan {
        is_x_input,
        amount_in,
        amount_out: amount_out as u64,
        reserves_after: Reserves {
            reserve_x: if is_x_input {
                new_in
            } else {
                new_out
            },
            reserve_y: if is_x_input {
                new_out
            } else {
                new_in
            },
            total_supply: reserves.total_supply,
        },
    }
}

/// The fee takes nothing that was not there: the net input lies between
/// zero and the gross input.
pub proof fn lemma_net_input_bounds(amount_in: int, fee_bps: int)
    requires
        0 <= amount_in,
        0 <= fee_bps <= MAX_FEE_BPS,
    ensures
        0 <= spec_net_input(amount_in, fee_bps) <= amount_in,
        fee_bps == 0 ==> spec_net_input(amount_in, fee_bps) == amount_in,
{
    let kept = MAX_FEE_BPS - fee_bps;
    assert(0 <= amount_in * kept <= amount_in * 10000) by (nonlinear_arith)
        requires
            0 <= amount_in,
            0 <= kept <= 10000,
    ;
}

/// The product of the reserves never falls in a swap, whatever the fee, and
/// the reserve that pays out is never asked for more than it holds.
pub proof fn lemma_swap_keeps_product(r_in: int, r_out: int, amount_in: int, fee_bps: int)
    requires
        0 <= r_in,
        0 <= r_out,
        0 <= amount_in,
        0 <= fee_bps <= MAX_FEE_BPS,
    ensures
        ({
            let out = spec_output_for(r_in, r_out, spec_net_input(amount_in, fee_bps));
            &&& 0 <= out <= r_out
            &&& (r_in + amount_in) * (r_out - out) >= r_in * r_out
            &&& r_in > 0 && r_out > 0 ==> out < r_out
        }),
{
    let net = spec_net_input(amount_in, fee_bps);
    lemma_net_input_bounds(amount_in, fee_bps);
    let out = spec_output_for(r_in, r_out, net);
    if r_in + net == 0 {
        assert((r_in + amount_in) * r_out >= r_in * r_out) by (nonlinear_arith)
            requires
                0 <= r_in,
                0 <= amount_in,
                0 <= r_out,
        ;
    } else {
        let d = r_in + net;
        assert(0 <= r_out * net) by (nonlinear_arith)
            requires
                0 <= r_out,
                0 <= net,
        ;
        lemma_floor_bounds(r_out * net, d);
        assert(out <= r_out) by (nonlinear_arith)
            requires
                out * d <= r_out * net,
                0 <= net <= d,
                0 < d,
                0 <= r_out,
        ;
        assert((r_in + amount_in) * (r_out - out) >= r_in * r_out) by (nonlinear_arith)
            requires
                out * d <= r_out * net,
                d == r_in + net,
                0 <= net <= amount_in,
                0 <= r_in,
                0 <= out <= r_out,
        ;
        if r_in > 0 && r_out > 0 {
            assert(out < r_out) by (nonlinear_arith)
                requires
                    out * d <= r_out * net,
                    d == r_in + net,
                    0 <= net,
                    0 < r_in,
                    0 < r_out,
                    0 <= out,
            ;
        }
    }
}

/// No larger output would do: one unit more than [`spec_output_for`] gives,
/// and the product of what is priced falls below what it was.
pub proof fn lemma_output_is_largest(r_in: int, r_out: int, net_in: int, more: int)
    requires
        0 <= r_in,
        0 <= r_out,
        0 <= net_in,
        0 < r_in + net_in,
        spec_output_for(r_in, r_out, net_in) < more,
    ensures
        (r_in + net_in) * (r_out - more) < r_in * r_out,
{
    let d = r_in + net_in;
    let out = spec_output_for(r_in, r_out, net_in);
    assert(0 <= r_out * net_in) by (nonlinear_arith)
        requires
            0 <= r_out,
            0 <= net_in,
    ;
    lemma_floor_bounds(r_out * net_in, d);
    assert((r_in + net_in) * (r_out - more) < r_in * r_out) by (nonlinear_arith)
        requires
            r_out * net_in < out * d + d,
            d == r_in + net_in,
            0 < d,
            out + 1 <= more,
    ;
}

/// A swap of nothing buys nothing, from any reserves and at any fee.
pub proof fn lemma_zero_input_buys_nothing(pool: PoolView, reserves: Reserves, is_x_input: bool)
    ensures
        swap_amount_out(pool, reserves, is_x_input, 0) == 0,
        forall|min_out: u64| (#[trigger] swap_refusal(pool, reserves, is_x_input, 0, min_out)) is Some,
{
    let r_in = input_reserve(reserves, is_x_input) as int;
    let r_out = output_reserve(reserves, is_x_input) as int;
    assert(0 * (MAX_FEE_BPS - pool.fee_bps) == 0);
    assert(spec_net_input(0, pool.fee_bps as int) == 0);
    if r_in != 0 {
        assert(r_out * 0 == 0);
        assert(0int / r_in == 0) by (nonlinear_arith)
            requires
                r_in > 0,
        ;
    }
}

/// The part of `amount_in` that is priced, at a fee of `fee_bps` basis points.
pub fn net_input(amount_in: u64, fee_bps: u16) -> (net: u64)
    requires
        fee_bps <= MAX_FEE_BPS,
    ensures
        net == spec_net_input(amount_in as int, fee_bps as int),
        net <= amount_in,
{
    proof {
        lemma_net_input_bounds(amount_in as int, fee_bps as int);
    }
    let kept: u64 = (MAX_FEE_BPS - fee_bps) as u64;
    let net: u128 = mul_div_floor(amount_in, kept, MAX_FEE_BPS as u64);
    net as u64
}

/// What a net input of `net_in` buys from reserves `r_in` and `r_out`.
pub fn output_for(r_in: u64, r_out: u64, net_in: u64) -> (out: u64)
    ensures
        out == spec_output_for(r_in as int, r_out as int, net_in as int),
        out <= r_out,
        net_in == 0 ==> out == 0,
{
    let denominator: u128 = r_in as u128 + net_in as u128;
    if denominator == 0 {
        return 0;
    }
    proof {
        if net_in == 0 {
            assert(r_out * net_in == 0) by (nonlinear_arith)
                requires
                    net_in == 0,
            ;
        }
        lemma_product_fits(r_out, net_in);
        lemma_floor_bounds(r_out * net_in, denominator as int);
        let q = (r_out * net_in) / (denominator as int);
        assert(q <= r_out) by (nonlinear_arith)
            requires
                q * denominator <= r_out * net_in,
                0 <= net_in <= denominator,
                0 < denominator,
                0 <= r_out,
        ;
    }
    let numerator: u128 = r_out as u128 * net_in as u128;
    (numerator / denominator) as u64
}

/// Prices a swap of `amount_in` of one asset for the other against
/// `reserves`, and plans it unless it is refused.
///
/// `is_x_input` says which asset is paid in. `min_out` is the least the
/// caller accepts. A refusal plans nothing: the pool and the balances stay as
/// they are.
pub fn swap(
    pool: &Pool,
    reserves: &Reserves,
    is_x_input: bool,
    amount_in: u64,
    min_out: u64,
) -> (r: Result<SwapPlan, AmmError>)
    ensures
        match r {
            Ok(plan) => swap_refusal(pool@, *reserves, is_x_input, amount_in, min_out) is None
                && plan == swap_plan(pool@, *reserves, is_x_input, amount_in),
            Err(e) => swap_refusal(pool@, *reserves, is_x_input, amount_in, min_out) == Some(e),
        },
        amount_in == 0 ==> r is Err,
        !pool@.locked && amount_in > 0 && swap_amount_out(pool@, *reserves, is_x_input, amount_in)
            < min_out ==> r == Err::<SwapPlan, AmmError>(AmmError::SlippageExceeded),
        r matches Ok(plan) ==> {
            &&& plan.amount_out >= min_out
            &&& plan.reserves_after.product() >= reserves.product()
            &&& plan.reserves_after.total_supply == reserves.total_supply
            &&& input_reserve(plan.reserves_after, is_x_input) == input_reserve(
                *reserves,
                is_x_input,
            ) + amount_in
            &&& output_reserve(plan.reserves_after, is_x_input) == output_reserve(
                *reserves,
                is_x_input,
            ) - plan.amount_out
            &&& output_reserve(plan.reserves_after, is_x_input) > 0
            &&& reserves.wf() ==> plan.reserves_after.wf()
        },
{
    proof {
        use_type_invariant(pool);
    }
    if pool.is_locked() {
        return Err(AmmError::Locked);
    }
    if amount_in == 0 {
        return Err(AmmError::ZeroAmount);
    }
    let r_in: u64 = if is_x_input {
        reserves.reserve_x
    } else {
        reserves.reserve_y
    };
    let r_out: u64 = if is_x_input {
        reserves.reserve_y
    } else {
        reserves.reserve_x
    };
    let net: u64 = net_input(amount_in, pool.fee_bps());
    let amount_out: u64 = output_for(r_in, r_out, net);
    if amount_out < min_out {
        return Err(AmmError::SlippageExceeded);
    }
    if amount_out >= r_out {
        return Err(AmmError::InsufficientLiquidity);
    }
    let new_in: u64 = match r_in.checked_add(amount_in) {
        Some(sum) => sum,
        None => {
            return Err(AmmError::ArithmeticOverflow);
        },
    };
    let new_out: u64 = r_out - amount_out;
    proof {
        lemma_swap_keeps_product(
            r_in as int,
            r_out as int,
            amount_in as int,
            pool@.fee_bps as int,
        );
        assert(new_in * new_out == new_out * new_in) by (nonlinear_arith);
        assert(r_in * r_out == r_out * r_in) by (nonlinear_arith);
    }
    Ok(
        SwapPlan {
            is_x_input,
            amount_in,
            amount_out,
            reserves_after: Reserves {
                reserve_x: if is_x_input {
                    new_in
                } else {
                    new_out
                },
                reserve_y: if is_x_input {
                    new_out
                } else {
                    new_in
                },
                total_supply: reserves.total_supply,
            },
        },
    )
}

} // verus!
