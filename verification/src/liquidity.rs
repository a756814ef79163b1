//! Provision and withdrawal of liquidity, in proportion to the reserves.
//!
//! A depositor names the shares wanted and pays for them in both assets,
//! rounded up; a withdrawer names the shares given up and is paid in both
//! assets, rounded down. Either way the rounding goes to the pool, so what
//! stands behind each remaining share never shrinks.

use crate::error::AmmError;
use crate::math::{
    lemma_ceil_bounds, lemma_floor_bounds, lemma_floor_unique, mul_div_ceil, mul_div_floor,
    spec_mul_div_ceil, spec_mul_div_floor,
};
use crate::pool::{Pool, PoolView, Reserves};
use vstd::arithmetic::mul::lemma_mul_upper_bound;
use vstd::prelude::*;

verus! {

/// What the ledgers have to do for an accepted deposit, and the balances it
/// leaves behind.
#[derive(Clone, Copy, Debug, PartialEq, Eq, Structural)]
pub struct DepositPlan {
    /// To move from the caller into the vault of asset X.
    pub x_in: u64,
    /// To move from the caller into the vault of asset Y.
    pub y_in: u64,
    /// Shares to mint to the caller.
    pub shares_minted: u64,
    /// The balances once the transfers and the mint are done.
    pub reserves_after: Reserves,
}

/// What the ledgers have to do for an accepted withdrawal, and the balances
/// it leaves behind.
#[derive(Clone, Copy, Debug, PartialEq, Eq, Structural)]
pub struct WithdrawPlan {
    /// To move from the vault of asset X to the caller.
    pub x_out: u64,
    /// To move from the vault of asset Y to the caller.
    pub y_out: u64,
    /// Shares to burn from the caller.
    pub shares_burned: u64,
    /// The balances once the burn and the transfers are done.
    pub reserves_after: Reserves,
}

/// What `amount` new shares cost in an asset of which the pool holds
/// `reserve`. While no share exists the depositor sets the price and pays
/// `cap`, the most they offered; afterwards the cost keeps the pool's ratio
/// and is rounded up.
pub open spec fn deposit_due(reserve: u64, total_supply: u64, amount: u64, cap: u64) -> int {
    if total_supply == 0 {
        cap as int
    } else {
        spec_mul_div_ceil(amount as int, reserve as int, total_supply as int)
    }
}

/// What `shares` shares are worth in an asset of which the pool holds
/// `reserve`, rounded down.
pub open spec fn withdraw_due(reserve: u64, total_supply: u64, shares: u64) -> int {
    spec_mul_div_floor(shares as int, reserve as int, total_supply as int)
}

/// Whether a deposit into a pool with shares outstanding costs more of either
/// asset than the caller's cap on it.
pub open spec fn deposit_exceeds_caps(reserves: Reserves, amount: u64, max_x: u64, max_y: u64) -> bool {
    &&& reserves.total_supply > 0
    &&& deposit_due(reserves.reserve_x, reserves.total_supply, amount, max_x) > max_x
        || deposit_due(reserves.reserve_y, reserves.total_supply, amount, max_y) > max_y
}

/// Whether a withdrawal pays less of either asset than the caller's floor
/// on it.
pub open spec fn withdraw_misses_floors(reserves: Reserves, shares: u64, min_x: u64, min_y: u64) -> bool {
    ||| withdraw_due(reserves.reserve_x, reserves.total_supply, shares) < min_x
    ||| withdraw_due(reserves.reserve_y, reserves.total_supply, shares) < min_y
}

/// Why a deposit is refused, if it is. The reasons are tried in this order.
/// A cost that no 64-bit cap could cover exceeds the caller's cap like any
/// other; only the new balances can overflow.
pub open spec fn deposit_refusal(
    pool: PoolView,
    reserves: Reserves,
    amount: u64,
    max_x: u64,
    max_y: u64,
) -> Option<AmmError> {
    let x_in = deposit_due(reserves.reserve_x, reserves.total_supply, amount, max_x);
    let y_in = deposit_due(reserves.reserve_y, reserves.total_supply, amount, max_y);
    if pool.locked {
        Some(AmmError::Locked)
    } else if amount == 0 {
        Some(AmmError::ZeroAmount)
    } else if reserves.total_supply == 0 && (max_x == 0 || max_y == 0) {
        Some(AmmError::ZeroLiquidity)
    } else if deposit_exceeds_caps(reserves, amount, max_x, max_y) {
        Some(AmmError::SlippageExceeded)
    } else if reserves.reserve_x + x_in > u64::MAX || reserves.reserve_y + y_in > u64::MAX
        || reserves.total_supply + amount > u64::MAX {
        Some(AmmError::ArithmeticOverflow)
    } else {
        None
    }
}

/// The plan of a deposit that is not refused.
pub open spec fn deposit_plan(reserves: Reserves, amount: u64, max_x: u64, max_y: u64) -> DepositPlan {
    let x_in = deposit_due(reserves.reserve_x, reserves.total_supply, amount, max_x);
    let y_in = deposit_due(reserves.reserve_y, reserves.total_supply, amount, max_y);
    DepositPlan {
        x_in: x_in as u64,
        y_in: y_in as u64,
        shares_minted: amount,
        reserves_after: Reserves {
            reserve_x: (reserves.reserve_x + x_in) as u64,
            reserve_y: (reserves.reserve_y + y_in) as u64,
            total_supply: (reserves.total_supply + amount) as u64,
        },
    }
}

/// Why a withdrawal is refused, if it is. The reasons are tried in this
/// order. Shares are insufficient when the caller holds fewer than are to be
/// burned, or fewer exist.
pub open spec fn withdraw_refusal(
    pool: PoolView,
    reserves: Reserves,
    caller_shares: u64,
    shares: u64,
    min_x: u64,
    min_y: u64,
) -> Option<AmmError> {
    if pool.locked {
        Some(AmmError::Locked)
    } else if shares == 0 {
        Some(AmmError::ZeroAmount)
    } else if caller_shares < shares || reserves.total_supply < shares {
        Some(AmmError::InsufficientShares)
    } else if withdraw_misses_floors(reserves, shares, min_x, min_y) {
        Some(AmmError::SlippageExceeded)
    } else {
        None
    }
}

/// The plan of a withdrawal that is not refused.
pub open spec fn withdraw_plan(reserves: Reserves, shares: u64) -> WithdrawPlan {
    let x_out = withdraw_due(reserves.reserve_x, reserves.total_supply, shares);
    let y_out = withdraw_due(reserves.reserve_y, reserves.total_supply, shares);
    WithdrawPlan {
        x_out: x_out as u64,
        y_out: y_out as u64,
        shares_burned: shares,
        reserves_after: Reserves {
            reserve_x: (reserves.reserve_x - x_out) as u64,
            reserve_y: (reserves.reserve_y - y_out) as u64,
            total_supply: (reserves.total_supply - shares) as u64,
        },
    }
}

/// Each share of `after` has at least as much of either asset behind it as
/// each share of `before` had.
pub open spec fn share_value_kept(before: Reserves, after: Reserves) -> bool {
    &&& after.reserve_x * before.total_supply >= before.reserve_x * after.total_supply
    &&& after.reserve_y * before.total_supply >= before.reserve_y * after.total_supply
}

/// The product of the reserves has changed no worse than the square of the
/// share supply has.
pub open spec fn product_follows_supply(before: Reserves, after: Reserves) -> bool {
    after.product() * (before.total_supply * before.total_supply) >= before.product() * (
    after.total_supply * after.total_supply)
}

/// `part` is the proportion `shares / supply` of `reserve`, rounded up to a
/// whole unit.
pub open spec fn is_proportion_rounded_up(part: int, shares: int, reserve: int, supply: int) -> bool {
    shares * reserve <= part * supply < shares * reserve + supply
}

/// `part` is the proportion `shares / supply` of `reserve`, rounded down to a
/// whole unit.
pub open spec fn is_proportion_rounded_down(
    part: int,
    shares: int,
    reserve: int,
    supply: int,
) -> bool {
    part * supply <= shares * reserve < part * supply + supply
}

/// Where the value behind each share is kept, the product of the reserves
/// follows the share supply: it may fall in a withdrawal, but only in
/// proportion to the shares burned.
pub proof fn lemma_product_follows_supply(before: Reserves, after: Reserves)
    requires
        share_value_kept(before, after),
    ensures
        product_follows_supply(before, after),
{
    let t = before.total_supply as int;
    let u = after.total_supply as int;
    let ax = after.reserve_x as int;
    let ay = after.reserve_y as int;
    let bx = before.reserve_x as int;
    let by = before.reserve_y as int;
    assert(0 <= bx * u && 0 <= by * u) by (nonlinear_arith)
        requires
            0 <= bx,
            0 <= by,
            0 <= u,
    ;
    lemma_mul_upper_bound(bx * u, ax * t, by * u, ay * t);
    assert((ax * t) * (ay * t) == (ax * ay) * (t * t)) by (nonlinear_arith);
    assert((bx * u) * (by * u) == (bx * by) * (u * u)) by (nonlinear_arith);
}

/// A deposit into a pool with shares outstanding costs the depositor's exact
/// proportion of the reserve, plus less than one unit.
pub proof fn lemma_deposit_due_proportional(reserve: u64, total_supply: u64, amount: u64, cap: u64)
    requires
        total_supply > 0,
    ensures
        ({
            let due = deposit_due(reserve, total_supply, amount, cap);
            &&& 0 <= due
            &&& is_proportion_rounded_up(due, amount as int, reserve as int, total_supply as int)
            &&& (reserve + due) * total_supply >= reserve * (total_supply + amount)
            &&& amount > 0 && reserve > 0 ==> due > 0
        }),
{
    let due = deposit_due(reserve, total_supply, amount, cap);
    assert(0 <= amount * reserve) by (nonlinear_arith);
    lemma_ceil_bounds(amount * reserve, total_supply as int);
    assert((reserve + due) * total_supply >= reserve * (total_supply + amount)) by (nonlinear_arith)
        requires
            amount * reserve <= due * total_supply,
    ;
    if amount > 0 && reserve > 0 {
        assert(0 < amount * reserve) by (nonlinear_arith)
            requires
                amount > 0,
                reserve > 0,
        ;
        assert(due > 0) by (nonlinear_arith)
            requires
                0 < amount * reserve <= due * total_supply,
                total_supply > 0,
        ;
    }
}

/// A withdrawal pays the withdrawer's exact proportion of the reserve, less
/// under one unit, and never more than the reserve holds.
pub proof fn lemma_withdraw_due_proportional(reserve: u64, total_supply: u64, shares: u64)
    requires
        0 < shares <= total_supply,
    ensures
        ({
            let due = withdraw_due(reserve, total_supply, shares);
            &&& 0 <= due <= reserve
            &&& is_proportion_rounded_down(due, shares as int, reserve as int, total_supply as int)
            &&& (reserve - due) * total_supply >= reserve * (total_supply - shares)
            &&& shares == total_supply ==> due == reserve
            &&& shares < total_supply && reserve > 0 ==> due < reserve
        }),
{
    let due = withdraw_due(reserve, total_supply, shares);
    assert(0 <= shares * reserve) by (nonlinear_arith);
    lemma_floor_bounds(shares * reserve, total_supply as int);
    assert(due <= reserve) by (nonlinear_arith)
        requires
            due * total_supply <= shares * reserve,
            0 < shares <= total_supply,
            0 <= reserve,
    ;
    assert((reserve - due) * total_supply >= reserve * (total_supply - shares)) by (nonlinear_arith)
        requires
            due * total_supply <= shares * reserve,
    ;
    if shares == total_supply {
        assert(due >= reserve) by (nonlinear_arith)
            requires
                shares * reserve < due * total_supply + total_supply,
                shares == total_supply,
                total_supply > 0,
        ;
    }
    if shares < total_supply && reserve > 0 {
        assert(due < reserve) by (nonlinear_arith)
            requires
                due * total_supply <= shares * reserve,
                0 < shares < total_supply,
                0 < reserve,
                0 <= due,
        ;
    }
}

/// Whoever deposits for `amount` shares and at once withdraws the same
/// `amount` gets back what was paid in, less at most one unit of each asset,
/// and leaves the share supply as it was. This holds at any fee, zero
/// included: the fee is charged on swaps alone. It asks only that no
/// reserves lay ownerless before: those would go to the first depositor.
pub proof fn lemma_deposit_then_withdraw(
    pool: PoolView,
    before: Reserves,
    amount: u64,
    max_x: u64,
    max_y: u64,
)
    requires
        before.no_orphans(),
        deposit_refusal(pool, before, amount, max_x, max_y) is None,
    ensures
        ({
            let paid = deposit_plan(before, amount, max_x, max_y);
            let back = withdraw_plan(paid.reserves_after, amount);
            &&& withdraw_refusal(pool, paid.reserves_after, amount, amount, 0, 0) is None
            &&& paid.x_in - 1 <= back.x_out <= paid.x_in
            &&& paid.y_in - 1 <= back.y_out <= paid.y_in
            &&& back.reserves_after.total_supply == before.total_supply
        }),
{
    let paid = deposit_plan(before, amount, max_x, max_y);
    let mid = paid.reserves_after;
    lemma_round_trip_one_asset(before.reserve_x, before.total_supply, amount, max_x);
    lemma_round_trip_one_asset(before.reserve_y, before.total_supply, amount, max_y);
    lemma_withdraw_due_proportional(mid.reserve_x, mid.total_supply, amount);
    lemma_withdraw_due_proportional(mid.reserve_y, mid.total_supply, amount);
}

/// The round trip in one asset: paying `due` for `amount` shares and
/// redeeming them returns `due` or `due - 1`.
proof fn lemma_round_trip_one_asset(reserve: u64, total_supply: u64, amount: u64, cap: u64)
    requires
        amount > 0,
        total_supply == 0 ==> reserve == 0,
    ensures
        ({
            let due = deposit_due(reserve, total_supply, amount, cap);
            let back = (amount * (reserve + due)) / (total_supply + amount);
            due - 1 <= back <= due
        }),
{
    let due = deposit_due(reserve, total_supply, amount, cap);
    let n = amount * (reserve + due);
    let d = total_supply + amount;
    if total_supply == 0 {
        assert(n == due * d) by (nonlinear_arith)
            requires
                n == amount * (reserve + due),
                reserve == 0,
                d == amount,
        ;
        lemma_floor_unique(n, d, due);
    } else {
        lemma_deposit_due_proportional(reserve, total_supply, amount, cap);
        assert(0 <= n) by (nonlinear_arith)
            requires
                n == amount * (reserve + due),
                0 <= due,
        ;
        lemma_floor_bounds(n, d);
        let back = n / d;
        assert(n <= due * d) by (nonlinear_arith)
            requires
                n == amount * (reserve + due),
                d == total_supply + amount,
                amount * reserve <= due * total_supply,
        ;
        assert((due - 1) * d <= n) by (nonlinear_arith)
            requires
                n == amount * (reserve + due),
                d == total_supply + amount,
                due * total_supply < amount * reserve + total_supply,
                amount > 0,
        ;
        assert(back <= due) by (nonlinear_arith)
            requires
                back * d <= n,
                n <= due * d,
                d > 0,
        ;
        assert(due - 1 <= back) by (nonlinear_arith)
            requires
                n < back * d + d,
                (due - 1) * d <= n,
                d > 0,
        ;
    }
}

/// Plans a deposit that mints `amount` shares against `reserves`, unless it
/// is refused.
///
/// `max_x` and `max_y` are the most the caller will pay of either asset. On
/// the first deposit into a pool they are what the caller pays, and so set
/// the opening price. A refusal plans nothing: the pool and the balances stay
/// as they are.
pub fn deposit(
    pool: &Pool,
    reserves: &Reserves,
    amount: u64,
    max_x: u64,
    max_y: u64,
) -> (r: Result<DepositPlan, AmmError>)
    ensures
        match r {
            Ok(plan) => {
                &&& deposit_refusal(pool@, *reserves, amount, max_x, max_y) is None
                &&& plan == deposit_plan(*reserves, amount, max_x, max_y)
            },
            Err(e) => deposit_refusal(pool@, *reserves, amount, max_x, max_y) == Some(e),
        },
        !pool@.locked && amount > 0 && deposit_exceeds_caps(*reserves, amount, max_x, max_y) ==> r
            == Err::<DepositPlan, AmmError>(AmmError::SlippageExceeded),
        r matches Ok(plan) ==> {
            &&& plan.shares_minted == amount
            &&& plan.x_in <= max_x
            &&& plan.y_in <= max_y
            &&& plan.reserves_after.reserve_x == reserves.reserve_x + plan.x_in
            &&& plan.reserves_after.reserve_y == reserves.reserve_y + plan.y_in
            &&& plan.reserves_after.total_supply == reserves.total_supply + amount
            &&& plan.reserves_after.product() >= reserves.product()
            &&& reserves.wf() ==> plan.reserves_after.wf()
            &&& reserves.total_supply > 0 ==> {
                &&& is_proportion_rounded_up(
                    plan.x_in as int,
                    amount as int,
                    reserves.reserve_x as int,
                    reserves.total_supply as int,
                )
                &&& is_proportion_rounded_up(
                    plan.y_in as int,
                    amount as int,
                    reserves.reserve_y as int,
                    reserves.total_supply as int,
                )
                &&& share_value_kept(*reserves, plan.reserves_after)
            }
        },
{
    if pool.is_locked() {
        return Err(AmmError::Locked);
    }
    if amount == 0 {
        return Err(AmmError::ZeroAmount);
    }
    let x_in: u64;
    let y_in: u64;
    if reserves.total_supply == 0 {
        if max_x == 0 || max_y == 0 {
            return Err(AmmError::ZeroLiquidity);
        }
        x_in = max_x;
        y_in = max_y;
    } else {
        let x_due: u128 = mul_div_ceil(amount, reserves.reserve_x, reserves.total_supply);
        let y_due: u128 = mul_div_ceil(amount, reserves.reserve_y, reserves.total_supply);
        if x_due > max_x as u128 || y_due > max_y as u128 {
            return Err(AmmError::SlippageExceeded);
        }
        proof {
            lemma_deposit_due_proportional(
                reserves.reserve_x,
                reserves.total_supply,
                amount,
                max_x,
            );
            lemma_deposit_due_proportional(
                reserves.reserve_y,
                reserves.total_supply,
                amount,
                max_y,
            );
        }
        x_in = x_due as u64;
        y_in = y_due as u64;
    }
    let new_x: Option<u64> = reserves.reserve_x.checked_add(x_in);
    let new_y: Option<u64> = reserves.reserve_y.checked_add(y_in);
    let new_supply: Option<u64> = reserves.total_supply.checked_add(amount);
    match (new_x, new_y, new_supply) {
        (Some(reserve_x), Some(reserve_y), Some(total_supply)) => {
            proof {
                assert(reserve_x * reserve_y >= reserves.reserve_x * reserves.reserve_y)
                    by (nonlinear_arith)
                    requires
                        reserve_x >= reserves.reserve_x,
                        reserve_y >= reserves.reserve_y,
                ;
            }
            Ok(
                DepositPlan {
                    x_in,
                    y_in,
                    shares_minted: amount,
                    reserves_after: Reserves { reserve_x, reserve_y, total_supply },
                },
            )
        },
        _ => Err(AmmError::ArithmeticOverflow),
    }
}

/// Plans a withdrawal that burns `shares` shares against `reserves`, unless
/// it is refused.
///
/// `caller_shares` is what the share ledger says the caller holds. `min_x`
/// and `min_y` are the least the caller accepts of either asset. A refusal
/// plans nothing: the pool and the balances stay as they are.
pub fn withdraw(
    pool: &Pool,
    reserves: &Reserves,
    caller_shares: u64,
    shares: u64,
    min_x: u64,
    min_y: u64,
) -> (r: Result<WithdrawPlan, AmmError>)
    ensures
        match r {
            Ok(plan) => {
                &&& withdraw_refusal(pool@, *reserves, caller_shares, shares, min_x, min_y) is None
                &&& plan == withdraw_plan(*reserves, shares)
            },
            Err(e) => withdraw_refusal(pool@, *reserves, caller_shares, shares, min_x, min_y)
                == Some(e),
        },
        !pool@.locked && 0 < shares <= caller_shares && shares <= reserves.total_supply
            && withdraw_misses_floors(*reserves, shares, min_x, min_y) ==> r == Err::<
            WithdrawPlan,
            AmmError,
        >(AmmError::SlippageExceeded),
        r matches Ok(plan) ==> {
            &&& plan.shares_burned == shares
            &&& min_x <= plan.x_out <= reserves.reserve_x
            &&& min_y <= plan.y_out <= reserves.reserve_y
            &&& plan.reserves_after.reserve_x == reserves.reserve_x - plan.x_out
            &&& plan.reserves_after.reserve_y == reserves.reserve_y - plan.y_out
            &&& plan.reserves_after.total_supply == reserves.total_supply - shares
            &&& is_proportion_rounded_down(
                plan.x_out as int,
                shares as int,
                reserves.reserve_x as int,
                reserves.total_supply as int,
            )
            &&& is_proportion_rounded_down(
                plan.y_out as int,
                shares as int,
                reserves.reserve_y as int,
                reserves.total_supply as int,
            )
            &&& share_value_kept(*reserves, plan.reserves_after)
            &&& product_follows_supply(*reserves, plan.reserves_after)
            &&& reserves.wf() ==> plan.reserves_after.wf()
        },
{
    if pool.is_locked() {
        return Err(AmmError::Locked);
    }
    if shares == 0 {
        return Err(AmmError::ZeroAmount);
    }
    if caller_shares < shares || reserves.total_supply < shares {
        return Err(AmmError::InsufficientShares);
    }
    proof {
        lemma_withdraw_due_proportional(reserves.reserve_x, reserves.total_supply, shares);
        lemma_withdraw_due_proportional(reserves.reserve_y, reserves.total_supply, shares);
    }
    let x_out: u64 = mul_div_floor(shares, reserves.reserve_x, reserves.total_supply) as u64;
    let y_out: u64 = mul_div_floor(shares, reserves.reserve_y, reserves.total_supply) as u64;
    if x_out < min_x || y_out < min_y {
        return Err(AmmError::SlippageExceeded);
    }
    proof {
        lemma_product_follows_supply(*reserves, withdraw_plan(*reserves, shares).reserves_after);
    }
    Ok(
        WithdrawPlan {
            x_out,
            y_out,
            shares_burned: shares,
            reserves_after: Reserves {
                reserve_x: reserves.reserve_x - x_out,
                reserve_y: reserves.reserve_y - y_out,
                total_supply: reserves.total_supply - shares,
            },
        },
    )
}

} // verus!
