//! Constant-product automated market maker: the pool engine.
//!
//! The engine decides; it moves nothing. Each operation takes the pool's
//! record and the balances as they stand, and returns either the plan of
//! ledger calls that carries the operation out, or the reason for which it is
//! refused. Whoever hosts the engine reads the balances, calls it, and
//! performs the plan, all within one transaction per pool.

pub mod error;
pub mod liquidity;
pub mod math;
pub mod pool;
pub mod trade;

pub use error::AmmError;
pub use liquidity::{deposit, withdraw, DepositPlan, WithdrawPlan};
pub use pool::{initialize, set_locked, AccountId, Pool, PoolId, Reserves, MAX_FEE_BPS};
pub use trade::{net_input, output_for, swap, SwapPlan};
