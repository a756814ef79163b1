//! Reasons for which the engine refuses an operation.

use vstd::prelude::*;

verus! {

/// Why an operation was refused. Every refusal is final for the call that
/// caused it: nothing is retried, and no ledger call is due.
#[derive(Clone, Copy, Debug, PartialEq, Eq, Structural)]
pub enum AmmError {
    /// The fee is above 10000 basis points.
    InvalidFee,
    /// A first deposit would leave one side of the pool empty.
    ZeroLiquidity,
    /// The operation asks for an amount of zero.
    ZeroAmount,
    /// The pool is locked.
    Locked,
    /// A computed amount is on the wrong side of the caller's bound.
    SlippageExceeded,
    /// The swap would leave nothing in the reserve it pays from.
    InsufficientLiquidity,
    /// More shares are to be burned than the caller holds, or than exist.
    InsufficientShares,
    /// A new balance would not fit in 64 bits.
    ArithmeticOverflow,
}

} // verus!
