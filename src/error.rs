use vstd::prelude::*;

verus! {

/// Why an operation on a pool was refused. A refused operation has no effect.
#[derive(Debug, Clone, Copy, PartialEq, Eq, Structural)]
pub enum AmmError {
    /// A zero amount was supplied.
    InvalidAmount,
    /// The pool is paused.
    PoolLocked,
    /// A reserve or the share supply needed for pricing is zero.
    NoLiquidityInPool,
    /// A computed amount is below the caller's minimum.
    SlippageExceeded,
    /// An intermediate value left the representable range.
    ArithmeticOverflow,
    /// A subtraction would have gone below zero.
    ArithmeticUnderflow,
    /// A balance could not pay or receive a transfer.
    TransferFailure,
}

} // verus!
