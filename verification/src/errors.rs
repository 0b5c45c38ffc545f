//! The errors that the engine reports.

use vstd::prelude::*;

verus! {

/// Why an operation of the exchange was refused. An operation that returns
/// one of these has changed nothing.
#[derive(Clone, Copy, Debug, PartialEq, Eq, Structural)]
pub enum CustomError {
    DuplicateTokenNotAllowed,
    FailedToAllocateShares,
    FailedToDeallocateShares,
    InsufficientShares,
    InsufficientFunds,
    /// The amount to swap is zero.
    InvalidAmount,
    /// The fee lies outside zero to one hundred percent.
    InvalidFee,
    FailedToAddLiquidity,
    FailedToRemoveLiquidity,
    /// A reserve would leave the range of 64 bits.
    OverflowOrUnderflowOccurred,
    /// More tokens are sold than the position holds.
    InsufficientPosition,
    /// The position holds no tokens, so it has no cost basis.
    PositionNotInitialized,
    /// A total of the position would leave the range of 64 bits.
    MathOverflow,
    InvalidTreasury,
    /// The tax rate is above ten thousand basis points.
    InvalidTaxBps,
}

/// Why a launch was refused.
#[derive(Clone, Copy, Debug, PartialEq, Eq, Structural)]
pub enum LaunchError {
    /// The name is longer than 32 bytes.
    NameTooLong,
    /// The symbol is longer than 10 bytes.
    SymbolTooLong,
    /// The metadata address is longer than 200 bytes.
    UriTooLong,
    /// The initial supply is zero.
    InvalidSupply,
    /// The initial settlement reserve is zero.
    InvalidSolReserve,
}

} // verus!
