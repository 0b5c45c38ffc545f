//! A constant-product exchange engine for a single trading pair, with a
//! per-user cost-basis ledger and a tax on sales that realise a loss.
//!
//! Every amount is an unsigned 64-bit integer in the smallest unit of its
//! asset. The trading fee is an integer too, in millionths of a percent, and
//! the tax rate is in basis points. All ratios are computed exactly, with a
//! 128-bit intermediate product, and rounded down.
//!
//! The engine moves no asset and keeps no record of its own. [`swap`]
//! takes the configuration, the pool and the position of the user, changes
//! the two records, and returns the transfers to make and the notices to
//! send; a request that is refused changes nothing.
//!
//! [`swap`]: crate::instructions::swap::swap

pub mod consts;
pub mod errors;
pub mod instructions;
pub mod state;
pub mod utils;
