//! Scales and limits shared by the whole engine.

use vstd::prelude::*;

verus! {

/// Number of fee units in one percent: a fee is kept in millionths of a
/// percent.
pub const FEE_UNITS_PER_PERCENT: u64 = 1_000_000;

/// The fee that stands for one hundred percent, in fee units.
pub const FEE_DENOMINATOR: u64 = 100_000_000;

/// The tax rate that stands for one hundred percent, in basis points.
pub const BPS_DENOMINATOR: u64 = 10_000;

/// Longest accepted token name, in bytes.
pub const MAX_NAME_LEN: usize = 32;

/// Longest accepted token symbol, in bytes.
pub const MAX_SYMBOL_LEN: usize = 10;

/// Longest accepted metadata address, in bytes.
pub const MAX_URI_LEN: usize = 200;

/// Settlement units paid into each vault when the configuration is created.
pub const VAULT_FUNDING: u64 = 10_000_000;

} // verus!
