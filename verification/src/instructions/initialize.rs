//! Creating the configuration of a deployment.

use vstd::prelude::*;
use crate::consts::{BPS_DENOMINATOR, FEE_DENOMINATOR};
use crate::errors::CustomError;
use crate::state::AccountId;
use crate::state::config::CurveConfiguration;

verus! {

/// A fee in millionths of a percent lies between zero and one hundred
/// percent.
pub open spec fn fee_in_range(fee_percent: i64) -> bool {
    0 <= fee_percent <= FEE_DENOMINATOR
}

/// Creates the configuration. `fee_percent` is the trading fee in millionths
/// of a percent and `tax_bps` the tax rate on sales at a loss in basis
/// points.
///
/// Fails with `InvalidFee` when the fee is negative or above one hundred
/// percent, and otherwise with `InvalidTaxBps` when the tax rate is above ten
/// thousand basis points.
pub fn initialize(fee_percent: i64, tax_bps: u16, treasury: AccountId) -> (result: Result<
    CurveConfiguration,
    CustomError,
>)
    ensures
        !fee_in_range(fee_percent) ==> (result matches Err(e) && e == CustomError::InvalidFee),
        fee_in_range(fee_percent) && tax_bps > BPS_DENOMINATOR ==> (result matches Err(e) && e
            == CustomError::InvalidTaxBps),
        fee_in_range(fee_percent) && tax_bps <= BPS_DENOMINATOR ==> (result matches Ok(config)
            && config.fee_percent() == fee_percent && config.tax_bps() == tax_bps
            && config.treasury() == treasury && config.wf()),
{
    if fee_percent < 0 || fee_percent > FEE_DENOMINATOR as i64 {
        return Err(CustomError::InvalidFee);
    }
    if tax_bps > BPS_DENOMINATOR as u16 {
        return Err(CustomError::InvalidTaxBps);
    }
    Ok(CurveConfiguration::new(fee_percent as u64, treasury, tax_bps))
}

} // verus!
