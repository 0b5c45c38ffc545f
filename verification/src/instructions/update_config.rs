//! Changing the configuration of a deployment.

use vstd::prelude::*;
use crate::consts::FEE_DENOMINATOR;
use crate::errors::CustomError;
use crate::instructions::initialize::fee_in_range;
use crate::state::AccountId;
use crate::state::config::CurveConfiguration;

verus! {

/// Sets the treasury and, where `new_fees` gives one, the fee, in millionths
/// of a percent. The tax rate stays as it was created.
///
/// Fails with `InvalidFee`, and changes nothing, exactly when a fee is given
/// that is negative or above one hundred percent.
pub fn update_configuration(
    config: &mut CurveConfiguration,
    new_treasury: AccountId,
    new_fees: Option<i64>,
) -> (result: Result<(), CustomError>)
    ensures
        result is Err <==> (new_fees matches Some(fee) && !fee_in_range(fee)),
        result matches Err(e) ==> e == CustomError::InvalidFee && *final(config) == *old(config),
        result is Ok ==> final(config).treasury() == new_treasury && final(config).tax_bps()
            == old(config).tax_bps() && final(config).fee_percent() == (match new_fees {
            Some(fee) => fee as u64,
            None => old(config).fee_percent(),
        }) && final(config).wf(),
{
    if let Some(fee) = new_fees {
        if fee < 0 || fee > FEE_DENOMINATOR as i64 {
            return Err(CustomError::InvalidFee);
        }
        config.set_fee_percent(fee as u64);
    }
    config.set_treasury(new_treasury);
    Ok(())
}

} // verus!
