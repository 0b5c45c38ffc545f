//! The trading parameters of one deployment.

use vstd::prelude::*;
use crate::consts::{BPS_DENOMINATOR, FEE_DENOMINATOR};
use crate::state::AccountId;

verus! {

/// The fee and the loss tax that every swap is priced with, and the account
/// that receives the tax. A value of this type always holds a fee between
/// zero and one hundred percent and a tax rate of at most ten thousand basis
/// points.
#[derive(Clone, Copy, Debug, PartialEq, Eq)]
pub struct CurveConfiguration {
    fee_percent: u64,
    tax_bps: u16,
    treasury: AccountId,
}

impl CurveConfiguration {
    #[verifier::type_invariant]
    spec fn in_range(&self) -> bool {
        self.fee_percent <= FEE_DENOMINATOR && self.tax_bps <= BPS_DENOMINATOR
    }

    /// The trading fee, in millionths of a percent.
    pub closed spec fn spec_fee_percent(&self) -> u64 {
        self.fee_percent
    }

    /// The tax rate on the proceeds of a sale at a loss, in basis points.
    pub closed spec fn spec_tax_bps(&self) -> u16 {
        self.tax_bps
    }

    /// The account that receives the tax.
    pub closed spec fn spec_treasury(&self) -> AccountId {
        self.treasury
    }

    /// Both rates lie in their domain.
    pub open spec fn wf(&self) -> bool {
        self.spec_fee_percent() <= FEE_DENOMINATOR && self.spec_tax_bps() <= BPS_DENOMINATOR
    }

    pub(crate) fn new(fee_percent: u64, treasury: AccountId, tax_bps: u16) -> (config: Self)
        requires
            fee_percent <= FEE_DENOMINATOR,
            tax_bps <= BPS_DENOMINATOR,
        ensures
            config.spec_fee_percent() == fee_percent,
            config.spec_treasury() == treasury,
            config.spec_tax_bps() == tax_bps,
            config.wf(),
    {
        CurveConfiguration { fee_percent, tax_bps, treasury }
    }

    /// The trading fee, in millionths of a percent: at most one hundred
    /// percent.
    #[verifier::when_used_as_spec(spec_fee_percent)]
    pub fn fee_percent(&self) -> (fee: u64)
        ensures
            fee == self.spec_fee_percent(),
            self.wf(),
    {
        proof {
            use_type_invariant(self);
        }
        self.fee_percent
    }

    /// The tax rate on the proceeds of a sale at a loss, in basis points: at
    /// most ten thousand.
    #[verifier::when_used_as_spec(spec_tax_bps)]
    pub fn tax_bps(&self) -> (bps: u16)
        ensures
            bps == self.spec_tax_bps(),
            self.wf(),
    {
        proof {
            use_type_invariant(self);
        }
        self.tax_bps
    }

    /// The account that receives the tax.
    #[verifier::when_used_as_spec(spec_treasury)]
    pub fn treasury(&self) -> (treasury: AccountId)
        ensures
            treasury == self.spec_treasury(),
    {
        self.treasury
    }

    pub(crate) fn set_fee_percent(&mut self, fee_percent: u64)
        requires
            fee_percent <= FEE_DENOMINATOR,
        ensures
            final(self).spec_fee_percent() == fee_percent,
            final(self).spec_tax_bps() == old(self).spec_tax_bps(),
            final(self).spec_treasury() == old(self).spec_treasury(),
            final(self).wf(),
    {
        proof {
            use_type_invariant(&*self);
        }
        self.fee_percent = fee_percent;
    }

    pub(crate) fn set_treasury(&mut self, treasury: AccountId)
        ensures
            final(self).spec_treasury() == treasury,
            final(self).spec_fee_percent() == old(self).spec_fee_percent(),
            final(self).spec_tax_bps() == old(self).spec_tax_bps(),
            final(self).wf(),
    {
        proof {
            use_type_invariant(&*self);
        }
        self.treasury = treasury;
    }
}

} // verus!
