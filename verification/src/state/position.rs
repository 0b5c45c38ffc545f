//! The cost-basis ledger of one user in one pool.

use vstd::prelude::*;
use crate::errors::CustomError;
use crate::utils::{lemma_share_bounded, lemma_share_rounds_down, proportional_share, share_of};

verus! {

/// What a user holds of the traded asset and what was paid for it, by the
/// average-cost method: all tokens held share one entry price,
/// `total_sol / total_tokens`.
#[derive(Clone, Copy, Debug, PartialEq, Eq, Structural)]
pub struct UserPosition {
    /// Tokens held, in the smallest unit of the traded asset.
    pub total_tokens: u64,
    /// What was paid for `total_tokens`, in the smallest settlement unit.
    pub total_sol: u64,
}

impl UserPosition {
    /// An empty position carries no cost.
    pub open spec fn wf(&self) -> bool {
        self.total_tokens == 0 ==> self.total_sol == 0
    }

    /// The part of the accumulated cost that belongs to `tokens_to_sell` of
    /// the tokens held: `total_sol * tokens_to_sell / total_tokens`, rounded
    /// down.
    pub open spec fn cost_basis(&self, tokens_to_sell: nat) -> nat {
        share_of(self.total_sol as nat, tokens_to_sell, self.total_tokens as nat)
    }

    /// The position once `tokens_acquired` have been bought for `sol_spent`.
    pub open spec fn bought(&self, tokens_acquired: u64, sol_spent: u64) -> UserPosition {
        UserPosition {
            total_tokens: (self.total_tokens + tokens_acquired) as u64,
            total_sol: (self.total_sol + sol_spent) as u64,
        }
    }

    /// The position once `tokens_sold` have left it with `basis_consumed` of
    /// the accumulated cost.
    pub open spec fn sold(&self, tokens_sold: u64, basis_consumed: u64) -> UserPosition {
        UserPosition {
            total_tokens: (self.total_tokens - tokens_sold) as u64,
            total_sol: (self.total_sol - basis_consumed) as u64,
        }
    }

    /// A sale at the cost basis of the tokens sold leaves the average entry
    /// price as it was, but for rounding: the cost that stays is the exact
    /// share of the tokens that stay, rounded up. A sale of all tokens leaves
    /// no cost behind.
    pub proof fn lemma_sale_keeps_average_price(self, tokens_sold: u64)
        requires
            0 < self.total_tokens,
            tokens_sold <= self.total_tokens,
        ensures
            ({
                let basis = self.cost_basis(tokens_sold as nat);
                let rest = self.sold(tokens_sold, basis as u64);
                &&& basis <= self.total_sol
                &&& rest.total_tokens == self.total_tokens - tokens_sold
                &&& rest.total_sol == self.total_sol - basis
                &&& self.total_sol * rest.total_tokens <= rest.total_sol * self.total_tokens
                &&& rest.total_sol * self.total_tokens < self.total_sol * rest.total_tokens
                    + self.total_tokens
                &&& rest.wf()
            }),
    {
        let cost = self.total_sol as nat;
        let held = self.total_tokens as nat;
        let sold = tokens_sold as nat;
        let basis = self.cost_basis(sold);
        lemma_share_bounded(cost, sold, held);
        lemma_share_rounds_down(cost, sold, held);
        assert(cost * (held - sold) <= (cost - basis) * held && (cost - basis) * held < cost
            * (held - sold) + held) by (nonlinear_arith)
            requires
                basis * held <= cost * sold,
                cost * sold < basis * held + held,
        ;
        if sold == held {
            assert(basis == cost) by (nonlinear_arith)
                requires
                    basis * held <= cost * held,
                    cost * held < basis * held + held,
                    0 < held,
            ;
        }
    }

    /// Where the cost basis of the tokens sold comes out without a remainder,
    /// a sale leaves the average entry price exactly as it was:
    /// `total_sol / total_tokens` is the same ratio before and after.
    pub proof fn lemma_sale_keeps_average_price_exactly(self, tokens_sold: u64)
        requires
            0 < self.total_tokens,
            tokens_sold <= self.total_tokens,
            (self.total_sol * tokens_sold) % (self.total_tokens as int) == 0,
        ensures
            ({
                let basis = self.cost_basis(tokens_sold as nat);
                let rest = self.sold(tokens_sold, basis as u64);
                rest.total_sol * self.total_tokens == self.total_sol * rest.total_tokens
            }),
    {
        let cost = self.total_sol as int;
        let held = self.total_tokens as int;
        let sold = tokens_sold as int;
        let basis = self.cost_basis(sold as nat) as int;
        lemma_share_bounded(cost as nat, sold as nat, held as nat);
        assert(basis * held == cost * sold) by (nonlinear_arith)
            requires
                0 < held,
                basis == (cost * sold) / held,
                (cost * sold) % held == 0,
        ;
        assert((cost - basis) * held == cost * (held - sold)) by (nonlinear_arith)
            requires
                basis * held == cost * sold,
        ;
    }

    /// The position of a user who has not bought yet.
    pub fn new() -> (position: Self)
        ensures
            position.total_tokens == 0,
            position.total_sol == 0,
            position.wf(),
    {
        UserPosition { total_tokens: 0, total_sol: 0 }
    }

    /// Adds a purchase to the running totals. Fails with `MathOverflow`, and
    /// changes nothing, exactly when one of the totals would leave the range
    /// of 64 bits.
    pub fn record_buy(&mut self, tokens_acquired: u64, sol_spent: u64) -> (result: Result<
        (),
        CustomError,
    >)
        ensures
            result is Err <==> (old(self).total_tokens + tokens_acquired > u64::MAX
                || old(self).total_sol + sol_spent > u64::MAX),
            result is Ok ==> *final(self) == old(self).bought(tokens_acquired, sol_spent),
            result matches Err(e) ==> e == CustomError::MathOverflow && *final(self) == *old(self),
            result is Ok && old(self).wf() && (tokens_acquired > 0 || sol_spent == 0)
                ==> final(self).wf(),
    {
        let tokens: u64 = match self.total_tokens.checked_add(tokens_acquired) {
            Some(sum) => sum,
            None => {
                return Err(CustomError::MathOverflow);
            },
        };
        let sol: u64 = match self.total_sol.checked_add(sol_spent) {
            Some(sum) => sum,
            None => {
                return Err(CustomError::MathOverflow);
            },
        };
        self.total_tokens = tokens;
        self.total_sol = sol;
        Ok(())
    }

    /// The cost basis of `tokens_to_sell` of the tokens held, at the average
    /// entry price: `total_sol * tokens_to_sell / total_tokens`, rounded down.
    /// Fails with `PositionNotInitialized` when no tokens are held, and
    /// otherwise with `InsufficientPosition` when more is sold than is held.
    pub fn calculate_cost_basis_for_sale(&self, tokens_to_sell: u64) -> (result: Result<
        u64,
        CustomError,
    >)
        ensures
            self.total_tokens == 0 ==> result == Err::<u64, CustomError>(
                CustomError::PositionNotInitialized,
            ),
            self.total_tokens != 0 && tokens_to_sell > self.total_tokens ==> result == Err::<
                u64,
                CustomError,
            >(CustomError::InsufficientPosition),
            0 < self.total_tokens && tokens_to_sell <= self.total_tokens ==> result == Ok::<
                u64,
                CustomError,
            >(self.cost_basis(tokens_to_sell as nat) as u64),
            result matches Ok(basis) ==> basis <= self.total_sol,
    {
        if self.total_tokens == 0 {
            return Err(CustomError::PositionNotInitialized);
        }
        if tokens_to_sell > self.total_tokens {
            return Err(CustomError::InsufficientPosition);
        }
        Ok(proportional_share(self.total_sol, tokens_to_sell, self.total_tokens))
    }

    /// Takes a sale off the running totals. `basis_consumed` is the cost
    /// basis that `calculate_cost_basis_for_sale` gave for `tokens_sold`; it
    /// is never more than the accumulated cost. Fails with
    /// `InsufficientPosition`, and changes nothing, exactly when more is sold
    /// than is held.
    pub fn record_sell(&mut self, tokens_sold: u64, basis_consumed: u64) -> (result: Result<
        (),
        CustomError,
    >)
        requires
            tokens_sold <= old(self).total_tokens ==> basis_consumed <= old(self).total_sol,
        ensures
            result is Err <==> tokens_sold > old(self).total_tokens,
            result is Ok ==> *final(self) == old(self).sold(tokens_sold, basis_consumed),
            result matches Err(e) ==> e == CustomError::InsufficientPosition && *final(self)
                == *old(self),
    {
        if tokens_sold > self.total_tokens {
            return Err(CustomError::InsufficientPosition);
        }
        self.total_tokens = self.total_tokens - tokens_sold;
        self.total_sol = self.total_sol - basis_consumed;
        Ok(())
    }
}

} // verus!
