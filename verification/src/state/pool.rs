//! The reserves of one trading pair and the constant-product curve.

use vstd::prelude::*;
use crate::errors::CustomError;
use crate::utils::{constant_product_output, curve_output};

verus! {

/// The direction of a swap.
#[derive(Clone, Copy, Debug, PartialEq, Eq, Structural)]
pub enum Side {
    /// The user hands in the traded asset and is paid in the settlement asset.
    Sell,
    /// The user hands in the settlement asset and is paid in the traded asset.
    Buy,
}

impl Side {
    /// The side that a request number stands for: 1 sells, every other number
    /// buys.
    pub open spec fn of_style(style: u64) -> Side {
        if style == 1 {
            Side::Sell
        } else {
            Side::Buy
        }
    }

    /// The word for the side in the notice of a trade.
    pub open spec fn label(self) -> Seq<char> {
        match self {
            Side::Sell => "sell"@,
            Side::Buy => "buy"@,
        }
    }

    /// The word for the side in the notice of a trade: `"sell"` or `"buy"`.
    pub fn name(self) -> (name: String)
        ensures
            name@ == self.label(),
    {
        match self {
            Side::Sell => "sell".to_owned(),
            Side::Buy => "buy".to_owned(),
        }
    }

    /// Reads the side of a request: 1 sells, every other number buys.
    pub fn from_style(style: u64) -> (side: Side)
        ensures
            side == Side::of_style(style),
    {
        if style == 1 {
            Side::Sell
        } else {
            Side::Buy
        }
    }
}

/// The two reserves of a pair. `reserve_base` counts the traded asset and
/// `reserve_quote` the settlement asset, each in its smallest unit.
#[derive(Clone, Copy, Debug, PartialEq, Eq, Structural)]
pub struct LiquidityPool {
    /// Tokens minted at launch; a record that no trade changes.
    pub total_supply: u64,
    pub reserve_base: u64,
    pub reserve_quote: u64,
}

impl LiquidityPool {
    /// Both reserves hold something.
    pub open spec fn wf(&self) -> bool {
        self.reserve_base > 0 && self.reserve_quote > 0
    }

    /// The product of the two reserves.
    pub open spec fn product(&self) -> nat {
        (self.reserve_base * self.reserve_quote) as nat
    }

    /// The reserve that takes the deposit of a trade on `side`.
    pub open spec fn reserve_in(&self, side: Side) -> u64 {
        match side {
            Side::Sell => self.reserve_base,
            Side::Buy => self.reserve_quote,
        }
    }

    /// The reserve that pays out in a trade on `side`.
    pub open spec fn reserve_out(&self, side: Side) -> u64 {
        match side {
            Side::Sell => self.reserve_quote,
            Side::Buy => self.reserve_base,
        }
    }

    /// What the curve pays for `amount_in` on `side`:
    /// `reserve_out * amount_in / (reserve_in + amount_in)`, rounded down.
    pub open spec fn quoted(&self, side: Side, amount_in: nat) -> nat {
        curve_output(self.reserve_in(side) as nat, self.reserve_out(side) as nat, amount_in)
    }

    /// The pool once `amount_in` has entered and `amount_out` has left on
    /// `side`.
    pub open spec fn traded(&self, side: Side, amount_in: u64, amount_out: u64) -> LiquidityPool {
        match side {
            Side::Sell => LiquidityPool {
                total_supply: self.total_supply,
                reserve_base: (self.reserve_base + amount_in) as u64,
                reserve_quote: (self.reserve_quote - amount_out) as u64,
            },
            Side::Buy => LiquidityPool {
                total_supply: self.total_supply,
                reserve_base: (self.reserve_base - amount_out) as u64,
                reserve_quote: (self.reserve_quote + amount_in) as u64,
            },
        }
    }

    /// The pool of a newly launched token: the whole supply stands against
    /// the settlement reserve that the creator chose.
    pub fn new(initial_supply: u64, initial_sol_reserve: u64) -> (pool: Self)
        ensures
            pool.total_supply == initial_supply,
            pool.reserve_base == initial_supply,
            pool.reserve_quote == initial_sol_reserve,
    {
        LiquidityPool {
            total_supply: initial_supply,
            reserve_base: initial_supply,
            reserve_quote: initial_sol_reserve,
        }
    }

    /// Prices `amount_in`, the input after the fee, on `side`. Fails with
    /// `OverflowOrUnderflowOccurred` exactly when the receiving reserve and
    /// `amount_in` together leave the range of 64 bits.
    pub fn quote(&self, side: Side, amount_in: u64) -> (result: Result<u64, CustomError>)
        ensures
            result is Err <==> self.reserve_in(side) + amount_in > u64::MAX,
            result matches Err(e) ==> e == CustomError::OverflowOrUnderflowOccurred,
            result matches Ok(out) ==> out == self.quoted(side, amount_in as nat) && out
                <= self.reserve_out(side),
    {
        let priced: Option<u64> = match side {
            Side::Sell => constant_product_output(self.reserve_base, self.reserve_quote, amount_in),
            Side::Buy => constant_product_output(self.reserve_quote, self.reserve_base, amount_in),
        };
        match priced {
            Some(out) => Ok(out),
            None => Err(CustomError::OverflowOrUnderflowOccurred),
        }
    }

    /// Moves the reserves for a trade on `side`: `amount_in`, the whole
    /// deposit with the fee still in it, enters one reserve and `amount_out`
    /// leaves the other. Fails with `OverflowOrUnderflowOccurred`, and changes
    /// nothing, exactly when a reserve would leave the range of 64 bits.
    pub fn apply_trade(&mut self, side: Side, amount_in: u64, amount_out: u64) -> (result: Result<
        (),
        CustomError,
    >)
        ensures
            result is Err <==> (old(self).reserve_in(side) + amount_in > u64::MAX || amount_out
                > old(self).reserve_out(side)),
            result matches Err(e) ==> e == CustomError::OverflowOrUnderflowOccurred && *final(self)
                == *old(self),
            result is Ok ==> *final(self) == old(self).traded(side, amount_in, amount_out),
    {
        let reserve_in: u64 = match side {
            Side::Sell => self.reserve_base,
            Side::Buy => self.reserve_quote,
        };
        let reserve_out: u64 = match side {
            Side::Sell => self.reserve_quote,
            Side::Buy => self.reserve_base,
        };
        let credited: u64 = match reserve_in.checked_add(amount_in) {
            Some(sum) => sum,
            None => {
                return Err(CustomError::OverflowOrUnderflowOccurred);
            },
        };
        let debited: u64 = match reserve_out.checked_sub(amount_out) {
            Some(rest) => rest,
            None => {
                return Err(CustomError::OverflowOrUnderflowOccurred);
            },
        };
        match side {
            Side::Sell => {
                self.reserve_base = credited;
                self.reserve_quote = debited;
            },
            Side::Buy => {
                self.reserve_base = debited;
                self.reserve_quote = credited;
            },
        }
        Ok(())
    }
}

} // verus!
