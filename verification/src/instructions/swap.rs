//! The swap: price, tax decision, reserve and position update, settlement.

use vstd::prelude::*;
use crate::consts::{BPS_DENOMINATOR, FEE_DENOMINATOR};
use crate::errors::CustomError;
use crate::state::AccountId;
use crate::state::config::CurveConfiguration;
use crate::state::pool::{LiquidityPool, Side};
use crate::state::position::UserPosition;
use crate::utils::{
    fee_adjusted,
    fee_adjusted_amount,
    lemma_curve_output_bounded,
    lemma_product_across_trade,
    lemma_share_bounded,
    lemma_share_rounds_down,
    proportional_share,
    share_of,
};

verus! {

/// Who trades, in which pool, and when: what the notices of a swap carry
/// besides its numbers.
#[derive(Clone, Copy, Debug, PartialEq, Eq)]
pub struct TradeContext {
    pub user: AccountId,
    pub pool: AccountId,
    /// Seconds since the Unix epoch.
    pub timestamp: i64,
}

/// The notice of a completed trade.
#[derive(Clone, Debug, PartialEq, Eq)]
pub struct TradeExecuted {
    pub user: AccountId,
    pub pool: AccountId,
    /// `"buy"` or `"sell"`.
    pub side: String,
    /// Tokens sold, or tokens bought.
    pub token_amount: u64,
    /// What a sale paid the user after tax, or what a purchase cost.
    pub sol_amount: u64,
    pub timestamp: i64,
}

/// The notice of a sale at a loss, whose proceeds were taxed.
#[derive(Clone, Copy, Debug, PartialEq, Eq)]
pub struct PaperhandTaxApplied {
    pub user: AccountId,
    pub pool: AccountId,
    pub sol_out_before_tax: u64,
    pub cost_basis_for_sale: u64,
    pub tax: u64,
    pub sol_to_user: u64,
}

/// The notice of the totals that a trade leaves in a position.
#[derive(Clone, Copy, Debug, PartialEq, Eq)]
pub struct PositionUpdated {
    pub user: AccountId,
    pub pool: AccountId,
    pub total_tokens: u64,
    pub total_sol: u64,
}

/// One of the two assets of the pair.
#[derive(Clone, Copy, Debug, PartialEq, Eq, Structural)]
pub enum Asset {
    /// The traded asset.
    Token,
    /// The settlement asset.
    Sol,
}

/// An end of a transfer.
#[derive(Clone, Copy, Debug, PartialEq, Eq, Structural)]
pub enum Party {
    User,
    /// The custody of the pool, for either asset.
    Pool,
    Treasury,
}

/// A movement of `amount` of `asset` that settles a swap.
#[derive(Clone, Copy, Debug, PartialEq, Eq, Structural)]
pub struct Transfer {
    pub asset: Asset,
    pub from: Party,
    pub to: Party,
    pub amount: u64,
}

/// A completed swap: its numbers, the transfers that settle it, in the
/// order in which they are to be made, and its notices.
#[derive(Clone, Debug, PartialEq, Eq)]
pub struct SwapOutcome {
    pub settlement: Settlement,
    pub transfers: Vec<Transfer>,
    pub trade: TradeExecuted,
    /// Present exactly for a sale at a loss.
    pub tax_applied: Option<PaperhandTaxApplied>,
    pub position_updated: PositionUpdated,
}

/// Every number of one swap, and the pool and the position as the swap
/// leaves them.
#[derive(Clone, Copy, Debug, PartialEq, Eq, Structural)]
pub struct Settlement {
    pub side: Side,
    /// What the user hands in, with the fee still in it.
    pub amount: u64,
    /// What is priced: `amount` with the fee taken off.
    pub adjusted_amount: u64,
    /// What the curve pays for `adjusted_amount`, before any tax.
    pub amount_out: u64,
    /// The cost basis of the tokens sold; zero for a buy.
    pub cost_basis: u64,
    /// The sale pays less than the tokens cost; never set for a buy.
    pub realized_loss: bool,
    /// What the treasury receives out of `amount_out`.
    pub tax: u64,
    /// What the user receives: `amount_out` less `tax`.
    pub net_to_user: u64,
    pub pool: LiquidityPool,
    pub position: UserPosition,
}

/// The tax on the proceeds of a sale: the rate `tax_bps` on the whole of the
/// proceeds where they fall short of the cost basis, and nothing otherwise.
pub open spec fn tax_due(proceeds: nat, cost_basis: nat, tax_bps: nat) -> nat {
    if proceeds < cost_basis {
        share_of(proceeds, tax_bps, BPS_DENOMINATOR as nat)
    } else {
        0
    }
}

/// The input of a swap once the fee of `config` is taken off.
pub open spec fn adjusted_input(config: CurveConfiguration, amount: u64) -> nat {
    fee_adjusted(amount as nat, config.fee_percent() as nat)
}

/// Why a swap is refused, if it is. The tests are made in this order, and
/// the first that fails names the error.
pub open spec fn swap_failure(
    config: CurveConfiguration,
    pool: LiquidityPool,
    position: UserPosition,
    amount: u64,
    side: Side,
) -> Option<CustomError> {
    let adjusted = adjusted_input(config, amount);
    if amount == 0 {
        Some(CustomError::InvalidAmount)
    } else if pool.reserve_in(side) + adjusted > u64::MAX {
        Some(CustomError::OverflowOrUnderflowOccurred)
    } else {
        match side {
            Side::Sell => {
                if position.total_tokens < amount {
                    Some(CustomError::InsufficientPosition)
                } else if pool.reserve_base + amount > u64::MAX {
                    Some(CustomError::OverflowOrUnderflowOccurred)
                } else {
                    None
                }
            },
            Side::Buy => {
                if pool.reserve_quote + amount > u64::MAX {
                    Some(CustomError::OverflowOrUnderflowOccurred)
                } else if position.total_tokens + pool.quoted(Side::Buy, adjusted) > u64::MAX
                    || position.total_sol + amount > u64::MAX {
                    Some(CustomError::MathOverflow)
                } else {
                    None
                }
            },
        }
    }
}

/// The numbers of a swap that is not refused.
pub open spec fn settlement_of(
    config: CurveConfiguration,
    pool: LiquidityPool,
    position: UserPosition,
    amount: u64,
    side: Side,
) -> Settlement {
    let adjusted = adjusted_input(config, amount);
    let out = pool.quoted(side, adjusted) as u64;
    match side {
        Side::Sell => {
            let basis = position.cost_basis(amount as nat) as u64;
            let tax = tax_due(out as nat, basis as nat, config.tax_bps() as nat) as u64;
            Settlement {
                side,
                amount,
                adjusted_amount: adjusted as u64,
                amount_out: out,
                cost_basis: basis,
                realized_loss: out < basis,
                tax,
                net_to_user: (out - tax) as u64,
                pool: pool.traded(side, amount, out),
                position: position.sold(amount, basis),
            }
        },
        Side::Buy => Settlement {
            side,
            amount,
            adjusted_amount: adjusted as u64,
            amount_out: out,
            cost_basis: 0,
            realized_loss: false,
            tax: 0,
            net_to_user: out,
            pool: pool.traded(side, amount, out),
            position: position.bought(out, amount),
        },
    }
}

/// What a swap request comes to: the error that refuses it, or its numbers.
pub open spec fn swap_result(
    config: CurveConfiguration,
    pool: LiquidityPool,
    position: UserPosition,
    amount: u64,
    side: Side,
) -> Result<Settlement, CustomError> {
    match swap_failure(config, pool, position, amount, side) {
        Some(e) => Err(e),
        None => Ok(settlement_of(config, pool, position, amount, side)),
    }
}

/// The transfers that settle a swap. A sale moves the tokens sold to the
/// pool and the proceeds after tax to the user, and then the tax, if there is
/// any, to the treasury. A purchase moves the tokens bought to the user and
/// the price to the pool.
pub open spec fn transfers_of(settlement: Settlement) -> Seq<Transfer> {
    match settlement.side {
        Side::Sell => {
            let paid = seq![
                Transfer {
                    asset: Asset::Token,
                    from: Party::User,
                    to: Party::Pool,
                    amount: settlement.amount,
                },
                Transfer {
                    asset: Asset::Sol,
                    from: Party::Pool,
                    to: Party::User,
                    amount: settlement.net_to_user,
                },
            ];
            if settlement.tax > 0 {
                paid.push(
                    Transfer {
                        asset: Asset::Sol,
                        from: Party::Pool,
                        to: Party::Treasury,
                        amount: settlement.tax,
                    },
                )
            } else {
                paid
            }
        },
        Side::Buy => seq![
            Transfer {
                asset: Asset::Token,
                from: Party::Pool,
                to: Party::User,
                amount: settlement.amount_out,
            },
            Transfer {
                asset: Asset::Sol,
                from: Party::User,
                to: Party::Pool,
                amount: settlement.amount,
            },
        ],
    }
}

/// The tokens that a swap moves: those sold, or those bought.
pub open spec fn tokens_traded(settlement: Settlement) -> u64 {
    match settlement.side {
        Side::Sell => settlement.amount,
        Side::Buy => settlement.amount_out,
    }
}

/// The settlement units that a swap moves between user and pool: what a sale
/// pays the user after tax, or what a purchase costs.
pub open spec fn sol_traded(settlement: Settlement) -> u64 {
    match settlement.side {
        Side::Sell => settlement.net_to_user,
        Side::Buy => settlement.amount,
    }
}

impl SwapOutcome {
    /// The transfers and notices are those of `settlement`, made out to
    /// `context`.
    pub open spec fn reports(&self, context: TradeContext) -> bool {
        let s = self.settlement;
        &&& self.transfers@ == transfers_of(s)
        &&& self.trade.user == context.user
        &&& self.trade.pool == context.pool
        &&& self.trade.side@ == s.side.label()
        &&& self.trade.token_amount == tokens_traded(s)
        &&& self.trade.sol_amount == sol_traded(s)
        &&& self.trade.timestamp == context.timestamp
        &&& self.tax_applied is Some <==> s.realized_loss
        &&& self.tax_applied matches Some(notice) ==> notice == (PaperhandTaxApplied {
            user: context.user,
            pool: context.pool,
            sol_out_before_tax: s.amount_out,
            cost_basis_for_sale: s.cost_basis,
            tax: s.tax,
            sol_to_user: s.net_to_user,
        })
        &&& self.position_updated == (PositionUpdated {
            user: context.user,
            pool: context.pool,
            total_tokens: s.position.total_tokens,
            total_sol: s.position.total_sol,
        })
    }
}

/// A swap that is not refused never lowers the product of the reserves, and
/// leaves something in both reserves where both held something. The product
/// rises by no more than what rounding down the output keeps back, less than
/// the receiving reserve and the priced input together, and what the fee
/// keeps back, the fee taken off the input times the paying reserve after the
/// swap.
pub proof fn lemma_swap_keeps_product(
    config: CurveConfiguration,
    pool: LiquidityPool,
    position: UserPosition,
    amount: u64,
    side: Side,
)
    requires
        config.wf(),
        swap_failure(config, pool, position, amount, side) is None,
    ensures
        ({
            let s = settlement_of(config, pool, position, amount, side);
            &&& s.adjusted_amount <= amount
            &&& s.amount_out <= pool.reserve_out(side)
            &&& s.pool.reserve_in(side) == pool.reserve_in(side) + amount
            &&& s.pool.reserve_out(side) == pool.reserve_out(side) - s.amount_out
            &&& s.pool.total_supply == pool.total_supply
            &&& pool.product() <= s.pool.product()
            &&& s.pool.product() <= pool.product() + (pool.reserve_in(side) + s.adjusted_amount)
                + (amount - s.adjusted_amount) * s.pool.reserve_out(side)
            &&& pool.wf() ==> s.pool.wf()
        }),
{
    let fee = config.fee_percent() as nat;
    let adjusted = adjusted_input(config, amount);
    let reserve_in = pool.reserve_in(side) as nat;
    let reserve_out = pool.reserve_out(side) as nat;
    lemma_share_bounded(amount as nat, (FEE_DENOMINATOR - fee) as nat, FEE_DENOMINATOR as nat);
    lemma_curve_output_bounded(reserve_in, reserve_out, adjusted);
    lemma_product_across_trade(reserve_in, reserve_out, amount as nat, adjusted);
    let s = settlement_of(config, pool, position, amount, side);
    let out = s.amount_out as nat;
    assert(s.pool.reserve_in(side) == reserve_in + amount);
    assert(s.pool.reserve_out(side) == reserve_out - out);
    assert(reserve_in * reserve_out == reserve_out * reserve_in) by (nonlinear_arith);
    assert((reserve_in + amount) * (reserve_out - out) == (reserve_out - out) * (reserve_in
        + amount)) by (nonlinear_arith);
}

/// The tax of a swap. A purchase is never taxed. A sale is taxed at the rate
/// of the configuration on the whole of its proceeds exactly when they fall
/// short of the cost basis of the tokens sold, and not at all otherwise; the
/// tax is never more than the proceeds, and the user receives the rest.
pub proof fn lemma_tax_only_on_loss(
    config: CurveConfiguration,
    pool: LiquidityPool,
    position: UserPosition,
    amount: u64,
    side: Side,
)
    requires
        config.wf(),
        swap_failure(config, pool, position, amount, side) is None,
    ensures
        ({
            let s = settlement_of(config, pool, position, amount, side);
            &&& s.realized_loss <==> side == Side::Sell && s.amount_out < s.cost_basis
            &&& s.realized_loss ==> s.tax == share_of(
                s.amount_out as nat,
                config.tax_bps() as nat,
                BPS_DENOMINATOR as nat,
            )
            &&& !s.realized_loss ==> s.tax == 0
            &&& s.tax > 0 <==> s.realized_loss && s.amount_out * config.tax_bps()
                >= BPS_DENOMINATOR
            &&& s.tax <= s.amount_out
            &&& s.net_to_user + s.tax == s.amount_out
            &&& side == Side::Sell ==> s.cost_basis == position.cost_basis(amount as nat)
        }),
{
    let s = settlement_of(config, pool, position, amount, side);
    let adjusted = adjusted_input(config, amount);
    lemma_curve_output_bounded(
        pool.reserve_in(side) as nat,
        pool.reserve_out(side) as nat,
        adjusted,
    );
    lemma_share_bounded(
        s.amount_out as nat,
        config.tax_bps() as nat,
        BPS_DENOMINATOR as nat,
    );
    lemma_share_rounds_down(
        s.amount_out as nat,
        config.tax_bps() as nat,
        BPS_DENOMINATOR as nat,
    );
    if side == Side::Sell {
        lemma_share_bounded(
            position.total_sol as nat,
            amount as nat,
            position.total_tokens as nat,
        );
    }
}

/// The position across a swap that is not refused. A sale takes the tokens
/// sold and their cost basis off the totals, which leaves the average entry
/// price as it was, but for rounding, and an emptied position without cost. A
/// purchase adds the tokens bought and the whole price paid, fee included; a
/// purchase that pays no token into an empty position leaves a cost without
/// tokens, and no other does.
pub proof fn lemma_swap_updates_position(
    config: CurveConfiguration,
    pool: LiquidityPool,
    position: UserPosition,
    amount: u64,
    side: Side,
)
    requires
        config.wf(),
        swap_failure(config, pool, position, amount, side) is None,
    ensures
        ({
            let s = settlement_of(config, pool, position, amount, side);
            &&& side == Side::Sell ==> {
                &&& s.cost_basis <= position.total_sol
                &&& s.position.total_tokens == position.total_tokens - amount
                &&& s.position.total_sol == position.total_sol - s.cost_basis
                &&& position.total_sol * s.position.total_tokens <= s.position.total_sol
                    * position.total_tokens
                &&& s.position.total_sol * position.total_tokens < position.total_sol
                    * s.position.total_tokens + position.total_tokens
                &&& s.position.wf()
            }
            &&& side == Side::Buy ==> {
                &&& s.position.total_tokens == position.total_tokens + s.amount_out
                &&& s.position.total_sol == position.total_sol + amount
                &&& s.position.wf() <==> s.position.total_tokens > 0
            }
        }),
{
    let adjusted = adjusted_input(config, amount);
    lemma_curve_output_bounded(
        pool.reserve_in(side) as nat,
        pool.reserve_out(side) as nat,
        adjusted,
    );
    if side == Side::Sell {
        position.lemma_sale_keeps_average_price(amount);
    }
}

/// Prices a swap of `amount` without changing anything. `style` 1 sells
/// `amount` tokens, every other `style` buys for `amount` settlement units.
///
/// The fee is taken off the amount before it is priced, the curve gives the
/// counter-amount, and a sale that pays less than the cost basis of the
/// tokens sold is taxed on the whole of its proceeds. The receiving reserve is
/// credited with the whole of `amount`.
pub fn quote_swap(
    config: &CurveConfiguration,
    pool: &LiquidityPool,
    position: &UserPosition,
    amount: u64,
    style: u64,
) -> (result: Result<Settlement, CustomError>)
    ensures
        result == swap_result(*config, *pool, *position, amount, Side::of_style(style)),
        result matches Ok(settlement) ==> pool.product() <= settlement.pool.product() && (
        pool.wf() ==> settlement.pool.wf()),
{
    if amount == 0 {
        return Err(CustomError::InvalidAmount);
    }
    let side: Side = Side::from_style(style);
    let adjusted: u64 = fee_adjusted_amount(amount, config.fee_percent());
    proof {
        if swap_failure(*config, *pool, *position, amount, side) is None {
            lemma_swap_keeps_product(*config, *pool, *position, amount, side);
        }
    }
    let out: u64 = match pool.quote(side, adjusted) {
        Ok(out) => out,
        Err(e) => {
            return Err(e);
        },
    };
    let mut new_pool: LiquidityPool = *pool;
    let mut new_position: UserPosition = *position;
    match side {
        Side::Sell => {
            if position.total_tokens < amount {
                return Err(CustomError::InsufficientPosition);
            }
            let basis: u64 = match position.calculate_cost_basis_for_sale(amount) {
                Ok(basis) => basis,
                Err(e) => {
                    return Err(e);
                },
            };
            let tax: u64 = if out < basis {
                proportional_share(out, config.tax_bps() as u64, BPS_DENOMINATOR)
            } else {
                0
            };
            match new_pool.apply_trade(side, amount, out) {
                Ok(()) => {},
                Err(e) => {
                    return Err(e);
                },
            }
            match new_position.record_sell(amount, basis) {
                Ok(()) => {},
                Err(e) => {
                    return Err(e);
                },
            }
            Ok(
                Settlement {
                    side,
                    amount,
                    adjusted_amount: adjusted,
                    amount_out: out,
                    cost_basis: basis,
                    realized_loss: out < basis,
                    tax,
                    net_to_user: out - tax,
                    pool: new_pool,
                    position: new_position,
                },
            )
        },
        Side::Buy => {
            match new_pool.apply_trade(side, amount, out) {
                Ok(()) => {},
                Err(e) => {
                    return Err(e);
                },
            }
            match new_position.record_buy(out, amount) {
                Ok(()) => {},
                Err(e) => {
                    return Err(e);
                },
            }
            Ok(
                Settlement {
                    side,
                    amount,
                    adjusted_amount: adjusted,
                    amount_out: out,
                    cost_basis: 0,
                    realized_loss: false,
                    tax: 0,
                    net_to_user: out,
                    pool: new_pool,
                    position: new_position,
                },
            )
        },
    }
}

/// Lists the transfers that settle a swap, in the order in which they are
/// to be made.
pub fn settlement_transfers(settlement: &Settlement) -> (transfers: Vec<Transfer>)
    ensures
        transfers@ == transfers_of(*settlement),
{
    let mut transfers: Vec<Transfer> = Vec::new();
    match settlement.side {
        Side::Sell => {
            transfers.push(
                Transfer {
                    asset: Asset::Token,
                    from: Party::User,
                    to: Party::Pool,
                    amount: settlement.amount,
                },
            );
            transfers.push(
                Transfer {
                    asset: Asset::Sol,
                    from: Party::Pool,
                    to: Party::User,
                    amount: settlement.net_to_user,
                },
            );
            if settlement.tax > 0 {
                transfers.push(
                    Transfer {
                        asset: Asset::Sol,
                        from: Party::Pool,
                        to: Party::Treasury,
                        amount: settlement.tax,
                    },
                );
            }
        },
        Side::Buy => {
            transfers.push(
                Transfer {
                    asset: Asset::Token,
                    from: Party::Pool,
                    to: Party::User,
                    amount: settlement.amount_out,
                },
            );
            transfers.push(
                Transfer {
                    asset: Asset::Sol,
                    from: Party::User,
                    to: Party::Pool,
                    amount: settlement.amount,
                },
            );
        },
    }
    assert(transfers@ =~= transfers_of(*settlement));
    transfers
}

/// Swaps `amount` against the pool for the user of `context`. `style` 1
/// sells `amount` tokens, every other `style` buys for `amount` settlement
/// units.
///
/// A swap that is refused changes neither the pool nor the position. One
/// that is not leaves both as its settlement says, and reports the transfers
/// to make and the notices to send.
pub fn swap(
    config: &CurveConfiguration,
    pool: &mut LiquidityPool,
    position: &mut UserPosition,
    context: &TradeContext,
    amount: u64,
    style: u64,
) -> (result: Result<SwapOutcome, CustomError>)
    ensures
        match swap_result(*config, *old(pool), *old(position), amount, Side::of_style(style)) {
            Err(e) => result matches Err(refusal) && refusal == e && *final(pool) == *old(pool)
                && *final(position) == *old(position),
            Ok(settlement) => result matches Ok(outcome) && outcome.settlement == settlement
                && outcome.reports(*context) && *final(pool) == settlement.pool
                && *final(position) == settlement.position,
        },
        result is Ok ==> old(pool).product() <= final(pool).product() && (old(pool).wf()
            ==> final(pool).wf()),
{
    let settlement: Settlement = match quote_swap(config, pool, position, amount, style) {
        Ok(settlement) => settlement,
        Err(e) => {
            return Err(e);
        },
    };
    let transfers: Vec<Transfer> = settlement_transfers(&settlement);
    let (token_amount, sol_amount): (u64, u64) = match settlement.side {
        Side::Sell => (settlement.amount, settlement.net_to_user),
        Side::Buy => (settlement.amount_out, settlement.amount),
    };
    let trade = TradeExecuted {
        user: context.user,
        pool: context.pool,
        side: settlement.side.name(),
        token_amount,
        sol_amount,
        timestamp: context.timestamp,
    };
    let tax_applied: Option<PaperhandTaxApplied> = if settlement.realized_loss {
        Some(
            PaperhandTaxApplied {
                user: context.user,
                pool: context.pool,
                sol_out_before_tax: settlement.amount_out,
                cost_basis_for_sale: settlement.cost_basis,
                tax: settlement.tax,
                sol_to_user: settlement.net_to_user,
            },
        )
    } else {
        None
    };
    let position_updated = PositionUpdated {
        user: context.user,
        pool: context.pool,
        total_tokens: settlement.position.total_tokens,
        total_sol: settlement.position.total_sol,
    };
    *pool = settlement.pool;
    *position = settlement.position;
    Ok(SwapOutcome { settlement, transfers, trade, tax_applied, position_updated })
}

} // verus!
