//! Exact integer arithmetic for shares and ratios.

use vstd::prelude::*;
use crate::consts::FEE_DENOMINATOR;

verus! {

/// The share `part / whole` of `amount`, rounded down.
pub open spec fn share_of(amount: nat, part: nat, whole: nat) -> nat {
    (amount * part) / whole
}

/// What is left of `amount` once a fee of `fee` units is taken off, rounded
/// down: `amount * (100% - fee) / 100%`.
pub open spec fn fee_adjusted(amount: nat, fee: nat) -> nat {
    share_of(amount, (FEE_DENOMINATOR - fee) as nat, FEE_DENOMINATOR as nat)
}

/// What a constant-product pool pays out when `amount_in` enters the reserve
/// `reserve_in` and the reserve `reserve_out` pays:
/// `reserve_out * amount_in / (reserve_in + amount_in)`, rounded down. Nothing
/// is paid for nothing.
pub open spec fn curve_output(reserve_in: nat, reserve_out: nat, amount_in: nat) -> nat {
    if amount_in == 0 {
        0
    } else {
        share_of(reserve_out, amount_in, reserve_in + amount_in)
    }
}

/// A share of an amount is never more than the amount.
pub proof fn lemma_share_bounded(amount: nat, part: nat, whole: nat)
    requires
        0 < whole,
        part <= whole,
    ensures
        share_of(amount, part, whole) <= amount,
{
    assert(amount * part <= amount * whole) by (nonlinear_arith)
        requires
            part <= whole,
    ;
    assert((amount * part) / whole <= amount) by (nonlinear_arith)
        requires
            0 < whole,
            amount * part <= amount * whole,
    ;
}

/// A share is the exact ratio rounded down: it falls short of it by less than
/// one.
pub proof fn lemma_share_rounds_down(amount: nat, part: nat, whole: nat)
    requires
        0 < whole,
    ensures
        share_of(amount, part, whole) * whole <= amount * part,
        amount * part < share_of(amount, part, whole) * whole + whole,
{
    let product = (amount * part) as int;
    let divisor = whole as int;
    assert(0 <= product - (product / divisor) * divisor < divisor) by (nonlinear_arith)
        requires
            0 < divisor,
            0 <= product,
    ;
}

/// The curve never pays out more than the paying reserve holds, and leaves
/// something in it where both reserves held something.
pub proof fn lemma_curve_output_bounded(reserve_in: nat, reserve_out: nat, amount_in: nat)
    ensures
        curve_output(reserve_in, reserve_out, amount_in) <= reserve_out,
        0 < reserve_in && 0 < reserve_out ==> curve_output(reserve_in, reserve_out, amount_in)
            < reserve_out,
{
    if amount_in > 0 {
        let whole = reserve_in + amount_in;
        let out = share_of(reserve_out, amount_in, whole);
        lemma_share_rounds_down(reserve_out, amount_in, whole);
        assert(out <= reserve_out) by (nonlinear_arith)
            requires
                out * whole <= reserve_out * amount_in,
                0 < amount_in <= whole,
        ;
        if 0 < reserve_in && 0 < reserve_out {
            assert(out < reserve_out) by (nonlinear_arith)
                requires
                    out * whole <= reserve_out * amount_in,
                    0 < amount_in < whole,
                    0 < reserve_out,
            ;
        }
    }
}

/// The product of the reserves across a trade. `amount` enters the receiving
/// reserve, `adjusted`, which is `amount` less the fee, is priced, and the
/// curve's output leaves the paying reserve. The product never falls; it
/// rises by no more than what rounding down the output keeps back, which is
/// less than `reserve_in + adjusted`, and what the fee keeps back,
/// `(amount - adjusted)` times the paying reserve after the trade.
pub proof fn lemma_product_across_trade(
    reserve_in: nat,
    reserve_out: nat,
    amount: nat,
    adjusted: nat,
)
    requires
        adjusted <= amount,
    ensures
        ({
            let out = curve_output(reserve_in, reserve_out, adjusted);
            &&& out <= reserve_out
            &&& reserve_in * reserve_out <= (reserve_in + amount) * (reserve_out - out)
            &&& (reserve_in + amount) * (reserve_out - out) <= reserve_in * reserve_out
                + (reserve_in + adjusted) + (amount - adjusted) * (reserve_out - out)
        }),
{
    let out = curve_output(reserve_in, reserve_out, adjusted);
    lemma_curve_output_bounded(reserve_in, reserve_out, adjusted);
    let rest = (reserve_out - out) as nat;
    let whole = reserve_in + adjusted;
    if adjusted > 0 {
        lemma_share_rounds_down(reserve_out, adjusted, whole);
        assert(reserve_in * reserve_out <= whole * rest && whole * rest <= reserve_in
            * reserve_out + whole) by (nonlinear_arith)
            requires
                out * whole <= reserve_out * adjusted,
                reserve_out * adjusted < out * whole + whole,
                whole == reserve_in + adjusted,
                rest == reserve_out - out,
        ;
    } else {
        assert(whole * rest == reserve_in * reserve_out);
    }
    assert((reserve_in + amount) * rest == whole * rest + (amount - adjusted) * rest)
        by (nonlinear_arith)
        requires
            whole == reserve_in + adjusted,
    ;
    assert(0 <= (amount - adjusted) * rest) by (nonlinear_arith)
        requires
            adjusted <= amount,
            0 <= rest,
    ;
}

/// Computes the share `part / whole` of `amount`, rounded down, through a
/// 128-bit product.
pub fn proportional_share(amount: u64, part: u64, whole: u64) -> (share: u64)
    requires
        0 < whole,
        part <= whole,
    ensures
        share == share_of(amount as nat, part as nat, whole as nat),
        share <= amount,
{
    proof {
        lemma_share_bounded(amount as nat, part as nat, whole as nat);
        assert(amount * part <= u64::MAX * u64::MAX) by (nonlinear_arith)
            requires
                amount <= u64::MAX,
                part <= u64::MAX,
        ;
    }
    let product: u128 = (amount as u128) * (part as u128);
    let quotient: u128 = product / (whole as u128);
    quotient as u64
}

/// Takes the fee off an amount: `amount * (100% - fee) / 100%`, rounded down.
pub fn fee_adjusted_amount(amount: u64, fee: u64) -> (adjusted: u64)
    requires
        fee <= FEE_DENOMINATOR,
    ensures
        adjusted == fee_adjusted(amount as nat, fee as nat),
        adjusted <= amount,
{
    proportional_share(amount, FEE_DENOMINATOR - fee, FEE_DENOMINATOR)
}

/// Prices `amount_in` against a constant-product pool: the output is
/// `reserve_out * amount_in / (reserve_in + amount_in)`, rounded down, and
/// zero for an input of zero. `None` when `reserve_in + amount_in` leaves the
/// range of 64 bits.
pub fn constant_product_output(reserve_in: u64, reserve_out: u64, amount_in: u64) -> (output:
    Option<u64>)
    ensures
        output is None <==> reserve_in + amount_in > u64::MAX,
        output matches Some(out) ==> out == curve_output(
            reserve_in as nat,
            reserve_out as nat,
            amount_in as nat,
        ) && out <= reserve_out,
{
    match reserve_in.checked_add(amount_in) {
        None => None,
        Some(denominator) => {
            if amount_in == 0 {
                Some(0)
            } else {
                Some(proportional_share(reserve_out, amount_in, denominator))
            }
        },
    }
}

} // verus!
