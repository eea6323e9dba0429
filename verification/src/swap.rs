//! The swap engine: what a buy or a sell does to a bonding curve, stated as
//! pure functions over the curve's mathematical model, together with the laws
//! those functions obey. The executable handlers promise to realize exactly
//! these steps.
//!
//! All division here truncates toward zero, so every swap leaves a small
//! residual in the pool's favor; that rounding is deliberate and load-bearing.

use vstd::prelude::*;

use crate::errors::CustomError;
use crate::state::{curve_consistent, effective_base, model_in_range, CurveModel};

verus! {

use vstd::arithmetic::div_mod::{
    lemma_div_by_multiple,
    lemma_div_is_ordered,
    lemma_div_is_ordered_by_denominator,
    lemma_div_pos_is_pos,
    lemma_fundamental_div_mod,
    lemma_mod_bound,
};
use vstd::arithmetic::mul::lemma_mul_nonnegative;

/// The fee taken from a swap input: `bps` basis points of it, floored.
pub open spec fn fee_of(amount: int, bps: int) -> int {
    amount * bps / 10000
}

/// What one swap request does: either it is rejected with a named error and
/// the curve is untouched, or it executes with the given fee and output and
/// leaves the curve in state `next`.
pub enum SwapStep {
    Rejected { err: CustomError },
    Executed { fee: int, output: int, next: CurveModel },
}

/// A buy of `input` base tokens against curve `c` under fee rate `bps` and
/// completion limitation `limitation`, with slippage floor `expected`.
///
/// The fee comes off the input; the net input joins the base side; the new
/// quote side is solved from the constant product by truncating division;
/// the difference is paid out. The curve completes when the whole base side
/// reaches the limitation.
pub open spec fn buy_step(
    c: CurveModel,
    bps: int,
    limitation: int,
    input: int,
    expected: int,
) -> SwapStep {
    if c.is_completed {
        SwapStep::Rejected { err: CustomError::BondingCurveIsCompleted }
    } else {
        let fee = fee_of(input, bps);
        if fee > u64::MAX {
            SwapStep::Rejected { err: CustomError::MathOverflow }
        } else if fee > input {
            SwapStep::Rejected { err: CustomError::MathUnderflow }
        } else {
            let net = input - fee;
            let denominator = effective_base(c) + net;
            if denominator == 0 {
                SwapStep::Rejected { err: CustomError::MathDivisionByZero }
            } else {
                let target = c.k_value / denominator;
                if target > c.quote_token_reserves {
                    SwapStep::Rejected { err: CustomError::OverflowEstimateOutQuote }
                } else {
                    let output = c.quote_token_reserves - target;
                    if output < expected {
                        SwapStep::Rejected { err: CustomError::SlippageExceeded }
                    } else if c.base_token_reserves + net > u64::MAX {
                        SwapStep::Rejected { err: CustomError::MathOverflow }
                    } else {
                        SwapStep::Executed {
                            fee,
                            output,
                            next: CurveModel {
                                base_token_reserves: c.base_token_reserves + net,
                                quote_token_reserves: target,
                                is_completed: denominator >= limitation,
                                ..c
                            },
                        }
                    }
                }
            }
        }
    }
}

/// A sell of `input` quote tokens against curve `c` under fee rate `bps`,
/// with slippage floor `expected`: the symmetric inverse of a buy.
///
/// The fee comes off the quote input; the net input joins the quote side
/// (which already counts the virtual seed, so nothing is added twice); the
/// new whole base side is solved from the constant product by truncating
/// division; what the base side loses is paid out, and must be covered by
/// the real base reserves. A sell never completes a curve.
pub open spec fn sell_step(c: CurveModel, bps: int, input: int, expected: int) -> SwapStep {
    if c.is_completed {
        SwapStep::Rejected { err: CustomError::BondingCurveIsCompleted }
    } else {
        let fee = fee_of(input, bps);
        if fee > u64::MAX {
            SwapStep::Rejected { err: CustomError::MathOverflow }
        } else if fee > input {
            SwapStep::Rejected { err: CustomError::MathUnderflow }
        } else {
            let net = input - fee;
            let denominator = c.quote_token_reserves + net;
            if denominator == 0 {
                SwapStep::Rejected { err: CustomError::MathDivisionByZero }
            } else {
                let target = c.k_value / denominator;
                if target > effective_base(c) {
                    SwapStep::Rejected { err: CustomError::OverflowEstimateOutBase }
                } else {
                    let output = effective_base(c) - target;
                    if output < expected {
                        SwapStep::Rejected { err: CustomError::SlippageExceeded }
                    } else if output > c.base_token_reserves {
                        SwapStep::Rejected { err: CustomError::MathUnderflow }
                    } else if denominator > u64::MAX {
                        SwapStep::Rejected { err: CustomError::MathOverflow }
                    } else {
                        SwapStep::Executed {
                            fee,
                            output,
                            next: CurveModel {
                                base_token_reserves: c.base_token_reserves - output,
                                quote_token_reserves: denominator,
                                ..c
                            },
                        }
                    }
                }
            }
        }
    }
}

/// What an executed swap hands back to the caller.
#[derive(Clone, Copy, Debug, PartialEq, Eq, Structural)]
pub struct SwapReceipt {
    /// Tokens paid out to the trader.
    pub output_amount: u64,
    /// The fee withheld from the trader's input.
    pub platform_fee: u64,
    /// Whether this swap completed the curve.
    pub completed: bool,
}

/// No swap ever touches the constant product or the virtual reserves fixed
/// at creation: whatever a buy or sell does, `k_value` and the two
/// `init_virtual` fields of the resulting curve are those of the old one.
pub proof fn lemma_swap_never_mutates_invariant(
    c: CurveModel,
    bps: int,
    limitation: int,
    input: int,
    expected: int,
)
    ensures
        buy_step(c, bps, limitation, input, expected) matches SwapStep::Executed { next, .. }
            ==> next.k_value == c.k_value && next.init_virtual_base_token
            == c.init_virtual_base_token && next.init_virtual_quote_token
            == c.init_virtual_quote_token,
        sell_step(c, bps, input, expected) matches SwapStep::Executed { next, .. }
            ==> next.k_value == c.k_value && next.init_virtual_base_token
            == c.init_virtual_base_token && next.init_virtual_quote_token
            == c.init_virtual_quote_token,
{
}

/// The completion flag moves one way only. A completed curve rejects every
/// swap outright, so no step ever clears the flag; a buy sets it exactly
/// when the whole base side reaches the limitation, and a sell never sets
/// it.
pub proof fn lemma_completion_one_way(
    c: CurveModel,
    bps: int,
    limitation: int,
    input: int,
    expected: int,
)
    ensures
        c.is_completed ==> buy_step(c, bps, limitation, input, expected) == (SwapStep::Rejected {
            err: CustomError::BondingCurveIsCompleted,
        }),
        c.is_completed ==> sell_step(c, bps, input, expected) == (SwapStep::Rejected {
            err: CustomError::BondingCurveIsCompleted,
        }),
        buy_step(c, bps, limitation, input, expected) matches SwapStep::Executed { next, .. }
            ==> !c.is_completed && (next.is_completed <==> effective_base(next) >= limitation),
        sell_step(c, bps, input, expected) matches SwapStep::Executed { next, .. }
            ==> !c.is_completed && next.is_completed == c.is_completed,
{
}

/// An executed buy keeps the curve consistent and within range: the product
/// of the new effective reserves still does not exceed `k_value`.
pub proof fn lemma_buy_preserves_consistency(
    c: CurveModel,
    bps: int,
    limitation: int,
    input: int,
    expected: int,
    fee: int,
    output: int,
    next: CurveModel,
)
    requires
        model_in_range(c),
        0 <= input,
        0 <= bps,
        0 <= expected,
        buy_step(c, bps, limitation, input, expected) == (SwapStep::Executed {
            fee,
            output,
            next,
        }),
    ensures
        curve_consistent(next),
        model_in_range(next),
{
    let net = input - fee;
    let d = effective_base(c) + net;
    lemma_fundamental_div_mod(c.k_value, d);
    lemma_mod_bound(c.k_value, d);
    lemma_div_pos_is_pos(c.k_value, d);
}

/// An executed sell keeps the curve consistent and within range.
pub proof fn lemma_sell_preserves_consistency(
    c: CurveModel,
    bps: int,
    input: int,
    expected: int,
    fee: int,
    output: int,
    next: CurveModel,
)
    requires
        model_in_range(c),
        0 <= input,
        0 <= bps,
        0 <= expected,
        sell_step(c, bps, input, expected) == (SwapStep::Executed { fee, output, next }),
    ensures
        curve_consistent(next),
        model_in_range(next),
{
    let net = input - fee;
    let d = c.quote_token_reserves + net;
    let target = c.k_value / d;
    lemma_fundamental_div_mod(c.k_value, d);
    lemma_mod_bound(c.k_value, d);
    lemma_div_pos_is_pos(c.k_value, d);
    assert(d * target <= c.k_value);
    assert(effective_base(next) == target);
    assert(next.quote_token_reserves == d);
    assert(effective_base(next) * next.quote_token_reserves == d * target) by (nonlinear_arith)
        requires
            effective_base(next) == target,
            next.quote_token_reserves == d,
    ;
}

/// A buy followed by a sell of everything the buy paid out cannot profit
/// the trader or drain the pool. On a consistent curve, whatever the two
/// fee rates and slippage floors: the base handed back is at most the net
/// base put in, the pool's real base reserves end no lower than they
/// started, and its quote side returns to where it was, less only the sell
/// fee.
pub proof fn lemma_buy_sell_round_trip(
    c: CurveModel,
    bps_buy: int,
    bps_sell: int,
    limitation: int,
    input: int,
    expected_buy: int,
    expected_sell: int,
    fee_buy: int,
    out_buy: int,
    c1: CurveModel,
    fee_sell: int,
    out_sell: int,
    c2: CurveModel,
)
    requires
        model_in_range(c),
        curve_consistent(c),
        0 <= input,
        0 <= bps_buy,
        0 <= bps_sell,
        buy_step(c, bps_buy, limitation, input, expected_buy) == (SwapStep::Executed {
            fee: fee_buy,
            output: out_buy,
            next: c1,
        }),
        sell_step(c1, bps_sell, out_buy, expected_sell) == (SwapStep::Executed {
            fee: fee_sell,
            output: out_sell,
            next: c2,
        }),
    ensures
        out_sell <= input - fee_buy,
        c2.base_token_reserves >= c.base_token_reserves,
        c2.quote_token_reserves == c.quote_token_reserves - fee_sell,
{
    let q = c.quote_token_reserves;
    let net_buy = input - fee_buy;
    let d1 = effective_base(c) + net_buy;
    let target_buy = c.k_value / d1;
    let net_sell = out_buy - fee_sell;
    let d2 = c1.quote_token_reserves + net_sell;
    let target_sell = c.k_value / d2;

    // The sell fee is nonnegative, so the sell denominator sits between 1
    // and the quote side before the buy.
    lemma_mul_nonnegative(out_buy, bps_sell);
    lemma_div_pos_is_pos(out_buy * bps_sell, 10000);
    assert(0 <= fee_sell);
    assert(d2 == q - fee_sell);
    assert(1 <= d2 <= q);

    // Dividing by the smaller denominator gives at least the quotient at
    // the quote side before the buy.
    lemma_div_is_ordered_by_denominator(c.k_value, d2, q);

    // Consistency puts the old effective base at or below k / q.
    lemma_div_by_multiple(effective_base(c), q);
    lemma_div_is_ordered(effective_base(c) * q, c.k_value, q);
    assert(effective_base(c) <= c.k_value / q);

    assert(out_sell == d1 - target_sell);
    assert(target_sell >= effective_base(c));
    assert(out_sell <= net_buy);
}

} // verus!
