//! Selling quote tokens back for base tokens along the curve: the symmetric
//! inverse of a buy. As with the buy, the handler decides amounts, mutates
//! the curve and logs the swap; moving the tokens is its caller's task.

use vstd::prelude::*;

use crate::errors::CustomError;
use crate::events::{EventLog, EventRecord, Operation, TransactionEvent};
use crate::math::{checked_div_u128, checked_sub_u64, narrow_to_u64, widening_mul_u64};
use crate::state::{AccountId, BondingCurve, InitializeConfiguration};
use crate::swap::{sell_step, SwapReceipt, SwapStep};

verus! {

/// The identities a sell touches.
#[derive(Clone, Copy, Debug, PartialEq, Eq, Structural)]
pub struct Sell {
    pub payer: AccountId,
    pub mint_address: AccountId,
    pub base_token_mint: AccountId,
    pub fee_account: AccountId,
    pub user_quote_token_ata: AccountId,
    pub pool: AccountId,
    pub quote_token_pool: AccountId,
}

/// The swap record a sell emits.
pub open spec fn sell_event(
    accounts: Sell,
    input_amount: u64,
    output_amount: u64,
    platform_fee: u64,
) -> TransactionEvent {
    TransactionEvent {
        operation: Operation::Sell,
        creator: accounts.payer,
        input_amount,
        output_amount,
        platform_fee,
        base_token_mint: accounts.base_token_mint,
        mint_address: accounts.mint_address,
        fee_wallet: accounts.fee_account,
    }
}

/// Executes a sell of `quote_input_amount` against the curve, realizing
/// exactly `sell_step` on the curve's model: on rejection the curve and the
/// log are untouched and the step's error is returned; on execution the
/// curve moves to the step's next state and the swap is logged. A sell
/// never completes the curve.
pub fn handler(
    config: &InitializeConfiguration,
    curve: &mut BondingCurve,
    log: &mut EventLog,
    accounts: &Sell,
    quote_input_amount: u64,
    expected_amount: u64,
) -> (r: Result<SwapReceipt, CustomError>)
    ensures
        final(curve).init_virtual_base_token == old(curve).init_virtual_base_token,
        final(curve).init_virtual_quote_token == old(curve).init_virtual_quote_token,
        final(curve).k_value == old(curve).k_value,
        final(curve).is_completed == old(curve).is_completed,
        r is Err ==> *final(curve) == *old(curve) && final(log).records() == old(log).records(),
        (match sell_step(
            old(curve)@,
            config.swap_fee as int,
            quote_input_amount as int,
            expected_amount as int,
        ) {
            SwapStep::Rejected { err } => r == Err::<SwapReceipt, CustomError>(err),
            SwapStep::Executed { fee, output, next } => {
                &&& final(curve)@ == next
                &&& r == Ok::<SwapReceipt, CustomError>(
                    SwapReceipt {
                        output_amount: output as u64,
                        platform_fee: fee as u64,
                        completed: false,
                    },
                )
                &&& final(log).records() == old(log).records().push(
                    EventRecord::Swap(
                        sell_event(*accounts, quote_input_amount, output as u64, fee as u64),
                    ),
                )
            },
        }),
{
    if curve.is_completed {
        return Err(CustomError::BondingCurveIsCompleted);
    }
    let fee_wide: u128 = widening_mul_u64(quote_input_amount, config.swap_fee) / 10000;
    let platform_fee: u64 = match narrow_to_u64(fee_wide) {
        Ok(v) => v,
        Err(e) => {
            return Err(e);
        },
    };
    let net_input: u64 = match checked_sub_u64(quote_input_amount, platform_fee) {
        Ok(v) => v,
        Err(e) => {
            return Err(e);
        },
    };
    let denominator: u128 = curve.quote_token_reserves as u128 + net_input as u128;
    let target: u128 = match checked_div_u128(curve.k_value, denominator) {
        Ok(v) => v,
        Err(e) => {
            return Err(e);
        },
    };
    let whole_base: u128 = curve.init_virtual_base_token as u128
        + curve.base_token_reserves as u128;
    if target > whole_base {
        return Err(CustomError::OverflowEstimateOutBase);
    }
    let estimated_out_base: u128 = whole_base - target;
    if estimated_out_base < expected_amount as u128 {
        return Err(CustomError::SlippageExceeded);
    }
    if estimated_out_base > curve.base_token_reserves as u128 {
        return Err(CustomError::MathUnderflow);
    }
    let output_amount: u64 = estimated_out_base as u64;
    let new_quote_reserves: u64 = match narrow_to_u64(denominator) {
        Ok(v) => v,
        Err(e) => {
            return Err(e);
        },
    };

    curve.base_token_reserves = curve.base_token_reserves - output_amount;
    curve.quote_token_reserves = new_quote_reserves;
    log.emit(
        EventRecord::Swap(
            TransactionEvent {
                operation: Operation::Sell,
                creator: accounts.payer,
                input_amount: quote_input_amount,
                output_amount,
                platform_fee,
                base_token_mint: accounts.base_token_mint,
                mint_address: accounts.mint_address,
                fee_wallet: accounts.fee_account,
            },
        ),
    );
    Ok(SwapReceipt { output_amount, platform_fee, completed: false })
}

} // verus!
