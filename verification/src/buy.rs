//! Buying quote tokens with base tokens along the curve. The handler here is
//! the computing half of the operation: it decides amounts, mutates the
//! curve and logs events, while the actual token transfers are its caller's
//! to perform with the amounts it returns.

use vstd::prelude::*;

use crate::errors::CustomError;
use crate::events::{BondingCurveCompleted, EventLog, EventRecord, Operation, TransactionEvent};
use crate::math::{checked_add_u64, checked_div_u128, checked_sub_u64, narrow_to_u64, widening_mul_u64};
use crate::state::{AccountId, BondingCurve, InitializeConfiguration};
use crate::swap::{buy_step, SwapReceipt, SwapStep};

verus! {

/// The identities a buy touches: the trader, the two mints, the fee wallet
/// and the pool-side accounts named in the emitted events.
#[derive(Clone, Copy, Debug, PartialEq, Eq, Structural)]
pub struct Buy {
    pub payer: AccountId,
    pub mint_address: AccountId,
    pub base_token_mint: AccountId,
    pub fee_account: AccountId,
    pub user_quote_token_ata: AccountId,
    pub pool: AccountId,
    pub quote_token_pool: AccountId,
}

/// Executes a buy of `base_input_amount` against the curve, realizing
/// exactly `buy_step` on the curve's model: on rejection the curve and the
/// log are untouched and the step's error is returned; on execution the
/// curve moves to the step's next state, the swap is logged (followed by a
/// completion record if this buy completed the curve) and the receipt
/// reports the output, the fee and whether the curve completed.
pub fn handler(
    config: &InitializeConfiguration,
    curve: &mut BondingCurve,
    log: &mut EventLog,
    accounts: &Buy,
    base_input_amount: u64,
    expected_amount: u64,
) -> (r: Result<SwapReceipt, CustomError>)
    ensures
        final(curve).init_virtual_base_token == old(curve).init_virtual_base_token,
        final(curve).init_virtual_quote_token == old(curve).init_virtual_quote_token,
        final(curve).k_value == old(curve).k_value,
        old(curve).is_completed ==> final(curve).is_completed,
        r is Err ==> *final(curve) == *old(curve) && final(log).records() == old(log).records(),
        (match buy_step(
            old(curve)@,
            config.swap_fee as int,
            config.bonding_curve_limitation as int,
            base_input_amount as int,
            expected_amount as int,
        ) {
            SwapStep::Rejected { err } => r == Err::<SwapReceipt, CustomError>(err),
            SwapStep::Executed { fee, output, next } => {
                &&& final(curve)@ == next
                &&& r == Ok::<SwapReceipt, CustomError>(
                    SwapReceipt {
                        output_amount: output as u64,
                        platform_fee: fee as u64,
                        completed: next.is_completed,
                    },
                )
                &&& final(log).records() == if next.is_completed {
                    old(log).records().push(
                        EventRecord::Swap(buy_event(*accounts, base_input_amount, output as u64, fee as u64)),
                    ).push(EventRecord::Completed(completion_event(*accounts)))
                } else {
                    old(log).records().push(
                        EventRecord::Swap(buy_event(*accounts, base_input_amount, output as u64, fee as u64)),
                    )
                }
            },
        }),
{
    if curve.is_completed {
        return Err(CustomError::BondingCurveIsCompleted);
    }
    let fee_wide: u128 = widening_mul_u64(base_input_amount, config.swap_fee) / 10000;
    let platform_fee: u64 = match narrow_to_u64(fee_wide) {
        Ok(v) => v,
        Err(e) => {
            return Err(e);
        },
    };
    let net_input: u64 = match checked_sub_u64(base_input_amount, platform_fee) {
        Ok(v) => v,
        Err(e) => {
            return Err(e);
        },
    };
    let denominator: u128 = curve.init_virtual_base_token as u128
        + curve.base_token_reserves as u128 + net_input as u128;
    let target: u128 = match checked_div_u128(curve.k_value, denominator) {
        Ok(v) => v,
        Err(e) => {
            return Err(e);
        },
    };
    if target > curve.quote_token_reserves as u128 {
        return Err(CustomError::OverflowEstimateOutQuote);
    }
    let estimated_out_quote: u64 = (curve.quote_token_reserves as u128 - target) as u64;
    if estimated_out_quote < expected_amount {
        return Err(CustomError::SlippageExceeded);
    }
    let new_base_reserves: u64 = match checked_add_u64(curve.base_token_reserves, net_input) {
        Ok(v) => v,
        Err(e) => {
            return Err(e);
        },
    };
    let completed_now: bool = new_base_reserves as u128 + curve.init_virtual_base_token as u128
        >= config.bonding_curve_limitation as u128;

    curve.base_token_reserves = new_base_reserves;
    curve.quote_token_reserves = curve.quote_token_reserves - estimated_out_quote;
    log.emit(
        EventRecord::Swap(
            TransactionEvent {
                operation: Operation::Buy,
                creator: accounts.payer,
                input_amount: base_input_amount,
                output_amount: estimated_out_quote,
                platform_fee,
                base_token_mint: accounts.base_token_mint,
                mint_address: accounts.mint_address,
                fee_wallet: accounts.fee_account,
            },
        ),
    );
    if completed_now {
        log.emit(
            EventRecord::Completed(
                BondingCurveCompleted {
                    mint_address: accounts.mint_address,
                    user_quote_token_ata: accounts.user_quote_token_ata,
                    pool: accounts.pool,
                    quote_token_pool: accounts.quote_token_pool,
                },
            ),
        );
        curve.is_completed = true;
    }
    Ok(
        SwapReceipt {
            output_amount: estimated_out_quote,
            platform_fee,
            completed: completed_now,
        },
    )
}

/// The swap record a buy emits.
pub open spec fn buy_event(
    accounts: Buy,
    input_amount: u64,
    output_amount: u64,
    platform_fee: u64,
) -> TransactionEvent {
    TransactionEvent {
        operation: Operation::Buy,
        creator: accounts.payer,
        input_amount,
        output_amount,
        platform_fee,
        base_token_mint: accounts.base_token_mint,
        mint_address: accounts.mint_address,
        fee_wallet: accounts.fee_account,
    }
}

/// The record emitted when a buy completes the curve.
pub open spec fn completion_event(accounts: Buy) -> BondingCurveCompleted {
    BondingCurveCompleted {
        mint_address: accounts.mint_address,
        user_quote_token_ata: accounts.user_quote_token_ata,
        pool: accounts.pool,
        quote_token_pool: accounts.quote_token_pool,
    }
}

} // verus!
