//! Creating a market: validates the funding asset, the creator's balances
//! and the initial-distribution percentage, seeds the constant product from
//! the configured virtual reserves, and executes the creator's immediate
//! "dev buy" with the same arithmetic as any other buy. Minting the quote
//! token, registering metadata and funding accounts are the caller's work,
//! done with the amounts decided here.

use vstd::prelude::*;

use crate::errors::CustomError;
use crate::events::{BondingCurveCompleted, EventLog, EventRecord, Operation, TransactionEvent};
use crate::math::{
    checked_add_u64, checked_div_u128, checked_mul_u64, checked_sub_u64, narrow_to_u64,
    widening_mul_u64,
};
use crate::state::{
    curve_consistent, model_in_range, AccountId, BondingCurve, CurveModel,
    InitializeConfiguration,
};
use crate::swap::fee_of;

verus! {

use vstd::arithmetic::div_mod::{lemma_div_pos_is_pos, lemma_fundamental_div_mod, lemma_mod_bound};
use vstd::arithmetic::mul::lemma_mul_upper_bound;

/// The identities market creation touches.
#[derive(Clone, Copy, Debug, PartialEq, Eq, Structural)]
pub struct CreatePool {
    pub payer: AccountId,
    pub mint_address: AccountId,
    pub base_token_mint: AccountId,
    pub fee_account: AccountId,
    pub user_quote_token_ata: AccountId,
    pub pool: AccountId,
    pub quote_token_pool: AccountId,
}

/// What market creation does: either it is rejected with a named error, or
/// it produces the seeded curve together with the dev-buy fee, the dev-buy
/// output and the initial transfer cut of that output.
pub enum CreateStep {
    Rejected { err: CustomError },
    Made { fee: int, quote_amount: int, transfer_amount: int, curve: CurveModel },
}

/// The whole of market creation as a pure function: the validations in
/// their checked order, then the invariant seed `k = vb * vq`, then the
/// dev buy solved from it with truncating division, then the completion
/// test on the seeded base side.
pub open spec fn create_step(
    config: InitializeConfiguration,
    accounts: CreatePool,
    user_base_token_balance: int,
    payer_lamports: int,
    lamports_required: int,
    dev_buy_amount: int,
    initial_token_transfer_percent: int,
) -> CreateStep {
    let vb = config.initial_virtual_base_token as int;
    let vq = config.initial_virtual_quote_token as int;
    if accounts.base_token_mint != config.base_token_ca {
        CreateStep::Rejected { err: CustomError::InvalidBaseToken }
    } else if accounts.fee_account != config.fee_wallet {
        CreateStep::Rejected { err: CustomError::InvalidFeeWallet }
    } else if !(user_base_token_balance > dev_buy_amount + config.create_pool_fee_amount) {
        CreateStep::Rejected { err: CustomError::NotEnoughBaseToken }
    } else if initial_token_transfer_percent > 10000 {
        CreateStep::Rejected { err: CustomError::InvalidInitialTokenTransferPercent }
    } else if !(payer_lamports > lamports_required) {
        CreateStep::Rejected { err: CustomError::NotEnoughSolBalance }
    } else {
        let k = vb * vq;
        let fee = fee_of(dev_buy_amount, config.swap_fee as int);
        if fee > u64::MAX {
            CreateStep::Rejected { err: CustomError::MathOverflow }
        } else if fee > dev_buy_amount {
            CreateStep::Rejected { err: CustomError::MathUnderflow }
        } else {
            let net = dev_buy_amount - fee;
            let base_sum = vb + net;
            if base_sum == 0 {
                CreateStep::Rejected { err: CustomError::MathDivisionByZero }
            } else {
                let division = k / base_sum;
                if division > vq {
                    CreateStep::Rejected { err: CustomError::MathUnderflow }
                } else {
                    let quote_amount = vq - division;
                    if quote_amount * initial_token_transfer_percent > u64::MAX {
                        CreateStep::Rejected { err: CustomError::MathOverflow }
                    } else if config.create_pool_fee_amount + fee > u64::MAX {
                        CreateStep::Rejected { err: CustomError::MathOverflow }
                    } else {
                        CreateStep::Made {
                            fee,
                            quote_amount,
                            transfer_amount: quote_amount * initial_token_transfer_percent
                                / 10000,
                            curve: CurveModel {
                                init_virtual_base_token: vb,
                                init_virtual_quote_token: vq,
                                quote_token_reserves: division,
                                base_token_reserves: net,
                                k_value: k,
                                is_completed: base_sum >= config.bonding_curve_limitation,
                            },
                        }
                    }
                }
            }
        }
    }
}

/// The swap record the dev buy emits. Its fee field carries the flat
/// creation fee together with the dev-buy fee.
pub open spec fn dev_buy_event(
    accounts: CreatePool,
    input_amount: u64,
    output_amount: u64,
    platform_fee: u64,
) -> TransactionEvent {
    TransactionEvent {
        operation: Operation::DevBuy,
        creator: accounts.payer,
        input_amount,
        output_amount,
        platform_fee,
        base_token_mint: accounts.base_token_mint,
        mint_address: accounts.mint_address,
        fee_wallet: accounts.fee_account,
    }
}

/// The record emitted when the seeded allocation already completes the
/// curve at creation.
pub open spec fn creation_completion_event(accounts: CreatePool) -> BondingCurveCompleted {
    BondingCurveCompleted {
        mint_address: accounts.mint_address,
        user_quote_token_ata: accounts.user_quote_token_ata,
        pool: accounts.pool,
        quote_token_pool: accounts.quote_token_pool,
    }
}

/// Creation seeds the constant product exactly once — `k_value` is the
/// product of the two configured virtual reserves — and hands over a
/// consistent curve: the product of its effective reserves already sits at
/// or below `k_value`, which every later swap preserves.
pub proof fn lemma_create_seeds_consistent_curve(
    config: InitializeConfiguration,
    accounts: CreatePool,
    user_base_token_balance: int,
    payer_lamports: int,
    lamports_required: int,
    dev_buy_amount: int,
    initial_token_transfer_percent: int,
    fee: int,
    quote_amount: int,
    transfer_amount: int,
    curve: CurveModel,
)
    requires
        0 <= dev_buy_amount <= u64::MAX,
        create_step(
            config,
            accounts,
            user_base_token_balance,
            payer_lamports,
            lamports_required,
            dev_buy_amount,
            initial_token_transfer_percent,
        ) == (CreateStep::Made { fee, quote_amount, transfer_amount, curve }),
    ensures
        curve.k_value == config.initial_virtual_base_token as int
            * config.initial_virtual_quote_token as int,
        curve.init_virtual_base_token == config.initial_virtual_base_token,
        curve.init_virtual_quote_token == config.initial_virtual_quote_token,
        curve_consistent(curve),
        model_in_range(curve),
{
    let vb = config.initial_virtual_base_token as int;
    let vq = config.initial_virtual_quote_token as int;
    let k = vb * vq;
    let net = dev_buy_amount - fee;
    let d = vb + net;
    lemma_mul_upper_bound(vb, u64::MAX as int, vq, u64::MAX as int);
    lemma_fundamental_div_mod(k, d);
    lemma_mod_bound(k, d);
    lemma_div_pos_is_pos(k, d);
}

/// What creation hands back: the seeded market record and the amounts the
/// caller must now move or mint.
#[derive(Clone, Copy, Debug, PartialEq, Eq, Structural)]
pub struct CreatePoolReceipt {
    /// The freshly seeded market.
    pub curve: BondingCurve,
    /// Quote tokens the dev buy pays out to the creator.
    pub quote_amount: u64,
    /// The configured percentage cut of the dev-buy output to transfer on.
    pub initial_token_transfer_amount: u64,
    /// Quote tokens to mint into the pool: the whole virtual quote supply.
    pub token_supply: u64,
    /// Whether the seeded allocation already completed the curve.
    pub completed: bool,
}

/// Creates a market, realizing exactly `create_step`: on rejection the log
/// is untouched and the step's error returned; otherwise the receipt holds
/// the seeded curve and amounts, the dev buy is logged, and a completion
/// record follows it if the seed already crossed the limitation.
///
/// `user_base_token_balance` is the creator's base-token balance,
/// `payer_lamports` their native balance, and `lamports_required` the rent
/// the hosting environment demands for the new accounts.
pub fn handler(
    config: &InitializeConfiguration,
    log: &mut EventLog,
    accounts: &CreatePool,
    dev_buy_amount: u64,
    initial_token_transfer_percent: u64,
    user_base_token_balance: u64,
    payer_lamports: u64,
    lamports_required: u64,
) -> (r: Result<CreatePoolReceipt, CustomError>)
    ensures
        r is Err ==> final(log).records() == old(log).records(),
        (match create_step(
            *config,
            *accounts,
            user_base_token_balance as int,
            payer_lamports as int,
            lamports_required as int,
            dev_buy_amount as int,
            initial_token_transfer_percent as int,
        ) {
            CreateStep::Rejected { err } => r == Err::<CreatePoolReceipt, CustomError>(err),
            CreateStep::Made { fee, quote_amount, transfer_amount, curve } => {
                &&& r matches Ok(receipt)
                &&& (r matches Ok(receipt) ==> {
                    &&& receipt.curve@ == curve
                    &&& receipt.quote_amount == quote_amount as u64
                    &&& receipt.initial_token_transfer_amount == transfer_amount as u64
                    &&& receipt.token_supply == config.initial_virtual_quote_token
                    &&& receipt.completed == curve.is_completed
                    &&& final(log).records() == if curve.is_completed {
                        old(log).records().push(
                            EventRecord::Swap(
                                dev_buy_event(
                                    *accounts,
                                    dev_buy_amount,
                                    quote_amount as u64,
                                    (config.create_pool_fee_amount + fee) as u64,
                                ),
                            ),
                        ).push(EventRecord::Completed(creation_completion_event(*accounts)))
                    } else {
                        old(log).records().push(
                            EventRecord::Swap(
                                dev_buy_event(
                                    *accounts,
                                    dev_buy_amount,
                                    quote_amount as u64,
                                    (config.create_pool_fee_amount + fee) as u64,
                                ),
                            ),
                        )
                    }
                })
            },
        }),
{
    if !accounts.base_token_mint.same_as(&config.base_token_ca) {
        return Err(CustomError::InvalidBaseToken);
    }
    if !accounts.fee_account.same_as(&config.fee_wallet) {
        return Err(CustomError::InvalidFeeWallet);
    }
    let needed: u128 = dev_buy_amount as u128 + config.create_pool_fee_amount as u128;
    if !(user_base_token_balance as u128 > needed) {
        return Err(CustomError::NotEnoughBaseToken);
    }
    if initial_token_transfer_percent > 10000 {
        return Err(CustomError::InvalidInitialTokenTransferPercent);
    }
    if !(payer_lamports > lamports_required) {
        return Err(CustomError::NotEnoughSolBalance);
    }
    let k_value: u128 = widening_mul_u64(
        config.initial_virtual_base_token,
        config.initial_virtual_quote_token,
    );
    let fee_wide: u128 = widening_mul_u64(dev_buy_amount, config.swap_fee) / 10000;
    let dev_buy_fee: u64 = match narrow_to_u64(fee_wide) {
        Ok(v) => v,
        Err(e) => {
            return Err(e);
        },
    };
    let net_input: u64 = match checked_sub_u64(dev_buy_amount, dev_buy_fee) {
        Ok(v) => v,
        Err(e) => {
            return Err(e);
        },
    };
    let base_sum: u128 = config.initial_virtual_base_token as u128 + net_input as u128;
    let division: u128 = match checked_div_u128(k_value, base_sum) {
        Ok(v) => v,
        Err(e) => {
            return Err(e);
        },
    };
    if division > config.initial_virtual_quote_token as u128 {
        return Err(CustomError::MathUnderflow);
    }
    let quote_amount: u64 = (config.initial_virtual_quote_token as u128 - division) as u64;
    let transfer_product: u64 = match checked_mul_u64(quote_amount, initial_token_transfer_percent) {
        Ok(v) => v,
        Err(e) => {
            return Err(e);
        },
    };
    let initial_token_transfer_amount: u64 = transfer_product / 10000;
    let event_fee: u64 = match checked_add_u64(config.create_pool_fee_amount, dev_buy_fee) {
        Ok(v) => v,
        Err(e) => {
            return Err(e);
        },
    };
    let completed: bool = base_sum >= config.bonding_curve_limitation as u128;
    let curve = BondingCurve {
        init_virtual_base_token: config.initial_virtual_base_token,
        init_virtual_quote_token: config.initial_virtual_quote_token,
        quote_token_reserves: division as u64,
        base_token_reserves: net_input,
        k_value,
        is_completed: completed,
    };
    log.emit(
        EventRecord::Swap(
            TransactionEvent {
                operation: Operation::DevBuy,
                creator: accounts.payer,
                input_amount: dev_buy_amount,
                output_amount: quote_amount,
                platform_fee: event_fee,
                base_token_mint: accounts.base_token_mint,
                mint_address: accounts.mint_address,
                fee_wallet: accounts.fee_account,
            },
        ),
    );
    if completed {
        log.emit(
            EventRecord::Completed(
                BondingCurveCompleted {
                    mint_address: accounts.mint_address,
                    user_quote_token_ata: accounts.user_quote_token_ata,
                    pool: accounts.pool,
                    quote_token_pool: accounts.quote_token_pool,
                },
            ),
        );
    }
    Ok(
        CreatePoolReceipt {
            curve,
            quote_amount,
            initial_token_transfer_amount,
            token_supply: config.initial_virtual_quote_token,
            completed,
        },
    )
}

} // verus!
