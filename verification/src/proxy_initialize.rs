//! Migration: the one-time handoff of a completed market's reserves to the
//! external liquidity pool. The handler validates every precondition and
//! decides the fee transfer and the (asset 0, asset 1) ordering of the
//! reserves; executing the transfer and initializing the external pool are
//! the caller's work.

use vstd::prelude::*;

use crate::errors::CustomError;
use crate::events::{EventLog, EventRecord, MigrationEvent};
use crate::math::checked_add_u64;
use crate::state::{AccountId, BondingCurve, InitializeConfiguration};

verus! {

/// Flat allowance, on top of the configured migration fee, for the
/// transaction costs of standing up the external pool.
pub const TX_CONFIRM_FEE: u64 = 5000;

/// The identities migration touches.
#[derive(Clone, Copy, Debug, PartialEq, Eq, Structural)]
pub struct ProxyInitialize {
    pub migration_authority: AccountId,
    pub creator: AccountId,
    pub token_0_mint: AccountId,
    pub token_1_mint: AccountId,
    pub mint_address: AccountId,
    pub pool_state: AccountId,
    pub cp_swap_program: AccountId,
}

/// The validated handoff: who pays how much, and which reserve fills which
/// slot of the external pool.
#[derive(Clone, Copy, Debug, PartialEq, Eq, Structural)]
pub struct MigrationPlan {
    /// Reserve for the pool's first asset slot.
    pub init_amount_0: u64,
    /// Reserve for the pool's second asset slot.
    pub init_amount_1: u64,
    /// The migration fee plus the transaction allowance, paid before the
    /// handoff.
    pub lamports_required: u64,
    /// Who pays the fee: the migration authority.
    pub fee_payer: AccountId,
    /// Who receives it: the account creating the external pool.
    pub fee_recipient: AccountId,
}

/// The record a migration emits.
pub open spec fn migration_event(accounts: ProxyInitialize) -> MigrationEvent {
    MigrationEvent {
        mint_address: accounts.mint_address,
        raydium_pool: accounts.pool_state,
        contract: accounts.cp_swap_program,
    }
}

/// Validates a migration and decides its handoff. Only the configured
/// migration authority may migrate; the asset slots must already be in
/// identity order; the curve must be completed; and the authority must be
/// able to pay the migration fee plus the transaction allowance. On
/// success, the reserve of the configured base asset goes into the slot
/// whose mint is that asset, the other reserve into the other slot, the
/// plan is returned, and the migration is logged; on any rejection the log
/// is untouched. The curve itself is read, never changed.
pub fn handler(
    config: &InitializeConfiguration,
    curve: &BondingCurve,
    log: &mut EventLog,
    accounts: &ProxyInitialize,
    migration_authority_lamports: u64,
) -> (r: Result<MigrationPlan, CustomError>)
    ensures
        r is Err ==> final(log).records() == old(log).records(),
        accounts.migration_authority != config.migration_authority ==> r == Err::<
            MigrationPlan,
            CustomError,
        >(CustomError::InvalidMigrationAuth),
        accounts.migration_authority == config.migration_authority && !(
        accounts.token_0_mint.key < accounts.token_1_mint.key) ==> r == Err::<
            MigrationPlan,
            CustomError,
        >(CustomError::TokenConstraintError),
        accounts.migration_authority == config.migration_authority
            && accounts.token_0_mint.key < accounts.token_1_mint.key && !curve.is_completed
            ==> r == Err::<MigrationPlan, CustomError>(CustomError::BondingCurveIsNotCompleted),
        accounts.migration_authority == config.migration_authority
            && accounts.token_0_mint.key < accounts.token_1_mint.key && curve.is_completed
            && config.raydium_migration_fee + TX_CONFIRM_FEE > u64::MAX ==> r == Err::<
            MigrationPlan,
            CustomError,
        >(CustomError::MathOverflow),
        accounts.migration_authority == config.migration_authority
            && accounts.token_0_mint.key < accounts.token_1_mint.key && curve.is_completed
            && config.raydium_migration_fee + TX_CONFIRM_FEE <= u64::MAX && !(
        migration_authority_lamports > config.raydium_migration_fee + TX_CONFIRM_FEE) ==> r
            == Err::<MigrationPlan, CustomError>(CustomError::NotEnoughSolBalance),
        accounts.migration_authority == config.migration_authority
            && accounts.token_0_mint.key < accounts.token_1_mint.key && curve.is_completed
            && config.raydium_migration_fee + TX_CONFIRM_FEE <= u64::MAX
            && migration_authority_lamports > config.raydium_migration_fee + TX_CONFIRM_FEE ==> {
            &&& r == Ok::<MigrationPlan, CustomError>(
                MigrationPlan {
                    init_amount_0: if accounts.token_0_mint == config.base_token_ca {
                        curve.base_token_reserves
                    } else {
                        curve.quote_token_reserves
                    },
                    init_amount_1: if accounts.token_0_mint == config.base_token_ca {
                        curve.quote_token_reserves
                    } else {
                        curve.base_token_reserves
                    },
                    lamports_required: (config.raydium_migration_fee + TX_CONFIRM_FEE) as u64,
                    fee_payer: accounts.migration_authority,
                    fee_recipient: accounts.creator,
                },
            )
            &&& final(log).records() == old(log).records().push(
                EventRecord::Migration(migration_event(*accounts)),
            )
        },
{
    if !accounts.migration_authority.same_as(&config.migration_authority) {
        return Err(CustomError::InvalidMigrationAuth);
    }
    if !accounts.token_0_mint.is_below(&accounts.token_1_mint) {
        return Err(CustomError::TokenConstraintError);
    }
    if !curve.is_completed {
        return Err(CustomError::BondingCurveIsNotCompleted);
    }
    let lamports_required: u64 = match checked_add_u64(config.raydium_migration_fee, TX_CONFIRM_FEE) {
        Ok(v) => v,
        Err(e) => {
            return Err(e);
        },
    };
    if !(migration_authority_lamports > lamports_required) {
        return Err(CustomError::NotEnoughSolBalance);
    }
    let base_first: bool = accounts.token_0_mint.same_as(&config.base_token_ca);
    let init_amount_0: u64 = if base_first {
        curve.base_token_reserves
    } else {
        curve.quote_token_reserves
    };
    let init_amount_1: u64 = if base_first {
        curve.quote_token_reserves
    } else {
        curve.base_token_reserves
    };
    log.emit(
        EventRecord::Migration(
            MigrationEvent {
                mint_address: accounts.mint_address,
                raydium_pool: accounts.pool_state,
                contract: accounts.cp_swap_program,
            },
        ),
    );
    Ok(
        MigrationPlan {
            init_amount_0,
            init_amount_1,
            lamports_required,
            fee_payer: accounts.migration_authority,
            fee_recipient: accounts.creator,
        },
    )
}

} // verus!
