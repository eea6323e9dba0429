//! A constant-product bonding-curve market for a token pair.
//!
//! A market trades a base asset against a freshly minted quote asset along a
//! constant-product curve seeded with virtual reserves. Swaps extract a
//! basis-point fee, round in the pool's favor, and are rejected once the
//! base side reaches a configured limitation; a completed market is then
//! handed off, by the migration authority alone, to an external liquidity
//! pool. This crate holds the market's state, its swap arithmetic and its
//! lifecycle rules; moving balances between accounts, minting and metadata
//! are its callers' concern and only their amounts are decided here.

use vstd::prelude::*;

pub mod buy;
pub mod create_pool;
pub mod errors;
pub mod events;
pub mod initialize;
pub mod lifecycle;
pub mod math;
pub mod proxy_initialize;
pub mod sell;
pub mod state;
pub mod swap;

use crate::errors::CustomError;
use crate::state::{fee_bps_ok, AccountId, InitializeConfiguration};

verus! {

/// Changes the fee rate. Only the configured admin may: any other identity
/// is rejected and the configuration left untouched.
pub fn set_swap_fee(
    config: &mut InitializeConfiguration,
    admin: AccountId,
    new_swap_fee: u64,
) -> (r: Result<(), CustomError>)
    requires
        fee_bps_ok(new_swap_fee),
    ensures
        admin != old(config).admin ==> r == Err::<(), CustomError>(
            CustomError::InvalidAdminAccount,
        ) && *final(config) == *old(config),
        admin == old(config).admin ==> r == Ok::<(), CustomError>(()) && *final(config)
            == (InitializeConfiguration { swap_fee: new_swap_fee, ..*old(config) }),
{
    if !admin.same_as(&config.admin) {
        return Err(CustomError::InvalidAdminAccount);
    }
    config.swap_fee = new_swap_fee;
    Ok(())
}

/// Changes the completion limitation. Only the configured admin may: any
/// other identity is rejected and the configuration left untouched.
pub fn set_bonding_curve_limitaion(
    config: &mut InitializeConfiguration,
    admin: AccountId,
    new_bonding_curve_limitaion: u64,
) -> (r: Result<(), CustomError>)
    ensures
        admin != old(config).admin ==> r == Err::<(), CustomError>(
            CustomError::InvalidAdminAccount,
        ) && *final(config) == *old(config),
        admin == old(config).admin ==> r == Ok::<(), CustomError>(()) && *final(config)
            == (InitializeConfiguration {
            bonding_curve_limitation: new_bonding_curve_limitaion,
            ..*old(config)
        }),
{
    if !admin.same_as(&config.admin) {
        return Err(CustomError::InvalidAdminAccount);
    }
    config.bonding_curve_limitation = new_bonding_curve_limitaion;
    Ok(())
}

} // verus!
