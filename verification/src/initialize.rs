//! Deployment: building the one global configuration record. The calling
//! environment persists it; both administrative identities start as the
//! deploying admin.

use vstd::prelude::*;

use crate::state::{fee_bps_ok, AccountId, InitializeConfiguration};

verus! {

/// Builds the deployment-wide configuration from the given parameters,
/// with the deploying `admin` installed as both the admin and the
/// migration authority.
pub fn handler(
    admin: AccountId,
    swap_fee: u64,
    bonding_curve_limitation: u64,
    initial_virtual_base_token: u64,
    initial_virtual_quote_token: u64,
    create_pool_fee_amount: u64,
    base_token_ca: AccountId,
    fee_wallet: AccountId,
    raydium_migration_fee: u64,
) -> (config: InitializeConfiguration)
    requires
        fee_bps_ok(swap_fee),
    ensures
        config == (InitializeConfiguration {
            swap_fee,
            bonding_curve_limitation,
            initial_virtual_base_token,
            initial_virtual_quote_token,
            create_pool_fee_amount,
            base_token_ca,
            fee_wallet,
            migration_authority: admin,
            admin,
            raydium_migration_fee,
        }),
{
    InitializeConfiguration {
        swap_fee,
        bonding_curve_limitation,
        initial_virtual_base_token,
        initial_virtual_quote_token,
        create_pool_fee_amount,
        base_token_ca,
        fee_wallet,
        migration_authority: admin,
        admin,
        raydium_migration_fee,
    }
}

} // verus!
