use pumpfun_smart_contract::buy;
use pumpfun_smart_contract::errors::CustomError;
use pumpfun_smart_contract::events::{EventLog, EventRecord, BondingCurveCompleted, MigrationEvent};
use pumpfun_smart_contract::initialize;
use pumpfun_smart_contract::lifecycle::{market_phase, MarketPhase};
use pumpfun_smart_contract::proxy_initialize;
use pumpfun_smart_contract::sell;
use pumpfun_smart_contract::state::{AccountId, BondingCurve, InitializeConfiguration};
use pumpfun_smart_contract::{set_bonding_curve_limitaion, set_swap_fee};

fn id(key: u64) -> AccountId {
    AccountId { key }
}

fn small_config(limitation: u64) -> InitializeConfiguration {
    initialize::handler(id(1), 0, limitation, 1_000, 2_000, 7, id(2), id(3), 11)
}

fn small_curve() -> BondingCurve {
    BondingCurve {
        init_virtual_base_token: 1_000,
        init_virtual_quote_token: 2_000,
        quote_token_reserves: 2_000,
        base_token_reserves: 0,
        k_value: 2_000_000,
        is_completed: false,
    }
}

fn buy_accounts() -> buy::Buy {
    buy::Buy {
        payer: id(9),
        mint_address: id(8),
        base_token_mint: id(2),
        fee_account: id(3),
        user_quote_token_ata: id(7),
        pool: id(6),
        quote_token_pool: id(5),
    }
}

fn sell_accounts() -> sell::Sell {
    sell::Sell {
        payer: id(9),
        mint_address: id(8),
        base_token_mint: id(2),
        fee_account: id(3),
        user_quote_token_ata: id(7),
        pool: id(6),
        quote_token_pool: id(5),
    }
}

fn migration_accounts() -> proxy_initialize::ProxyInitialize {
    proxy_initialize::ProxyInitialize {
        migration_authority: id(1),
        creator: id(20),
        token_0_mint: id(2),
        token_1_mint: id(8),
        mint_address: id(8),
        pool_state: id(21),
        cp_swap_program: id(22),
    }
}

#[test]
fn buy_reaching_limitation_completes_curve() {
    // Whole base side after the buy is 1_000 + 500 = 1_500, exactly the
    // limitation: the curve completes and the completion record follows
    // the swap record.
    let config = small_config(1_500);
    let mut curve = small_curve();
    let mut log = EventLog::new();
    let receipt = buy::handler(&config, &mut curve, &mut log, &buy_accounts(), 500, 0).unwrap();
    assert!(receipt.completed);
    assert!(curve.is_completed);
    assert_eq!(log.len(), 2);
    let expected = BondingCurveCompleted {
        mint_address: id(8),
        user_quote_token_ata: id(7),
        pool: id(6),
        quote_token_pool: id(5),
    };
    assert_eq!(log.record_at(1), EventRecord::Completed(expected));
}

#[test]
fn buy_below_limitation_leaves_curve_active() {
    let config = small_config(1_501);
    let mut curve = small_curve();
    let mut log = EventLog::new();
    let receipt = buy::handler(&config, &mut curve, &mut log, &buy_accounts(), 500, 0).unwrap();
    assert!(!receipt.completed);
    assert!(!curve.is_completed);
    assert_eq!(log.len(), 1);
}

#[test]
fn completed_curve_rejects_buys() {
    let config = small_config(1_500);
    let mut curve = small_curve();
    curve.is_completed = true;
    let before = curve;
    let mut log = EventLog::new();
    let r = buy::handler(&config, &mut curve, &mut log, &buy_accounts(), 500, 0);
    assert_eq!(r, Err(CustomError::BondingCurveIsCompleted));
    assert_eq!(curve, before);
    assert_eq!(log.len(), 0);
}

#[test]
fn sell_after_completion_fails_and_reserves_stay() {
    let config = small_config(1_500);
    let mut curve = small_curve();
    let mut log = EventLog::new();
    buy::handler(&config, &mut curve, &mut log, &buy_accounts(), 500, 0).unwrap();
    assert!(curve.is_completed);
    let before = curve;
    let r = sell::handler(&config, &mut curve, &mut log, &sell_accounts(), 100, 0);
    assert_eq!(r, Err(CustomError::BondingCurveIsCompleted));
    assert_eq!(curve, before);
}

#[test]
fn completion_flag_never_reverts() {
    let config = small_config(1_500);
    let mut curve = small_curve();
    let mut log = EventLog::new();
    buy::handler(&config, &mut curve, &mut log, &buy_accounts(), 500, 0).unwrap();
    assert!(curve.is_completed);
    // Every further operation either is rejected or keeps the flag.
    let _ = buy::handler(&config, &mut curve, &mut log, &buy_accounts(), 1, 0);
    let _ = sell::handler(&config, &mut curve, &mut log, &sell_accounts(), 1, 0);
    let _ = proxy_initialize::handler(&config, &curve, &mut log, &migration_accounts(), 100_000);
    assert!(curve.is_completed);
}

#[test]
fn phase_moves_forward_only() {
    let config = small_config(1_500);
    let mut curve = small_curve();
    let mut log = EventLog::new();
    assert_eq!(market_phase(&curve, false), MarketPhase::Active);
    buy::handler(&config, &mut curve, &mut log, &buy_accounts(), 500, 0).unwrap();
    assert_eq!(market_phase(&curve, false), MarketPhase::Completed);
    let plan =
        proxy_initialize::handler(&config, &curve, &mut log, &migration_accounts(), 100_000)
            .unwrap();
    assert_eq!(plan.lamports_required, 11 + 5_000);
    assert_eq!(market_phase(&curve, true), MarketPhase::Migrated);
}

#[test]
fn migration_by_non_authority_fails() {
    let config = small_config(1_500);
    let mut curve = small_curve();
    curve.is_completed = true;
    let mut log = EventLog::new();
    let mut accounts = migration_accounts();
    accounts.migration_authority = id(99);
    let r = proxy_initialize::handler(&config, &curve, &mut log, &accounts, 100_000);
    assert_eq!(r, Err(CustomError::InvalidMigrationAuth));
    assert_eq!(log.len(), 0);
}

#[test]
fn migration_before_completion_fails() {
    let config = small_config(1_500);
    let curve = small_curve();
    let mut log = EventLog::new();
    let r = proxy_initialize::handler(&config, &curve, &mut log, &migration_accounts(), 100_000);
    assert_eq!(r, Err(CustomError::BondingCurveIsNotCompleted));
    assert_eq!(log.len(), 0);
}

#[test]
fn migration_with_unordered_mints_fails() {
    let config = small_config(1_500);
    let mut curve = small_curve();
    curve.is_completed = true;
    let mut log = EventLog::new();
    let mut accounts = migration_accounts();
    accounts.token_0_mint = id(8);
    accounts.token_1_mint = id(2);
    let r = proxy_initialize::handler(&config, &curve, &mut log, &accounts, 100_000);
    assert_eq!(r, Err(CustomError::TokenConstraintError));
}

#[test]
fn migration_without_balance_fails() {
    let config = small_config(1_500);
    let mut curve = small_curve();
    curve.is_completed = true;
    let mut log = EventLog::new();
    // lamports_required is 11 + 5_000; an equal balance is not enough.
    let r = proxy_initialize::handler(&config, &curve, &mut log, &migration_accounts(), 5_011);
    assert_eq!(r, Err(CustomError::NotEnoughSolBalance));
}

#[test]
fn migration_fee_overflow_is_math_overflow() {
    let mut config = small_config(1_500);
    config.raydium_migration_fee = u64::MAX;
    let mut curve = small_curve();
    curve.is_completed = true;
    let mut log = EventLog::new();
    let r = proxy_initialize::handler(&config, &curve, &mut log, &migration_accounts(), u64::MAX);
    assert_eq!(r, Err(CustomError::MathOverflow));
}

#[test]
fn migration_orders_reserves_by_asset_identity() {
    let config = small_config(1_500);
    let mut curve = small_curve();
    let mut log = EventLog::new();
    buy::handler(&config, &mut curve, &mut log, &buy_accounts(), 500, 0).unwrap();
    // token_0 is the configured base asset: base reserves fill slot 0.
    let plan =
        proxy_initialize::handler(&config, &curve, &mut log, &migration_accounts(), 100_000)
            .unwrap();
    assert_eq!(plan.init_amount_0, curve.base_token_reserves);
    assert_eq!(plan.init_amount_1, curve.quote_token_reserves);
    assert_eq!(plan.fee_payer, id(1));
    assert_eq!(plan.fee_recipient, id(20));
    // With the slots the other way round, the quote reserves fill slot 0.
    let mut accounts = migration_accounts();
    accounts.token_0_mint = id(4);
    accounts.token_1_mint = id(8);
    let plan2 = proxy_initialize::handler(&config, &curve, &mut log, &accounts, 100_000).unwrap();
    assert_eq!(plan2.init_amount_0, curve.quote_token_reserves);
    assert_eq!(plan2.init_amount_1, curve.base_token_reserves);
    let expected = MigrationEvent { mint_address: id(8), raydium_pool: id(21), contract: id(22) };
    assert_eq!(log.record_at(log.len() - 1), EventRecord::Migration(expected));
}

#[test]
fn only_admin_changes_swap_fee() {
    let mut config = small_config(1_500);
    let r = set_swap_fee(&mut config, id(42), 50);
    assert_eq!(r, Err(CustomError::InvalidAdminAccount));
    assert_eq!(config.swap_fee, 0);
    let r = set_swap_fee(&mut config, id(1), 50);
    assert_eq!(r, Ok(()));
    assert_eq!(config.swap_fee, 50);
}

#[test]
fn only_admin_changes_limitation() {
    let mut config = small_config(1_500);
    let r = set_bonding_curve_limitaion(&mut config, id(42), 9_999);
    assert_eq!(r, Err(CustomError::InvalidAdminAccount));
    assert_eq!(config.bonding_curve_limitation, 1_500);
    let r = set_bonding_curve_limitaion(&mut config, id(1), 9_999);
    assert_eq!(r, Ok(()));
    assert_eq!(config.bonding_curve_limitation, 9_999);
}
