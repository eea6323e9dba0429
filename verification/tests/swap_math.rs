use pumpfun_smart_contract::buy;
use pumpfun_smart_contract::errors::CustomError;
use pumpfun_smart_contract::events::{EventLog, EventRecord, Operation, TransactionEvent};
use pumpfun_smart_contract::initialize;
use pumpfun_smart_contract::sell;
use pumpfun_smart_contract::state::{AccountId, BondingCurve, InitializeConfiguration};

fn id(key: u64) -> AccountId {
    AccountId { key }
}

fn sample_config(swap_fee: u64) -> InitializeConfiguration {
    initialize::handler(
        id(1),
        swap_fee,
        2_000_000_000_000,
        30_000_000_000,
        1_000_000_000_000_000,
        7,
        id(2),
        id(3),
        11,
    )
}

fn fresh_curve() -> BondingCurve {
    BondingCurve {
        init_virtual_base_token: 30_000_000_000,
        init_virtual_quote_token: 1_000_000_000_000_000,
        quote_token_reserves: 1_000_000_000_000_000,
        base_token_reserves: 0,
        k_value: 30_000_000_000u128 * 1_000_000_000_000_000u128,
        is_completed: false,
    }
}

fn buy_accounts() -> buy::Buy {
    buy::Buy {
        payer: id(9),
        mint_address: id(8),
        base_token_mint: id(2),
        fee_account: id(3),
        user_quote_token_ata: id(7),
        pool: id(6),
        quote_token_pool: id(5),
    }
}

fn sell_accounts() -> sell::Sell {
    sell::Sell {
        payer: id(9),
        mint_address: id(8),
        base_token_mint: id(2),
        fee_account: id(3),
        user_quote_token_ata: id(7),
        pool: id(6),
        quote_token_pool: id(5),
    }
}

#[test]
fn get_returns_the_record_itself() {
    let curve = fresh_curve();
    assert_eq!(*curve.get(), curve);
}

#[test]
fn fee_is_one_percent_of_ten_thousand() {
    // swap_fee_bps = 100 on an input of 10_000: fee 100, net input 9_900.
    let config = sample_config(100);
    let mut curve = fresh_curve();
    let mut log = EventLog::new();
    let receipt = buy::handler(&config, &mut curve, &mut log, &buy_accounts(), 10_000, 0).unwrap();
    assert_eq!(receipt.platform_fee, 100);
    assert_eq!(curve.base_token_reserves, 9_900);
}

#[test]
fn buy_exact_output_for_sample_constants() {
    // init_virtual_base 30_000_000_000, base_reserves 0, net input 9_900:
    // denominator 30_000_009_900 and output
    // 1_000_000_000_000_000 - k / 30_000_009_900 = 329_999_892.
    let config = sample_config(100);
    let mut curve = fresh_curve();
    let mut log = EventLog::new();
    let receipt = buy::handler(&config, &mut curve, &mut log, &buy_accounts(), 10_000, 0).unwrap();
    assert_eq!(receipt.output_amount, 329_999_892);
    assert_eq!(receipt.platform_fee, 100);
    assert!(!receipt.completed);
    assert_eq!(curve.base_token_reserves, 9_900);
    assert_eq!(curve.quote_token_reserves, 999_999_670_000_108);
}

#[test]
fn buy_emits_exact_transaction_event() {
    let config = sample_config(100);
    let mut curve = fresh_curve();
    let mut log = EventLog::new();
    buy::handler(&config, &mut curve, &mut log, &buy_accounts(), 10_000, 0).unwrap();
    assert_eq!(log.len(), 1);
    let expected = TransactionEvent {
        operation: Operation::Buy,
        creator: id(9),
        input_amount: 10_000,
        output_amount: 329_999_892,
        platform_fee: 100,
        base_token_mint: id(2),
        mint_address: id(8),
        fee_wallet: id(3),
    };
    assert_eq!(log.record_at(0), EventRecord::Swap(expected));
}

#[test]
fn round_trip_returns_no_more_than_net_input() {
    // Buy 10_000 then sell the whole output back: the base returned stays
    // below the net input, the pool's base does not shrink, and the quote
    // side returns to its start less only the sell fee.
    let config = sample_config(100);
    let mut curve = fresh_curve();
    let mut log = EventLog::new();
    let bought =
        buy::handler(&config, &mut curve, &mut log, &buy_accounts(), 10_000, 0).unwrap();
    assert_eq!(bought.output_amount, 329_999_892);
    let sold = sell::handler(
        &config,
        &mut curve,
        &mut log,
        &sell_accounts(),
        bought.output_amount,
        0,
    )
    .unwrap();
    assert_eq!(sold.platform_fee, 3_299_998);
    assert_eq!(sold.output_amount, 9_802);
    assert!(sold.output_amount <= 9_900);
    assert_eq!(curve.base_token_reserves, 98);
    assert_eq!(curve.quote_token_reserves, 1_000_000_000_000_000 - 3_299_998);
}

#[test]
fn swaps_never_mutate_invariant_or_virtual_reserves() {
    let config = sample_config(100);
    let mut curve = fresh_curve();
    let k_before = curve.k_value;
    let mut log = EventLog::new();
    let bought =
        buy::handler(&config, &mut curve, &mut log, &buy_accounts(), 10_000, 0).unwrap();
    assert_eq!(curve.k_value, k_before);
    assert_eq!(curve.init_virtual_base_token, 30_000_000_000);
    assert_eq!(curve.init_virtual_quote_token, 1_000_000_000_000_000);
    sell::handler(
        &config,
        &mut curve,
        &mut log,
        &sell_accounts(),
        bought.output_amount,
        0,
    )
    .unwrap();
    assert_eq!(curve.k_value, k_before);
    assert_eq!(curve.init_virtual_base_token, 30_000_000_000);
    assert_eq!(curve.init_virtual_quote_token, 1_000_000_000_000_000);
}

#[test]
fn buy_with_excessive_expected_amount_is_slippage_error() {
    // The true output is 329_999_892; asking for one more must fail and
    // leave the reserves untouched.
    let config = sample_config(100);
    let mut curve = fresh_curve();
    let before = curve;
    let mut log = EventLog::new();
    let r = buy::handler(&config, &mut curve, &mut log, &buy_accounts(), 10_000, 329_999_893);
    assert_eq!(r, Err(CustomError::SlippageExceeded));
    assert_eq!(curve, before);
    assert_eq!(log.len(), 0);
}

#[test]
fn sell_with_excessive_expected_amount_is_slippage_error() {
    let config = sample_config(100);
    let mut curve = fresh_curve();
    let mut log = EventLog::new();
    buy::handler(&config, &mut curve, &mut log, &buy_accounts(), 10_000, 0).unwrap();
    let before = curve;
    let r = sell::handler(&config, &mut curve, &mut log, &sell_accounts(), 329_999_892, 9_803);
    assert_eq!(r, Err(CustomError::SlippageExceeded));
    assert_eq!(curve, before);
}

#[test]
fn zero_fee_buy_takes_nothing() {
    let config = sample_config(0);
    let mut curve = fresh_curve();
    let mut log = EventLog::new();
    let receipt = buy::handler(&config, &mut curve, &mut log, &buy_accounts(), 10_000, 0).unwrap();
    assert_eq!(receipt.platform_fee, 0);
    assert_eq!(curve.base_token_reserves, 10_000);
}

#[test]
fn sell_emits_exact_transaction_event() {
    let config = sample_config(100);
    let mut curve = fresh_curve();
    let mut log = EventLog::new();
    buy::handler(&config, &mut curve, &mut log, &buy_accounts(), 10_000, 0).unwrap();
    sell::handler(&config, &mut curve, &mut log, &sell_accounts(), 329_999_892, 0).unwrap();
    assert_eq!(log.len(), 2);
    let expected = TransactionEvent {
        operation: Operation::Sell,
        creator: id(9),
        input_amount: 329_999_892,
        output_amount: 9_802,
        platform_fee: 3_299_998,
        base_token_mint: id(2),
        mint_address: id(8),
        fee_wallet: id(3),
    };
    assert_eq!(log.record_at(1), EventRecord::Swap(expected));
}
