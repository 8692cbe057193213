use stellar_swipe::fee_collector::{
    ContractError, FeeCollector, FeeCollectorError, FeeConfig, TreasuryWithdrawal, WithdrawalQueued,
};

const ADMIN: u64 = 1;
const TOKEN: u64 = 10;
const OTHER_TOKEN: u64 = 11;
const RECIPIENT: u64 = 20;

fn setup_contract() -> FeeCollector {
    let mut c = FeeCollector::new();
    c.initialize(ADMIN).unwrap();
    c
}

#[test]
fn test_normal_trade() {
    let c = setup_contract();
    let trade_amount = 10_000_000_000; // 1000 XLM
    let calculated_fee = 10_000_000; // 1 XLM
    let result = c.collect_fee(trade_amount, calculated_fee).unwrap();
    assert_eq!(result, 10_000_000);
}

#[test]
fn test_large_trade_cap() {
    let c = setup_contract();
    let trade_amount = 1_000_000_000_000; // 100,000 XLM
    let calculated_fee = 2_000_000_000; // 200 XLM (above max)
    let result = c.collect_fee(trade_amount, calculated_fee).unwrap();
    assert_eq!(result, 1_000_000_000);
}

#[test]
fn test_small_trade_floor() {
    let c = setup_contract();
    let trade_amount = 1_000_000_000; // 100 XLM
    let calculated_fee = 10_000; // 0.001 XLM (below min)
    let result = c.collect_fee(trade_amount, calculated_fee).unwrap();
    assert_eq!(result, 100_000);
}

#[test]
fn test_tiny_trade_reject() {
    let c = setup_contract();
    let trade_amount = 50_000; // 0.005 XLM (below min_fee_per_trade)
    let calculated_fee = 5_000;
    let result = c.collect_fee(trade_amount, calculated_fee);
    assert_eq!(result, Err(FeeCollectorError::TradeTooSmall));
}

#[test]
fn test_set_fee_config() {
    let mut c = setup_contract();
    let new_config = FeeConfig { max_fee_per_trade: 2_000_000_000, min_fee_per_trade: 200_000 };
    c.set_fee_config(new_config);
    let retrieved_config = c.get_fee_config();
    assert_eq!(retrieved_config, new_config);
}

#[test]
fn fee_bounds_follow_new_config() {
    let mut c = setup_contract();
    c.set_fee_config(FeeConfig { max_fee_per_trade: 500, min_fee_per_trade: 100 });
    assert_eq!(c.collect_fee(1_000, 50), Ok(100));
    assert_eq!(c.collect_fee(1_000, 900), Ok(500));
    assert_eq!(c.collect_fee(1_000, 300), Ok(300));
    assert_eq!(c.collect_fee(99, 300), Err(ContractError::TradeTooSmall));
    assert_eq!(c.collect_fee(100, 300), Ok(300));
}

#[test]
fn initialize_twice_is_refused() {
    let mut c = setup_contract();
    assert_eq!(c.initialize(2), Err(ContractError::AlreadyInitialized));
    assert_eq!(c.get_admin(), Some(ADMIN));
}

#[test]
fn uninitialized_collector_refuses_requests() {
    let mut c = FeeCollector::new();
    assert!(!c.is_initialized());
    assert_eq!(c.treasury_balance(TOKEN), Err(ContractError::NotInitialized));
    assert_eq!(c.queue_withdrawal(RECIPIENT, TOKEN, 5, 0), Err(ContractError::NotInitialized));
    assert_eq!(c.withdraw_treasury_fees(RECIPIENT, TOKEN, 5, 0), Err(ContractError::NotInitialized));
}

#[test]
fn treasury_balance_defaults_to_zero() {
    let mut c = setup_contract();
    assert_eq!(c.treasury_balance(TOKEN), Ok(0));
    c.set_treasury_balance(TOKEN, 700);
    assert_eq!(c.treasury_balance(TOKEN), Ok(700));
    assert_eq!(c.treasury_balance(OTHER_TOKEN), Ok(0));
}

#[test]
fn queue_rejects_bad_amounts() {
    let mut c = setup_contract();
    c.set_treasury_balance(TOKEN, 1_000);
    assert_eq!(c.queue_withdrawal(RECIPIENT, TOKEN, 0, 5), Err(ContractError::InvalidAmount));
    assert_eq!(c.queue_withdrawal(RECIPIENT, TOKEN, -3, 5), Err(ContractError::InvalidAmount));
    assert_eq!(
        c.queue_withdrawal(RECIPIENT, TOKEN, 1_001, 5),
        Err(ContractError::InsufficientTreasuryBalance)
    );
    assert_eq!(c.get_queued_withdrawal(), None);
}

#[test]
fn queued_withdrawal_executes_after_timelock() {
    let mut c = setup_contract();
    c.set_treasury_balance(TOKEN, 1_000);
    let ev = c.queue_withdrawal(RECIPIENT, TOKEN, 400, 1_000).unwrap();
    assert_eq!(
        ev,
        WithdrawalQueued { recipient: RECIPIENT, token: TOKEN, amount: 400, available_at: 87_400 }
    );
    assert_eq!(
        c.withdraw_treasury_fees(RECIPIENT, TOKEN, 400, 87_399),
        Err(ContractError::TimelockNotElapsed)
    );
    assert_eq!(c.treasury_balance(TOKEN), Ok(1_000));
    let done = c.withdraw_treasury_fees(RECIPIENT, TOKEN, 400, 87_400).unwrap();
    assert_eq!(
        done,
        TreasuryWithdrawal { recipient: RECIPIENT, token: TOKEN, amount: 400, remaining_balance: 600 }
    );
    assert_eq!(c.treasury_balance(TOKEN), Ok(600));
    assert_eq!(c.get_queued_withdrawal(), None);
    assert_eq!(
        c.withdraw_treasury_fees(RECIPIENT, TOKEN, 400, 200_000),
        Err(ContractError::WithdrawalNotQueued)
    );
}

#[test]
fn withdrawal_must_match_queue() {
    let mut c = setup_contract();
    c.set_treasury_balance(TOKEN, 1_000);
    c.queue_withdrawal(RECIPIENT, TOKEN, 400, 0).unwrap();
    assert_eq!(
        c.withdraw_treasury_fees(RECIPIENT + 1, TOKEN, 400, 100_000),
        Err(ContractError::WithdrawalNotQueued)
    );
    assert_eq!(
        c.withdraw_treasury_fees(RECIPIENT, OTHER_TOKEN, 400, 100_000),
        Err(ContractError::WithdrawalNotQueued)
    );
    assert_eq!(
        c.withdraw_treasury_fees(RECIPIENT, TOKEN, 399, 100_000),
        Err(ContractError::WithdrawalNotQueued)
    );
}

#[test]
fn withdrawal_checks_balance_at_execution() {
    let mut c = setup_contract();
    c.set_treasury_balance(TOKEN, 1_000);
    c.queue_withdrawal(RECIPIENT, TOKEN, 400, 0).unwrap();
    c.set_treasury_balance(TOKEN, 300);
    assert_eq!(
        c.withdraw_treasury_fees(RECIPIENT, TOKEN, 400, 100_000),
        Err(ContractError::InsufficientTreasuryBalance)
    );
    assert!(c.get_queued_withdrawal().is_some());
}
