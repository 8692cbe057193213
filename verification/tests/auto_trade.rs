use stellar_swipe::auto_trade::{
    history_status, platform_fee, PositionUpdate, TradeBookkeeping, TradeEffects, position_after_fill, trade_status, AutoTradeContract, AutoTradeError,
    HistoryTradeStatus, OrderFill, Signal, TradeOutcomes, TradeStatus,
};

const NOW: u64 = 1000;
const USER: u64 = 42;

fn setup_signal(signal_id: u64, expiry: u64) -> Signal {
    Signal { signal_id, price: 100, expiry, base_asset: 1 }
}

/// Outside steps that all pass, with the given fill.
fn passing(executed_amount: i128, executed_price: i128) -> TradeOutcomes {
    TradeOutcomes {
        authorized: true,
        sufficient_balance: true,
        risk_check: Ok(false),
        fill: Ok(OrderFill { executed_amount, executed_price }),
        current_position: 0,
        referral_reward: 0,
    }
}

#[test]
fn test_execute_trade_invalid_amount() {
    let mut c = AutoTradeContract::new();
    let res = c.execute_trade(USER, 1, 0, NOW, passing(0, 0));
    assert_eq!(res, Err(AutoTradeError::InvalidAmount));
}

#[test]
fn test_execute_trade_signal_not_found() {
    let mut c = AutoTradeContract::new();
    let res = c.execute_trade(USER, 999, 100, NOW, passing(100, 100));
    assert_eq!(res, Err(AutoTradeError::SignalNotFound));
}

#[test]
fn test_execute_trade_signal_expired() {
    let mut c = AutoTradeContract::new();
    let signal_id = 1;
    c.set_signal(signal_id, setup_signal(signal_id, NOW - 1));
    let res = c.execute_trade(USER, signal_id, 100, NOW, passing(100, 100));
    assert_eq!(res, Err(AutoTradeError::SignalExpired));
}

#[test]
fn test_execute_trade_unauthorized() {
    let mut c = AutoTradeContract::new();
    let signal_id = 1;
    c.set_signal(signal_id, setup_signal(signal_id, NOW + 1000));
    let outcomes = TradeOutcomes { authorized: false, ..passing(100, 100) };
    let res = c.execute_trade(USER, signal_id, 100, NOW, outcomes);
    assert_eq!(res, Err(AutoTradeError::Unauthorized));
}

#[test]
fn test_execute_trade_insufficient_balance() {
    let mut c = AutoTradeContract::new();
    let signal_id = 1;
    c.set_signal(signal_id, setup_signal(signal_id, NOW + 1000));
    // balance 50 < amount 100
    let outcomes = TradeOutcomes { sufficient_balance: false, ..passing(100, 100) };
    let res = c.execute_trade(USER, signal_id, 100, NOW, outcomes);
    assert_eq!(res, Err(AutoTradeError::InsufficientBalance));
}

#[test]
fn test_execute_trade_market_full_fill() {
    let mut c = AutoTradeContract::new();
    let signal_id = 1;
    c.set_signal(signal_id, setup_signal(signal_id, NOW + 1000));
    // liquidity 500 covers the 400 requested at the signal price 100
    let res = c.execute_trade(USER, signal_id, 400, NOW, passing(400, 100)).unwrap().0;
    assert_eq!(res.trade.executed_amount, 400);
    assert_eq!(res.trade.executed_price, 100);
    assert_eq!(res.trade.status, TradeStatus::Filled);
}

#[test]
fn test_execute_trade_market_partial_fill() {
    let mut c = AutoTradeContract::new();
    let signal_id = 2;
    c.set_signal(signal_id, setup_signal(signal_id, NOW + 1000));
    // liquidity 100 of 300 requested
    let res = c.execute_trade(USER, signal_id, 300, NOW, passing(100, 100)).unwrap().0;
    assert_eq!(res.trade.executed_amount, 100);
    assert_eq!(res.trade.executed_price, 100);
    assert_eq!(res.trade.status, TradeStatus::PartiallyFilled);
}

#[test]
fn test_execute_trade_limit_filled() {
    let mut c = AutoTradeContract::new();
    let signal_id = 3;
    c.set_signal(signal_id, setup_signal(signal_id, NOW + 1000));
    // market price 90 at or below the limit 100: filled at the limit
    let res = c.execute_trade(USER, signal_id, 200, NOW, passing(200, 100)).unwrap().0;
    assert_eq!(res.trade.executed_amount, 200);
    assert_eq!(res.trade.executed_price, 100);
    assert_eq!(res.trade.status, TradeStatus::Filled);
}

#[test]
fn test_execute_trade_limit_not_filled() {
    let mut c = AutoTradeContract::new();
    let signal_id = 4;
    c.set_signal(signal_id, setup_signal(signal_id, NOW + 1000));
    // market price 150 above the limit 100: nothing filled
    let res = c.execute_trade(USER, signal_id, 200, NOW, passing(0, 0)).unwrap().0;
    assert_eq!(res.trade.executed_amount, 0);
    assert_eq!(res.trade.executed_price, 0);
    assert_eq!(res.trade.status, TradeStatus::Failed);
}

#[test]
fn test_get_trade_existing() {
    let mut c = AutoTradeContract::new();
    let signal_id = 1;
    c.set_signal(signal_id, setup_signal(signal_id, NOW + 1000));
    let _ = c.execute_trade(USER, signal_id, 400, NOW, passing(400, 100)).unwrap().0;
    let trade = c.get_trade(USER, signal_id).unwrap();
    assert_eq!(trade.executed_amount, 400);
}

#[test]
fn test_get_trade_non_existing() {
    let c = AutoTradeContract::new();
    let trade = c.get_trade(USER, 999);
    assert!(trade.is_none());
}

#[test]
fn test_position_limit_allows_first_trade() {
    let mut c = AutoTradeContract::new();
    let signal_id = 1;
    c.set_signal(signal_id, setup_signal(signal_id, NOW + 1000));
    let res = c.execute_trade(USER, signal_id, 1000, NOW, passing(1000, 100));
    assert!(res.is_ok());
}

#[test]
fn refused_trade_records_nothing() {
    let mut c = AutoTradeContract::new();
    c.set_signal(1, setup_signal(1, NOW + 10));
    let outcomes = TradeOutcomes { risk_check: Err(AutoTradeError::PositionLimitExceeded), ..passing(5, 100) };
    assert_eq!(c.execute_trade(USER, 1, 5, NOW, outcomes), Err(AutoTradeError::PositionLimitExceeded));
    let outcomes = TradeOutcomes { fill: Err(AutoTradeError::InsufficientBalance), ..passing(5, 100) };
    assert_eq!(c.execute_trade(USER, 1, 5, NOW, outcomes), Err(AutoTradeError::InsufficientBalance));
    assert!(c.get_trade(USER, 1).is_none());
}

#[test]
fn signal_valid_up_to_its_expiry() {
    let mut c = AutoTradeContract::new();
    c.set_signal(1, setup_signal(1, NOW));
    assert_eq!(c.check_trade_request(1, 10, NOW), Ok(setup_signal(1, NOW)));
    assert_eq!(c.check_trade_request(1, 10, NOW + 1), Err(AutoTradeError::SignalExpired));
    assert_eq!(c.check_trade_request(1, -10, NOW), Err(AutoTradeError::InvalidAmount));
}

#[test]
fn trade_records_request_and_time() {
    let mut c = AutoTradeContract::new();
    c.set_signal(9, setup_signal(9, NOW + 10));
    let t = c.execute_trade(USER, 9, 50, NOW + 3, passing(60, 101)).unwrap().0.trade;
    assert_eq!(t.signal_id, 9);
    assert_eq!(t.user, USER);
    assert_eq!(t.requested_amount, 50);
    assert_eq!(t.timestamp, NOW + 3);
    assert_eq!(t.status, TradeStatus::Filled);
    assert_eq!(c.get_trade(USER, 9), Some(t));
    assert_eq!(c.get_trade(USER + 1, 9), None);
}

#[test]
fn fee_status_and_position_helpers() {
    assert_eq!(platform_fee(10_000_000), 700_000);
    assert_eq!(platform_fee(99), 6);
    assert_eq!(trade_status(0, 10), TradeStatus::Failed);
    assert_eq!(trade_status(5, 10), TradeStatus::PartiallyFilled);
    assert_eq!(trade_status(10, 10), TradeStatus::Filled);
    assert_eq!(history_status(TradeStatus::PartiallyFilled), HistoryTradeStatus::Executed);
    assert_eq!(history_status(TradeStatus::Failed), HistoryTradeStatus::Failed);
    assert_eq!(history_status(TradeStatus::Pending), HistoryTradeStatus::Pending);
    assert_eq!(position_after_fill(100, 40, false), 140);
    assert_eq!(position_after_fill(100, 40, true), 60);
}

#[test]
fn filled_trade_asks_for_bookkeeping() {
    let mut c = AutoTradeContract::new();
    c.set_signal(1, Signal { signal_id: 1, price: 100, expiry: NOW + 10, base_asset: 7 });
    let outcomes = TradeOutcomes {
        risk_check: Ok(true),
        current_position: 250,
        referral_reward: 70_000,
        ..passing(10_000_000, 100)
    };
    let (res, effects) = c.execute_trade(USER, 1, 10_000_000, NOW, outcomes).unwrap();
    assert_eq!(res.trade.status, TradeStatus::Filled);
    assert_eq!(
        effects,
        TradeEffects {
            stop_loss_triggered: true,
            bookkeeping: Some(TradeBookkeeping {
                position: PositionUpdate { asset: 7, amount: 10_000_250, entry_price: 100 },
                platform_fee: 700_000,
                history_fee: 630_000,
                history_status: HistoryTradeStatus::Executed,
            }),
        }
    );
    let (_, effects) = c.execute_trade(USER, 1, 50, NOW, passing(0, 0)).unwrap();
    assert_eq!(effects, TradeEffects { stop_loss_triggered: false, bookkeeping: None });
}
