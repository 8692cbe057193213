use stellar_swipe::triggers::{ContractError, TriggerBook};

const ORACLE: u64 = 500;
const PORTFOLIO: u64 = 600;

fn setup() -> TriggerBook {
    let mut book = TriggerBook::new();
    book.set_oracle(ORACLE);
    book.set_portfolio(PORTFOLIO);
    book
}

/// Runs the stop-loss check as the contract does: the position is closed
/// (here: remembered as the last closed trade) exactly when the check fires.
fn run_stop_loss(book: &TriggerBook, user: u64, trade_id: u64, price: i128, closed: &mut Option<u64>) -> bool {
    let fired = book.check_and_trigger_stop_loss(user, trade_id, Some(price)).unwrap();
    if fired {
        *closed = Some(trade_id);
    }
    fired
}

fn run_take_profit(book: &TriggerBook, user: u64, trade_id: u64, price: i128, closed: &mut Option<u64>) -> bool {
    let fired = book.check_and_trigger_take_profit(user, trade_id, Some(price)).unwrap();
    if fired {
        *closed = Some(trade_id);
    }
    fired
}

#[test]
fn no_trigger_when_price_above_stop_loss() {
    let mut book = setup();
    let user = 1;
    let mut closed = None;
    book.set_stop_loss(user, 1, 100);
    assert!(!run_stop_loss(&book, user, 1, 200, &mut closed));
    assert!(closed.is_none());
}

#[test]
fn trigger_when_price_at_stop_loss() {
    let mut book = setup();
    let user = 1;
    let mut closed = None;
    book.set_stop_loss(user, 1, 100);
    assert!(run_stop_loss(&book, user, 1, 100, &mut closed));
    assert_eq!(closed, Some(1u64));
}

#[test]
fn trigger_when_price_below_stop_loss() {
    let mut book = setup();
    let user = 1;
    let mut closed = None;
    book.set_stop_loss(user, 2, 100);
    assert!(run_stop_loss(&book, user, 2, 50, &mut closed));
    assert_eq!(closed, Some(2u64));
}

#[test]
fn stop_loss_trigger_emits_event() {
    let mut book = setup();
    let user = 1;
    book.set_stop_loss(user, 3, 100);
    assert_eq!(book.check_and_trigger_stop_loss(user, 3, Some(80)), Ok(true));
}

#[test]
fn no_trigger_when_price_below_take_profit() {
    let mut book = setup();
    let user = 1;
    let mut closed = None;
    book.set_take_profit(user, 1, 200);
    assert!(!run_take_profit(&book, user, 1, 150, &mut closed));
    assert!(closed.is_none());
}

#[test]
fn trigger_when_price_at_take_profit() {
    let mut book = setup();
    let user = 1;
    let mut closed = None;
    book.set_take_profit(user, 1, 200);
    assert!(run_take_profit(&book, user, 1, 200, &mut closed));
    assert_eq!(closed, Some(1u64));
}

#[test]
fn trigger_when_price_above_take_profit() {
    let mut book = setup();
    let user = 1;
    let mut closed = None;
    book.set_take_profit(user, 2, 200);
    assert!(run_take_profit(&book, user, 2, 250, &mut closed));
    assert_eq!(closed, Some(2u64));
}

#[test]
fn take_profit_trigger_emits_event() {
    let mut book = setup();
    let user = 1;
    book.set_take_profit(user, 3, 200);
    assert_eq!(book.check_and_trigger_take_profit(user, 3, Some(300)), Ok(true));
}

#[test]
fn stop_loss_priority_over_take_profit_on_simultaneous_trigger() {
    let mut book = setup();
    let user = 1;
    let mut closed = None;
    book.set_stop_loss(user, 1, 100);
    book.set_take_profit(user, 1, 50);
    assert!(!run_take_profit(&book, user, 1, 50, &mut closed));
    assert!(closed.is_none());
    assert!(run_stop_loss(&book, user, 1, 50, &mut closed));
    assert_eq!(closed, Some(1u64));
}

#[test]
fn checks_need_configuration_threshold_and_price() {
    let mut book = TriggerBook::new();
    book.set_stop_loss(1, 1, 100);
    book.set_take_profit(1, 1, 200);
    assert_eq!(book.fetch_oracle_and_portfolio(), Err(ContractError::NotInitialized));
    assert_eq!(book.check_and_trigger_stop_loss(1, 1, Some(10)), Err(ContractError::NotInitialized));
    book.set_oracle(ORACLE);
    assert_eq!(book.check_and_trigger_take_profit(1, 1, Some(300)), Err(ContractError::NotInitialized));
    book.set_portfolio(PORTFOLIO);
    assert_eq!(book.fetch_oracle_and_portfolio(), Ok((ORACLE, PORTFOLIO)));
    assert_eq!(book.check_and_trigger_stop_loss(1, 2, Some(10)), Err(ContractError::NotInitialized));
    assert_eq!(book.check_and_trigger_stop_loss(1, 1, None), Err(ContractError::NotInitialized));
    assert_eq!(book.check_and_trigger_take_profit(1, 1, None), Err(ContractError::NotInitialized));
    assert_eq!(book.check_and_trigger_take_profit(1, 1, Some(300)), Ok(true));
}

#[test]
fn thresholds_are_per_user_and_trade() {
    let mut book = setup();
    book.set_stop_loss(1, 1, 100);
    book.set_stop_loss(2, 1, 300);
    book.set_stop_loss(1, 1, 120);
    assert_eq!(book.get_stop_loss(1, 1), Some(120));
    assert_eq!(book.get_stop_loss(2, 1), Some(300));
    assert_eq!(book.get_stop_loss(1, 2), None);
    assert_eq!(book.get_take_profit(1, 1), None);
}
