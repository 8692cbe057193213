use stellar_swipe::admin::{AdminError, AdminState, PendingAdmin, PENDING_ADMIN_EXPIRY_LEDGERS};
use stellar_swipe::auto_trade::{AutoTradeContract, AutoTradeError};

const ADMIN: u64 = 1;
const NEW_ADMIN: u64 = 2;
const GUARDIAN: u64 = 3;
const START: u64 = 0;

fn initialized() -> AutoTradeContract {
    let mut c = AutoTradeContract::new();
    c.initialize(ADMIN).unwrap();
    c
}

#[test]
fn test_propose_admin_transfer_auto_trade() {
    let mut c = initialized();
    c.propose_admin_transfer(ADMIN, NEW_ADMIN, START).unwrap();
    let result = c.set_guardian(NEW_ADMIN, GUARDIAN);
    assert!(result.is_err(), "New admin should not have admin privileges before accepting");
}

#[test]
fn test_accept_admin_transfer_auto_trade() {
    let mut c = initialized();
    c.propose_admin_transfer(ADMIN, NEW_ADMIN, START).unwrap();
    c.accept_admin_transfer(NEW_ADMIN, START).unwrap();
    c.set_guardian(NEW_ADMIN, GUARDIAN).unwrap();
}

#[test]
fn test_accept_with_wrong_address_auto_trade() {
    let mut c = initialized();
    c.propose_admin_transfer(ADMIN, NEW_ADMIN, START).unwrap();
    let result = c.accept_admin_transfer(99, START);
    assert!(result.is_err(), "Wrong address cannot accept transfer");
}

#[test]
fn test_cancel_admin_transfer_auto_trade() {
    let mut c = initialized();
    c.propose_admin_transfer(ADMIN, NEW_ADMIN, START).unwrap();
    c.cancel_admin_transfer(ADMIN).unwrap();
    let result = c.accept_admin_transfer(NEW_ADMIN, START);
    assert!(result.is_err(), "Cannot accept after cancellation");
}

#[test]
fn test_transfer_expiry_auto_trade() {
    let mut c = initialized();
    let initial_timestamp = START;
    c.propose_admin_transfer(ADMIN, NEW_ADMIN, initial_timestamp).unwrap();
    let later = initial_timestamp + 48 * 60 * 60 + 1;
    let result = c.accept_admin_transfer(NEW_ADMIN, later);
    assert!(result.is_err(), "Cannot accept expired transfer");
}

#[test]
fn expiry_boundary_and_cleanup() {
    let mut s = AdminState::initialize(ADMIN);
    let p = s.propose_admin_transfer(ADMIN, NEW_ADMIN, 100).unwrap();
    assert_eq!(p, PendingAdmin { new_admin: NEW_ADMIN, expires_at: 100 + PENDING_ADMIN_EXPIRY_LEDGERS });
    let mut at_boundary = s;
    assert_eq!(at_boundary.accept_admin_transfer(NEW_ADMIN, 100 + 172_800), Ok(ADMIN));
    assert_eq!(at_boundary.admin, NEW_ADMIN);
    assert_eq!(s.accept_admin_transfer(NEW_ADMIN, 100 + 172_801), Err(AdminError::PendingAdminExpired));
    assert_eq!(s.admin, ADMIN);
    assert_eq!(s.pending, None);
    assert_eq!(s.accept_admin_transfer(NEW_ADMIN, 100), Err(AdminError::PendingAdminNotFound));
}

#[test]
fn non_admin_cannot_propose_or_cancel() {
    let mut c = initialized();
    assert_eq!(c.propose_admin_transfer(NEW_ADMIN, NEW_ADMIN, START), Err(AutoTradeError::Unauthorized));
    assert_eq!(c.cancel_admin_transfer(ADMIN), Err(AutoTradeError::PendingAdminNotFound));
    c.propose_admin_transfer(ADMIN, NEW_ADMIN, START).unwrap();
    assert_eq!(c.cancel_admin_transfer(NEW_ADMIN), Err(AutoTradeError::Unauthorized));
}

#[test]
fn later_proposal_replaces_earlier_and_chain_works() {
    let mut c = initialized();
    c.propose_admin_transfer(ADMIN, NEW_ADMIN, START).unwrap();
    c.propose_admin_transfer(ADMIN, GUARDIAN, START).unwrap();
    assert_eq!(c.accept_admin_transfer(NEW_ADMIN, START), Err(AutoTradeError::Unauthorized));
    assert_eq!(c.accept_admin_transfer(GUARDIAN, START), Ok(ADMIN));
    assert_eq!(c.propose_admin_transfer(ADMIN, NEW_ADMIN, START), Err(AutoTradeError::Unauthorized));
    c.propose_admin_transfer(GUARDIAN, NEW_ADMIN, START).unwrap();
    assert_eq!(c.accept_admin_transfer(NEW_ADMIN, START), Ok(GUARDIAN));
    assert_eq!(c.admin_state().unwrap().admin, NEW_ADMIN);
}

#[test]
fn admin_calls_need_initialization() {
    let mut c = AutoTradeContract::new();
    assert_eq!(c.propose_admin_transfer(ADMIN, NEW_ADMIN, START), Err(AutoTradeError::NotInitialized));
    assert_eq!(c.accept_admin_transfer(NEW_ADMIN, START), Err(AutoTradeError::NotInitialized));
    assert_eq!(c.set_guardian(ADMIN, GUARDIAN), Err(AutoTradeError::NotInitialized));
    c.initialize(ADMIN).unwrap();
    assert_eq!(c.initialize(NEW_ADMIN), Err(AutoTradeError::AlreadyInitialized));
}
