//! Stop-loss and take-profit triggers.
//!
//! A position `(user, trade_id)` may carry a stop-loss price and a
//! take-profit price. Against the oracle's current price, the stop-loss fires
//! when the price is at or below it, the take-profit when the price is at or
//! above it; if both would fire, the stop-loss wins and the take-profit does
//! not fire. Only the oracle price is used, and the check needs the oracle and
//! the portfolio contract to be configured.
use vstd::prelude::*;

use crate::store::KeyedStore;
use crate::AccountId;

verus! {

/// Why a trade executor request was refused.
#[derive(Clone, Copy, Debug, PartialEq, Eq, Structural)]
pub enum ContractError {
    NotInitialized,
    InvalidAmount,
    InsufficientBalance,
}

/// The abstract state of the triggers.
pub struct TriggerModel {
    pub oracle: Option<AccountId>,
    pub portfolio: Option<AccountId>,
    pub stop_losses: Map<(AccountId, u64), i128>,
    pub take_profits: Map<(AccountId, u64), i128>,
}

// ── Specification ────────────────────────────────────────────────────────────

/// Whether both the oracle and the portfolio contract are configured.
pub open spec fn configured(m: TriggerModel) -> bool {
    m.oracle is Some && m.portfolio is Some
}

/// The stop-loss check of `(user, trade_id)` at `price` (`None`: the oracle
/// gave no fresh price): whether the position is closed, or why not checked.
pub open spec fn stop_loss_decision(m: TriggerModel, user: AccountId, trade_id: u64, price: Option<i128>) -> Result<
    bool,
    ContractError,
> {
    if !configured(m) || !m.stop_losses.contains_key((user, trade_id)) {
        Err(ContractError::NotInitialized)
    } else {
        match price {
            None => Err(ContractError::NotInitialized),
            Some(p) => Ok(p <= m.stop_losses[(user, trade_id)]),
        }
    }
}

/// The take-profit check of `(user, trade_id)` at `price`; it never fires
/// when the stop-loss would.
pub open spec fn take_profit_decision(m: TriggerModel, user: AccountId, trade_id: u64, price: Option<i128>) -> Result<
    bool,
    ContractError,
> {
    if !configured(m) || !m.take_profits.contains_key((user, trade_id)) {
        Err(ContractError::NotInitialized)
    } else {
        match price {
            None => Err(ContractError::NotInitialized),
            Some(p) => if m.stop_losses.contains_key((user, trade_id)) && p <= m.stop_losses[(
                user,
                trade_id,
            )] {
                Ok(false)
            } else {
                Ok(p >= m.take_profits[(user, trade_id)])
            },
        }
    }
}

// ── Laws ─────────────────────────────────────────────────────────────────────

/// When both triggers would fire at the same price, the stop-loss fires and
/// the take-profit does not; the two never both fire.
pub proof fn law_stop_loss_has_priority(m: TriggerModel, user: AccountId, trade_id: u64, price: i128)
    requires
        configured(m),
        m.stop_losses.contains_key((user, trade_id)),
        m.take_profits.contains_key((user, trade_id)),
        price <= m.stop_losses[(user, trade_id)],
    ensures
        stop_loss_decision(m, user, trade_id, Some(price)) == Ok::<bool, ContractError>(true),
        take_profit_decision(m, user, trade_id, Some(price)) == Ok::<bool, ContractError>(false),
{
}

/// The two triggers never both fire for the same position and price.
pub proof fn law_triggers_exclusive(m: TriggerModel, user: AccountId, trade_id: u64, price: Option<i128>)
    ensures
        !(stop_loss_decision(m, user, trade_id, price) == Ok::<bool, ContractError>(true)
            && take_profit_decision(m, user, trade_id, price) == Ok::<bool, ContractError>(true)),
{
}

/// Each trigger fires at its own threshold price (the take-profit when no
/// stop-loss lies at or above it).
pub proof fn law_triggers_fire_at_threshold(m: TriggerModel, user: AccountId, trade_id: u64)
    requires
        configured(m),
    ensures
        m.stop_losses.contains_key((user, trade_id)) ==> stop_loss_decision(
            m,
            user,
            trade_id,
            Some(m.stop_losses[(user, trade_id)]),
        ) == Ok::<bool, ContractError>(true),
        m.take_profits.contains_key((user, trade_id)) && !(m.stop_losses.contains_key((user, trade_id))
            && m.take_profits[(user, trade_id)] <= m.stop_losses[(user, trade_id)]) ==> take_profit_decision(
            m,
            user,
            trade_id,
            Some(m.take_profits[(user, trade_id)]),
        ) == Ok::<bool, ContractError>(true),
{
}

/// The take-profit fires exactly when the oracle gave a price, the position
/// has a take-profit price, the price is at or above it, and no stop-loss of
/// the position lies at or above the price; the stop-loss fires exactly when
/// the price is at or below its stop-loss price. Neither fires without the
/// oracle and portfolio configured.
pub proof fn law_trigger_conditions(m: TriggerModel, user: AccountId, trade_id: u64, price: Option<i128>)
    ensures
        take_profit_decision(m, user, trade_id, price) == Ok::<bool, ContractError>(true) <==> (m.oracle
            is Some && m.portfolio is Some && price is Some && m.take_profits.contains_key((user, trade_id))
            && price->0 >= m.take_profits[(user, trade_id)] && !(m.stop_losses.contains_key((user, trade_id))
            && price->0 <= m.stop_losses[(user, trade_id)])),
        stop_loss_decision(m, user, trade_id, price) == Ok::<bool, ContractError>(true) <==> (m.oracle
            is Some && m.portfolio is Some && price is Some && m.stop_losses.contains_key((user, trade_id))
            && price->0 <= m.stop_losses[(user, trade_id)]),
        take_profit_decision(m, user, trade_id, price) is Ok <==> (m.oracle is Some && m.portfolio is Some
            && price is Some && m.take_profits.contains_key((user, trade_id))),
        stop_loss_decision(m, user, trade_id, price) is Ok <==> (m.oracle is Some && m.portfolio is Some
            && price is Some && m.stop_losses.contains_key((user, trade_id))),
{
}

// ── Executable code ──────────────────────────────────────────────────────────

/// The trade executor's trigger configuration and thresholds.
pub struct TriggerBook {
    oracle: Option<AccountId>,
    portfolio: Option<AccountId>,
    stop_losses: KeyedStore<(AccountId, u64), i128>,
    take_profits: KeyedStore<(AccountId, u64), i128>,
}

impl View for TriggerBook {
    type V = TriggerModel;

    closed spec fn view(&self) -> TriggerModel {
        TriggerModel {
            oracle: self.oracle,
            portfolio: self.portfolio,
            stop_losses: self.stop_losses@,
            take_profits: self.take_profits@,
        }
    }
}

impl TriggerBook {
    /// No oracle, no portfolio, no thresholds.
    pub fn new() -> (b: Self)
        ensures
            b@.oracle is None,
            b@.portfolio is None,
            b@.stop_losses == Map::<(AccountId, u64), i128>::empty(),
            b@.take_profits == Map::<(AccountId, u64), i128>::empty(),
    {
        TriggerBook {
            oracle: None,
            portfolio: None,
            stop_losses: KeyedStore::new(),
            take_profits: KeyedStore::new(),
        }
    }

    /// Configures the oracle contract whose price the checks use.
    pub fn set_oracle(&mut self, oracle: AccountId)
        ensures
            final(self)@ == (TriggerModel { oracle: Some(oracle), ..old(self)@ }),
    {
        self.oracle = Some(oracle);
    }

    /// Configures the portfolio contract that closes positions.
    pub fn set_portfolio(&mut self, portfolio: AccountId)
        ensures
            final(self)@ == (TriggerModel { portfolio: Some(portfolio), ..old(self)@ }),
    {
        self.portfolio = Some(portfolio);
    }

    /// Registers a stop-loss price for `(user, trade_id)`.
    pub fn set_stop_loss(&mut self, user: AccountId, trade_id: u64, stop_loss_price: i128)
        ensures
            final(self)@ == (TriggerModel {
                stop_losses: old(self)@.stop_losses.insert((user, trade_id), stop_loss_price),
                ..old(self)@
            }),
    {
        self.stop_losses.set((user, trade_id), stop_loss_price);
    }

    /// The registered stop-loss price, if any.
    pub fn get_stop_loss(&self, user: AccountId, trade_id: u64) -> (r: Option<i128>)
        ensures
            r == (if self@.stop_losses.contains_key((user, trade_id)) {
                Some(self@.stop_losses[(user, trade_id)])
            } else {
                None
            }),
    {
        self.stop_losses.get(&(user, trade_id))
    }

    /// Registers a take-profit price for `(user, trade_id)`.
    pub fn set_take_profit(&mut self, user: AccountId, trade_id: u64, take_profit_price: i128)
        ensures
            final(self)@ == (TriggerModel {
                take_profits: old(self)@.take_profits.insert((user, trade_id), take_profit_price),
                ..old(self)@
            }),
    {
        self.take_profits.set((user, trade_id), take_profit_price);
    }

    /// The registered take-profit price, if any.
    pub fn get_take_profit(&self, user: AccountId, trade_id: u64) -> (r: Option<i128>)
        ensures
            r == (if self@.take_profits.contains_key((user, trade_id)) {
                Some(self@.take_profits[(user, trade_id)])
            } else {
                None
            }),
    {
        self.take_profits.get(&(user, trade_id))
    }

    /// The oracle and portfolio contracts; `NotInitialized` unless both are set.
    pub fn fetch_oracle_and_portfolio(&self) -> (r: Result<(AccountId, AccountId), ContractError>)
        ensures
            r == (if configured(self@) {
                Ok::<(AccountId, AccountId), ContractError>((self@.oracle->0, self@.portfolio->0))
            } else {
                Err(ContractError::NotInitialized)
            }),
    {
        let oracle = match self.oracle {
            Some(o) => o,
            None => {
                return Err(ContractError::NotInitialized);
            },
        };
        let portfolio = match self.portfolio {
            Some(p) => p,
            None => {
                return Err(ContractError::NotInitialized);
            },
        };
        Ok((oracle, portfolio))
    }

    /// Whether the stop-loss of `(user, trade_id)` fires at `current_price`
    /// (the oracle's fresh price, `None` when there is none); `Ok(true)`
    /// means the position is to be closed.
    pub fn check_and_trigger_stop_loss(&self, user: AccountId, trade_id: u64, current_price: Option<i128>) -> (r:
        Result<bool, ContractError>)
        ensures
            r == stop_loss_decision(self@, user, trade_id, current_price),
    {
        match self.fetch_oracle_and_portfolio() {
            Err(e) => {
                return Err(e);
            },
            Ok(_) => {},
        }
        let stop_loss_price = match self.get_stop_loss(user, trade_id) {
            Some(p) => p,
            None => {
                return Err(ContractError::NotInitialized);
            },
        };
        let current_price = match current_price {
            Some(p) => p,
            None => {
                return Err(ContractError::NotInitialized);
            },
        };
        Ok(current_price <= stop_loss_price)
    }

    /// Whether the take-profit of `(user, trade_id)` fires at `current_price`;
    /// it does not when the stop-loss would.
    pub fn check_and_trigger_take_profit(&self, user: AccountId, trade_id: u64, current_price: Option<i128>) -> (r:
        Result<bool, ContractError>)
        ensures
            r == take_profit_decision(self@, user, trade_id, current_price),
    {
        match self.fetch_oracle_and_portfolio() {
            Err(e) => {
                return Err(e);
            },
            Ok(_) => {},
        }
        let take_profit_price = match self.get_take_profit(user, trade_id) {
            Some(p) => p,
            None => {
                return Err(ContractError::NotInitialized);
            },
        };
        let current_price = match current_price {
            Some(p) => p,
            None => {
                return Err(ContractError::NotInitialized);
            },
        };
        if let Some(stop_loss_price) = self.get_stop_loss(user, trade_id) {
            if current_price <= stop_loss_price {
                return Ok(false);
            }
        }
        Ok(current_price >= take_profit_price)
    }
}

} // verus!
