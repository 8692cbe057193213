//! Automatic trade execution against provider signals.
//!
//! A trade request is checked in a fixed order (amount, signal, expiry,
//! authorization, balance, risk limits), the order is filled outside the
//! library, and the resulting trade is classified and recorded under
//! `(user, signal_id)`. The contract also carries the two-step admin
//! hand-over of `crate::admin`.
use vstd::prelude::*;

use crate::admin::{AdminError, AdminState, PendingAdmin, proposable_at};
use crate::store::KeyedStore;
use crate::AccountId;

verus! {

/// Percentage of the executed amount taken as platform fee.
pub const PLATFORM_FEE_PERCENT: i128 = 7;

/// How an order is placed on the exchange.
#[derive(Clone, Copy, Debug, PartialEq, Eq, Structural)]
pub enum OrderType {
    Market,
    Limit,
}

/// How much of a trade was filled.
#[derive(Clone, Copy, Debug, PartialEq, Eq, Structural)]
pub enum TradeStatus {
    Pending,
    PartiallyFilled,
    Filled,
    Failed,
}

/// Status of a trade as the trade history records it.
#[derive(Clone, Copy, Debug, PartialEq, Eq, Structural)]
pub enum HistoryTradeStatus {
    Pending,
    Executed,
    Failed,
}

/// An executed (or failed) trade.
#[derive(Clone, Copy, Debug, PartialEq, Eq, Structural)]
pub struct Trade {
    pub signal_id: u64,
    pub user: AccountId,
    pub requested_amount: i128,
    pub executed_amount: i128,
    pub executed_price: i128,
    pub timestamp: u64,
    pub status: TradeStatus,
}

/// What `execute_trade` returns.
#[derive(Clone, Copy, Debug, PartialEq, Eq, Structural)]
pub struct TradeResult {
    pub trade: Trade,
}

/// A provider's trading signal.
#[derive(Clone, Copy, Debug, PartialEq, Eq, Structural)]
pub struct Signal {
    pub signal_id: u64,
    pub price: i128,
    pub expiry: u64,
    pub base_asset: u32,
}

/// What an order fill reports: amount executed and its price.
#[derive(Clone, Copy, Debug, PartialEq, Eq, Structural)]
pub struct OrderFill {
    pub executed_amount: i128,
    pub executed_price: i128,
}

/// Why a request of the auto-trade contract was refused.
#[derive(Clone, Copy, Debug, PartialEq, Eq, Structural)]
pub enum AutoTradeError {
    InvalidAmount,
    Unauthorized,
    SignalNotFound,
    SignalExpired,
    InsufficientBalance,
    PositionLimitExceeded,
    DailyTradeLimitExceeded,
    SelfReferral,
    ReferralAlreadySet,
    CircularReferral,
    ReferralLimitExceeded,
    AlreadyInitialized,
    NotInitialized,
    PendingAdminNotFound,
    PendingAdminExpired,
}

/// The results of the steps of a trade that run outside this library, in
/// the order the contract consults them: the user's trading authorization
/// for the amount, the user's balance, the risk-limit validation (`Ok`
/// tells whether a stop-loss fired) and the fill of the market or limit
/// order; then, for a fill above zero, the user's position in the signal's
/// base asset before the trade and the referral reward paid out of the
/// platform fee (`platform_fee` of the executed amount).
#[derive(Clone, Copy, Debug, PartialEq, Eq)]
pub struct TradeOutcomes {
    pub authorized: bool,
    pub sufficient_balance: bool,
    pub risk_check: Result<bool, AutoTradeError>,
    pub fill: Result<OrderFill, AutoTradeError>,
    pub current_position: i128,
    pub referral_reward: i128,
}

/// The position to record after a fill: asset, new amount, entry price.
#[derive(Clone, Copy, Debug, PartialEq, Eq, Structural)]
pub struct PositionUpdate {
    pub asset: u32,
    pub amount: i128,
    pub entry_price: i128,
}

/// What a fill above zero is to record: the new position, the platform fee,
/// the fee kept by the platform after the referral reward (recorded in the
/// trade history) and the history status.
#[derive(Clone, Copy, Debug, PartialEq, Eq, Structural)]
pub struct TradeBookkeeping {
    pub position: PositionUpdate,
    pub platform_fee: i128,
    pub history_fee: i128,
    pub history_status: HistoryTradeStatus,
}

/// The actions an executed trade asks of the caller: whether to announce a
/// fired stop-loss, and the bookkeeping of a fill above zero.
#[derive(Clone, Copy, Debug, PartialEq, Eq, Structural)]
pub struct TradeEffects {
    pub stop_loss_triggered: bool,
    pub bookkeeping: Option<TradeBookkeeping>,
}

/// The abstract state of the contract.
pub struct AutoTradeModel {
    pub admin: Option<AdminState>,
    pub signals: Map<u64, Signal>,
    pub trades: Map<(AccountId, u64), Trade>,
}

// ── Specification ────────────────────────────────────────────────────────────

/// The status of a trade that executed `executed` of `requested`.
pub open spec fn status_of(executed: i128, requested: i128) -> TradeStatus {
    if executed == 0 {
        TradeStatus::Failed
    } else if executed < requested {
        TradeStatus::PartiallyFilled
    } else {
        TradeStatus::Filled
    }
}

/// The history status recorded for a trade status.
pub open spec fn history_status_of(status: TradeStatus) -> HistoryTradeStatus {
    match status {
        TradeStatus::Filled | TradeStatus::PartiallyFilled => HistoryTradeStatus::Executed,
        TradeStatus::Failed => HistoryTradeStatus::Failed,
        TradeStatus::Pending => HistoryTradeStatus::Pending,
    }
}

/// The signal a request may trade on, or why the request is refused before
/// any outside check: a non-positive amount, an unknown signal, an expired
/// signal.
pub open spec fn request_check(signals: Map<u64, Signal>, signal_id: u64, amount: i128, now: u64) -> Result<
    Signal,
    AutoTradeError,
> {
    if amount <= 0 {
        Err(AutoTradeError::InvalidAmount)
    } else if !signals.contains_key(signal_id) {
        Err(AutoTradeError::SignalNotFound)
    } else if now > signals[signal_id].expiry {
        Err(AutoTradeError::SignalExpired)
    } else {
        Ok(signals[signal_id])
    }
}

/// The trade a request produces, or why it is refused.
pub open spec fn trade_outcome(
    signals: Map<u64, Signal>,
    user: AccountId,
    signal_id: u64,
    amount: i128,
    now: u64,
    o: TradeOutcomes,
) -> Result<Trade, AutoTradeError> {
    match request_check(signals, signal_id, amount, now) {
        Err(e) => Err(e),
        Ok(_) => if !o.authorized {
            Err(AutoTradeError::Unauthorized)
        } else if !o.sufficient_balance {
            Err(AutoTradeError::InsufficientBalance)
        } else {
            match o.risk_check {
                Err(e) => Err(e),
                Ok(_) => match o.fill {
                    Err(e) => Err(e),
                    Ok(f) => Ok(
                        Trade {
                            signal_id,
                            user,
                            requested_amount: amount,
                            executed_amount: f.executed_amount,
                            executed_price: f.executed_price,
                            timestamp: now,
                            status: status_of(f.executed_amount, amount),
                        },
                    ),
                },
            }
        },
    }
}

/// The state after a trade request: the trade is recorded under
/// `(user, signal_id)` when it was executed, and nothing changes otherwise.
pub open spec fn execute_step(
    m: AutoTradeModel,
    user: AccountId,
    signal_id: u64,
    amount: i128,
    now: u64,
    o: TradeOutcomes,
) -> AutoTradeModel {
    match trade_outcome(m.signals, user, signal_id, amount, now, o) {
        Ok(t) => AutoTradeModel { trades: m.trades.insert((user, signal_id), t), ..m },
        Err(_) => m,
    }
}

/// The platform fee on an executed amount: 7%, rounded down.
pub open spec fn fee_of(executed: int) -> int {
    executed * PLATFORM_FEE_PERCENT / 100
}

/// The actions trade `t` on a signal of base asset `asset` asks for. A
/// buy raises the position by the executed amount at the executed price.
pub open spec fn effects_of(t: Trade, asset: u32, o: TradeOutcomes) -> TradeEffects {
    TradeEffects {
        stop_loss_triggered: o.risk_check == Ok::<bool, AutoTradeError>(true),
        bookkeeping: if t.executed_amount > 0 {
            Some(
                TradeBookkeeping {
                    position: PositionUpdate {
                        asset,
                        amount: (o.current_position + t.executed_amount) as i128,
                        entry_price: t.executed_price,
                    },
                    platform_fee: fee_of(t.executed_amount as int) as i128,
                    history_fee: (fee_of(t.executed_amount as int) - o.referral_reward) as i128,
                    history_status: history_status_of(t.status),
                },
            )
        } else {
            None
        },
    }
}

/// The bookkeeping of trade `t` fits in `i128`.
pub open spec fn effects_fit(t: Trade, o: TradeOutcomes) -> bool {
    t.executed_amount > 0 ==> {
        &&& t.executed_amount * PLATFORM_FEE_PERCENT <= i128::MAX
        &&& i128::MIN <= o.current_position + t.executed_amount <= i128::MAX
        &&& i128::MIN <= fee_of(t.executed_amount as int) - o.referral_reward <= i128::MAX
    }
}

/// What `execute_trade` returns: the trade and its actions, or why refused.
pub open spec fn execution_result(
    signals: Map<u64, Signal>,
    user: AccountId,
    signal_id: u64,
    amount: i128,
    now: u64,
    o: TradeOutcomes,
) -> Result<(TradeResult, TradeEffects), AutoTradeError> {
    match trade_outcome(signals, user, signal_id, amount, now, o) {
        Ok(t) => Ok((TradeResult { trade: t }, effects_of(t, signals[signal_id].base_asset, o))),
        Err(e) => Err(e),
    }
}

/// The auto-trade error for an admin error.
pub open spec fn admin_error(e: AdminError) -> AutoTradeError {
    match e {
        AdminError::Unauthorized => AutoTradeError::Unauthorized,
        AdminError::PendingAdminNotFound => AutoTradeError::PendingAdminNotFound,
        AdminError::PendingAdminExpired => AutoTradeError::PendingAdminExpired,
    }
}

// ── Laws ─────────────────────────────────────────────────────────────────────

/// A trade that was executed is what a later lookup of `(user, signal_id)`
/// returns, and a refused request changes nothing.
pub proof fn law_executed_trade_is_recorded(
    m: AutoTradeModel,
    user: AccountId,
    signal_id: u64,
    amount: i128,
    now: u64,
    o: TradeOutcomes,
)
    ensures
        trade_outcome(m.signals, user, signal_id, amount, now, o) matches Ok(t) ==> {
            &&& execute_step(m, user, signal_id, amount, now, o).trades.contains_key((user, signal_id))
            &&& execute_step(m, user, signal_id, amount, now, o).trades[(user, signal_id)] == t
        },
        trade_outcome(m.signals, user, signal_id, amount, now, o) is Err ==> execute_step(
            m,
            user,
            signal_id,
            amount,
            now,
            o,
        ) == m,
        execute_step(m, user, signal_id, amount, now, o).signals == m.signals,
{
}

/// Every executed trade is fully, partially or not filled according to its
/// executed amount, never pending; a filled trade executed at least the
/// requested amount, a partial one strictly less but something.
pub proof fn law_trade_status_classification(executed: i128, requested: i128)
    ensures
        status_of(executed, requested) != TradeStatus::Pending,
        status_of(executed, requested) == TradeStatus::Failed <==> executed == 0,
        status_of(executed, requested) == TradeStatus::PartiallyFilled <==> (executed != 0 && executed
            < requested),
        status_of(executed, requested) == TradeStatus::Filled <==> (executed != 0 && executed
            >= requested),
        history_status_of(status_of(executed, requested)) == HistoryTradeStatus::Executed <==> executed
            != 0,
{
}

/// A request on a signal whose expiry has passed is refused, whatever the
/// outside checks report.
pub proof fn law_expired_signal_never_trades(
    m: AutoTradeModel,
    user: AccountId,
    signal_id: u64,
    amount: i128,
    now: u64,
    o: TradeOutcomes,
)
    requires
        m.signals.contains_key(signal_id),
        now > m.signals[signal_id].expiry,
    ensures
        trade_outcome(m.signals, user, signal_id, amount, now, o) is Err,
{
}

/// A trade that executed something asks to raise the position in the
/// signal's base asset by the executed amount at the executed price, and to
/// record a 7% platform fee less the referral reward under the history
/// status "executed"; a trade that executed nothing asks for no bookkeeping.
pub proof fn law_fill_bookkeeping(t: Trade, asset: u32, o: TradeOutcomes)
    requires
        t.status == status_of(t.executed_amount, t.requested_amount),
        effects_fit(t, o),
    ensures
        t.executed_amount <= 0 ==> effects_of(t, asset, o).bookkeeping is None,
        t.executed_amount > 0 ==> (effects_of(t, asset, o).bookkeeping matches Some(b) && b.position.asset
            == asset && b.position.amount == o.current_position + t.executed_amount
            && b.position.entry_price == t.executed_price && b.platform_fee == t.executed_amount * 7 / 100
            && b.history_fee == b.platform_fee - o.referral_reward && b.history_status
            == HistoryTradeStatus::Executed),
{
}

/// A trade that `execute_trade` returns records the requested amount, the
/// fill's amount and price, the request time and a status that is `Failed`
/// exactly when nothing was executed, `PartiallyFilled` exactly when
/// something but less than the request was executed, and `Filled` otherwise;
/// the same trade is what the state then holds for `(user, signal_id)`.
pub proof fn law_executed_trade_status(
    m: AutoTradeModel,
    user: AccountId,
    signal_id: u64,
    amount: i128,
    now: u64,
    o: TradeOutcomes,
)
    ensures
        execution_result(m.signals, user, signal_id, amount, now, o) matches Ok((res, _)) ==> {
            let t = res.trade;
            &&& o.fill matches Ok(f) && t.executed_amount == f.executed_amount && t.executed_price
                == f.executed_price
            &&& t.requested_amount == amount
            &&& t.user == user
            &&& t.signal_id == signal_id
            &&& t.timestamp == now
            &&& (t.status == TradeStatus::Failed <==> t.executed_amount == 0)
            &&& (t.status == TradeStatus::PartiallyFilled <==> (t.executed_amount != 0
                && t.executed_amount < amount))
            &&& (t.status == TradeStatus::Filled <==> (t.executed_amount != 0 && t.executed_amount
                >= amount))
            &&& execute_step(m, user, signal_id, amount, now, o).trades[(user, signal_id)] == t
        },
        execution_result(m.signals, user, signal_id, amount, now, o) is Ok <==> (amount > 0
            && m.signals.contains_key(signal_id) && now <= m.signals[signal_id].expiry && o.authorized
            && o.sufficient_balance && o.risk_check is Ok && o.fill is Ok),
{
}

// ── Executable code ──────────────────────────────────────────────────────────

/// The status of a trade that executed `executed` of `requested`.
pub fn trade_status(executed: i128, requested: i128) -> (s: TradeStatus)
    ensures
        s == status_of(executed, requested),
{
    if executed == 0 {
        TradeStatus::Failed
    } else if executed < requested {
        TradeStatus::PartiallyFilled
    } else {
        TradeStatus::Filled
    }
}

/// The history status recorded for a trade status.
pub fn history_status(status: TradeStatus) -> (h: HistoryTradeStatus)
    ensures
        h == history_status_of(status),
{
    match status {
        TradeStatus::Filled | TradeStatus::PartiallyFilled => HistoryTradeStatus::Executed,
        TradeStatus::Failed => HistoryTradeStatus::Failed,
        TradeStatus::Pending => HistoryTradeStatus::Pending,
    }
}

/// The platform fee on an executed amount: 7%, rounded down.
pub fn platform_fee(executed: i128) -> (fee: i128)
    requires
        0 <= executed,
        executed * PLATFORM_FEE_PERCENT <= i128::MAX,
    ensures
        fee == fee_of(executed as int),
        0 <= fee <= executed,
{
    executed * PLATFORM_FEE_PERCENT / 100
}

/// The position held after a fill: a sell lowers it, a buy raises it.
pub fn position_after_fill(current: i128, executed: i128, is_sell: bool) -> (r: i128)
    requires
        i128::MIN <= (if is_sell {
            current - executed
        } else {
            current + executed
        }) <= i128::MAX,
    ensures
        r == (if is_sell {
            current - executed
        } else {
            current + executed
        }),
{
    if is_sell {
        current - executed
    } else {
        current + executed
    }
}

/// The auto-trade contract's state: admin, signals, recorded trades.
pub struct AutoTradeContract {
    admin: Option<AdminState>,
    signals: KeyedStore<u64, Signal>,
    trades: KeyedStore<(AccountId, u64), Trade>,
}

impl View for AutoTradeContract {
    type V = AutoTradeModel;

    closed spec fn view(&self) -> AutoTradeModel {
        AutoTradeModel { admin: self.admin, signals: self.signals@, trades: self.trades@ }
    }
}

impl AutoTradeContract {
    /// A contract with no admin, no signals and no trades.
    pub fn new() -> (c: Self)
        ensures
            c@.admin is None,
            c@.signals == Map::<u64, Signal>::empty(),
            c@.trades == Map::<(AccountId, u64), Trade>::empty(),
    {
        AutoTradeContract { admin: None, signals: KeyedStore::new(), trades: KeyedStore::new() }
    }

    /// Sets the admin once; a second call is refused with `AlreadyInitialized`.
    pub fn initialize(&mut self, admin: AccountId) -> (r: Result<(), AutoTradeError>)
        ensures
            old(self)@.admin is Some ==> r == Err::<(), AutoTradeError>(AutoTradeError::AlreadyInitialized)
                && final(self)@ == old(self)@,
            old(self)@.admin is None ==> r is Ok && final(self)@ == (AutoTradeModel {
                admin: Some(AdminState { admin, pending: None, guardian: None }),
                ..old(self)@
            }),
    {
        if self.admin.is_some() {
            return Err(AutoTradeError::AlreadyInitialized);
        }
        self.admin = Some(AdminState::initialize(admin));
        Ok(())
    }

    /// The admin state, if initialized.
    pub fn admin_state(&self) -> (a: Option<AdminState>)
        ensures
            a == self@.admin,
    {
        self.admin
    }

    /// The signal stored under `id`, if any.
    pub fn get_signal(&self, id: u64) -> (s: Option<Signal>)
        ensures
            s == (if self@.signals.contains_key(id) {
                Some(self@.signals[id])
            } else {
                None
            }),
    {
        self.signals.get(&id)
    }

    /// Stores `signal` under `id`.
    pub fn set_signal(&mut self, id: u64, signal: Signal)
        ensures
            final(self)@ == (AutoTradeModel { signals: old(self)@.signals.insert(id, signal), ..old(self)@ }),
    {
        self.signals.set(id, signal);
    }

    /// The trade recorded for `user` on `signal_id`, if any.
    pub fn get_trade(&self, user: AccountId, signal_id: u64) -> (t: Option<Trade>)
        ensures
            t == (if self@.trades.contains_key((user, signal_id)) {
                Some(self@.trades[(user, signal_id)])
            } else {
                None
            }),
    {
        self.trades.get(&(user, signal_id))
    }

    /// The checks made before any outside step: the amount is positive, the
    /// signal exists and has not expired at `now`. `Ok` carries the signal.
    pub fn check_trade_request(&self, signal_id: u64, amount: i128, now: u64) -> (r: Result<Signal, AutoTradeError>)
        ensures
            r == request_check(self@.signals, signal_id, amount, now),
    {
        if amount <= 0 {
            return Err(AutoTradeError::InvalidAmount);
        }
        let signal = match self.signals.get(&signal_id) {
            Some(s) => s,
            None => {
                return Err(AutoTradeError::SignalNotFound);
            },
        };
        if now > signal.expiry {
            return Err(AutoTradeError::SignalExpired);
        }
        Ok(signal)
    }

    /// Executes a trade of `amount` for `user` on signal `signal_id` at time
    /// `now`, given what the outside steps reported, and records it; `Ok`
    /// also carries the actions the trade asks for (see `effects_of`).
    pub fn execute_trade(
        &mut self,
        user: AccountId,
        signal_id: u64,
        amount: i128,
        now: u64,
        outcomes: TradeOutcomes,
    ) -> (r: Result<(TradeResult, TradeEffects), AutoTradeError>)
        requires
            trade_outcome(old(self)@.signals, user, signal_id, amount, now, outcomes) matches Ok(t)
                ==> effects_fit(t, outcomes),
        ensures
            r == execution_result(old(self)@.signals, user, signal_id, amount, now, outcomes),
            final(self)@ == execute_step(old(self)@, user, signal_id, amount, now, outcomes),
    {
        let signal = match self.check_trade_request(signal_id, amount, now) {
            Ok(s) => s,
            Err(e) => {
                return Err(e);
            },
        };
        if !outcomes.authorized {
            return Err(AutoTradeError::Unauthorized);
        }
        if !outcomes.sufficient_balance {
            return Err(AutoTradeError::InsufficientBalance);
        }
        let stop_loss_triggered = match outcomes.risk_check {
            Err(e) => {
                return Err(e);
            },
            Ok(triggered) => triggered,
        };
        let fill = match outcomes.fill {
            Err(e) => {
                return Err(e);
            },
            Ok(f) => f,
        };
        let status = trade_status(fill.executed_amount, amount);
        let trade = Trade {
            signal_id,
            user,
            requested_amount: amount,
            executed_amount: fill.executed_amount,
            executed_price: fill.executed_price,
            timestamp: now,
            status,
        };
        self.trades.set((user, signal_id), trade);
        let bookkeeping = if fill.executed_amount > 0 {
            let fee = platform_fee(fill.executed_amount);
            Some(
                TradeBookkeeping {
                    position: PositionUpdate {
                        asset: signal.base_asset,
                        amount: position_after_fill(outcomes.current_position, fill.executed_amount, false),
                        entry_price: fill.executed_price,
                    },
                    platform_fee: fee,
                    history_fee: fee - outcomes.referral_reward,
                    history_status: history_status(status),
                },
            )
        } else {
            None
        };
        Ok((TradeResult { trade }, TradeEffects { stop_loss_triggered, bookkeeping }))
    }

    /// This contract's error for an admin error.
    fn lift_error(e: AdminError) -> (r: AutoTradeError)
        ensures
            r == admin_error(e),
    {
        match e {
            AdminError::Unauthorized => AutoTradeError::Unauthorized,
            AdminError::PendingAdminNotFound => AutoTradeError::PendingAdminNotFound,
            AdminError::PendingAdminExpired => AutoTradeError::PendingAdminExpired,
        }
    }

    /// The admin proposes `new_admin` (see `crate::admin`); `NotInitialized`
    /// before `initialize`.
    pub fn propose_admin_transfer(&mut self, caller: AccountId, new_admin: AccountId, now: u64) -> (r: Result<
        PendingAdmin,
        AutoTradeError,
    >)
        requires
            old(self)@.admin matches Some(a) && caller == a.admin ==> proposable_at(now),
        ensures
            old(self)@.admin is None ==> r == Err::<PendingAdmin, AutoTradeError>(
                AutoTradeError::NotInitialized,
            ) && final(self)@ == old(self)@,
            old(self)@.admin matches Some(a) ==> {
                let (a2, ra) = crate::admin::propose_step(a, caller, new_admin, now);
                &&& final(self)@ == (AutoTradeModel { admin: Some(a2), ..old(self)@ })
                &&& r == (match ra {
                    Ok(p) => Ok::<PendingAdmin, AutoTradeError>(p),
                    Err(e) => Err(admin_error(e)),
                })
            },
    {
        match self.admin {
            None => Err(AutoTradeError::NotInitialized),
            Some(a) => {
                let mut a = a;
                let r = a.propose_admin_transfer(caller, new_admin, now);
                self.admin = Some(a);
                match r {
                    Ok(p) => Ok(p),
                    Err(e) => Err(Self::lift_error(e)),
                }
            },
        }
    }

    /// The proposed admin accepts (see `crate::admin`); `Ok` carries the
    /// former admin.
    pub fn accept_admin_transfer(&mut self, caller: AccountId, now: u64) -> (r: Result<AccountId, AutoTradeError>)
        ensures
            old(self)@.admin is None ==> r == Err::<AccountId, AutoTradeError>(AutoTradeError::NotInitialized)
                && final(self)@ == old(self)@,
            old(self)@.admin matches Some(a) ==> {
                let (a2, ra) = crate::admin::accept_step(a, caller, now);
                &&& final(self)@ == (AutoTradeModel { admin: Some(a2), ..old(self)@ })
                &&& r == (match ra {
                    Ok(p) => Ok::<AccountId, AutoTradeError>(p),
                    Err(e) => Err(admin_error(e)),
                })
            },
    {
        match self.admin {
            None => Err(AutoTradeError::NotInitialized),
            Some(a) => {
                let mut a = a;
                let r = a.accept_admin_transfer(caller, now);
                self.admin = Some(a);
                match r {
                    Ok(former) => Ok(former),
                    Err(e) => Err(Self::lift_error(e)),
                }
            },
        }
    }

    /// The admin cancels the pending proposal (see `crate::admin`).
    pub fn cancel_admin_transfer(&mut self, caller: AccountId) -> (r: Result<(), AutoTradeError>)
        ensures
            old(self)@.admin is None ==> r == Err::<(), AutoTradeError>(AutoTradeError::NotInitialized)
                && final(self)@ == old(self)@,
            old(self)@.admin matches Some(a) ==> {
                let (a2, ra) = crate::admin::cancel_step(a, caller);
                &&& final(self)@ == (AutoTradeModel { admin: Some(a2), ..old(self)@ })
                &&& r == (match ra {
                    Ok(()) => Ok::<(), AutoTradeError>(()),
                    Err(e) => Err(admin_error(e)),
                })
            },
    {
        match self.admin {
            None => Err(AutoTradeError::NotInitialized),
            Some(a) => {
                let mut a = a;
                let r = a.cancel_admin_transfer(caller);
                self.admin = Some(a);
                match r {
                    Ok(()) => Ok(()),
                    Err(e) => Err(Self::lift_error(e)),
                }
            },
        }
    }

    /// The admin sets the guardian (see `crate::admin`).
    pub fn set_guardian(&mut self, caller: AccountId, guardian: AccountId) -> (r: Result<(), AutoTradeError>)
        ensures
            old(self)@.admin is None ==> r == Err::<(), AutoTradeError>(AutoTradeError::NotInitialized)
                && final(self)@ == old(self)@,
            old(self)@.admin matches Some(a) ==> {
                let (a2, ra) = crate::admin::set_guardian_step(a, caller, guardian);
                &&& final(self)@ == (AutoTradeModel { admin: Some(a2), ..old(self)@ })
                &&& r == (match ra {
                    Ok(()) => Ok::<(), AutoTradeError>(()),
                    Err(e) => Err(admin_error(e)),
                })
            },
    {
        match self.admin {
            None => Err(AutoTradeError::NotInitialized),
            Some(a) => {
                let mut a = a;
                let r = a.set_guardian(caller, guardian);
                self.admin = Some(a);
                match r {
                    Ok(()) => Ok(()),
                    Err(e) => Err(Self::lift_error(e)),
                }
            },
        }
    }
}

} // verus!
