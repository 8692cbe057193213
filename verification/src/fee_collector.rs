//! Fee collector: per-trade fee bounds and a time-locked treasury withdrawal.
//!
//! The admin first queues a withdrawal; the same withdrawal (recipient,
//! token, amount) can be executed once a day (86 400 s) has passed since it
//! was queued, and only while the treasury holds the amount.
use vstd::prelude::*;

use crate::store::KeyedStore;
use crate::AccountId;

verus! {

/// Seconds between queuing a withdrawal and executing it.
pub const WITHDRAWAL_TIMELOCK: u64 = 86400;

/// Default cap on a trade's fee (100 XLM in stroops).
pub const DEFAULT_MAX_FEE_PER_TRADE: i128 = 1_000_000_000;

/// Default floor on a trade's fee (0.01 XLM in stroops).
pub const DEFAULT_MIN_FEE_PER_TRADE: i128 = 100_000;

/// Why a fee collector request was refused.
#[derive(Clone, Copy, Debug, PartialEq, Eq, Structural)]
pub enum ContractError {
    AlreadyInitialized,
    NotInitialized,
    InvalidAmount,
    InsufficientTreasuryBalance,
    WithdrawalNotQueued,
    TimelockNotElapsed,
    ArithmeticOverflow,
    TradeTooSmall,
}

/// The fee collector's error type under its contract-facing name.
pub type FeeCollectorError = ContractError;

/// Bounds on the fee charged per trade.
#[derive(Clone, Copy, Debug, PartialEq, Eq, Structural)]
pub struct FeeConfig {
    pub max_fee_per_trade: i128,
    pub min_fee_per_trade: i128,
}

/// A withdrawal waiting for its time lock.
#[derive(Clone, Copy, Debug, PartialEq, Eq, Structural)]
pub struct QueuedWithdrawal {
    pub recipient: AccountId,
    pub token: AccountId,
    pub amount: i128,
    pub queued_at: u64,
}

/// Event: a withdrawal was queued and becomes executable at `available_at`.
#[derive(Clone, Copy, Debug, PartialEq, Eq, Structural)]
pub struct WithdrawalQueued {
    pub recipient: AccountId,
    pub token: AccountId,
    pub amount: i128,
    pub available_at: u64,
}

/// Event: a withdrawal was executed, leaving `remaining_balance`.
#[derive(Clone, Copy, Debug, PartialEq, Eq, Structural)]
pub struct TreasuryWithdrawal {
    pub recipient: AccountId,
    pub token: AccountId,
    pub amount: i128,
    pub remaining_balance: i128,
}

/// The abstract state of the fee collector.
pub struct FeeCollectorModel {
    pub admin: Option<AccountId>,
    pub treasury: Map<AccountId, i128>,
    pub queued: Option<QueuedWithdrawal>,
    pub config: FeeConfig,
}

// ── Specification ────────────────────────────────────────────────────────────

/// The treasury balance of `token` (0 when never set).
pub open spec fn balance_of(treasury: Map<AccountId, i128>, token: AccountId) -> i128 {
    if treasury.contains_key(token) {
        treasury[token]
    } else {
        0
    }
}

/// The default fee bounds.
pub open spec fn default_config() -> FeeConfig {
    FeeConfig { max_fee_per_trade: DEFAULT_MAX_FEE_PER_TRADE, min_fee_per_trade: DEFAULT_MIN_FEE_PER_TRADE }
}

/// The fee charged on a trade: refused when the trade is below the minimum
/// fee, otherwise the calculated fee raised to the minimum and lowered to
/// the maximum.
pub open spec fn fee_for(config: FeeConfig, trade_amount: i128, calculated_fee: i128) -> Result<i128, ContractError> {
    if trade_amount < config.min_fee_per_trade {
        Err(ContractError::TradeTooSmall)
    } else if calculated_fee > config.max_fee_per_trade {
        Ok(config.max_fee_per_trade)
    } else if calculated_fee < config.min_fee_per_trade {
        Ok(config.min_fee_per_trade)
    } else {
        Ok(calculated_fee)
    }
}

/// State and result of `queue_withdrawal` at time `now`.
pub open spec fn queue_step(
    m: FeeCollectorModel,
    recipient: AccountId,
    token: AccountId,
    amount: i128,
    now: u64,
) -> (FeeCollectorModel, Result<WithdrawalQueued, ContractError>) {
    if m.admin is None {
        (m, Err(ContractError::NotInitialized))
    } else if amount <= 0 {
        (m, Err(ContractError::InvalidAmount))
    } else if amount > balance_of(m.treasury, token) {
        (m, Err(ContractError::InsufficientTreasuryBalance))
    } else {
        (
            FeeCollectorModel {
                queued: Some(QueuedWithdrawal { recipient, token, amount, queued_at: now }),
                ..m
            },
            Ok(
                WithdrawalQueued {
                    recipient,
                    token,
                    amount,
                    available_at: (now + WITHDRAWAL_TIMELOCK) as u64,
                },
            ),
        )
    }
}

/// State and result of `withdraw_treasury_fees` at time `now`.
pub open spec fn withdraw_step(
    m: FeeCollectorModel,
    recipient: AccountId,
    token: AccountId,
    amount: i128,
    now: u64,
) -> (FeeCollectorModel, Result<TreasuryWithdrawal, ContractError>) {
    if m.admin is None {
        (m, Err(ContractError::NotInitialized))
    } else if !(m.queued matches Some(q) && q.recipient == recipient && q.token == token && q.amount
        == amount) {
        (m, Err(ContractError::WithdrawalNotQueued))
    } else if now < m.queued->0.queued_at + WITHDRAWAL_TIMELOCK {
        (m, Err(ContractError::TimelockNotElapsed))
    } else if amount > balance_of(m.treasury, token) {
        (m, Err(ContractError::InsufficientTreasuryBalance))
    } else if !(i128::MIN <= balance_of(m.treasury, token) - amount <= i128::MAX) {
        (m, Err(ContractError::ArithmeticOverflow))
    } else {
        let remaining = (balance_of(m.treasury, token) - amount) as i128;
        (
            FeeCollectorModel { treasury: m.treasury.insert(token, remaining), queued: None, ..m },
            Ok(TreasuryWithdrawal { recipient, token, amount, remaining_balance: remaining }),
        )
    }
}

// ── Laws ─────────────────────────────────────────────────────────────────────

/// A withdrawal goes through only if exactly that withdrawal was queued at
/// least a day earlier; it lowers the token's balance by the amount, clears
/// the queue and touches no other balance.
pub proof fn law_withdrawal_needs_matching_queue_and_timelock(
    m: FeeCollectorModel,
    recipient: AccountId,
    token: AccountId,
    amount: i128,
    now: u64,
)
    requires
        withdraw_step(m, recipient, token, amount, now).1 is Ok,
    ensures
        m.queued matches Some(q) && q.recipient == recipient && q.token == token && q.amount == amount
            && now >= q.queued_at + WITHDRAWAL_TIMELOCK,
        balance_of(withdraw_step(m, recipient, token, amount, now).0.treasury, token) == balance_of(
            m.treasury,
            token,
        ) - amount,
        withdraw_step(m, recipient, token, amount, now).0.queued is None,
        forall|t: AccountId|
            t != token ==> balance_of(#[trigger] withdraw_step(m, recipient, token, amount, now).0.treasury, t)
                == balance_of(m.treasury, t),
{
}

/// A withdrawal queued at `t` is executed by the same request at any time
/// from `t + 86400` on, leaving the balance minus the amount.
pub proof fn law_queue_then_withdraw(
    m: FeeCollectorModel,
    recipient: AccountId,
    token: AccountId,
    amount: i128,
    queued_at: u64,
    now: u64,
)
    requires
        queue_step(m, recipient, token, amount, queued_at).1 is Ok,
        now >= queued_at + WITHDRAWAL_TIMELOCK,
    ensures
        ({
            let m1 = queue_step(m, recipient, token, amount, queued_at).0;
            withdraw_step(m1, recipient, token, amount, now).1 == Ok::<TreasuryWithdrawal, ContractError>(
                TreasuryWithdrawal {
                    recipient,
                    token,
                    amount,
                    remaining_balance: (balance_of(m.treasury, token) - amount) as i128,
                },
            )
        }),
{
}

/// A queued withdrawal cannot be executed before its time lock has elapsed;
/// the refusal changes nothing.
pub proof fn law_early_withdrawal_refused(
    m: FeeCollectorModel,
    recipient: AccountId,
    token: AccountId,
    amount: i128,
    queued_at: u64,
    now: u64,
)
    requires
        queue_step(m, recipient, token, amount, queued_at).1 is Ok,
        now < queued_at + WITHDRAWAL_TIMELOCK,
    ensures
        ({
            let m1 = queue_step(m, recipient, token, amount, queued_at).0;
            &&& withdraw_step(m1, recipient, token, amount, now).1 == Err::<TreasuryWithdrawal, ContractError>(
                ContractError::TimelockNotElapsed,
            )
            &&& withdraw_step(m1, recipient, token, amount, now).0 == m1
        }),
{
}

/// A charged fee lies between the configured minimum and maximum (when the
/// minimum does not exceed the maximum) and equals the calculated fee when
/// that already lies between them.
pub proof fn law_fee_within_bounds(config: FeeConfig, trade_amount: i128, calculated_fee: i128)
    requires
        config.min_fee_per_trade <= config.max_fee_per_trade,
    ensures
        fee_for(config, trade_amount, calculated_fee) matches Ok(f) ==> config.min_fee_per_trade <= f
            <= config.max_fee_per_trade,
        trade_amount >= config.min_fee_per_trade && config.min_fee_per_trade <= calculated_fee
            <= config.max_fee_per_trade ==> fee_for(config, trade_amount, calculated_fee) == Ok::<
            i128,
            ContractError,
        >(calculated_fee),
{
}

/// Queuing succeeds exactly when the collector is initialized and the
/// amount is positive and at most the token's treasury balance (0 when never
/// set); it then queues that withdrawal at `now`, announces it available a
/// day later, and touches nothing else. A refusal changes nothing.
pub proof fn law_queue_succeeds_within_balance(
    m: FeeCollectorModel,
    recipient: AccountId,
    token: AccountId,
    amount: i128,
    now: u64,
)
    requires
        now <= u64::MAX - WITHDRAWAL_TIMELOCK,
    ensures
        ({
            let balance = if m.treasury.contains_key(token) {
                m.treasury[token]
            } else {
                0
            };
            let (m1, r) = queue_step(m, recipient, token, amount, now);
            &&& (m.admin is Some && 0 < amount <= balance) ==> {
                &&& r == Ok::<WithdrawalQueued, ContractError>(
                    WithdrawalQueued { recipient, token, amount, available_at: (now + 86400) as u64 },
                )
                &&& m1.queued == Some(QueuedWithdrawal { recipient, token, amount, queued_at: now })
                &&& m1.admin == m.admin && m1.treasury == m.treasury && m1.config == m.config
            }
            &&& !(m.admin is Some && 0 < amount <= balance) ==> r is Err && m1 == m
        }),
{
}

// ── Executable code ──────────────────────────────────────────────────────────

/// The fee collector's state: admin (set by `initialize`), treasury balances
/// per token, the queued withdrawal and the fee bounds.
pub struct FeeCollector {
    admin: Option<AccountId>,
    treasury: KeyedStore<AccountId, i128>,
    queued: Option<QueuedWithdrawal>,
    config: FeeConfig,
}

impl View for FeeCollector {
    type V = FeeCollectorModel;

    closed spec fn view(&self) -> FeeCollectorModel {
        FeeCollectorModel {
            admin: self.admin,
            treasury: self.treasury@,
            queued: self.queued,
            config: self.config,
        }
    }
}

impl FeeCollector {
    /// An uninitialized collector with empty treasury and default fee bounds.
    pub fn new() -> (c: Self)
        ensures
            c@.admin is None,
            c@.treasury == Map::<AccountId, i128>::empty(),
            c@.queued is None,
            c@.config == default_config(),
    {
        FeeCollector {
            admin: None,
            treasury: KeyedStore::new(),
            queued: None,
            config: FeeConfig {
                max_fee_per_trade: DEFAULT_MAX_FEE_PER_TRADE,
                min_fee_per_trade: DEFAULT_MIN_FEE_PER_TRADE,
            },
        }
    }

    /// Sets the admin once; a second call is refused with `AlreadyInitialized`.
    pub fn initialize(&mut self, admin: AccountId) -> (r: Result<(), ContractError>)
        ensures
            old(self)@.admin is Some ==> r == Err::<(), ContractError>(ContractError::AlreadyInitialized)
                && final(self)@ == old(self)@,
            old(self)@.admin is None ==> r is Ok && final(self)@ == (FeeCollectorModel {
                admin: Some(admin),
                ..old(self)@
            }),
    {
        if self.admin.is_some() {
            return Err(ContractError::AlreadyInitialized);
        }
        self.admin = Some(admin);
        Ok(())
    }

    /// Whether `initialize` has run.
    pub fn is_initialized(&self) -> (b: bool)
        ensures
            b == self@.admin is Some,
    {
        self.admin.is_some()
    }

    /// The admin, once initialized.
    pub fn get_admin(&self) -> (a: Option<AccountId>)
        ensures
            a == self@.admin,
    {
        self.admin
    }

    /// The treasury balance of `token` (0 when never set).
    pub fn get_treasury_balance(&self, token: AccountId) -> (b: i128)
        ensures
            b == balance_of(self@.treasury, token),
    {
        match self.treasury.get(&token) {
            Some(b) => b,
            None => 0,
        }
    }

    /// Records the treasury balance of `token`.
    pub fn set_treasury_balance(&mut self, token: AccountId, balance: i128)
        ensures
            final(self)@ == (FeeCollectorModel {
                treasury: old(self)@.treasury.insert(token, balance),
                ..old(self)@
            }),
    {
        self.treasury.set(token, balance);
    }

    /// The queued withdrawal, if any.
    pub fn get_queued_withdrawal(&self) -> (q: Option<QueuedWithdrawal>)
        ensures
            q == self@.queued,
    {
        self.queued
    }

    /// Records `q` as the queued withdrawal.
    pub fn set_queued_withdrawal(&mut self, q: QueuedWithdrawal)
        ensures
            final(self)@ == (FeeCollectorModel { queued: Some(q), ..old(self)@ }),
    {
        self.queued = Some(q);
    }

    /// Forgets the queued withdrawal.
    pub fn remove_queued_withdrawal(&mut self)
        ensures
            final(self)@ == (FeeCollectorModel { queued: None, ..old(self)@ }),
    {
        self.queued = None;
    }

    /// The treasury balance of `token`; `NotInitialized` before `initialize`.
    pub fn treasury_balance(&self, token: AccountId) -> (r: Result<i128, ContractError>)
        ensures
            r == (if self@.admin is None {
                Err(ContractError::NotInitialized)
            } else {
                Ok::<i128, ContractError>(balance_of(self@.treasury, token))
            }),
    {
        if !self.is_initialized() {
            return Err(ContractError::NotInitialized);
        }
        Ok(self.get_treasury_balance(token))
    }

    /// Queues a withdrawal of `amount` of `token` to `recipient` at `now`,
    /// replacing any earlier one; `Ok` carries the event to publish.
    pub fn queue_withdrawal(&mut self, recipient: AccountId, token: AccountId, amount: i128, now: u64) -> (r:
        Result<WithdrawalQueued, ContractError>)
        requires
            old(self)@.admin is Some && 0 < amount <= balance_of(old(self)@.treasury, token) ==> now
                <= u64::MAX - WITHDRAWAL_TIMELOCK,
        ensures
            (final(self)@, r) == queue_step(old(self)@, recipient, token, amount, now),
    {
        if !self.is_initialized() {
            return Err(ContractError::NotInitialized);
        }
        if amount <= 0 {
            return Err(ContractError::InvalidAmount);
        }
        if amount > self.get_treasury_balance(token) {
            return Err(ContractError::InsufficientTreasuryBalance);
        }
        self.queued = Some(QueuedWithdrawal { recipient, token, amount, queued_at: now });
        Ok(WithdrawalQueued { recipient, token, amount, available_at: now + WITHDRAWAL_TIMELOCK })
    }

    /// Executes the queued withdrawal at `now`; `Ok` carries the event to
    /// publish, and the caller transfers `amount` of `token` to `recipient`.
    pub fn withdraw_treasury_fees(
        &mut self,
        recipient: AccountId,
        token: AccountId,
        amount: i128,
        now: u64,
    ) -> (r: Result<TreasuryWithdrawal, ContractError>)
        ensures
            (final(self)@, r) == withdraw_step(old(self)@, recipient, token, amount, now),
    {
        if !self.is_initialized() {
            return Err(ContractError::NotInitialized);
        }
        let queued = match self.queued {
            Some(q) => {
                if q.recipient == recipient && q.token == token && q.amount == amount {
                    q
                } else {
                    return Err(ContractError::WithdrawalNotQueued);
                }
            },
            None => {
                return Err(ContractError::WithdrawalNotQueued);
            },
        };
        if now < queued.queued_at || now - queued.queued_at < WITHDRAWAL_TIMELOCK {
            return Err(ContractError::TimelockNotElapsed);
        }
        let balance = self.get_treasury_balance(token);
        if amount > balance {
            return Err(ContractError::InsufficientTreasuryBalance);
        }
        let new_balance = match balance.checked_sub(amount) {
            Some(b) => b,
            None => {
                return Err(ContractError::ArithmeticOverflow);
            },
        };
        self.set_treasury_balance(token, new_balance);
        self.queued = None;
        Ok(TreasuryWithdrawal { recipient, token, amount, remaining_balance: new_balance })
    }

    /// The fee bounds.
    pub fn get_fee_config(&self) -> (c: FeeConfig)
        ensures
            c == self@.config,
    {
        self.config
    }

    /// Replaces the fee bounds.
    pub fn set_fee_config(&mut self, config: FeeConfig)
        ensures
            final(self)@ == (FeeCollectorModel { config, ..old(self)@ }),
    {
        self.config = config;
    }

    /// The fee charged on a trade of `trade_amount` whose calculated fee is
    /// `calculated_fee` (see `fee_for`).
    pub fn collect_fee(&self, trade_amount: i128, calculated_fee: i128) -> (r: Result<i128, ContractError>)
        ensures
            r == fee_for(self@.config, trade_amount, calculated_fee),
    {
        let config = self.config;
        if trade_amount < config.min_fee_per_trade {
            return Err(ContractError::TradeTooSmall);
        }
        if calculated_fee > config.max_fee_per_trade {
            Ok(config.max_fee_per_trade)
        } else if calculated_fee < config.min_fee_per_trade {
            Ok(config.min_fee_per_trade)
        } else {
            Ok(calculated_fee)
        }
    }
}

} // verus!
