//! Two-step admin hand-over.
//!
//! The current admin proposes a new admin; the transfer completes only when
//! the proposed address accepts, and only within 48 hours of the proposal.
//! The admin may cancel a pending proposal; a newer proposal replaces an older
//! one; an expired proposal is cleared when its acceptance is attempted.
use vstd::prelude::*;

use crate::AccountId;

verus! {

/// Seconds a proposed admin has to accept (48 hours).
pub const PENDING_ADMIN_EXPIRY_LEDGERS: u64 = 48 * 60 * 60;

/// Why an admin operation was refused.
#[derive(Clone, Copy, Debug, PartialEq, Eq, Structural)]
pub enum AdminError {
    /// The caller is not the account the operation needs.
    Unauthorized,
    /// No transfer is pending.
    PendingAdminNotFound,
    /// The pending transfer has expired.
    PendingAdminExpired,
}

/// A proposed transfer: who may accept, and until when (inclusive).
#[derive(Clone, Copy, Debug, PartialEq, Eq, Structural)]
pub struct PendingAdmin {
    pub new_admin: AccountId,
    pub expires_at: u64,
}

/// The admin, the pending transfer if any, and the guardian if any.
#[derive(Clone, Copy, Debug, PartialEq, Eq)]
pub struct AdminState {
    pub admin: AccountId,
    pub pending: Option<PendingAdmin>,
    pub guardian: Option<AccountId>,
}

// ── Specification ────────────────────────────────────────────────────────────

/// State and result of `propose_admin_transfer`.
pub open spec fn propose_step(s: AdminState, caller: AccountId, new_admin: AccountId, now: u64) -> (
    AdminState,
    Result<PendingAdmin, AdminError>,
) {
    if caller != s.admin {
        (s, Err(AdminError::Unauthorized))
    } else {
        let p = PendingAdmin { new_admin, expires_at: (now + PENDING_ADMIN_EXPIRY_LEDGERS) as u64 };
        (AdminState { pending: Some(p), ..s }, Ok(p))
    }
}

/// State and result of `accept_admin_transfer`; `Ok` carries the former admin.
pub open spec fn accept_step(s: AdminState, caller: AccountId, now: u64) -> (
    AdminState,
    Result<AccountId, AdminError>,
) {
    match s.pending {
        None => (s, Err(AdminError::PendingAdminNotFound)),
        Some(p) => if caller != p.new_admin {
            (s, Err(AdminError::Unauthorized))
        } else if now > p.expires_at {
            (AdminState { pending: None, ..s }, Err(AdminError::PendingAdminExpired))
        } else {
            (AdminState { admin: p.new_admin, pending: None, ..s }, Ok(s.admin))
        },
    }
}

/// State and result of `cancel_admin_transfer`.
pub open spec fn cancel_step(s: AdminState, caller: AccountId) -> (AdminState, Result<(), AdminError>) {
    if caller != s.admin {
        (s, Err(AdminError::Unauthorized))
    } else if s.pending is None {
        (s, Err(AdminError::PendingAdminNotFound))
    } else {
        (AdminState { pending: None, ..s }, Ok(()))
    }
}

/// State and result of `set_guardian`.
pub open spec fn set_guardian_step(s: AdminState, caller: AccountId, guardian: AccountId) -> (
    AdminState,
    Result<(), AdminError>,
) {
    if caller != s.admin {
        (s, Err(AdminError::Unauthorized))
    } else {
        (AdminState { guardian: Some(guardian), ..s }, Ok(()))
    }
}

/// Time bound under which a proposal's expiry fits in a `u64`.
pub open spec fn proposable_at(now: u64) -> bool {
    now <= u64::MAX - PENDING_ADMIN_EXPIRY_LEDGERS
}

// ── Laws ─────────────────────────────────────────────────────────────────────

/// A proposal by the admin, accepted by the proposed address no later than
/// 48 hours after the proposal, makes that address the admin and clears the
/// proposal.
pub proof fn law_propose_then_accept(
    s: AdminState,
    new_admin: AccountId,
    proposed_at: u64,
    accepted_at: u64,
)
    requires
        proposable_at(proposed_at),
        accepted_at <= proposed_at + PENDING_ADMIN_EXPIRY_LEDGERS,
    ensures
        ({
            let s1 = propose_step(s, s.admin, new_admin, proposed_at).0;
            let (s2, r) = accept_step(s1, new_admin, accepted_at);
            &&& r == Ok::<AccountId, AdminError>(s.admin)
            &&& s2.admin == new_admin
            &&& s2.pending is None
            &&& s2.guardian == s.guardian
        }),
{
}

/// A proposal cannot be accepted more than 48 hours after it was made: the
/// attempt fails with `PendingAdminExpired`, clears the proposal and leaves
/// the admin unchanged.
pub proof fn law_expired_transfer_cannot_be_accepted(
    s: AdminState,
    new_admin: AccountId,
    proposed_at: u64,
    accepted_at: u64,
)
    requires
        proposable_at(proposed_at),
        accepted_at > proposed_at + PENDING_ADMIN_EXPIRY_LEDGERS,
    ensures
        ({
            let s1 = propose_step(s, s.admin, new_admin, proposed_at).0;
            let (s2, r) = accept_step(s1, new_admin, accepted_at);
            &&& r == Err::<AccountId, AdminError>(AdminError::PendingAdminExpired)
            &&& s2.admin == s.admin
            &&& s2.pending is None
        }),
{
}

/// Only the proposed address can accept: any other caller is refused with
/// `Unauthorized` and the state is unchanged.
pub proof fn law_wrong_address_cannot_accept(s: AdminState, caller: AccountId, now: u64)
    requires
        s.pending is Some,
        caller != s.pending->0.new_admin,
    ensures
        accept_step(s, caller, now) == (s, Err::<AccountId, AdminError>(AdminError::Unauthorized)),
{
}

/// The admin never changes except through a successful acceptance.
pub proof fn law_admin_changes_only_on_accept(
    s: AdminState,
    caller: AccountId,
    other: AccountId,
    now: u64,
)
    ensures
        propose_step(s, caller, other, now).0.admin == s.admin,
        cancel_step(s, caller).0.admin == s.admin,
        set_guardian_step(s, caller, other).0.admin == s.admin,
        accept_step(s, caller, now).1 is Err ==> accept_step(s, caller, now).0.admin == s.admin,
{
}

/// After the admin cancels a proposal, the proposed address can no longer
/// accept it.
pub proof fn law_cancel_blocks_accept(s: AdminState, new_admin: AccountId, proposed_at: u64, now: u64)
    requires
        proposable_at(proposed_at),
    ensures
        ({
            let s1 = propose_step(s, s.admin, new_admin, proposed_at).0;
            let (s2, c) = cancel_step(s1, s.admin);
            let (s3, r) = accept_step(s2, new_admin, now);
            &&& c == Ok::<(), AdminError>(())
            &&& r == Err::<AccountId, AdminError>(AdminError::PendingAdminNotFound)
            &&& s3.admin == s.admin
        }),
{
}

/// A newer proposal replaces an older one: the first proposed address can no
/// longer accept, the second can.
pub proof fn law_latest_proposal_replaces_earlier(
    s: AdminState,
    first: AccountId,
    second: AccountId,
    t1: u64,
    t2: u64,
    now: u64,
)
    requires
        proposable_at(t1),
        proposable_at(t2),
        first != second,
        now <= t2 + PENDING_ADMIN_EXPIRY_LEDGERS,
    ensures
        ({
            let s1 = propose_step(s, s.admin, first, t1).0;
            let s2 = propose_step(s1, s.admin, second, t2).0;
            &&& accept_step(s2, first, now).1 == Err::<AccountId, AdminError>(AdminError::Unauthorized)
            &&& accept_step(s2, second, now).0.admin == second
        }),
{
}

/// After a completed transfer the former admin holds no admin rights.
pub proof fn law_former_admin_loses_rights(
    s: AdminState,
    caller: AccountId,
    now: u64,
    guardian: AccountId,
)
    requires
        accept_step(s, caller, now).1 is Ok,
        caller != s.admin,
    ensures
        set_guardian_step(accept_step(s, caller, now).0, s.admin, guardian).1
            == Err::<(), AdminError>(AdminError::Unauthorized),
        propose_step(accept_step(s, caller, now).0, s.admin, guardian, now).1
            == Err::<PendingAdmin, AdminError>(AdminError::Unauthorized),
{
}

// ── Executable code ──────────────────────────────────────────────────────────

impl AdminState {
    /// A state with `admin` as admin, nothing pending, no guardian.
    pub fn initialize(admin: AccountId) -> (s: AdminState)
        ensures
            s == (AdminState { admin, pending: None, guardian: None }),
    {
        AdminState { admin, pending: None, guardian: None }
    }

    /// `Ok` when `caller` is the admin, `Unauthorized` otherwise.
    pub fn require_admin(&self, caller: AccountId) -> (r: Result<(), AdminError>)
        ensures
            r == (if caller == self.admin {
                Ok::<(), AdminError>(())
            } else {
                Err(AdminError::Unauthorized)
            }),
    {
        if caller == self.admin {
            Ok(())
        } else {
            Err(AdminError::Unauthorized)
        }
    }

    /// The admin proposes `new_admin`; the proposal expires 48 hours from `now`
    /// and replaces any earlier one.
    pub fn propose_admin_transfer(&mut self, caller: AccountId, new_admin: AccountId, now: u64) -> (r:
        Result<PendingAdmin, AdminError>)
        requires
            caller == old(self).admin ==> proposable_at(now),
        ensures
            (*final(self), r) == propose_step(*old(self), caller, new_admin, now),
    {
        if caller != self.admin {
            return Err(AdminError::Unauthorized);
        }
        let p = PendingAdmin { new_admin, expires_at: now + PENDING_ADMIN_EXPIRY_LEDGERS };
        self.pending = Some(p);
        Ok(p)
    }

    /// The proposed admin accepts; `Ok` carries the former admin.
    pub fn accept_admin_transfer(&mut self, caller: AccountId, now: u64) -> (r: Result<AccountId, AdminError>)
        ensures
            (*final(self), r) == accept_step(*old(self), caller, now),
    {
        match self.pending {
            None => Err(AdminError::PendingAdminNotFound),
            Some(p) => {
                if caller != p.new_admin {
                    Err(AdminError::Unauthorized)
                } else if now > p.expires_at {
                    self.pending = None;
                    Err(AdminError::PendingAdminExpired)
                } else {
                    let former = self.admin;
                    self.admin = p.new_admin;
                    self.pending = None;
                    Ok(former)
                }
            },
        }
    }

    /// The admin withdraws the pending proposal.
    pub fn cancel_admin_transfer(&mut self, caller: AccountId) -> (r: Result<(), AdminError>)
        ensures
            (*final(self), r) == cancel_step(*old(self), caller),
    {
        if caller != self.admin {
            return Err(AdminError::Unauthorized);
        }
        if self.pending.is_none() {
            return Err(AdminError::PendingAdminNotFound);
        }
        self.pending = None;
        Ok(())
    }

    /// The admin sets the guardian.
    pub fn set_guardian(&mut self, caller: AccountId, guardian: AccountId) -> (r: Result<(), AdminError>)
        ensures
            (*final(self), r) == set_guardian_step(*old(self), caller, guardian),
    {
        if caller != self.admin {
            return Err(AdminError::Unauthorized);
        }
        self.guardian = Some(guardian);
        Ok(())
    }
}

} // verus!
