//! The escrow component itself: its value types, its mathematical model, and
//! the verified operations `instantiate`, `lock_admin_badges`,
//! `lock_upgrade_badges` and `get_lock_status`.

use vstd::prelude::*;

verus! {

/// How many attos (the smallest representable token fraction) make up one
/// whole token unit. Token amounts carry eighteen decimal places.
pub const ATTOS_PER_UNIT: u128 = 1_000_000_000_000_000_000;

/// A globally unique identifier for one fungible resource kind. The escrow
/// only ever compares identifiers for exact equality.
#[derive(Clone, Copy, Debug, PartialEq, Eq, Structural)]
pub struct ResourceId {
    pub hi: u128,
    pub lo: u128,
}

/// A non-negative token amount, held as a count of attos so that fractional
/// token quantities are exact plain values.
#[derive(Clone, Copy, Debug, PartialEq, Eq, Structural)]
pub struct Amount {
    pub attos: u128,
}

impl View for Amount {
    type V = nat;

    open spec fn view(&self) -> nat {
        self.attos as nat
    }
}

impl Amount {
    /// The zero amount.
    pub fn zero() -> (a: Amount)
        ensures
            a@ == 0,
    {
        Amount { attos: 0 }
    }

    /// An amount given directly in attos.
    pub fn from_attos(attos: u128) -> (a: Amount)
        ensures
            a@ == attos,
    {
        Amount { attos }
    }

    /// An amount given in whole token units.
    pub fn from_units(units: u64) -> (a: Amount)
        ensures
            a@ == units * ATTOS_PER_UNIT,
    {
        Amount { attos: (units as u128) * ATTOS_PER_UNIT }
    }
}

/// A point in ledger time, as whole seconds since the Unix epoch.
#[derive(Clone, Copy, Debug, PartialEq, Eq, Structural)]
pub struct Instant {
    pub seconds_since_unix_epoch: u64,
}

impl View for Instant {
    type V = int;

    open spec fn view(&self) -> int {
        self.seconds_since_unix_epoch as int
    }
}

/// Truncates a time in seconds down to whole-minute granularity.
pub open spec fn minute_floor(seconds: int) -> int {
    (seconds / 60) * 60
}

impl Instant {
    /// The same point in time, truncated down to whole-minute granularity.
    /// Event timestamps carry no sub-minute precision, by design.
    pub fn rounded_to_minutes(self) -> (r: Instant)
        ensures
            r@ == minute_floor(self@),
    {
        Instant { seconds_since_unix_epoch: (self.seconds_since_unix_epoch / 60) * 60 }
    }
}

/// An ephemeral transfer unit: a bucket of fungible tokens of one resource
/// kind, submitted by a caller. A successful lock consumes it entirely; a
/// rejected lock hands it back untouched. Deliberately neither `Copy` nor
/// `Clone`: a deposit stands for tokens, and tokens move.
#[derive(Debug, PartialEq, Eq, Structural)]
pub struct Deposit {
    pub resource: ResourceId,
    pub amount: Amount,
}

/// The mathematical value of a deposit: its resource identity and its amount
/// in attos.
pub struct DepositV {
    pub resource: ResourceId,
    pub amount: nat,
}

impl View for Deposit {
    type V = DepositV;

    open spec fn view(&self) -> DepositV {
        DepositV { resource: self.resource, amount: self.amount.attos as nat }
    }
}

/// The mathematical state of the escrow: the two cumulative locked amounts
/// and the two resource identities fixed at instantiation. It is also the
/// value of a `V1LockStatus` snapshot, which reports exactly this state.
pub struct EscrowV {
    pub admin_locked: nat,
    pub upgrade_locked: nat,
    pub admin_resource: ResourceId,
    pub upgrade_resource: ResourceId,
}

/// The state of a freshly instantiated escrow: nothing locked yet, the two
/// supplied identities recorded.
pub open spec fn fresh_escrow(admin_resource: ResourceId, upgrade_resource: ResourceId) -> EscrowV {
    EscrowV { admin_locked: 0, upgrade_locked: 0, admin_resource, upgrade_resource }
}

/// The state after one admin-kind lock attempt: the deposit is absorbed in
/// full when its resource identity matches the configured admin identity, and
/// the state is left untouched otherwise.
pub open spec fn after_lock_admin(s: EscrowV, d: DepositV) -> EscrowV {
    if d.resource == s.admin_resource {
        EscrowV { admin_locked: s.admin_locked + d.amount, ..s }
    } else {
        s
    }
}

/// The state after one upgrade-kind lock attempt, symmetric to
/// [`after_lock_admin`].
pub open spec fn after_lock_upgrade(s: EscrowV, d: DepositV) -> EscrowV {
    if d.resource == s.upgrade_resource {
        EscrowV { upgrade_locked: s.upgrade_locked + d.amount, ..s }
    } else {
        s
    }
}

/// The single failure the escrow itself can detect: the deposit's resource
/// identity is not the one configured for the targeted vault. The rejected
/// deposit rides along, so ownership returns to the caller in full.
#[derive(Debug, PartialEq, Eq, Structural)]
pub enum LockError {
    ResourceMismatch { returned: Deposit },
}

/// Notification of one successful admin-badge lock.
#[derive(Clone, Copy, Debug, PartialEq, Eq, Structural)]
pub struct V1AdminBadgesLockedEvent {
    pub badges_locked: Amount,
    pub total_locked_now: Amount,
    pub timestamp: Instant,
}

/// Notification of one successful upgrade-badge lock.
#[derive(Clone, Copy, Debug, PartialEq, Eq, Structural)]
pub struct V1UpgradeBadgeLockedEvent {
    pub badges_locked: Amount,
    pub total_locked_now: Amount,
    pub timestamp: Instant,
}

/// A read-only snapshot of the escrow: the two cumulative locked amounts and
/// the two expected resource identities.
#[derive(Clone, Copy, Debug, PartialEq, Eq, Structural)]
pub struct V1LockStatus {
    pub admin_badges_locked: Amount,
    pub upgrade_badges_locked: Amount,
    pub admin_badge_resource: ResourceId,
    pub upgrade_badge_resource: ResourceId,
}

impl View for V1LockStatus {
    type V = EscrowV;

    open spec fn view(&self) -> EscrowV {
        EscrowV {
            admin_locked: self.admin_badges_locked.attos as nat,
            upgrade_locked: self.upgrade_badges_locked.attos as nat,
            admin_resource: self.admin_badge_resource,
            upgrade_resource: self.upgrade_badge_resource,
        }
    }
}

/// The escrow component: two append-only vaults, one per badge kind, and the
/// two resource identities they accept, fixed at instantiation. No operation
/// withdraws, transfers or resets vault contents — the type has no such
/// method, which is the central design property.
pub struct V1AuthRelinquishment {
    v1_admin_badges_vault: Amount,
    v1_upgrade_badges_vault: Amount,
    v1_admin_badge_resource: ResourceId,
    v1_upgrade_badge_resource: ResourceId,
}

impl View for V1AuthRelinquishment {
    type V = EscrowV;

    closed spec fn view(&self) -> EscrowV {
        EscrowV {
            admin_locked: self.v1_admin_badges_vault.attos as nat,
            upgrade_locked: self.v1_upgrade_badges_vault.attos as nat,
            admin_resource: self.v1_admin_badge_resource,
            upgrade_resource: self.v1_upgrade_badge_resource,
        }
    }
}

impl V1AuthRelinquishment {
    /// Creates the escrow with two empty vaults, pinned to the two expected
    /// resource identities. The identities are not validated here — any pair
    /// is accepted, and validation is deferred to deposit time.
    pub fn instantiate(
        v1_admin_badge_resource: ResourceId,
        v1_upgrade_badge_resource: ResourceId,
    ) -> (c: Self)
        ensures
            c@ == fresh_escrow(v1_admin_badge_resource, v1_upgrade_badge_resource),
    {
        V1AuthRelinquishment {
            v1_admin_badges_vault: Amount::zero(),
            v1_upgrade_badges_vault: Amount::zero(),
            v1_admin_badge_resource,
            v1_upgrade_badge_resource,
        }
    }

    /// Rebuilds an escrow value from a status snapshot, for a host that
    /// persists the component state itself and rehydrates it per call.
    pub fn from_status(status: &V1LockStatus) -> (c: Self)
        ensures
            c@ == status@,
    {
        V1AuthRelinquishment {
            v1_admin_badges_vault: status.admin_badges_locked,
            v1_upgrade_badges_vault: status.upgrade_badges_locked,
            v1_admin_badge_resource: status.admin_badge_resource,
            v1_upgrade_badge_resource: status.upgrade_badge_resource,
        }
    }

    /// Permanently locks admin badges. The deposit is accepted if and only if
    /// its resource identity equals the configured admin identity; on success
    /// it is absorbed in full and the one notification for it is returned, on
    /// mismatch the state is untouched and the deposit rides back to the
    /// caller inside the error. `now` is the current ledger time; the
    /// notification timestamp is `now` truncated to whole minutes.
    pub fn lock_admin_badges(&mut self, v1_admin_badges: Deposit, now: Instant) -> (r: Result<
        V1AdminBadgesLockedEvent,
        LockError,
    >)
        requires
            v1_admin_badges@.resource == old(self)@.admin_resource ==> old(self)@.admin_locked
                + v1_admin_badges@.amount <= u128::MAX,
        ensures
            final(self)@ == after_lock_admin(old(self)@, v1_admin_badges@),
            r is Ok <==> v1_admin_badges@.resource == old(self)@.admin_resource,
            r matches Ok(ev) ==> {
                &&& ev.badges_locked@ == v1_admin_badges@.amount
                &&& ev.total_locked_now@ == final(self)@.admin_locked
                &&& ev.timestamp@ == minute_floor(now@)
            },
            r matches Err(e) ==> e == (LockError::ResourceMismatch { returned: v1_admin_badges }),
            final(self)@.admin_locked >= old(self)@.admin_locked,
            final(self)@.upgrade_locked == old(self)@.upgrade_locked,
            final(self)@.admin_resource == old(self)@.admin_resource,
            final(self)@.upgrade_resource == old(self)@.upgrade_resource,
    {
        if v1_admin_badges.resource == self.v1_admin_badge_resource {
            let locked_count = v1_admin_badges.amount;
            self.v1_admin_badges_vault = Amount::from_attos(
                self.v1_admin_badges_vault.attos + v1_admin_badges.amount.attos,
            );
            Ok(V1AdminBadgesLockedEvent {
                badges_locked: locked_count,
                total_locked_now: self.v1_admin_badges_vault,
                timestamp: now.rounded_to_minutes(),
            })
        } else {
            Err(LockError::ResourceMismatch { returned: v1_admin_badges })
        }
    }

    /// Permanently locks upgrade badges; structurally identical to
    /// [`Self::lock_admin_badges`] with the upgrade vault and identity in
    /// place of the admin ones.
    pub fn lock_upgrade_badges(&mut self, v1_upgrade_badges: Deposit, now: Instant) -> (r: Result<
        V1UpgradeBadgeLockedEvent,
        LockError,
    >)
        requires
            v1_upgrade_badges@.resource == old(self)@.upgrade_resource ==> old(
                self,
            )@.upgrade_locked + v1_upgrade_badges@.amount <= u128::MAX,
        ensures
            final(self)@ == after_lock_upgrade(old(self)@, v1_upgrade_badges@),
            r is Ok <==> v1_upgrade_badges@.resource == old(self)@.upgrade_resource,
            r matches Ok(ev) ==> {
                &&& ev.badges_locked@ == v1_upgrade_badges@.amount
                &&& ev.total_locked_now@ == final(self)@.upgrade_locked
                &&& ev.timestamp@ == minute_floor(now@)
            },
            r matches Err(e) ==> e == (LockError::ResourceMismatch { returned: v1_upgrade_badges }),
            final(self)@.upgrade_locked >= old(self)@.upgrade_locked,
            final(self)@.admin_locked == old(self)@.admin_locked,
            final(self)@.admin_resource == old(self)@.admin_resource,
            final(self)@.upgrade_resource == old(self)@.upgrade_resource,
    {
        if v1_upgrade_badges.resource == self.v1_upgrade_badge_resource {
            let locked_count = v1_upgrade_badges.amount;
            self.v1_upgrade_badges_vault = Amount::from_attos(
                self.v1_upgrade_badges_vault.attos + v1_upgrade_badges.amount.attos,
            );
            Ok(V1UpgradeBadgeLockedEvent {
                badges_locked: locked_count,
                total_locked_now: self.v1_upgrade_badges_vault,
                timestamp: now.rounded_to_minutes(),
            })
        } else {
            Err(LockError::ResourceMismatch { returned: v1_upgrade_badges })
        }
    }

    /// Reports the current lock status: the cumulative amount held in each
    /// vault and each vault's expected resource identity. Read-only, never
    /// fails, and reflects exactly the deposits committed before this call.
    pub fn get_lock_status(&self) -> (status: V1LockStatus)
        ensures
            status@ == self@,
    {
        V1LockStatus {
            admin_badges_locked: self.v1_admin_badges_vault,
            upgrade_badges_locked: self.v1_upgrade_badges_vault,
            admin_badge_resource: self.v1_admin_badge_resource,
            upgrade_badge_resource: self.v1_upgrade_badge_resource,
        }
    }
}

} // verus!
