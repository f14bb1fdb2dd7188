//! The operations on one grant. Each tests the state in which it finds the
//! grant, settles the grant, then changes it; an operation that fails leaves
//! the grant as it was.

use vstd::prelude::*;

use crate::address::Address;
use crate::optimized::{
    has_flag, has_status, mask_is_wf, mask_wf, mask_with, status_from_mask, status_of,
    transition_allowed, validate_status_transition, with_status, LedgerError,
};
use crate::self_terminate::{SelfTerminateError, STATUS_SELF_TERMINATED};
use crate::settlement::{
    settle_grant, settle_spec, Grant, INACTIVITY_THRESHOLD, RATE_CHANGE_TIMELOCK,
};
use crate::GrantStatus;

verus! {

/// A change of rate, as it is reported to those who audit the ledger.
#[derive(Clone, Copy, Debug, PartialEq, Eq)]
pub struct RateChange {
    /// The rate in force before the change.
    pub old_rate: i128,
    /// The rate asked for.
    pub new_rate: i128,
    /// The instant from which the new rate counts.
    pub effective_at: u64,
}

/// What the end of a grant by its recipient pays out.
#[derive(Clone, Copy, Debug, PartialEq, Eq)]
pub struct Payout {
    /// What goes to the recipient: all that was claimable.
    pub final_claimable: i128,
    /// What goes back to the one who funds the grants: all that had not
    /// accrued.
    pub refunded_amount: i128,
}

/// Whether an operation with the result `r` took `before` to `after` as
/// `expected` says: to the new grant on success, to the same grant with the
/// expected error on failure.
pub open spec fn committed<T>(
    before: Grant,
    after: Grant,
    r: Result<T, LedgerError>,
    expected: Result<Grant, LedgerError>,
) -> bool {
    match expected {
        Ok(g) => r is Ok && after == g,
        Err(e) => r is Err && r->Err_0 == e && after == before,
    }
}

impl Grant {
    /// The grant moved to the lifecycle state `status`.
    pub open spec fn moved_to(self, status: GrantStatus) -> Grant {
        Grant { status_mask: mask_with(self.status_mask, status), ..self }
    }

    /// The grant moved to the terminal state `status`: no rate is left in
    /// force or scheduled.
    pub open spec fn stopped(self, status: GrantStatus) -> Grant {
        Grant {
            flow_rate: 0,
            pending_rate: 0,
            effective_timestamp: 0,
            status_mask: mask_with(self.status_mask, status),
            ..self
        }
    }

    /// The grant that `create` makes, or why it makes none: the amount must
    /// be positive, the rate not negative, and the mask that of an active
    /// grant.
    pub open spec fn create_spec(
        recipient: Address,
        total_amount: i128,
        flow_rate: i128,
        initial_status_mask: u32,
        now: u64,
    ) -> Result<Grant, LedgerError> {
        if total_amount <= 0 {
            Err(LedgerError::InvalidAmount)
        } else if flow_rate < 0 {
            Err(LedgerError::InvalidRate)
        } else if !mask_wf(initial_status_mask) || status_of(initial_status_mask)
            != GrantStatus::Active {
            Err(LedgerError::InvalidStatusTransition)
        } else {
            Ok(
                Grant {
                    recipient,
                    total_amount,
                    withdrawn: 0,
                    claimable: 0,
                    flow_rate,
                    pending_rate: 0,
                    effective_timestamp: 0,
                    last_update_ts: now,
                    rate_updated_at: now,
                    last_claim_time: now,
                    status_mask: initial_status_mask,
                },
            )
        }
    }

    /// A withdrawal of `amount` at `now`. A cancelled grant pays nothing. The
    /// grant is settled first; the amount must be positive and no more than
    /// what is then claimable. A grant that has paid its total is completed.
    pub open spec fn withdraw_spec(self, amount: i128, now: u64) -> Result<Grant, LedgerError> {
        if self.status() == GrantStatus::Cancelled {
            Err(LedgerError::InvalidState)
        } else {
            match settle_spec(self, now) {
                Err(e) => Err(e),
                Ok(s) => if amount <= 0 || amount > s.claimable {
                    Err(LedgerError::InvalidAmount)
                } else if s.withdrawn + amount > i128::MAX {
                    Err(LedgerError::MathOverflow)
                } else {
                    let paid = Grant {
                        claimable: (s.claimable - amount) as i128,
                        withdrawn: (s.withdrawn + amount) as i128,
                        last_claim_time: now,
                        ..s
                    };
                    if paid.withdrawn == paid.total_amount {
                        Ok(paid.stopped(GrantStatus::Completed))
                    } else {
                        Ok(paid)
                    }
                },
            }
        }
    }

    /// A pause at `now`: only an active grant is paused. It is settled and
    /// then paused, also where the settlement took it to its total.
    pub open spec fn pause_spec(self, now: u64) -> Result<Grant, LedgerError> {
        if self.status() != GrantStatus::Active {
            Err(LedgerError::InvalidState)
        } else {
            match settle_spec(self, now) {
                Err(e) => Err(e),
                Ok(s) => Ok(s.moved_to(GrantStatus::Paused)),
            }
        }
    }

    /// A resumption at `now`: only a paused grant is resumed. It is settled,
    /// which accrues nothing, and made active.
    pub open spec fn resume_spec(self, now: u64) -> Result<Grant, LedgerError> {
        if self.status() != GrantStatus::Paused {
            Err(LedgerError::InvalidState)
        } else {
            match settle_spec(self, now) {
                Err(e) => Err(e),
                Ok(s) => Ok(s.moved_to(GrantStatus::Active)),
            }
        }
    }

    /// A cancellation at `now`: only an active or paused grant is cancelled.
    /// It is settled and stopped as cancelled, also where the settlement took
    /// it to its total. What was claimable stays on the books and can no
    /// longer be withdrawn.
    pub open spec fn cancel_spec(self, now: u64) -> Result<Grant, LedgerError> {
        if self.status() != GrantStatus::Active && self.status() != GrantStatus::Paused {
            Err(LedgerError::InvalidState)
        } else {
            match settle_spec(self, now) {
                Err(e) => Err(e),
                Ok(s) => Ok(Grant { rate_updated_at: now, ..s.stopped(GrantStatus::Cancelled) }),
            }
        }
    }

    /// An immediate change of rate at `now`: the rate must not be negative
    /// and the grant active or paused. The grant is settled and, unless the
    /// settlement took it to its total, gets the new rate. A scheduled increase
    /// is dropped.
    pub open spec fn update_rate_spec(self, new_rate: i128, now: u64) -> Result<Grant, LedgerError> {
        if new_rate < 0 {
            Err(LedgerError::InvalidRate)
        } else if self.status() != GrantStatus::Active && self.status() != GrantStatus::Paused {
            Err(LedgerError::InvalidState)
        } else {
            match settle_spec(self, now) {
                Err(e) => Err(e),
                Ok(s) => if s.status() != GrantStatus::Active && s.status()
                    != GrantStatus::Paused {
                    Err(LedgerError::InvalidState)
                } else {
                    Ok(
                        Grant {
                            flow_rate: new_rate,
                            pending_rate: 0,
                            effective_timestamp: 0,
                            rate_updated_at: now,
                            ..s
                        },
                    )
                },
            }
        }
    }

    /// A proposal of a rate at `now`: the rate must not be negative and the
    /// grant active. The grant is settled and must still be active then. A
    /// rate above the one in force is scheduled for
    /// `now + RATE_CHANGE_TIMELOCK`; any other is put in force at once, and a
    /// scheduled increase is dropped.
    pub open spec fn propose_rate_change_spec(self, new_rate: i128, now: u64) -> Result<
        Grant,
        LedgerError,
    > {
        if new_rate < 0 {
            Err(LedgerError::InvalidRate)
        } else if self.status() != GrantStatus::Active {
            Err(LedgerError::InvalidState)
        } else {
            match settle_spec(self, now) {
                Err(e) => Err(e),
                Ok(s) => if s.status() != GrantStatus::Active {
                    Err(LedgerError::InvalidState)
                } else if new_rate > s.flow_rate {
                    if now + RATE_CHANGE_TIMELOCK > u64::MAX {
                        Err(LedgerError::MathOverflow)
                    } else {
                        Ok(
                            Grant {
                                pending_rate: new_rate,
                                effective_timestamp: (now + RATE_CHANGE_TIMELOCK) as u64,
                                rate_updated_at: now,
                                ..s
                            },
                        )
                    }
                } else {
                    Ok(
                        Grant {
                            flow_rate: new_rate,
                            pending_rate: 0,
                            effective_timestamp: 0,
                            rate_updated_at: now,
                            ..s
                        },
                    )
                },
            }
        }
    }

    /// The instant from which a rate proposed at `now` counts on this grant,
    /// once settled: `now` itself unless the rate is an increase.
    pub open spec fn effective_at(self, new_rate: i128, now: u64) -> int {
        if new_rate > self.flow_rate {
            now + RATE_CHANGE_TIMELOCK
        } else {
            now as int
        }
    }

    /// A multiplication of the rates at `now`: the multiplier must be
    /// positive and the grant active. The grant is settled and must still be
    /// active then. The rate in force and the scheduled one are both
    /// multiplied; the schedule stays.
    pub open spec fn apply_kpi_multiplier_spec(self, multiplier: i128, now: u64) -> Result<
        Grant,
        LedgerError,
    > {
        if multiplier <= 0 {
            Err(LedgerError::InvalidRate)
        } else if self.status() != GrantStatus::Active {
            Err(LedgerError::InvalidState)
        } else {
            match settle_spec(self, now) {
                Err(e) => Err(e),
                Ok(s) => if s.status() != GrantStatus::Active {
                    Err(LedgerError::InvalidState)
                } else if s.flow_rate * multiplier > i128::MAX || s.flow_rate * multiplier
                    < i128::MIN || s.pending_rate * multiplier > i128::MAX || s.pending_rate
                    * multiplier < i128::MIN {
                    Err(LedgerError::MathOverflow)
                } else {
                    Ok(
                        Grant {
                            flow_rate: (s.flow_rate * multiplier) as i128,
                            pending_rate: (s.pending_rate * multiplier) as i128,
                            rate_updated_at: now,
                            ..s
                        },
                    )
                },
            }
        }
    }

    /// Whether the recipient has let the grant lie for the threshold by `now`.
    pub open spec fn inactive_at(self, now: u64) -> bool {
        now - self.last_claim_time >= INACTIVITY_THRESHOLD
    }

    /// A slash at `now`: only an active grant is slashed. It is settled, must
    /// have been inactive for the threshold, and is stopped as cancelled, also
    /// where the settlement took it to its total.
    pub open spec fn slash_spec(self, now: u64) -> Result<Grant, LedgerError> {
        if self.status() != GrantStatus::Active {
            Err(LedgerError::InvalidState)
        } else {
            match settle_spec(self, now) {
                Err(e) => Err(e),
                Ok(s) => if !s.inactive_at(now) {
                    Err(LedgerError::GrantNotInactive)
                } else if s.total_amount - s.withdrawn > i128::MAX || s.total_amount
                    - s.withdrawn < i128::MIN {
                    Err(LedgerError::MathOverflow)
                } else {
                    Ok(Grant { rate_updated_at: now, ..s.stopped(GrantStatus::Cancelled) })
                },
            }
        }
    }

    /// Whether the admin may give the grant the mask `new_mask`: the change is
    /// one that `transition_allowed` accepts, the new mask holds one lifecycle
    /// state, and the self-terminated bit is neither left nor set, for only the
    /// recipient ends a grant.
    pub open spec fn may_take_mask(self, new_mask: u32) -> bool {
        &&& transition_allowed(self.status_mask, new_mask)
        &&& !has_flag(self.status_mask, STATUS_SELF_TERMINATED)
        &&& !has_flag(new_mask, STATUS_SELF_TERMINATED)
        &&& mask_wf(new_mask)
    }

    /// A change of the mask at `now`: the bits of `flags_to_set` are set in
    /// the mask of the grant as it is found, then those of `flags_to_clear`
    /// cleared. The grant is settled and given the new mask; a grant that the
    /// new mask makes terminal is stopped.
    pub open spec fn set_flags_spec(self, flags_to_set: u32, flags_to_clear: u32, now: u64) -> Result<
        Grant,
        LedgerError,
    > {
        let new_mask = (self.status_mask | flags_to_set) & !flags_to_clear;
        if !self.may_take_mask(new_mask) {
            Err(LedgerError::InvalidStatusTransition)
        } else {
            match settle_spec(self, now) {
                Err(e) => Err(e),
                Ok(s) => if status_of(new_mask).terminal() {
                    Ok(
                        Grant {
                            flow_rate: 0,
                            pending_rate: 0,
                            effective_timestamp: 0,
                            rate_updated_at: now,
                            status_mask: new_mask,
                            ..s
                        },
                    )
                } else {
                    Ok(Grant { status_mask: new_mask, ..s })
                },
            }
        }
    }

    /// Why the recipient cannot end the grant, if so: it is ended, completed
    /// or cancelled already, or not yet active.
    pub open spec fn termination_bar(self) -> Option<LedgerError> {
        match self.status() {
            GrantStatus::SelfTerminated => Some(
                LedgerError::SelfTerminate(SelfTerminateError::AlreadyTerminated),
            ),
            GrantStatus::Completed => Some(
                LedgerError::SelfTerminate(SelfTerminateError::CannotTerminateCompleted),
            ),
            GrantStatus::Cancelled => Some(
                LedgerError::SelfTerminate(SelfTerminateError::CannotTerminateCancelled),
            ),
            GrantStatus::Proposed => Some(LedgerError::InvalidState),
            _ => None,
        }
    }

    /// What the end of the settled grant `self` pays out, if its books can be
    /// closed within `i128`: to the recipient what is claimable, back to the
    /// funder what has not accrued.
    pub open spec fn payout(self) -> Option<Payout> {
        let refund = self.total_amount - (self.withdrawn + self.claimable);
        let paid = self.withdrawn + self.claimable;
        if paid > i128::MAX || paid < i128::MIN || refund > i128::MAX || refund < i128::MIN {
            None
        } else {
            Some(Payout { final_claimable: self.claimable, refunded_amount: refund as i128 })
        }
    }

    /// What the books of a grant that its recipient ended show: for the
    /// recipient what is still claimable, for the funder what is neither
    /// claimable nor withdrawn. A grant that was not ended so has no such
    /// details.
    pub open spec fn termination_details_spec(self) -> Result<Payout, LedgerError> {
        if self.status() != GrantStatus::SelfTerminated {
            Err(LedgerError::InvalidState)
        } else {
            match self.payout() {
                Some(p) => Ok(p),
                None => Err(LedgerError::MathOverflow),
            }
        }
    }

    /// The end of the grant by its recipient at `now`: the grant must be
    /// active or paused; it is settled, what is claimable counts as withdrawn,
    /// and the grant is stopped as self-terminated.
    pub open spec fn self_terminate_spec(self, now: u64) -> Result<Grant, LedgerError> {
        match self.termination_bar() {
            Some(e) => Err(e),
            None => match settle_spec(self, now) {
                Err(e) => Err(e),
                Ok(s) => if s.payout() is None {
                    Err(LedgerError::MathOverflow)
                } else {
                    Ok(
                        Grant {
                            withdrawn: (s.withdrawn + s.claimable) as i128,
                            claimable: 0,
                            rate_updated_at: now,
                            ..s.stopped(GrantStatus::SelfTerminated)
                        },
                    )
                },
            },
        }
    }
}

impl Grant {
    /// The lifecycle state of the grant.
    pub fn get_status(&self) -> (r: GrantStatus)
        ensures
            r == self.status(),
    {
        status_from_mask(self.status_mask)
    }

    /// Whether the grant holds its invariant.
    pub fn is_wf(&self) -> (r: bool)
        ensures
            r == self.wf(),
    {
        let status = self.get_status();
        let scheduled = self.effective_timestamp != 0;
        let self_terminated = match status {
            GrantStatus::SelfTerminated => true,
            _ => false,
        };
        let proposed = match status {
            GrantStatus::Proposed => true,
            _ => false,
        };
        self.total_amount > 0 && self.withdrawn >= 0 && self.claimable >= 0 && self.withdrawn
            <= self.total_amount - self.claimable && self.flow_rate >= 0 && self.pending_rate >= 0
            && (!scheduled || self.pending_rate > self.flow_rate) && (scheduled
            || self.pending_rate == 0) && mask_is_wf(self.status_mask) && !proposed && (
        !status.is_terminal() || (self.flow_rate == 0 && !scheduled)) && (!self_terminated
            || self.claimable == 0)
    }

    fn stop(&mut self, status: GrantStatus)
        ensures
            *final(self) == old(self).stopped(status),
    {
        self.flow_rate = 0;
        self.pending_rate = 0;
        self.effective_timestamp = 0;
        self.status_mask = with_status(self.status_mask, status);
    }

    /// Makes an active grant of `total_amount` to `recipient` that starts to
    /// accrue at `now`.
    pub fn create(
        recipient: Address,
        total_amount: i128,
        flow_rate: i128,
        initial_status_mask: u32,
        now: u64,
    ) -> (r: Result<Grant, LedgerError>)
        ensures
            r == Grant::create_spec(recipient, total_amount, flow_rate, initial_status_mask, now),
    {
        if total_amount <= 0 {
            return Err(LedgerError::InvalidAmount);
        }
        if flow_rate < 0 {
            return Err(LedgerError::InvalidRate);
        }
        if !mask_is_wf(initial_status_mask) {
            return Err(LedgerError::InvalidStatusTransition);
        }
        match status_from_mask(initial_status_mask) {
            GrantStatus::Active => {},
            _ => {
                return Err(LedgerError::InvalidStatusTransition);
            },
        }
        Ok(
            Grant {
                recipient,
                total_amount,
                withdrawn: 0,
                claimable: 0,
                flow_rate,
                pending_rate: 0,
                effective_timestamp: 0,
                last_update_ts: now,
                rate_updated_at: now,
                last_claim_time: now,
                status_mask: initial_status_mask,
            },
        )
    }

    /// The grant as a settlement at `now` would leave it; the grant itself is
    /// not changed.
    pub fn preview(&self, now: u64) -> (r: Result<Grant, LedgerError>)
        ensures
            r == settle_spec(*self, now),
    {
        let mut g = *self;
        match settle_grant(&mut g, now) {
            Ok(()) => Ok(g),
            Err(e) => Err(e),
        }
    }

    /// Pays `amount` out of what is claimable at `now`.
    pub fn withdraw(&mut self, amount: i128, now: u64) -> (r: Result<(), LedgerError>)
        ensures
            committed(*old(self), *final(self), r, old(self).withdraw_spec(amount, now)),
    {
        match self.get_status() {
            GrantStatus::Cancelled => {
                return Err(LedgerError::InvalidState);
            },
            _ => {},
        }
        let mut g = *self;
        match settle_grant(&mut g, now) {
            Ok(()) => {},
            Err(e) => {
                return Err(e);
            },
        }
        if amount <= 0 || amount > g.claimable {
            return Err(LedgerError::InvalidAmount);
        }
        let withdrawn = match g.withdrawn.checked_add(amount) {
            Some(v) => v,
            None => {
                return Err(LedgerError::MathOverflow);
            },
        };
        g.claimable = g.claimable - amount;
        g.withdrawn = withdrawn;
        g.last_claim_time = now;
        if g.withdrawn == g.total_amount {
            g.stop(GrantStatus::Completed);
        }
        *self = g;
        Ok(())
    }

    /// Freezes the accrual of an active grant at `now`.
    pub fn pause(&mut self, now: u64) -> (r: Result<(), LedgerError>)
        ensures
            committed(*old(self), *final(self), r, old(self).pause_spec(now)),
    {
        match self.get_status() {
            GrantStatus::Active => {},
            _ => {
                return Err(LedgerError::InvalidState);
            },
        }
        let mut g = *self;
        match settle_grant(&mut g, now) {
            Ok(()) => {},
            Err(e) => {
                return Err(e);
            },
        }
        g.status_mask = with_status(g.status_mask, GrantStatus::Paused);
        *self = g;
        Ok(())
    }

    /// Lets a paused grant accrue again from `now`.
    pub fn resume(&mut self, now: u64) -> (r: Result<(), LedgerError>)
        ensures
            committed(*old(self), *final(self), r, old(self).resume_spec(now)),
    {
        match self.get_status() {
            GrantStatus::Paused => {},
            _ => {
                return Err(LedgerError::InvalidState);
            },
        }
        let mut g = *self;
        match settle_grant(&mut g, now) {
            Ok(()) => {},
            Err(e) => {
                return Err(e);
            },
        }
        g.status_mask = with_status(g.status_mask, GrantStatus::Active);
        *self = g;
        Ok(())
    }

    /// Cancels an active or paused grant at `now`.
    pub fn cancel(&mut self, now: u64) -> (r: Result<(), LedgerError>)
        ensures
            committed(*old(self), *final(self), r, old(self).cancel_spec(now)),
    {
        match self.get_status() {
            GrantStatus::Active | GrantStatus::Paused => {},
            _ => {
                return Err(LedgerError::InvalidState);
            },
        }
        let mut g = *self;
        match settle_grant(&mut g, now) {
            Ok(()) => {},
            Err(e) => {
                return Err(e);
            },
        }
        g.stop(GrantStatus::Cancelled);
        g.rate_updated_at = now;
        *self = g;
        Ok(())
    }

    /// Puts `new_rate` in force at `now` and reports the change.
    pub fn update_rate(&mut self, new_rate: i128, now: u64) -> (r: Result<RateChange, LedgerError>)
        ensures
            committed(*old(self), *final(self), r, old(self).update_rate_spec(new_rate, now)),
            r is Ok ==> r->Ok_0 == (RateChange {
                old_rate: settle_spec(*old(self), now)->Ok_0.flow_rate,
                new_rate,
                effective_at: now,
            }),
    {
        if new_rate < 0 {
            return Err(LedgerError::InvalidRate);
        }
        match self.get_status() {
            GrantStatus::Active | GrantStatus::Paused => {},
            _ => {
                return Err(LedgerError::InvalidState);
            },
        }
        let mut g = *self;
        match settle_grant(&mut g, now) {
            Ok(()) => {},
            Err(e) => {
                return Err(e);
            },
        }
        match g.get_status() {
            GrantStatus::Active | GrantStatus::Paused => {},
            _ => {
                return Err(LedgerError::InvalidState);
            },
        }
        let old_rate = g.flow_rate;
        g.flow_rate = new_rate;
        g.pending_rate = 0;
        g.effective_timestamp = 0;
        g.rate_updated_at = now;
        *self = g;
        Ok(RateChange { old_rate, new_rate, effective_at: now })
    }

    /// Proposes `new_rate` at `now` and reports the change: an increase waits
    /// for the timelock, any other rate counts at once.
    pub fn propose_rate_change(&mut self, new_rate: i128, now: u64) -> (r: Result<
        RateChange,
        LedgerError,
    >)
        ensures
            committed(
                *old(self),
                *final(self),
                r,
                old(self).propose_rate_change_spec(new_rate, now),
            ),
            r is Ok ==> r->Ok_0.old_rate == settle_spec(*old(self), now)->Ok_0.flow_rate
                && r->Ok_0.new_rate == new_rate && r->Ok_0.effective_at == settle_spec(
                *old(self),
                now,
            )->Ok_0.effective_at(new_rate, now),
    {
        if new_rate < 0 {
            return Err(LedgerError::InvalidRate);
        }
        match self.get_status() {
            GrantStatus::Active => {},
            _ => {
                return Err(LedgerError::InvalidState);
            },
        }
        let mut g = *self;
        match settle_grant(&mut g, now) {
            Ok(()) => {},
            Err(e) => {
                return Err(e);
            },
        }
        match g.get_status() {
            GrantStatus::Active => {},
            _ => {
                return Err(LedgerError::InvalidState);
            },
        }
        let old_rate = g.flow_rate;
        let effective_at = if new_rate > g.flow_rate {
            let at = match now.checked_add(RATE_CHANGE_TIMELOCK) {
                Some(v) => v,
                None => {
                    return Err(LedgerError::MathOverflow);
                },
            };
            g.pending_rate = new_rate;
            g.effective_timestamp = at;
            at
        } else {
            g.flow_rate = new_rate;
            g.pending_rate = 0;
            g.effective_timestamp = 0;
            now
        };
        g.rate_updated_at = now;
        *self = g;
        Ok(RateChange { old_rate, new_rate, effective_at })
    }

    /// Multiplies the rate in force and the scheduled one by `multiplier` at
    /// `now`.
    pub fn apply_kpi_multiplier(&mut self, multiplier: i128, now: u64) -> (r: Result<(), LedgerError>)
        ensures
            committed(
                *old(self),
                *final(self),
                r,
                old(self).apply_kpi_multiplier_spec(multiplier, now),
            ),
    {
        if multiplier <= 0 {
            return Err(LedgerError::InvalidRate);
        }
        match self.get_status() {
            GrantStatus::Active => {},
            _ => {
                return Err(LedgerError::InvalidState);
            },
        }
        let mut g = *self;
        match settle_grant(&mut g, now) {
            Ok(()) => {},
            Err(e) => {
                return Err(e);
            },
        }
        match g.get_status() {
            GrantStatus::Active => {},
            _ => {
                return Err(LedgerError::InvalidState);
            },
        }
        let flow_rate = match g.flow_rate.checked_mul(multiplier) {
            Some(v) => v,
            None => {
                return Err(LedgerError::MathOverflow);
            },
        };
        let pending_rate = match g.pending_rate.checked_mul(multiplier) {
            Some(v) => v,
            None => {
                return Err(LedgerError::MathOverflow);
            },
        };
        g.flow_rate = flow_rate;
        g.pending_rate = pending_rate;
        g.rate_updated_at = now;
        *self = g;
        Ok(())
    }

    /// Cancels an active grant whose recipient has withdrawn nothing for the
    /// threshold, and returns what goes to the treasury: the total less what
    /// was withdrawn, which may be nothing.
    pub fn slash_inactive(&mut self, now: u64) -> (r: Result<i128, LedgerError>)
        ensures
            committed(*old(self), *final(self), r, old(self).slash_spec(now)),
            r is Ok ==> r->Ok_0 == old(self).total_amount - old(self).withdrawn,
    {
        match self.get_status() {
            GrantStatus::Active => {},
            _ => {
                return Err(LedgerError::InvalidState);
            },
        }
        let mut g = *self;
        match settle_grant(&mut g, now) {
            Ok(()) => {},
            Err(e) => {
                return Err(e);
            },
        }
        if now < g.last_claim_time || now - g.last_claim_time < INACTIVITY_THRESHOLD {
            return Err(LedgerError::GrantNotInactive);
        }
        let refund = match g.total_amount.checked_sub(g.withdrawn) {
            Some(v) => v,
            None => {
                return Err(LedgerError::MathOverflow);
            },
        };
        g.stop(GrantStatus::Cancelled);
        g.rate_updated_at = now;
        *self = g;
        Ok(refund)
    }

    /// Ends an active or paused grant for its recipient at `now`, and returns
    /// what is paid out.
    pub fn self_terminate(&mut self, now: u64) -> (r: Result<Payout, LedgerError>)
        ensures
            committed(*old(self), *final(self), r, old(self).self_terminate_spec(now)),
            r is Ok ==> Some(r->Ok_0) == settle_spec(*old(self), now)->Ok_0.payout(),
    {
        match self.get_status() {
            GrantStatus::SelfTerminated => {
                return Err(LedgerError::SelfTerminate(SelfTerminateError::AlreadyTerminated));
            },
            GrantStatus::Completed => {
                return Err(LedgerError::SelfTerminate(SelfTerminateError::CannotTerminateCompleted));
            },
            GrantStatus::Cancelled => {
                return Err(LedgerError::SelfTerminate(SelfTerminateError::CannotTerminateCancelled));
            },
            GrantStatus::Proposed => {
                return Err(LedgerError::InvalidState);
            },
            _ => {},
        }
        let mut g = *self;
        match settle_grant(&mut g, now) {
            Ok(()) => {},
            Err(e) => {
                return Err(e);
            },
        }
        let paid = match g.withdrawn.checked_add(g.claimable) {
            Some(v) => v,
            None => {
                return Err(LedgerError::MathOverflow);
            },
        };
        let refund = match g.total_amount.checked_sub(paid) {
            Some(v) => v,
            None => {
                return Err(LedgerError::MathOverflow);
            },
        };
        let final_claimable = g.claimable;
        g.withdrawn = paid;
        g.claimable = 0;
        g.stop(GrantStatus::SelfTerminated);
        g.rate_updated_at = now;
        *self = g;
        Ok(Payout { final_claimable, refunded_amount: refund })
    }

    /// What the books of a grant that its recipient ended show.
    pub fn termination_details(&self) -> (r: Result<Payout, LedgerError>)
        ensures
            r == self.termination_details_spec(),
    {
        match self.get_status() {
            GrantStatus::SelfTerminated => {},
            _ => {
                return Err(LedgerError::InvalidState);
            },
        }
        let paid = match self.withdrawn.checked_add(self.claimable) {
            Some(v) => v,
            None => {
                return Err(LedgerError::MathOverflow);
            },
        };
        match self.total_amount.checked_sub(paid) {
            Some(refund) => Ok(Payout { final_claimable: self.claimable, refunded_amount: refund }),
            None => Err(LedgerError::MathOverflow),
        }
    }

    /// Sets the bits of `flags_to_set` in the mask of the grant, then clears
    /// those of `flags_to_clear`, at `now`.
    pub fn set_flags(&mut self, flags_to_set: u32, flags_to_clear: u32, now: u64) -> (r: Result<
        (),
        LedgerError,
    >)
        ensures
            committed(
                *old(self),
                *final(self),
                r,
                old(self).set_flags_spec(flags_to_set, flags_to_clear, now),
            ),
    {
        let current_mask = self.status_mask;
        let new_mask = (current_mask | flags_to_set) & !flags_to_clear;
        validate_status_transition(current_mask, new_mask)?;
        if has_status(current_mask, STATUS_SELF_TERMINATED) || has_status(
            new_mask,
            STATUS_SELF_TERMINATED,
        ) || !mask_is_wf(new_mask) {
            return Err(LedgerError::InvalidStatusTransition);
        }
        let mut g = *self;
        match settle_grant(&mut g, now) {
            Ok(()) => {},
            Err(e) => {
                return Err(e);
            },
        }
        if status_from_mask(new_mask).is_terminal() {
            g.flow_rate = 0;
            g.pending_rate = 0;
            g.effective_timestamp = 0;
            g.rate_updated_at = now;
        }
        g.status_mask = new_mask;
        *self = g;
        Ok(())
    }
}

} // verus!
