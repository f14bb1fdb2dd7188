//! A grant and its settlement: the conversion of elapsed time into claimable
//! balance.

use vstd::prelude::*;

use crate::address::Address;
use crate::optimized::{
    lemma_mask_with, mask_wf, mask_with, status_from_mask, status_of, with_status, LedgerError,
};
use crate::GrantStatus;

verus! {

/// Flow rates are stored multiplied by this factor, so that a small amount
/// over a long time still has a rate above zero.
pub const SCALING_FACTOR: i128 = 10_000_000;

/// The delay, in seconds, after which a proposed increase of the flow rate
/// takes effect (48 hours).
pub const RATE_CHANGE_TIMELOCK: u64 = 172_800;

/// The time, in seconds, without a withdrawal after which anyone may slash an
/// active grant (90 days).
pub const INACTIVITY_THRESHOLD: u64 = 7_776_000;

/// A commitment to stream `total_amount` to `recipient`.
#[derive(Clone, Copy, Debug, PartialEq, Eq)]
pub struct Grant {
    /// The principal entitled to withdraw.
    pub recipient: Address,
    /// The ceiling on what the grant pays out; fixed at creation.
    pub total_amount: i128,
    /// What has been paid out so far.
    pub withdrawn: i128,
    /// What has accrued and is not paid out yet.
    pub claimable: i128,
    /// The scaled amount that accrues per second.
    pub flow_rate: i128,
    /// A higher rate that is scheduled to replace `flow_rate`, or 0.
    pub pending_rate: i128,
    /// The instant from which `pending_rate` counts, or 0 where none is
    /// scheduled.
    pub effective_timestamp: u64,
    /// The instant up to which accrual is settled.
    pub last_update_ts: u64,
    /// The instant of the last operation that set the rate.
    pub rate_updated_at: u64,
    /// The instant of the last withdrawal, or of creation.
    pub last_claim_time: u64,
    /// The lifecycle state and the options of the grant, as bits.
    pub status_mask: u32,
}

impl Grant {
    /// The lifecycle state of the grant.
    pub open spec fn status(self) -> GrantStatus {
        status_of(self.status_mask)
    }

    /// Whether an increase of the rate is scheduled.
    pub open spec fn has_pending(self) -> bool {
        self.effective_timestamp != 0 && self.pending_rate > self.flow_rate
    }

    /// The accounting invariant of a grant: amounts are not negative and never
    /// exceed the total, rates are not negative, a scheduled rate is an
    /// increase, a grant in a terminal state has no rate left, and one that
    /// its recipient ended has nothing left to claim.
    pub open spec fn wf(self) -> bool {
        &&& self.total_amount > 0
        &&& self.withdrawn >= 0
        &&& self.claimable >= 0
        &&& self.withdrawn + self.claimable <= self.total_amount
        &&& self.flow_rate >= 0
        &&& self.pending_rate >= 0
        &&& self.effective_timestamp != 0 ==> self.pending_rate > self.flow_rate
        &&& self.effective_timestamp == 0 ==> self.pending_rate == 0
        &&& mask_wf(self.status_mask)
        &&& self.status() != GrantStatus::Proposed
        &&& self.status().terminal() ==> self.flow_rate == 0 && self.effective_timestamp == 0
        &&& self.status() == GrantStatus::SelfTerminated ==> self.claimable == 0
    }

    /// Whether a settlement at `now` accrues: the grant is active, time has
    /// passed, and a rate is in force or scheduled.
    pub open spec fn accrues_at(self, now: u64) -> bool {
        &&& self.status() == GrantStatus::Active
        &&& now > self.last_update_ts
        &&& (self.flow_rate != 0 || self.has_pending())
    }

    /// The instant in `last_update_ts ..= now` up to which `flow_rate` counts
    /// and from which `pending_rate` does.
    pub open spec fn switch_point(self, now: u64) -> u64 {
        if !self.has_pending() || self.effective_timestamp >= now {
            now
        } else if self.effective_timestamp <= self.last_update_ts {
            self.last_update_ts
        } else {
            self.effective_timestamp
        }
    }

    /// The scaled amount that accrues at `flow_rate` up to `now`.
    pub open spec fn scaled_before(self, now: u64) -> int {
        self.flow_rate * (self.switch_point(now) - self.last_update_ts)
    }

    /// The scaled amount that accrues at `pending_rate` up to `now`.
    pub open spec fn scaled_after(self, now: u64) -> int {
        self.pending_rate * (now - self.switch_point(now))
    }

    /// The amount that accrues up to `now`, before it is held to the total:
    /// each of the two stretches loses its fraction of a unit.
    pub open spec fn accrued(self, now: u64) -> int {
        self.scaled_before(now) / (SCALING_FACTOR as int) + self.scaled_after(now) / (
        SCALING_FACTOR as int)
    }

    /// What the grant can still accrue.
    pub open spec fn remaining(self) -> int {
        self.total_amount - (self.withdrawn + self.claimable)
    }

    /// What a settlement at `now` adds to `claimable`.
    pub open spec fn delta(self, now: u64) -> int {
        if self.accrued(now) > self.remaining() {
            self.remaining()
        } else {
            self.accrued(now)
        }
    }

    /// The grant after a settlement at `now` that accrues.
    pub open spec fn accrue(self, now: u64) -> Grant {
        let claimable = (self.claimable + self.delta(now)) as i128;
        if self.withdrawn + claimable == self.total_amount {
            Grant {
                claimable,
                flow_rate: 0,
                pending_rate: 0,
                effective_timestamp: 0,
                last_update_ts: now,
                status_mask: mask_with(self.status_mask, GrantStatus::Completed),
                ..self
            }
        } else if self.has_pending() && now >= self.effective_timestamp {
            Grant {
                claimable,
                flow_rate: self.pending_rate,
                pending_rate: 0,
                effective_timestamp: 0,
                last_update_ts: now,
                ..self
            }
        } else {
            Grant { claimable, last_update_ts: now, ..self }
        }
    }
}

/// The settlement of `g` at `now`. It fails where the clock went backward,
/// where the rate is negative, where the books hold more than the total, and
/// where a product or a sum leaves the range of `i128`. A grant that does not
/// accrue only has its `last_update_ts` moved to `now`.
pub open spec fn settle_spec(g: Grant, now: u64) -> Result<Grant, LedgerError> {
    if now < g.last_update_ts {
        Err(LedgerError::InvalidState)
    } else if !g.accrues_at(now) {
        Ok(Grant { last_update_ts: now, ..g })
    } else if g.flow_rate < 0 {
        Err(LedgerError::InvalidRate)
    } else if g.scaled_before(now) > i128::MAX || g.scaled_after(now) > i128::MAX {
        Err(LedgerError::MathOverflow)
    } else if g.withdrawn + g.claimable > i128::MAX || g.withdrawn + g.claimable < i128::MIN {
        Err(LedgerError::MathOverflow)
    } else if g.withdrawn + g.claimable > g.total_amount {
        Err(LedgerError::InvalidState)
    } else if g.remaining() > i128::MAX || g.claimable + g.delta(now) > i128::MAX {
        Err(LedgerError::MathOverflow)
    } else {
        Ok(g.accrue(now))
    }
}

/// Settles `grant` at `now`: on success the grant is `settle_spec` of the old
/// one, on failure it is unchanged.
pub fn settle_grant(grant: &mut Grant, now: u64) -> (r: Result<(), LedgerError>)
    ensures
        match settle_spec(*old(grant), now) {
            Ok(g) => r is Ok && *final(grant) == g,
            Err(e) => r == Err::<(), LedgerError>(e) && *final(grant) == *old(grant),
        },
{
    let g = *grant;
    if now < g.last_update_ts {
        return Err(LedgerError::InvalidState);
    }
    let pending = g.effective_timestamp != 0 && g.pending_rate > g.flow_rate;
    let active = match status_from_mask(g.status_mask) {
        GrantStatus::Active => true,
        _ => false,
    };
    if !active || now == g.last_update_ts || (g.flow_rate == 0 && !pending) {
        grant.last_update_ts = now;
        return Ok(());
    }
    if g.flow_rate < 0 {
        return Err(LedgerError::InvalidRate);
    }
    let switch: u64 = if !pending || g.effective_timestamp >= now {
        now
    } else if g.effective_timestamp <= g.last_update_ts {
        g.last_update_ts
    } else {
        g.effective_timestamp
    };
    let before_secs: i128 = (switch - g.last_update_ts) as i128;
    let after_secs: i128 = (now - switch) as i128;
    proof {
        assert(g.flow_rate * before_secs >= 0) by (nonlinear_arith)
            requires
                g.flow_rate >= 0,
                before_secs >= 0,
        ;
        assert(g.pending_rate * after_secs >= 0) by (nonlinear_arith)
            requires
                g.pending_rate >= 0 || after_secs == 0,
                after_secs >= 0,
        ;
    }
    let scaled_before = match g.flow_rate.checked_mul(before_secs) {
        Some(v) => v,
        None => {
            return Err(LedgerError::MathOverflow);
        },
    };
    let scaled_after = match g.pending_rate.checked_mul(after_secs) {
        Some(v) => v,
        None => {
            return Err(LedgerError::MathOverflow);
        },
    };
    let accrued: i128 = scaled_before / SCALING_FACTOR + scaled_after / SCALING_FACTOR;
    let accounted = match g.withdrawn.checked_add(g.claimable) {
        Some(v) => v,
        None => {
            return Err(LedgerError::MathOverflow);
        },
    };
    if accounted > g.total_amount {
        return Err(LedgerError::InvalidState);
    }
    let remaining = match g.total_amount.checked_sub(accounted) {
        Some(v) => v,
        None => {
            return Err(LedgerError::MathOverflow);
        },
    };
    let delta = if accrued > remaining {
        remaining
    } else {
        accrued
    };
    let claimable = match g.claimable.checked_add(delta) {
        Some(v) => v,
        None => {
            return Err(LedgerError::MathOverflow);
        },
    };
    grant.claimable = claimable;
    grant.last_update_ts = now;
    if g.withdrawn + claimable == g.total_amount {
        grant.flow_rate = 0;
        grant.pending_rate = 0;
        grant.effective_timestamp = 0;
        grant.status_mask = with_status(g.status_mask, GrantStatus::Completed);
    } else if pending && now >= g.effective_timestamp {
        grant.flow_rate = g.pending_rate;
        grant.pending_rate = 0;
        grant.effective_timestamp = 0;
    }
    Ok(())
}

/// Two settlements in a row: at `t1`, then at `t2`.
pub open spec fn settle_twice(g: Grant, t1: u64, t2: u64) -> Result<Grant, LedgerError> {
    match settle_spec(g, t1) {
        Ok(g1) => settle_spec(g1, t2),
        Err(e) => Err(e),
    }
}

impl Grant {
    /// The grant with its accrual taken as settled up to `t`.
    pub open spec fn restarted_at(self, t: u64) -> Grant {
        Grant { last_update_ts: t, ..self }
    }

    /// What the grant gains up to `t2` when it stops at `t1` on the way.
    pub open spec fn gain_in_two(self, t1: u64, t2: u64) -> int {
        let sum = self.accrued(t1) + self.restarted_at(t1).accrued(t2);
        if sum > self.remaining() {
            self.remaining()
        } else {
            sum
        }
    }

    /// Whether a stop at `t1` costs an active grant nothing of what it gains
    /// up to `t2`: the fractions of a unit that the stop cuts off add up to
    /// less than a unit, or the total is reached either way.
    pub open spec fn telescopes(self, t1: u64, t2: u64) -> bool {
        self.status() == GrantStatus::Active ==> self.gain_in_two(t1, t2) == self.delta(t2)
    }
}

proof fn lemma_times_zero(r: int)
    by (nonlinear_arith)
    ensures
        r * 0 == 0,
        0 * r == 0,
{
}

proof fn lemma_mul_mono(r: int, d1: int, d2: int)
    by (nonlinear_arith)
    requires
        r >= 0,
        0 <= d1 <= d2,
    ensures
        0 <= r * d1 <= r * d2,
{
}

/// A settlement keeps the invariant of a grant, moves `last_update_ts` to
/// `now`, leaves what was withdrawn alone and never lowers what is claimable;
/// a grant in a terminal state only has its `last_update_ts` moved. On a
/// grant that holds its invariant, a settlement fails only on a clock that
/// went backward or on an overflow.
pub proof fn lemma_settle_keeps_invariant(g: Grant, now: u64)
    requires
        g.wf(),
    ensures
        match settle_spec(g, now) {
            Ok(s) => {
                &&& s.wf()
                &&& s.last_update_ts == now
                &&& now >= g.last_update_ts
                &&& s.withdrawn == g.withdrawn
                &&& s.claimable >= g.claimable
                &&& s.total_amount == g.total_amount
                &&& s.recipient == g.recipient
                &&& s.rate_updated_at == g.rate_updated_at
                &&& s.last_claim_time == g.last_claim_time
                &&& s.status() == g.status() || (g.status() == GrantStatus::Active && s.status()
                    == GrantStatus::Completed)
                &&& g.status() != GrantStatus::Active ==> s == g.restarted_at(now)
            },
            Err(e) => {
                ||| e == LedgerError::InvalidState && now < g.last_update_ts
                ||| e == LedgerError::MathOverflow && g.accrues_at(now)
            },
        },
{
    lemma_mask_with(g.status_mask, GrantStatus::Completed);
    if now >= g.last_update_ts && g.accrues_at(now) {
        lemma_mul_mono(g.flow_rate as int, 0, g.switch_point(now) - g.last_update_ts);
        lemma_mul_mono(g.pending_rate as int, 0, now - g.switch_point(now));
    }
}

/// Stopping on the way changes nothing: a settlement at `t1` followed by one
/// at `t2` gives what one settlement at `t2` gives. Two kinds of stop are left
/// out, on which the two differ: one that cuts off a unit of accrual, and one
/// that lets two settlements succeed where the single one overflows.
pub proof fn lemma_settle_telescopes(g: Grant, t1: u64, t2: u64)
    requires
        g.wf(),
        g.last_update_ts <= t1 <= t2,
        settle_spec(g, t2) is Ok ==> g.telescopes(t1, t2),
        settle_spec(g, t2) is Err ==> settle_twice(g, t1, t2) is Err,
    ensures
        settle_twice(g, t1, t2) == settle_spec(g, t2),
{
    lemma_mask_with(g.status_mask, GrantStatus::Completed);
    lemma_settle_keeps_invariant(g, t1);
    lemma_settle_keeps_invariant(g, t2);
    if settle_spec(g, t2) is Err {
        if settle_spec(g, t1) is Ok {
            lemma_settle_keeps_invariant(settle_spec(g, t1)->Ok_0, t2);
        }
    } else if !g.accrues_at(t2) {
    } else if t1 == g.last_update_ts {
        assert(g.restarted_at(t1) == g);
    } else {
        let t0 = g.last_update_ts;
        let r = g.flow_rate as int;
        let p = g.pending_rate as int;
        lemma_mul_mono(r, g.switch_point(t1) - t0, g.switch_point(t2) - t0);
        lemma_mul_mono(p, t1 - g.switch_point(t1), t2 - g.switch_point(t2));
        assert(settle_spec(g, t1) is Ok);
        let g1 = settle_spec(g, t1)->Ok_0;
        assert(g1 == g.accrue(t1));
        if g.accrued(t1) >= g.remaining() {
            assert(g.accrued(t2) >= g.accrued(t1));
        } else {
            let h = g.restarted_at(t1);
            lemma_mul_mono(r, h.switch_point(t2) - t1, g.switch_point(t2) - t0);
            lemma_mul_mono(p, t2 - h.switch_point(t2), t2 - g.switch_point(t2));
            lemma_times_zero(r);
            lemma_times_zero(p);
            lemma_times_zero(0);
            if g.has_pending() && t1 >= g.effective_timestamp {
                assert(g1.switch_point(t2) == t2);
                assert(h.switch_point(t2) - t1 == 0);
                assert(t2 - g1.switch_point(t2) == 0);
                assert(g1.flow_rate == p && g1.pending_rate == 0);
                assert(g1.scaled_before(t2) == p * (t2 - t1));
                assert(h.scaled_after(t2) == p * (t2 - t1));
                assert(g1.scaled_after(t2) == 0);
                assert(h.scaled_before(t2) == 0);
            } else {
                assert(g1.switch_point(t2) == h.switch_point(t2));
                assert(g1.scaled_before(t2) == h.scaled_before(t2));
                assert(g1.scaled_after(t2) == h.scaled_after(t2));
            }
            assert(g1.accrued(t2) == h.accrued(t2));
        }
    }
}

/// A settlement that fails at `t1` fails in the same way at any later `t2`.
pub proof fn lemma_settle_failure_persists(g: Grant, t1: u64, t2: u64)
    requires
        g.wf(),
        g.last_update_ts <= t1 <= t2,
        settle_spec(g, t1) is Err,
    ensures
        settle_spec(g, t2) == settle_spec(g, t1),
{
    lemma_settle_keeps_invariant(g, t1);
    lemma_settle_keeps_invariant(g, t2);
    let t0 = g.last_update_ts;
    lemma_mul_mono(g.flow_rate as int, g.switch_point(t1) - t0, g.switch_point(t2) - t0);
    lemma_mul_mono(g.pending_rate as int, t1 - g.switch_point(t1), t2 - g.switch_point(t2));
}

proof fn lemma_whole_rate(rate: int, d: int)
    requires
        rate >= 0,
        d >= 0,
        rate % (SCALING_FACTOR as int) == 0,
    ensures
        (rate * d) / (SCALING_FACTOR as int) == (rate / (SCALING_FACTOR as int)) * d,
{
    let s = SCALING_FACTOR as int;
    let k = rate / s;
    assert(rate == s * k);
    assert(rate * d == s * (k * d)) by (nonlinear_arith)
        requires
            rate == s * k,
    ;
    vstd::arithmetic::div_mod::lemma_div_multiples_vanish(k * d, s);
}

proof fn lemma_split_product(k: int, a: int, b: int, c: int)
    by (nonlinear_arith)
    requires
        a + b == c,
    ensures
        k * a + k * b == k * c,
{
}

/// A grant whose rates are whole multiples of the scaling factor loses
/// nothing by a stop on the way.
pub proof fn lemma_whole_rates_telescope(g: Grant, t1: u64, t2: u64)
    requires
        g.wf(),
        g.last_update_ts <= t1 <= t2,
        g.flow_rate % SCALING_FACTOR == 0,
        g.pending_rate % SCALING_FACTOR == 0,
    ensures
        g.telescopes(t1, t2),
{
    let s = SCALING_FACTOR as int;
    let t0 = g.last_update_ts;
    let h = g.restarted_at(t1);
    let r = g.flow_rate as int;
    let p = g.pending_rate as int;
    lemma_whole_rate(r, g.switch_point(t1) - t0);
    lemma_whole_rate(r, h.switch_point(t2) - t1);
    lemma_whole_rate(r, g.switch_point(t2) - t0);
    lemma_whole_rate(p, t1 - g.switch_point(t1));
    lemma_whole_rate(p, t2 - h.switch_point(t2));
    lemma_whole_rate(p, t2 - g.switch_point(t2));
    lemma_split_product(
        r / s,
        g.switch_point(t1) - t0,
        h.switch_point(t2) - t1,
        g.switch_point(t2) - t0,
    );
    lemma_split_product(
        p / s,
        t1 - g.switch_point(t1),
        t2 - h.switch_point(t2),
        t2 - g.switch_point(t2),
    );
}

} // verus!
