//! Linear vesting: the share of a total that has vested by a given instant.

use vstd::prelude::*;

verus! {

/// The part of `total` that has vested at `now` when vesting starts at
/// `start` and takes `duration` seconds: nothing up to the start, all of it
/// from the end on, and in between the share of the time that has passed,
/// rounded down. With no duration all of it vests at the start.
pub open spec fn claimable_balance(total: u128, start: u64, now: u64, duration: u64) -> int {
    if duration == 0 {
        if now >= start {
            total as int
        } else {
            0
        }
    } else if now <= start {
        0
    } else if now - start >= duration {
        total as int
    } else {
        (total * (now - start)) / (duration as int)
    }
}

proof fn lemma_share(total: int, el: int, dur: int)
    requires
        0 <= total,
        0 <= el < dur,
    ensures
        (total / dur) * el + ((total % dur) * el) / dur == (total * el) / dur,
        0 <= (total / dur) * el <= total,
        0 <= (total % dur) * el < dur * dur,
        0 <= (total * el) / dur <= total,
{
    let whole = total / dur;
    let rem = total % dur;
    assert(total == dur * whole + rem && 0 <= rem < dur && 0 <= whole) by {
        vstd::arithmetic::div_mod::lemma_fundamental_div_mod(total, dur);
        vstd::arithmetic::div_mod::lemma_mod_bound(total, dur);
        vstd::arithmetic::div_mod::lemma_div_pos_is_pos(total, dur);
    }
    assert(0 <= whole * el <= whole * dur && 0 <= rem * el < dur * dur) by (nonlinear_arith)
        requires
            0 <= whole,
            0 <= el < dur,
            0 <= rem < dur,
    ;
    assert(total * el == rem * el + (whole * el) * dur) by (nonlinear_arith)
        requires
            total == dur * whole + rem,
    ;
    vstd::arithmetic::div_mod::lemma_hoist_over_denominator(rem * el, whole * el, dur as nat);
    assert(whole * dur == dur * whole) by (nonlinear_arith);
    assert((rem * el) / dur < dur) by (nonlinear_arith)
        requires
            0 <= rem * el < dur * dur,
            dur > 0,
    ;
    assert(0 <= (rem * el) / dur) by (nonlinear_arith)
        requires
            0 <= rem * el,
            dur > 0,
    ;
    assert((total * el) / dur <= total) by (nonlinear_arith)
        requires
            0 <= total,
            0 <= el < dur,
    ;
}

/// Computes the claimable balance of a linear vesting grant: `total` is the
/// amount granted, `start` the instant at which vesting starts, `now` the
/// instant asked about and `duration` the time that vesting takes.
pub fn compute_claimable_balance(total: u128, start: u64, now: u64, duration: u64) -> (r: u128)
    ensures
        r == claimable_balance(total, start, now, duration),
        r <= total,
{
    if duration == 0 {
        return if now >= start {
            total
        } else {
            0
        };
    }
    if now <= start {
        return 0;
    }
    let elapsed = now - start;
    if elapsed >= duration {
        return total;
    }
    let dur = duration as u128;
    let el = elapsed as u128;
    let whole = total / dur;
    let rem = total % dur;
    proof {
        lemma_share(total as int, el as int, dur as int);
        assert(dur * dur <= u128::MAX) by (nonlinear_arith)
            requires
                dur <= u64::MAX,
        ;
    }
    let part1 = whole * el;
    let part2 = (rem * el) / dur;
    part1 + part2
}

} // verus!
