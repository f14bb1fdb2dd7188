use grant_contracts::address::Address;
use grant_contracts::optimized::{status_from_mask, LedgerError, STATUS_ACTIVE, STATUS_REVOCABLE};
use grant_contracts::settlement::{
    settle_grant, Grant, INACTIVITY_THRESHOLD, RATE_CHANGE_TIMELOCK, SCALING_FACTOR,
};
use grant_contracts::GrantStatus;

fn recipient() -> Address {
    Address::new([7; 56])
}

fn grant(total: i128, rate: i128, now: u64) -> Grant {
    Grant::create(recipient(), total, rate, STATUS_ACTIVE, now).unwrap()
}

fn settled(mut g: Grant, now: u64) -> Result<Grant, LedgerError> {
    settle_grant(&mut g, now).map(|_| g)
}

#[test]
fn constants_have_their_documented_values() {
    assert_eq!(SCALING_FACTOR, 10_000_000);
    assert_eq!(RATE_CHANGE_TIMELOCK, 48 * 60 * 60);
    assert_eq!(INACTIVITY_THRESHOLD, 90 * 24 * 60 * 60);
}

#[test]
fn settle_accrues_rate_times_elapsed_over_scale() {
    let g = grant(10_000, 10 * SCALING_FACTOR, 1_000);
    let s = settled(g, 1_100).unwrap();
    assert_eq!(s.claimable, 1_000);
    assert_eq!(s.last_update_ts, 1_100);
    assert_eq!(s.withdrawn, 0);
    assert_eq!(s.flow_rate, 10 * SCALING_FACTOR);
    assert_eq!(s.status_mask, STATUS_ACTIVE);
    assert_eq!(g.claimable, 0);
}

#[test]
fn settle_rounds_each_accrual_down() {
    let g = grant(10_000, 25_000_000 / 10, 0);
    assert_eq!(settled(g, 1).unwrap().claimable, 0);
    assert_eq!(settled(g, 3).unwrap().claimable, 0);
    assert_eq!(settled(g, 4).unwrap().claimable, 1);
    assert_eq!(settled(g, 7).unwrap().claimable, 1);
    assert_eq!(settled(g, 8).unwrap().claimable, 2);
}

#[test]
fn settle_rejects_a_clock_that_went_backward() {
    let mut g = grant(10_000, SCALING_FACTOR, 1_000);
    let before = g;
    assert_eq!(settle_grant(&mut g, 999), Err(LedgerError::InvalidState));
    assert_eq!(g, before);
}

#[test]
fn settle_rejects_a_negative_rate() {
    let mut g = grant(10_000, SCALING_FACTOR, 1_000);
    g.flow_rate = -1;
    let before = g;
    assert_eq!(settle_grant(&mut g, 1_001), Err(LedgerError::InvalidRate));
    assert_eq!(g, before);
    assert_eq!(settle_grant(&mut g, 1_000), Ok(()));
}

#[test]
fn settle_rejects_books_above_the_total() {
    let mut g = grant(100, SCALING_FACTOR, 0);
    g.withdrawn = 90;
    g.claimable = 20;
    assert_eq!(settle_grant(&mut g, 10), Err(LedgerError::InvalidState));
}

#[test]
fn settle_reports_overflow() {
    let mut g = grant(i128::MAX, i128::MAX, 0);
    let before = g;
    assert_eq!(settle_grant(&mut g, 2), Err(LedgerError::MathOverflow));
    assert_eq!(g, before);
    assert_eq!(settled(g, 1).unwrap().claimable, i128::MAX / SCALING_FACTOR);

    let mut books = grant(i128::MAX, SCALING_FACTOR, 0);
    books.withdrawn = i128::MAX;
    books.claimable = 1;
    assert_eq!(settle_grant(&mut books, 2), Err(LedgerError::MathOverflow));
}

#[test]
fn settle_without_accrual_only_moves_the_clock() {
    let zero_rate = grant(10_000, 0, 5);
    let s = settled(zero_rate, 500).unwrap();
    assert_eq!(s, Grant { last_update_ts: 500, ..zero_rate });

    let same_instant = grant(10_000, SCALING_FACTOR, 5);
    assert_eq!(settled(same_instant, 5).unwrap(), same_instant);

    let mut paused = grant(10_000, SCALING_FACTOR, 5);
    paused.pause(10).unwrap();
    let s = settled(paused, 500).unwrap();
    assert_eq!(s, Grant { last_update_ts: 500, ..paused });
    assert_eq!(s.claimable, 5);
}

#[test]
fn settle_clamps_at_the_total_and_completes() {
    let g = Grant::create(recipient(), 100, 10 * SCALING_FACTOR, STATUS_ACTIVE | STATUS_REVOCABLE, 0)
        .unwrap();
    let s = settled(g, 9).unwrap();
    assert_eq!(s.claimable, 90);
    assert_eq!(status_from_mask(s.status_mask), GrantStatus::Active);

    let s = settled(g, 10).unwrap();
    assert_eq!(s.claimable, 100);
    assert_eq!(s.flow_rate, 0);
    assert_eq!(status_from_mask(s.status_mask), GrantStatus::Completed);
    assert_eq!(s.status_mask & STATUS_REVOCABLE, STATUS_REVOCABLE);
    assert_eq!(s.status_mask & STATUS_ACTIVE, 0);

    let s = settled(g, 1_000).unwrap();
    assert_eq!(s.claimable, 100);
    assert_eq!(s.withdrawn + s.claimable, s.total_amount);

    let later = settled(s, 2_000).unwrap();
    assert_eq!(later, Grant { last_update_ts: 2_000, ..s });
}

#[test]
fn rate_increase_waits_for_the_timelock() {
    let mut g = grant(100_000_000, 10 * SCALING_FACTOR, 1_000);
    let change = g.propose_rate_change(25 * SCALING_FACTOR, 1_100).unwrap();
    let effective = 1_100 + RATE_CHANGE_TIMELOCK;
    assert_eq!(change.old_rate, 10 * SCALING_FACTOR);
    assert_eq!(change.new_rate, 25 * SCALING_FACTOR);
    assert_eq!(change.effective_at, effective);
    assert_eq!(g.claimable, 1_000);
    assert_eq!(g.flow_rate, 10 * SCALING_FACTOR);
    assert_eq!(g.pending_rate, 25 * SCALING_FACTOR);
    assert_eq!(g.effective_timestamp, effective);

    let before = settled(g, effective - 1).unwrap();
    assert_eq!(before.claimable, 1_000 + 10 * (RATE_CHANGE_TIMELOCK as i128 - 1));
    assert_eq!(before.flow_rate, 10 * SCALING_FACTOR);
    assert_eq!(before.pending_rate, 25 * SCALING_FACTOR);

    let at = settled(g, effective).unwrap();
    assert_eq!(at.claimable, 1_000 + 10 * RATE_CHANGE_TIMELOCK as i128);
    assert_eq!(at.flow_rate, 25 * SCALING_FACTOR);
    assert_eq!(at.pending_rate, 0);
    assert_eq!(at.effective_timestamp, 0);

    let after = settled(g, effective + 40).unwrap();
    assert_eq!(after.claimable, 1_000 + 10 * RATE_CHANGE_TIMELOCK as i128 + 40 * 25);
    assert_eq!(after.flow_rate, 25 * SCALING_FACTOR);

    assert_eq!(settled(at, effective + 40).unwrap(), after);
    assert_eq!(settled(before, effective + 40).unwrap(), after);
}

#[test]
fn rate_increase_from_zero_takes_effect_after_the_timelock() {
    let mut g = grant(1_000_000, 0, 0);
    g.propose_rate_change(SCALING_FACTOR, 10).unwrap();
    let effective = 10 + RATE_CHANGE_TIMELOCK;
    assert_eq!(settled(g, effective).unwrap().claimable, 0);
    assert_eq!(settled(g, effective).unwrap().flow_rate, SCALING_FACTOR);
    assert_eq!(settled(g, effective + 7).unwrap().claimable, 7);
}

#[test]
fn rate_decrease_applies_at_once_and_drops_a_pending_increase() {
    let mut g = grant(1_000_000, 10 * SCALING_FACTOR, 0);
    g.propose_rate_change(20 * SCALING_FACTOR, 10).unwrap();
    assert_eq!(g.pending_rate, 20 * SCALING_FACTOR);

    let change = g.propose_rate_change(4 * SCALING_FACTOR, 20).unwrap();
    assert_eq!(change.effective_at, 20);
    assert_eq!(g.flow_rate, 4 * SCALING_FACTOR);
    assert_eq!(g.pending_rate, 0);
    assert_eq!(g.effective_timestamp, 0);
    assert_eq!(g.claimable, 200);
    assert_eq!(settled(g, 30).unwrap().claimable, 240);
    assert_eq!(settled(g, 20 + RATE_CHANGE_TIMELOCK).unwrap().flow_rate, 4 * SCALING_FACTOR);
}

#[test]
fn settling_in_two_steps_equals_settling_once() {
    let mut g = grant(1_000_000, 3 * SCALING_FACTOR, 100);
    g.propose_rate_change(8 * SCALING_FACTOR, 150).unwrap();
    let effective = 150 + RATE_CHANGE_TIMELOCK;
    let stops = [150, 151, effective - 1, effective, effective + 1, effective + 500];
    for &t1 in stops.iter() {
        for &t2 in stops.iter() {
            if t1 <= t2 {
                let once = settled(g, t2).unwrap();
                let twice = settled(settled(g, t1).unwrap(), t2).unwrap();
                assert_eq!(twice, once);
            }
        }
    }
}

#[test]
fn settling_in_two_steps_reaches_the_total_like_settling_once() {
    let g = grant(1_000, 7 * SCALING_FACTOR, 0);
    for t1 in [0u64, 1, 142, 143, 200] {
        let once = settled(g, 300).unwrap();
        let twice = settled(settled(g, t1).unwrap(), 300).unwrap();
        assert_eq!(twice, once);
        assert_eq!(once.claimable, 1_000);
    }
}

#[test]
fn a_stop_that_cuts_a_fraction_loses_it() {
    let g = grant(1_000, SCALING_FACTOR / 2, 0);
    let once = settled(g, 2).unwrap();
    let twice = settled(settled(g, 1).unwrap(), 2).unwrap();
    assert_eq!(once.claimable, 1);
    assert_eq!(twice.claimable, 0);
}

#[test]
fn a_failed_settlement_fails_the_same_way_later() {
    let g = grant(i128::MAX, i128::MAX / 2, 0);
    assert!(settled(g, 2).is_ok());
    assert_eq!(settled(g, 3), Err(LedgerError::MathOverflow));
    assert_eq!(settled(g, 4), Err(LedgerError::MathOverflow));
    assert_eq!(settled(g, u64::MAX), Err(LedgerError::MathOverflow));
}

#[test]
fn preview_leaves_the_grant_alone() {
    let g = grant(10_000, 10 * SCALING_FACTOR, 1_000);
    let p = g.preview(1_050).unwrap();
    assert_eq!(p.claimable, 500);
    assert_eq!(g.claimable, 0);
    assert_eq!(g.last_update_ts, 1_000);
    assert_eq!(g.preview(10), Err(LedgerError::InvalidState));
}
