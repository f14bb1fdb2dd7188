use grant_contracts::grant::compute_claimable_balance;
use grant_contracts::GrantError;

#[test]
fn nothing_vests_before_the_start() {
    assert_eq!(compute_claimable_balance(1_000, 100, 50, 10), 0);
    assert_eq!(compute_claimable_balance(1_000, 100, 100, 10), 0);
    assert_eq!(compute_claimable_balance(1_000, 100, 99, 0), 0);
}

#[test]
fn all_vests_from_the_end() {
    assert_eq!(compute_claimable_balance(1_000, 100, 110, 10), 1_000);
    assert_eq!(compute_claimable_balance(1_000, 100, u64::MAX, 10), 1_000);
    assert_eq!(compute_claimable_balance(1_000, 100, 100, 0), 1_000);
    assert_eq!(compute_claimable_balance(1_000, 100, 101, 0), 1_000);
}

#[test]
fn the_share_of_time_vests_in_between() {
    assert_eq!(compute_claimable_balance(1_000, 100, 105, 10), 500);
    assert_eq!(compute_claimable_balance(1_000, 100, 101, 3), 333);
    assert_eq!(compute_claimable_balance(1_000, 100, 102, 3), 666);
    assert_eq!(compute_claimable_balance(10, 0, 1, 3), 3);
    assert_eq!(compute_claimable_balance(10, 0, 2, 3), 6);
    assert_eq!(compute_claimable_balance(0, 0, 2, 3), 0);
}

#[test]
fn large_amounts_do_not_overflow() {
    assert_eq!(compute_claimable_balance(u128::MAX, 0, 1, 2), u128::MAX / 2);
    assert_eq!(
        compute_claimable_balance(u128::MAX, 0, u64::MAX - 1, u64::MAX),
        u128::MAX - u128::MAX / (u64::MAX as u128)
    );
    assert_eq!(compute_claimable_balance(u128::MAX - 1, 5, 6, u64::MAX), (u128::MAX - 1) / (u64::MAX as u128));
}

#[test]
fn vesting_never_exceeds_the_total_and_never_falls() {
    let mut last = 0;
    for now in 0..200u64 {
        let vested = compute_claimable_balance(12_345, 40, now, 97);
        assert!(vested <= 12_345);
        assert!(vested >= last);
        last = vested;
    }
    assert_eq!(last, 12_345);
}

#[test]
fn error_codes_count_from_one() {
    let all = [
        GrantError::GrantNotFound,
        GrantError::Unauthorized,
        GrantError::InvalidAmount,
        GrantError::MilestoneNotFound,
        GrantError::AlreadyApproved,
        GrantError::ExceedsTotalAmount,
        GrantError::InvalidStatus,
        GrantError::InvalidShares,
        GrantError::NotCouncilMember,
        GrantError::AlreadyVoted,
        GrantError::VotingExpired,
        GrantError::CliffNotPassed,
        GrantError::InvalidGrantee,
    ];
    for (i, e) in all.iter().enumerate() {
        assert_eq!(e.code(), i as u32 + 1);
    }
}
