use grant_contracts::address::Address;
use grant_contracts::contract::{Config, GrantContract, Transfer};
use grant_contracts::lifecycle::RateChange;
use grant_contracts::optimized::{status_from_mask, LedgerError, STATUS_ACTIVE};
use grant_contracts::settlement::SCALING_FACTOR;
use grant_contracts::GrantStatus;

fn address(tag: u8) -> Address {
    Address::new([tag; 56])
}

fn admin() -> Address {
    address(1)
}

fn recipient() -> Address {
    address(2)
}

fn grant_token() -> Address {
    address(3)
}

fn ledger() -> GrantContract {
    let mut ledger = GrantContract::new();
    let config = Config {
        admin: admin(),
        oracle: address(4),
        treasury: address(5),
        grant_token: grant_token(),
    };
    ledger.initialize(admin(), config).unwrap();
    ledger
}

#[test]
fn test_update_rate_settles_before_changing_rate() {
    let mut client = ledger();
    let grant_id: u64 = 1;
    let rate_1: i128 = 10 * SCALING_FACTOR;
    let rate_2: i128 = 25 * SCALING_FACTOR;

    client
        .create_grant(admin(), grant_id, recipient(), 10_000, rate_1, STATUS_ACTIVE, 1_000)
        .unwrap();

    assert_eq!(client.claimable(grant_id, 1_100), Ok(1_000));

    let change = client.update_rate(admin(), grant_id, rate_2, 1_100).unwrap();
    assert_eq!(change, RateChange { old_rate: rate_1, new_rate: rate_2, effective_at: 1_100 });

    let grant_after_update = client.get_grant(grant_id, 1_100).unwrap();
    assert_eq!(grant_after_update.claimable, 1_000);
    assert_eq!(grant_after_update.flow_rate, rate_2);
    assert_eq!(grant_after_update.last_update_ts, 1_100);
    assert_eq!(grant_after_update.rate_updated_at, 1_100);

    assert_eq!(client.claimable(grant_id, 1_140), Ok(1_000 + 40 * 25));

    let paid = client.withdraw(recipient(), grant_id, 700, 1_140).unwrap();
    assert_eq!(paid, Transfer { to: recipient(), amount: 700 });
    assert_eq!(client.claimable(grant_id, 1_140), Ok(1_000 + 40 * 25 - 700));
    assert_eq!(client.get_grant(grant_id, 1_140).unwrap().withdrawn, 700);

    assert_eq!(client.claimable(grant_id, 1_150), Ok(1_000 + 50 * 25 - 700));
}

#[test]
fn test_update_rate_requires_admin_auth() {
    let mut client = ledger();
    let grant_id: u64 = 2;

    client
        .create_grant(admin(), grant_id, recipient(), 1_000, 5 * SCALING_FACTOR, STATUS_ACTIVE, 100)
        .unwrap();

    assert_eq!(
        client.update_rate(recipient(), grant_id, 7 * SCALING_FACTOR, 100),
        Err(LedgerError::NotAuthorized)
    );
    assert_eq!(client.get_grant(grant_id, 100).unwrap().flow_rate, 5 * SCALING_FACTOR);

    assert!(client.update_rate(admin(), grant_id, 7 * SCALING_FACTOR, 100).is_ok());
    assert_eq!(client.get_grant(grant_id, 100).unwrap().flow_rate, 7 * SCALING_FACTOR);
}

#[test]
fn test_update_rate_immediately_after_creation() {
    let mut client = ledger();
    let grant_id: u64 = 3;

    client
        .create_grant(admin(), grant_id, recipient(), 5_000, 4 * SCALING_FACTOR, STATUS_ACTIVE, 2_000)
        .unwrap();

    client.update_rate(admin(), grant_id, 9 * SCALING_FACTOR, 2_000).unwrap();

    let grant = client.get_grant(grant_id, 2_000).unwrap();
    assert_eq!(grant.claimable, 0);
    assert_eq!(grant.flow_rate, 9 * SCALING_FACTOR);
    assert_eq!(grant.last_update_ts, 2_000);

    assert_eq!(client.claimable(grant_id, 2_010), Ok(90));
}

#[test]
fn test_update_rate_multiple_times_with_time_gaps() {
    let mut client = ledger();
    let grant_id: u64 = 4;

    client
        .create_grant(admin(), grant_id, recipient(), 10_000, 3 * SCALING_FACTOR, STATUS_ACTIVE, 10)
        .unwrap();

    client.update_rate(admin(), grant_id, 5 * SCALING_FACTOR, 20).unwrap();
    client.update_rate(admin(), grant_id, 2 * SCALING_FACTOR, 40).unwrap();

    assert_eq!(client.claimable(grant_id, 70), Ok(30 + 100 + 60));
}

#[test]
fn test_update_rate_pause_then_resume() {
    let mut client = ledger();
    let grant_id: u64 = 5;

    client
        .create_grant(admin(), grant_id, recipient(), 20_000, 4 * SCALING_FACTOR, STATUS_ACTIVE, 1_000)
        .unwrap();

    client.update_rate(admin(), grant_id, 0, 1_050).unwrap();
    assert_eq!(client.claimable(grant_id, 1_050), Ok(200));

    assert_eq!(client.claimable(grant_id, 1_250), Ok(200));

    client.update_rate(admin(), grant_id, 6 * SCALING_FACTOR, 1_250).unwrap();

    assert_eq!(client.claimable(grant_id, 1_300), Ok(200 + 50 * 6));
}

#[test]
fn test_update_rate_rejects_invalid_rate_and_inactive_states() {
    let mut client = ledger();

    let negative_rate_grant: u64 = 6;
    client
        .create_grant(admin(), negative_rate_grant, recipient(), 1_000, 5 * SCALING_FACTOR, STATUS_ACTIVE, 0)
        .unwrap();
    assert_eq!(
        client.update_rate(admin(), negative_rate_grant, -1_i128, 0),
        Err(LedgerError::InvalidRate)
    );

    let cancelled_grant: u64 = 7;
    client
        .create_grant(admin(), cancelled_grant, recipient(), 1_000, 5 * SCALING_FACTOR, STATUS_ACTIVE, 0)
        .unwrap();
    client.cancel_grant(admin(), cancelled_grant, 0).unwrap();
    assert_eq!(client.update_rate(admin(), cancelled_grant, 8_i128, 0), Err(LedgerError::InvalidState));

    let completed_grant: u64 = 8;
    client
        .create_grant(admin(), completed_grant, recipient(), 100, 10 * SCALING_FACTOR, STATUS_ACTIVE, 0)
        .unwrap();
    client.withdraw(recipient(), completed_grant, 100, 10).unwrap();

    let completed = client.get_grant(completed_grant, 10).unwrap();
    assert_eq!(status_from_mask(completed.status_mask), GrantStatus::Completed);

    assert_eq!(client.update_rate(admin(), completed_grant, 4_i128, 10), Err(LedgerError::InvalidState));
}

#[test]
fn test_withdraw_after_rate_updates_no_extra_withdrawal() {
    let mut client = ledger();
    let grant_id: u64 = 9;

    client
        .create_grant(admin(), grant_id, recipient(), 1_000, 10 * SCALING_FACTOR, STATUS_ACTIVE, 0)
        .unwrap();

    client.update_rate(admin(), grant_id, 5 * SCALING_FACTOR, 20).unwrap();

    assert_eq!(client.claimable(grant_id, 60), Ok(400));

    client.withdraw(recipient(), grant_id, 400, 60).unwrap();
    assert_eq!(client.claimable(grant_id, 60), Ok(0));

    assert_eq!(client.withdraw(recipient(), grant_id, 1, 60), Err(LedgerError::InvalidAmount));

    assert_eq!(client.claimable(grant_id, 180), Ok(600));

    client.withdraw(recipient(), grant_id, 600, 180).unwrap();
    assert_eq!(client.claimable(grant_id, 180), Ok(0));

    let grant = client.get_grant(grant_id, 180).unwrap();
    assert_eq!(grant.withdrawn, 1_000);
    assert_eq!(status_from_mask(grant.status_mask), GrantStatus::Completed);

    assert_eq!(client.withdraw(recipient(), grant_id, 1, 180), Err(LedgerError::InvalidAmount));
}

#[test]
fn test_rescue_tokens_requires_admin_auth() {
    let client = ledger();
    let to = address(9);

    assert!(client.rescue_tokens(recipient(), grant_token(), 100, to, 1_000).is_err());
    assert_eq!(
        client.rescue_tokens(recipient(), grant_token(), 100, to, 1_000),
        Err(LedgerError::NotAuthorized)
    );
}

#[test]
fn test_rescue_tokens_rejects_invalid_amount() {
    let client = ledger();
    let to = address(9);

    assert_eq!(
        client.rescue_tokens(admin(), grant_token(), 0, to, 1_000),
        Err(LedgerError::InvalidAmount)
    );
    assert_eq!(
        client.rescue_tokens(admin(), grant_token(), -1_i128, to, 1_000),
        Err(LedgerError::InvalidAmount)
    );
}

#[test]
fn test_low_decimal_token_2_decimals_1_year() {
    let mut client = ledger();

    let grant_id: u64 = 100;
    let total_amount: i128 = 10_000;
    let duration_seconds: u64 = 31_536_000;

    let scaled_flow_rate: i128 = (total_amount * SCALING_FACTOR) / (duration_seconds as i128);
    assert!(scaled_flow_rate > 0, "Scaled flow rate should be non-zero");
    assert_eq!(scaled_flow_rate, 3170);

    client
        .create_grant(admin(), grant_id, recipient(), total_amount, scaled_flow_rate, STATUS_ACTIVE, 0)
        .unwrap();

    let six_months: u64 = duration_seconds / 2;
    let claimable_at_6_months = client.claimable(grant_id, six_months).unwrap();
    let expected_half = total_amount / 2;
    let tolerance: i128 = 10;
    assert!(
        (claimable_at_6_months - expected_half).abs() <= tolerance,
        "At 6 months, claimable {} should be close to {} (tolerance {})",
        claimable_at_6_months,
        expected_half,
        tolerance
    );
    assert_eq!(claimable_at_6_months, 4998);

    let claimable_at_1_year = client.claimable(grant_id, duration_seconds).unwrap();
    assert!(
        claimable_at_1_year >= total_amount - tolerance && claimable_at_1_year <= total_amount,
        "At 1 year, claimable {} should be close to total {}",
        claimable_at_1_year,
        total_amount
    );
    assert_eq!(claimable_at_1_year, 9996);
}

#[test]
fn test_low_decimal_token_very_small_amount() {
    let mut client = ledger();

    let grant_id: u64 = 101;
    let total_amount: i128 = 100;
    let duration_seconds: u64 = 86_400;

    let scaled_flow_rate: i128 = (total_amount * SCALING_FACTOR) / (duration_seconds as i128);
    assert!(scaled_flow_rate > 0, "Scaled flow rate should be non-zero");

    client
        .create_grant(admin(), grant_id, recipient(), total_amount, scaled_flow_rate, STATUS_ACTIVE, 0)
        .unwrap();

    let claimable = client.claimable(grant_id, 43_200).unwrap();
    assert!(
        claimable >= 45 && claimable <= 55,
        "At 12 hours, claimable {} should be around 50",
        claimable
    );

    let claimable_full = client.claimable(grant_id, 86_400).unwrap();
    assert!(
        claimable_full >= 95 && claimable_full <= 100,
        "At 1 day, claimable {} should be close to 100",
        claimable_full
    );
}

#[test]
fn test_high_precision_long_duration_10_years() {
    let mut client = ledger();

    let grant_id: u64 = 102;
    let total_amount: i128 = 1_000_000_000;
    let duration_seconds: u64 = 315_360_000;

    let scaled_flow_rate: i128 = (total_amount * SCALING_FACTOR) / (duration_seconds as i128);

    client
        .create_grant(admin(), grant_id, recipient(), total_amount, scaled_flow_rate, STATUS_ACTIVE, 0)
        .unwrap();

    let five_years: u64 = duration_seconds / 2;
    let claimable_5y = client.claimable(grant_id, five_years).unwrap();
    let expected_5y = total_amount / 2;
    let tolerance: i128 = 1000;
    assert!(
        (claimable_5y - expected_5y).abs() <= tolerance,
        "At 5 years, claimable {} should be close to {}",
        claimable_5y,
        expected_5y
    );

    let claimable_10y = client.claimable(grant_id, duration_seconds).unwrap();
    assert!(
        claimable_10y >= total_amount - tolerance && claimable_10y <= total_amount,
        "At 10 years, claimable {} should equal total {}",
        claimable_10y,
        total_amount
    );
}

#[test]
fn test_withdraw_converts_to_correct_decimals() {
    let mut client = ledger();

    let grant_id: u64 = 103;
    let total_amount: i128 = 1_000;
    let scaled_flow_rate: i128 = 10 * SCALING_FACTOR;

    client
        .create_grant(admin(), grant_id, recipient(), total_amount, scaled_flow_rate, STATUS_ACTIVE, 0)
        .unwrap();

    assert_eq!(client.claimable(grant_id, 50), Ok(500));

    client.withdraw(recipient(), grant_id, 300, 50).unwrap();

    let grant = client.get_grant(grant_id, 50).unwrap();
    assert_eq!(grant.withdrawn, 300);
    assert_eq!(grant.claimable, 200);

    client.withdraw(recipient(), grant_id, 200, 50).unwrap();

    let grant_after = client.get_grant(grant_id, 50).unwrap();
    assert_eq!(grant_after.withdrawn, 500);
    assert_eq!(grant_after.claimable, 0);
}
