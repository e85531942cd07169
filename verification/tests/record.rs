use cipher_score::errors::ErrorCode;
use cipher_score::record::{
    CreditAccount, EncryptedWalletMetrics, Policy, SCORE_VALIDITY, UPDATE_COOLDOWN,
};
use cipher_score::scoring::RiskLevel;

fn metrics_of(byte: u8) -> EncryptedWalletMetrics {
    EncryptedWalletMetrics {
        wallet_age_days: [byte; 32],
        transaction_count: [byte.wrapping_add(1); 32],
        total_volume_usd: [byte.wrapping_add(2); 32],
        unique_protocols: [byte.wrapping_add(3); 32],
        defi_positions: [byte.wrapping_add(4); 32],
        nft_count: [byte.wrapping_add(5); 32],
        failed_txs: [byte.wrapping_add(6); 32],
        sol_balance: [byte.wrapping_add(7); 32],
    }
}

#[test]
fn default_policy_is_a_day_and_a_week() {
    let policy = Policy::default();
    assert_eq!(policy.update_cooldown, 86400);
    assert_eq!(policy.score_validity, 604800);
    assert_eq!(UPDATE_COOLDOWN, 86400);
    assert_eq!(SCORE_VALIDITY, 604800);
}

#[test]
fn new_record_is_zero_valued() {
    let record = CreditAccount::new([9u8; 32]);
    assert_eq!(record.wallet, [9u8; 32]);
    assert_eq!(record.current_score, 0);
    assert_eq!(record.score_timestamp, 0);
    assert_eq!(record.last_updated, 0);
    assert_eq!(record.risk_level, RiskLevel::Low);
    assert_eq!(record.encrypted_metrics, EncryptedWalletMetrics::new());
    assert_eq!(record.encrypted_metrics.sol_balance, [0u8; 32]);
}

#[test]
fn first_submission_is_accepted() {
    let policy = Policy::default();
    let mut record = CreditAccount::new([1u8; 32]);
    assert!(!record.in_cooldown(1_700_000_000, &policy));
    assert_eq!(record.apply_submission(metrics_of(10), 1_700_000_000, &policy), Ok(()));
    assert_eq!(record.encrypted_metrics, metrics_of(10));
    assert_eq!(record.last_updated, 1_700_000_000);
    assert_eq!(record.current_score, 0);
    assert_eq!(record.score_timestamp, 0);
    assert_eq!(record.wallet, [1u8; 32]);
}

#[test]
fn second_submission_within_a_day_is_refused_and_changes_nothing() {
    let policy = Policy::default();
    let mut record = CreditAccount::new([1u8; 32]);
    let first = 1_700_000_000;
    assert_eq!(record.apply_submission(metrics_of(10), first, &policy), Ok(()));
    let after_first = record;
    for second in [first, first + 1, first + 3600, first + 86399] {
        assert!(record.in_cooldown(second, &policy));
        assert_eq!(
            record.apply_submission(metrics_of(90), second, &policy),
            Err(ErrorCode::UpdateTooSoon)
        );
        assert_eq!(record, after_first);
        assert_eq!(record.encrypted_metrics, metrics_of(10));
        assert_eq!(record.last_updated, first);
    }
}

#[test]
fn submission_after_a_day_is_accepted() {
    let policy = Policy::default();
    let mut record = CreditAccount::new([1u8; 32]);
    let first = 1_700_000_000;
    assert_eq!(record.apply_submission(metrics_of(10), first, &policy), Ok(()));
    assert_eq!(record.apply_submission(metrics_of(90), first + 86400, &policy), Ok(()));
    assert_eq!(record.encrypted_metrics, metrics_of(90));
    assert_eq!(record.last_updated, first + 86400);
}

#[test]
fn submission_earlier_than_the_last_one_is_refused() {
    let policy = Policy::default();
    let mut record = CreditAccount::new([1u8; 32]);
    assert_eq!(record.apply_submission(metrics_of(10), 1_000_000, &policy), Ok(()));
    assert_eq!(
        record.apply_submission(metrics_of(90), 999_999, &policy),
        Err(ErrorCode::UpdateTooSoon)
    );
    assert_eq!(record.last_updated, 1_000_000);
}

#[test]
fn a_record_updated_at_time_zero_has_no_cooldown() {
    let policy = Policy::default();
    let mut record = CreditAccount::new([1u8; 32]);
    assert_eq!(record.apply_submission(metrics_of(10), 0, &policy), Ok(()));
    assert_eq!(record.apply_submission(metrics_of(90), 10, &policy), Ok(()));
    assert_eq!(record.encrypted_metrics, metrics_of(90));
    assert_eq!(record.last_updated, 10);
}

#[test]
fn cooldown_holds_at_the_ends_of_the_clock() {
    let policy = Policy::default();
    let mut record = CreditAccount::new([1u8; 32]);
    assert_eq!(record.apply_submission(metrics_of(10), i64::MAX, &policy), Ok(()));
    assert_eq!(
        record.apply_submission(metrics_of(90), i64::MIN, &policy),
        Err(ErrorCode::UpdateTooSoon)
    );
    assert_eq!(record.last_updated, i64::MAX);
    let mut early = CreditAccount::new([1u8; 32]);
    assert_eq!(early.apply_submission(metrics_of(10), 1, &policy), Ok(()));
    assert_eq!(early.apply_submission(metrics_of(90), i64::MAX, &policy), Ok(()));
}

#[test]
fn compressed_windows_shorten_the_cooldown() {
    let policy = Policy { update_cooldown: 5, score_validity: 10 };
    let mut record = CreditAccount::new([1u8; 32]);
    assert_eq!(record.apply_submission(metrics_of(1), 100, &policy), Ok(()));
    assert_eq!(
        record.apply_submission(metrics_of(2), 104, &policy),
        Err(ErrorCode::UpdateTooSoon)
    );
    assert_eq!(record.apply_submission(metrics_of(2), 105, &policy), Ok(()));
    record.apply_score(600, 200);
    assert_eq!(record.check_freshness(209, &policy), Ok(()));
    assert_eq!(record.check_freshness(210, &policy), Err(ErrorCode::ScoreExpired));
}

#[test]
fn score_is_applied_with_its_tier_and_time() {
    let mut record = CreditAccount::new([1u8; 32]);
    record.apply_score(720, 1_700_000_000);
    assert_eq!(record.current_score, 720);
    assert_eq!(record.risk_level, RiskLevel::Low);
    assert_eq!(record.score_timestamp, 1_700_000_000);
    record.apply_score(500, 1_700_000_001);
    assert_eq!(record.risk_level, RiskLevel::Medium);
    record.apply_score(499, 1_700_000_002);
    assert_eq!(record.risk_level, RiskLevel::High);
    assert_eq!(record.score_timestamp, 1_700_000_002);
    assert_eq!(record.last_updated, 0);
    assert_eq!(record.encrypted_metrics, EncryptedWalletMetrics::new());
}

#[test]
fn score_is_applied_during_the_cooldown() {
    let policy = Policy::default();
    let mut record = CreditAccount::new([1u8; 32]);
    assert_eq!(record.apply_submission(metrics_of(10), 1_000_000, &policy), Ok(()));
    record.apply_score(640, 1_000_005);
    assert_eq!(record.current_score, 640);
    assert_eq!(record.score_timestamp, 1_000_005);
    assert_eq!(record.last_updated, 1_000_000);
    assert_eq!(record.encrypted_metrics, metrics_of(10));
}

#[test]
fn score_is_fresh_until_a_week_has_passed() {
    let policy = Policy::default();
    let mut record = CreditAccount::new([1u8; 32]);
    let scored = 1_700_000_000;
    record.apply_score(720, scored);
    assert_eq!(record.check_freshness(scored, &policy), Ok(()));
    assert_eq!(record.check_freshness(scored + 604799, &policy), Ok(()));
    assert_eq!(record.check_freshness(scored + 604800, &policy), Err(ErrorCode::ScoreExpired));
    assert_eq!(record.check_freshness(scored + 604801, &policy), Err(ErrorCode::ScoreExpired));
    assert_eq!(record.check_freshness(i64::MAX, &policy), Err(ErrorCode::ScoreExpired));
    assert_eq!(record.check_freshness(scored - 1, &policy), Ok(()));
    assert_eq!(record.check_freshness(i64::MIN, &policy), Ok(()));
}

#[test]
fn a_record_without_a_score_is_expired_a_week_after_the_epoch() {
    let policy = Policy::default();
    let record = CreditAccount::new([1u8; 32]);
    assert_eq!(record.check_freshness(604799, &policy), Ok(()));
    assert_eq!(record.check_freshness(604800, &policy), Err(ErrorCode::ScoreExpired));
    assert_eq!(record.check_freshness(1_700_000_000, &policy), Err(ErrorCode::ScoreExpired));
}

#[test]
fn freshness_holds_at_the_ends_of_the_clock() {
    let policy = Policy::default();
    let mut record = CreditAccount::new([1u8; 32]);
    record.apply_score(720, i64::MIN);
    assert_eq!(record.check_freshness(i64::MAX, &policy), Err(ErrorCode::ScoreExpired));
    record.apply_score(720, i64::MAX);
    assert_eq!(record.check_freshness(i64::MIN, &policy), Ok(()));
}

#[test]
fn error_messages() {
    assert_eq!(ErrorCode::UpdateTooSoon.message(), "Must wait 24 hours between score updates");
    assert_eq!(ErrorCode::CalculationFailed.message(), "Score calculation failed");
    assert_eq!(ErrorCode::ScoreExpired.message(), "Score is older than 7 days");
    assert_eq!(ErrorCode::SharingFailed.message(), "Failed to share score");
    assert_eq!(ErrorCode::ClusterNotSet.message(), "cluster not found");
}

#[test]
fn only_computation_failures_are_asynchronous() {
    assert!(ErrorCode::CalculationFailed.is_asynchronous());
    assert!(ErrorCode::SharingFailed.is_asynchronous());
    assert!(!ErrorCode::UpdateTooSoon.is_asynchronous());
    assert!(!ErrorCode::ScoreExpired.is_asynchronous());
    assert!(!ErrorCode::ClusterNotSet.is_asynchronous());
}
