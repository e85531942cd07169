use cipher_score::scoring::{
    activity_score, age_score, calculate_and_share_score, calculate_credit_score, defi_score,
    diversity_score, failure_penalty, score, volume_score, CreditReport, RiskLevel, WalletMetrics,
    BASE_SCORE, FLOOR_SCORE, MAX_SCORE,
};

fn zero_metrics() -> WalletMetrics {
    WalletMetrics {
        wallet_age_days: 0,
        transaction_count: 0,
        total_volume_usd: 0,
        unique_protocols: 0,
        defi_positions: 0,
        nft_count: 0,
        failed_txs: 0,
        sol_balance: 0,
    }
}

fn established_wallet() -> WalletMetrics {
    WalletMetrics {
        wallet_age_days: 400,
        transaction_count: 150,
        total_volume_usd: 20_000_000,
        unique_protocols: 12,
        defi_positions: 3,
        nft_count: 0,
        failed_txs: 2,
        sol_balance: 0,
    }
}

fn modest_wallet() -> WalletMetrics {
    WalletMetrics {
        wallet_age_days: 73,
        transaction_count: 20,
        total_volume_usd: 1_000_000,
        unique_protocols: 3,
        defi_positions: 1,
        nft_count: 4,
        failed_txs: 1,
        sol_balance: 5_000_000_000,
    }
}

#[test]
fn every_field_at_its_maximum_scores_the_cap() {
    let metrics = WalletMetrics {
        wallet_age_days: u32::MAX,
        transaction_count: u32::MAX,
        total_volume_usd: u64::MAX,
        unique_protocols: u16::MAX,
        defi_positions: u16::MAX,
        nft_count: u16::MAX,
        failed_txs: u16::MAX,
        sol_balance: u64::MAX,
    };
    assert_eq!(calculate_credit_score(metrics), 850);
    assert_eq!(score(metrics), (850, RiskLevel::Low));
}

#[test]
fn maximum_without_failures_scores_the_cap() {
    let metrics = WalletMetrics {
        wallet_age_days: u32::MAX,
        transaction_count: u32::MAX,
        total_volume_usd: u64::MAX,
        unique_protocols: u16::MAX,
        defi_positions: u16::MAX,
        nft_count: u16::MAX,
        failed_txs: 0,
        sol_balance: u64::MAX,
    };
    assert_eq!(calculate_credit_score(metrics), 850);
}

#[test]
fn all_zero_metrics_score_the_base() {
    assert_eq!(calculate_credit_score(zero_metrics()), 300);
    assert_eq!(score(zero_metrics()), (300, RiskLevel::High));
    assert_eq!(BASE_SCORE, 300);
}

#[test]
fn established_wallet_is_capped_and_low_risk() {
    let metrics = established_wallet();
    assert_eq!(age_score(metrics.wallet_age_days), 150);
    assert_eq!(activity_score(metrics.transaction_count), 200);
    assert_eq!(volume_score(metrics.total_volume_usd), 200);
    assert_eq!(diversity_score(metrics.unique_protocols), 100);
    assert_eq!(defi_score(metrics.defi_positions), 30);
    assert_eq!(failure_penalty(metrics.failed_txs), 10);
    let sum = 300 + 150 + 200 + 200 + 100 + 30;
    assert_eq!(sum, 980);
    assert_eq!(sum - 10, 970);
    assert_eq!(calculate_credit_score(metrics), 850);
    assert_eq!(score(metrics).1, RiskLevel::Low);
}

#[test]
fn twenty_failures_alone_take_fifty_points() {
    let metrics = WalletMetrics { failed_txs: 20, ..zero_metrics() };
    assert_eq!(failure_penalty(20), 50);
    assert_eq!(calculate_credit_score(metrics), 250);
    assert_eq!(score(metrics), (250, RiskLevel::High));
}

#[test]
fn the_floor_is_only_met_as_base_less_full_penalty() {
    // The lowest sum is the base and the highest penalty is fifty, so the
    // lowest score is their difference, which happens to equal the floor.
    assert_eq!(FLOOR_SCORE, 250);
    for failed_txs in [0u16, 1, 9, 10, 11, 100, u16::MAX] {
        let metrics = WalletMetrics { failed_txs, ..zero_metrics() };
        let expected = 300 - failure_penalty(failed_txs);
        assert_eq!(calculate_credit_score(metrics) as u32, expected);
        assert!(calculate_credit_score(metrics) >= 250);
    }
}

#[test]
fn modest_wallet_scores_the_sum_of_its_components() {
    let metrics = modest_wallet();
    assert_eq!(age_score(73), 30);
    assert_eq!(activity_score(20), 40);
    assert_eq!(volume_score(1_000_000), 20);
    assert_eq!(diversity_score(3), 30);
    assert_eq!(defi_score(1), 10);
    assert_eq!(failure_penalty(1), 5);
    assert_eq!(calculate_credit_score(metrics), 300 + 30 + 40 + 20 + 30 + 10 - 5);
    assert_eq!(score(metrics), (425, RiskLevel::High));
}

#[test]
fn age_score_rounds_down_and_caps_at_a_year() {
    assert_eq!(age_score(0), 0);
    assert_eq!(age_score(1), 0);
    assert_eq!(age_score(3), 1);
    assert_eq!(age_score(73), 30);
    assert_eq!(age_score(200), 82);
    assert_eq!(age_score(364), 149);
    assert_eq!(age_score(365), 150);
    assert_eq!(age_score(366), 150);
    assert_eq!(age_score(u32::MAX), 150);
}

#[test]
fn activity_score_is_linear_up_to_a_hundred_transactions() {
    assert_eq!(activity_score(0), 0);
    assert_eq!(activity_score(1), 2);
    assert_eq!(activity_score(49), 98);
    assert_eq!(activity_score(99), 198);
    assert_eq!(activity_score(100), 200);
    assert_eq!(activity_score(101), 200);
    assert_eq!(activity_score(u32::MAX), 200);
}

#[test]
fn volume_score_is_one_point_per_fifty_dollars() {
    assert_eq!(volume_score(0), 0);
    assert_eq!(volume_score(49_999), 0);
    assert_eq!(volume_score(50_000), 1);
    assert_eq!(volume_score(5_000_000), 100);
    assert_eq!(volume_score(9_999_999), 199);
    assert_eq!(volume_score(10_000_000), 200);
    assert_eq!(volume_score(u64::MAX), 200);
}

#[test]
fn diversity_score_caps_at_ten_protocols() {
    assert_eq!(diversity_score(0), 0);
    assert_eq!(diversity_score(9), 90);
    assert_eq!(diversity_score(10), 100);
    assert_eq!(diversity_score(11), 100);
    assert_eq!(diversity_score(u16::MAX), 100);
}

#[test]
fn defi_score_caps_at_five_positions() {
    assert_eq!(defi_score(0), 0);
    assert_eq!(defi_score(4), 40);
    assert_eq!(defi_score(5), 50);
    assert_eq!(defi_score(6), 50);
    assert_eq!(defi_score(u16::MAX), 50);
}

#[test]
fn failure_penalty_caps_at_ten_failures() {
    assert_eq!(failure_penalty(0), 0);
    assert_eq!(failure_penalty(1), 5);
    assert_eq!(failure_penalty(9), 45);
    assert_eq!(failure_penalty(10), 50);
    assert_eq!(failure_penalty(u16::MAX), 50);
}

#[test]
fn risk_tiers_change_at_five_and_seven_hundred() {
    assert_eq!(RiskLevel::from_score(0), RiskLevel::High);
    assert_eq!(RiskLevel::from_score(499), RiskLevel::High);
    assert_eq!(RiskLevel::from_score(500), RiskLevel::Medium);
    assert_eq!(RiskLevel::from_score(699), RiskLevel::Medium);
    assert_eq!(RiskLevel::from_score(700), RiskLevel::Low);
    assert_eq!(RiskLevel::from_score(850), RiskLevel::Low);
    assert_eq!(RiskLevel::from_score(u16::MAX), RiskLevel::Low);
}

#[test]
fn risk_codes_count_up_with_the_risk() {
    assert_eq!(RiskLevel::Low.code(), 0);
    assert_eq!(RiskLevel::Medium.code(), 1);
    assert_eq!(RiskLevel::High.code(), 2);
}

#[test]
fn medium_risk_wallet() {
    let metrics = WalletMetrics {
        wallet_age_days: 365,
        transaction_count: 50,
        total_volume_usd: 0,
        unique_protocols: 0,
        defi_positions: 0,
        nft_count: 0,
        failed_txs: 0,
        sol_balance: 0,
    };
    assert_eq!(score(metrics), (550, RiskLevel::Medium));
    assert_eq!(
        calculate_and_share_score(metrics),
        CreditReport { score: 550, risk_level: 1, timestamp: 0 }
    );
}

#[test]
fn report_carries_score_tier_code_and_zero_timestamp() {
    assert_eq!(
        calculate_and_share_score(established_wallet()),
        CreditReport { score: 850, risk_level: 0, timestamp: 0 }
    );
    assert_eq!(
        calculate_and_share_score(zero_metrics()),
        CreditReport { score: 300, risk_level: 2, timestamp: 0 }
    );
}

#[test]
fn report_and_revealed_score_agree() {
    for metrics in [zero_metrics(), modest_wallet(), established_wallet()] {
        let report = calculate_and_share_score(metrics);
        let (revealed, level) = score(metrics);
        assert_eq!(report.score, revealed);
        assert_eq!(report.score, calculate_credit_score(metrics));
        assert_eq!(report.risk_level, level.code());
    }
}

#[test]
fn scoring_twice_gives_the_same_score() {
    for metrics in [zero_metrics(), modest_wallet(), established_wallet()] {
        assert_eq!(calculate_credit_score(metrics), calculate_credit_score(metrics));
        assert_eq!(score(metrics), score(metrics));
        assert_eq!(calculate_and_share_score(metrics), calculate_and_share_score(metrics));
    }
}

#[test]
fn raising_an_earning_field_never_lowers_the_score() {
    let base = modest_wallet();
    let before = calculate_credit_score(base);
    for step in [1u32, 10, 100, 1000] {
        let older = WalletMetrics { wallet_age_days: base.wallet_age_days + step, ..base };
        assert!(calculate_credit_score(older) >= before);
        let busier = WalletMetrics { transaction_count: base.transaction_count + step, ..base };
        assert!(calculate_credit_score(busier) >= before);
        let richer =
            WalletMetrics { total_volume_usd: base.total_volume_usd + 50_000 * step as u64, ..base };
        assert!(calculate_credit_score(richer) >= before);
        let wider = WalletMetrics { unique_protocols: base.unique_protocols + step as u16, ..base };
        assert!(calculate_credit_score(wider) >= before);
        let deeper = WalletMetrics { defi_positions: base.defi_positions + step as u16, ..base };
        assert!(calculate_credit_score(deeper) >= before);
    }
}

#[test]
fn more_failures_lower_the_score_until_the_penalty_is_capped() {
    let base = zero_metrics();
    assert_eq!(calculate_credit_score(WalletMetrics { failed_txs: 1, ..base }), 295);
    assert_eq!(calculate_credit_score(WalletMetrics { failed_txs: 2, ..base }), 290);
    assert_eq!(calculate_credit_score(WalletMetrics { failed_txs: 10, ..base }), 250);
    assert_eq!(calculate_credit_score(WalletMetrics { failed_txs: 11, ..base }), 250);
    // Under the cap of the score a further failure costs nothing.
    let capped = established_wallet();
    assert_eq!(calculate_credit_score(WalletMetrics { failed_txs: 3, ..capped }), 850);
}

#[test]
fn reserved_fields_do_not_change_the_score() {
    let base = modest_wallet();
    let collector = WalletMetrics { nft_count: u16::MAX, ..base };
    let whale = WalletMetrics { sol_balance: u64::MAX, ..base };
    assert_eq!(calculate_credit_score(collector), calculate_credit_score(base));
    assert_eq!(calculate_credit_score(whale), calculate_credit_score(base));
    assert_eq!(calculate_and_share_score(whale), calculate_and_share_score(base));
}

#[test]
fn scores_stay_between_floor_and_cap() {
    for metrics in [zero_metrics(), modest_wallet(), established_wallet()] {
        let value = calculate_credit_score(metrics) as u32;
        assert!(FLOOR_SCORE <= value && value <= MAX_SCORE);
    }
}
