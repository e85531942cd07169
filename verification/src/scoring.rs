//! The scoring engine: a pure function from wallet metrics to a score and a
//! risk tier.
//!
//! The score starts from a base and adds five independently capped
//! components; a capped penalty for failed transactions is then taken off and
//! the result is capped once more. All intermediate values are held in 32 bits
//! and narrowed to 16 bits only at the very end.

use vstd::prelude::*;

verus! {

/// Points every wallet starts with.
pub const BASE_SCORE: u32 = 300;

/// Most points the age of a wallet can earn.
pub const MAX_AGE_SCORE: u32 = 150;

/// Age, in days, from which a wallet earns the full age points.
pub const FULL_AGE_DAYS: u32 = 365;

/// Most points the transaction count can earn.
pub const MAX_ACTIVITY_SCORE: u32 = 200;

/// Points earned per transaction.
pub const POINTS_PER_TRANSACTION: u32 = 2;

/// Most points the lifetime volume can earn.
pub const MAX_VOLUME_SCORE: u32 = 200;

/// Scaled volume that earns one point (50 USD at a scale of 1000).
pub const VOLUME_PER_POINT: u64 = 50_000;

/// Most points protocol diversity can earn.
pub const MAX_DIVERSITY_SCORE: u32 = 100;

/// Points earned per distinct protocol.
pub const POINTS_PER_PROTOCOL: u32 = 10;

/// Most points open DeFi positions can earn.
pub const MAX_DEFI_SCORE: u32 = 50;

/// Points earned per open DeFi position.
pub const POINTS_PER_POSITION: u32 = 10;

/// Most points failed transactions can cost.
pub const MAX_FAILURE_PENALTY: u32 = 50;

/// Points lost per failed transaction.
pub const PENALTY_PER_FAILURE: u32 = 5;

/// Score given when the penalty would consume the whole running sum.
pub const FLOOR_SCORE: u32 = 250;

/// Highest score that is ever reported.
pub const MAX_SCORE: u32 = 850;

/// Lowest score of the low-risk tier.
pub const LOW_RISK_MIN_SCORE: u16 = 700;

/// Lowest score of the medium-risk tier.
pub const MEDIUM_RISK_MIN_SCORE: u16 = 500;

/// Wallet activity metrics, as they exist in the clear inside the
/// confidential-compute boundary.
#[derive(Clone, Copy, Debug, PartialEq, Eq)]
pub struct WalletMetrics {
    /// Days since the first observed transaction.
    pub wallet_age_days: u32,
    /// Lifetime number of transactions.
    pub transaction_count: u32,
    /// Lifetime volume in USD, scaled by 1000.
    pub total_volume_usd: u64,
    /// Number of distinct protocols interacted with.
    pub unique_protocols: u16,
    /// Currently open DeFi positions.
    pub defi_positions: u16,
    /// NFTs held. Collected, but not part of the formula.
    pub nft_count: u16,
    /// Number of failed transactions.
    pub failed_txs: u16,
    /// Current native balance in its smallest unit. Collected, but not part of
    /// the formula.
    pub sol_balance: u64,
}

/// The risk tier derived from a score.
#[derive(Clone, Copy, Debug, PartialEq, Eq)]
pub enum RiskLevel {
    Low,
    Medium,
    High,
}

/// What a disclosure hands to its recipient.
#[derive(Clone, Copy, Debug, PartialEq, Eq)]
pub struct CreditReport {
    /// The score, between the floor and the cap.
    pub score: u16,
    /// The tier's code: 0 for low, 1 for medium, 2 for high risk.
    pub risk_level: u8,
    /// Left at zero by the scoring engine; the caller stamps the report.
    pub timestamp: u64,
}

/// Age component: 150 points per 365 days, rounded down, at most 150.
pub open spec fn age_points(wallet_age_days: u32) -> int {
    vstd::math::min(150, wallet_age_days * 150 / 365)
}

/// Activity component: two points per transaction, at most 200.
pub open spec fn activity_points(transaction_count: u32) -> int {
    vstd::math::min(200, transaction_count * 2)
}

/// Volume component: one point per 50 000 units of scaled volume, rounded
/// down, at most 200.
pub open spec fn volume_points(total_volume_usd: u64) -> int {
    vstd::math::min(200, (total_volume_usd as int) / 50_000)
}

/// Diversity component: ten points per protocol, at most 100.
pub open spec fn diversity_points(unique_protocols: u16) -> int {
    vstd::math::min(100, unique_protocols * 10)
}

/// DeFi component: ten points per open position, at most 50.
pub open spec fn defi_points(defi_positions: u16) -> int {
    vstd::math::min(50, defi_positions * 10)
}

/// Penalty: five points per failed transaction, at most 50.
pub open spec fn failure_penalty_points(failed_txs: u16) -> int {
    vstd::math::min(50, failed_txs * 5)
}

/// The base plus the five components, before the penalty.
pub open spec fn running_sum(m: WalletMetrics) -> int {
    300 + age_points(m.wallet_age_days) + activity_points(m.transaction_count) + volume_points(
        m.total_volume_usd,
    ) + diversity_points(m.unique_protocols) + defi_points(m.defi_positions)
}

/// The running sum less the penalty, or the floor where the penalty is not
/// smaller than the sum.
pub open spec fn penalized_sum(m: WalletMetrics) -> int {
    if running_sum(m) > failure_penalty_points(m.failed_txs) {
        running_sum(m) - failure_penalty_points(m.failed_txs)
    } else {
        250
    }
}

/// The credit score of a wallet: the penalized sum, at most 850.
pub open spec fn credit_score(m: WalletMetrics) -> int {
    vstd::math::min(850, penalized_sum(m))
}

/// The tier of a score: low risk from 700, medium from 500, high below.
pub open spec fn risk_tier(score: int) -> RiskLevel {
    if score >= 700 {
        RiskLevel::Low
    } else if score >= 500 {
        RiskLevel::Medium
    } else {
        RiskLevel::High
    }
}

/// The code a report carries for a tier.
pub open spec fn risk_code(level: RiskLevel) -> int {
    match level {
        RiskLevel::Low => 0,
        RiskLevel::Medium => 1,
        RiskLevel::High => 2,
    }
}

/// The report of a wallet: its score, its tier's code and a zero timestamp.
pub open spec fn credit_report(m: WalletMetrics) -> CreditReport {
    CreditReport {
        score: credit_score(m) as u16,
        risk_level: risk_code(risk_tier(credit_score(m))) as u8,
        timestamp: 0,
    }
}

/// Points for the age of a wallet. A wallet of a year or more earns the full
/// points without any division.
pub fn age_score(wallet_age_days: u32) -> (points: u32)
    ensures
        points == age_points(wallet_age_days),
        points <= MAX_AGE_SCORE,
{
    if wallet_age_days >= FULL_AGE_DAYS {
        MAX_AGE_SCORE
    } else {
        let scaled: u32 = wallet_age_days * MAX_AGE_SCORE / FULL_AGE_DAYS;
        if scaled < MAX_AGE_SCORE {
            scaled
        } else {
            MAX_AGE_SCORE
        }
    }
}

/// Points for the number of transactions. A hundred or more earn the full
/// points.
pub fn activity_score(transaction_count: u32) -> (points: u32)
    ensures
        points == activity_points(transaction_count),
        points <= MAX_ACTIVITY_SCORE,
{
    if transaction_count >= MAX_ACTIVITY_SCORE / POINTS_PER_TRANSACTION {
        MAX_ACTIVITY_SCORE
    } else {
        transaction_count * POINTS_PER_TRANSACTION
    }
}

/// Points for the lifetime volume. Ten million scaled units or more earn the
/// full points.
pub fn volume_score(total_volume_usd: u64) -> (points: u32)
    ensures
        points == volume_points(total_volume_usd),
        points <= MAX_VOLUME_SCORE,
{
    if total_volume_usd >= 10_000_000 {
        MAX_VOLUME_SCORE
    } else {
        let scaled: u32 = (total_volume_usd / VOLUME_PER_POINT) as u32;
        if scaled < MAX_VOLUME_SCORE {
            scaled
        } else {
            MAX_VOLUME_SCORE
        }
    }
}

/// Points for protocol diversity. Ten or more protocols earn the full points.
pub fn diversity_score(unique_protocols: u16) -> (points: u32)
    ensures
        points == diversity_points(unique_protocols),
        points <= MAX_DIVERSITY_SCORE,
{
    if unique_protocols >= 10 {
        MAX_DIVERSITY_SCORE
    } else {
        (unique_protocols as u32) * POINTS_PER_PROTOCOL
    }
}

/// Points for open DeFi positions; the cap alone bounds them.
pub fn defi_score(defi_positions: u16) -> (points: u32)
    ensures
        points == defi_points(defi_positions),
        points <= MAX_DEFI_SCORE,
{
    let scaled: u32 = (defi_positions as u32) * POINTS_PER_POSITION;
    if scaled < MAX_DEFI_SCORE {
        scaled
    } else {
        MAX_DEFI_SCORE
    }
}

/// Points lost to failed transactions.
pub fn failure_penalty(failed_txs: u16) -> (points: u32)
    ensures
        points == failure_penalty_points(failed_txs),
        points <= MAX_FAILURE_PENALTY,
{
    let scaled: u32 = (failed_txs as u32) * PENALTY_PER_FAILURE;
    if scaled < MAX_FAILURE_PENALTY {
        scaled
    } else {
        MAX_FAILURE_PENALTY
    }
}

impl RiskLevel {
    /// The tier a score falls in.
    pub fn from_score(score: u16) -> (level: RiskLevel)
        ensures
            level == risk_tier(score as int),
    {
        if score >= LOW_RISK_MIN_SCORE {
            RiskLevel::Low
        } else if score >= MEDIUM_RISK_MIN_SCORE {
            RiskLevel::Medium
        } else {
            RiskLevel::High
        }
    }

    /// The code a report carries for this tier.
    pub fn code(&self) -> (code: u8)
        ensures
            code == risk_code(*self),
    {
        match self {
            RiskLevel::Low => 0,
            RiskLevel::Medium => 1,
            RiskLevel::High => 2,
        }
    }
}

/// Scores a wallet and derives its risk tier.
///
/// `nft_count` and `sol_balance` are accepted and not consulted.
pub fn score(metrics: WalletMetrics) -> (result: (u16, RiskLevel))
    ensures
        result.0 == credit_score(metrics),
        result.1 == risk_tier(credit_score(metrics)),
{
    let mut total: u32 = BASE_SCORE;
    total = total + age_score(metrics.wallet_age_days);
    total = total + activity_score(metrics.transaction_count);
    total = total + volume_score(metrics.total_volume_usd);
    total = total + diversity_score(metrics.unique_protocols);
    total = total + defi_score(metrics.defi_positions);
    let penalty: u32 = failure_penalty(metrics.failed_txs);
    // The sum is at least the base and the penalty at most fifty, so the floor
    // is never taken; it is kept so that the subtraction can never underflow.
    if total > penalty {
        total = total - penalty;
    } else {
        total = FLOOR_SCORE;
    }
    let capped: u32 = if total < MAX_SCORE {
        total
    } else {
        MAX_SCORE
    };
    let narrowed: u16 = capped as u16;
    (narrowed, RiskLevel::from_score(narrowed))
}

/// The score of a wallet, as revealed to its owner.
pub fn calculate_credit_score(metrics: WalletMetrics) -> (revealed: u16)
    ensures
        revealed == credit_score(metrics),
{
    score(metrics).0
}

/// The report of a wallet, as handed to the party a score is shared with. The
/// timestamp is left at zero.
pub fn calculate_and_share_score(metrics: WalletMetrics) -> (report: CreditReport)
    ensures
        report == credit_report(metrics),
{
    let (final_score, level) = score(metrics);
    CreditReport { score: final_score, risk_level: level.code(), timestamp: 0 }
}

/// `a` and `b` agree on every field that the formula reads.
pub open spec fn same_scored_fields(a: WalletMetrics, b: WalletMetrics) -> bool {
    &&& a.wallet_age_days == b.wallet_age_days
    &&& a.transaction_count == b.transaction_count
    &&& a.total_volume_usd == b.total_volume_usd
    &&& a.unique_protocols == b.unique_protocols
    &&& a.defi_positions == b.defi_positions
    &&& a.failed_txs == b.failed_txs
}

/// No field that earns points is smaller in `b` than in `a`.
pub open spec fn earning_fields_le(a: WalletMetrics, b: WalletMetrics) -> bool {
    &&& a.wallet_age_days <= b.wallet_age_days
    &&& a.transaction_count <= b.transaction_count
    &&& a.total_volume_usd <= b.total_volume_usd
    &&& a.unique_protocols <= b.unique_protocols
    &&& a.defi_positions <= b.defi_positions
}

/// `b` is `a` with exactly one field raised and every other field unchanged.
pub open spec fn raises_one_field(a: WalletMetrics, b: WalletMetrics) -> bool {
    ||| (a.wallet_age_days < b.wallet_age_days && b == WalletMetrics {
        wallet_age_days: b.wallet_age_days,
        ..a
    })
    ||| (a.transaction_count < b.transaction_count && b == WalletMetrics {
        transaction_count: b.transaction_count,
        ..a
    })
    ||| (a.total_volume_usd < b.total_volume_usd && b == WalletMetrics {
        total_volume_usd: b.total_volume_usd,
        ..a
    })
    ||| (a.unique_protocols < b.unique_protocols && b == WalletMetrics {
        unique_protocols: b.unique_protocols,
        ..a
    })
    ||| (a.defi_positions < b.defi_positions && b == WalletMetrics {
        defi_positions: b.defi_positions,
        ..a
    })
    ||| (a.nft_count < b.nft_count && b == WalletMetrics { nft_count: b.nft_count, ..a })
    ||| (a.failed_txs < b.failed_txs && b == WalletMetrics { failed_txs: b.failed_txs, ..a })
    ||| (a.sol_balance < b.sol_balance && b == WalletMetrics { sol_balance: b.sol_balance, ..a })
}

/// The floor is a defensive branch: the running sum is at least the base of
/// 300 and the penalty at most 50, so the sum always exceeds the penalty and
/// the score is the capped difference. Every score lies between 250 and 850.
pub proof fn lemma_floor_is_never_taken(m: WalletMetrics)
    ensures
        300 <= running_sum(m) <= 1000,
        0 <= failure_penalty_points(m.failed_txs) <= 50,
        running_sum(m) > failure_penalty_points(m.failed_txs),
        penalized_sum(m) == running_sum(m) - failure_penalty_points(m.failed_txs),
        credit_score(m) == vstd::math::min(
            850,
            running_sum(m) - failure_penalty_points(m.failed_txs),
        ),
        250 <= credit_score(m) <= 850,
{
}

/// Scoring is a function of its input: equal metrics have equal scores, equal
/// tiers and equal reports, however often they are evaluated.
pub proof fn lemma_scoring_is_deterministic(a: WalletMetrics, b: WalletMetrics)
    requires
        a == b,
    ensures
        credit_score(a) == credit_score(b),
        risk_tier(credit_score(a)) == risk_tier(credit_score(b)),
        credit_report(a) == credit_report(b),
{
}

/// The NFT count and the native balance are collected and never weighed: two
/// wallets that agree on every other field have the same score and report.
pub proof fn lemma_reserved_fields_are_ignored(a: WalletMetrics, b: WalletMetrics)
    requires
        same_scored_fields(a, b),
    ensures
        credit_score(a) == credit_score(b),
        credit_report(a) == credit_report(b),
{
}

/// A wallet that is no worse in any earning field and has no more failed
/// transactions scores no lower.
pub proof fn lemma_score_is_monotone(a: WalletMetrics, b: WalletMetrics)
    requires
        earning_fields_le(a, b),
        b.failed_txs <= a.failed_txs,
    ensures
        credit_score(a) <= credit_score(b),
{
}

/// More failed transactions, all else equal, never raise the score. They lower
/// it exactly when the penalty grows and the penalized sum of the wallet with
/// more failures lies under the cap.
pub proof fn lemma_failures_never_raise_score(a: WalletMetrics, b: WalletMetrics)
    requires
        a.failed_txs < b.failed_txs,
        b == (WalletMetrics { failed_txs: b.failed_txs, ..a }),
    ensures
        credit_score(b) <= credit_score(a),
        credit_score(b) < credit_score(a) <==> failure_penalty_points(a.failed_txs)
            < failure_penalty_points(b.failed_txs) && penalized_sum(b) < 850,
{
}

/// Raising a single field while the others stay fixed never lowers the score.
/// The one field for which this can fail is the count of failed transactions:
/// a raise of it is covered only where it leaves the penalty unchanged or the
/// penalized sum at or above the cap.
pub proof fn lemma_single_field_raise_keeps_score(a: WalletMetrics, b: WalletMetrics)
    requires
        raises_one_field(a, b),
        a.failed_txs < b.failed_txs ==> failure_penalty_points(a.failed_txs)
            == failure_penalty_points(b.failed_txs) || penalized_sum(b) >= 850,
    ensures
        credit_score(a) <= credit_score(b),
{
}

/// A higher score never falls in a riskier tier.
pub proof fn lemma_risk_tier_is_monotone(low: int, high: int)
    requires
        low <= high,
    ensures
        risk_code(risk_tier(high)) <= risk_code(risk_tier(low)),
{
}

} // verus!
