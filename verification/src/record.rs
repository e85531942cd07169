//! The credit record of a wallet and the temporal rules that guard it.
//!
//! A record is changed in two ways only: a submission overwrites the encrypted
//! metrics and stamps `last_updated`; a computed score overwrites the score,
//! its tier and `score_timestamp`. A submission is refused while the cooldown
//! of the previous one is active, and a score may be disclosed only while it
//! is fresh.

use vstd::prelude::*;
use crate::errors::ErrorCode;
use crate::scoring::{risk_tier, RiskLevel};

verus! {

/// Seconds that must pass between two submissions for one wallet: 24 hours.
pub const UPDATE_COOLDOWN: i64 = 86400;

/// Seconds for which a computed score may be disclosed: 7 days.
pub const SCORE_VALIDITY: i64 = 604800;

/// The time windows of the protocol, in seconds.
#[derive(Clone, Copy, Debug, PartialEq, Eq)]
pub struct Policy {
    /// Least time between two submissions for one wallet.
    pub update_cooldown: i64,
    /// Age from which a score can no longer be disclosed.
    pub score_validity: i64,
}

impl Policy {
    /// The windows used in production: a cooldown of 24 hours and a validity
    /// of 7 days.
    pub open spec fn standard() -> Policy {
        Policy { update_cooldown: 86400, score_validity: 604800 }
    }
}

impl Default for Policy {
    fn default() -> (policy: Policy)
        ensures
            policy == Policy::standard(),
    {
        Policy { update_cooldown: UPDATE_COOLDOWN, score_validity: SCORE_VALIDITY }
    }
}

/// The wallet metrics as ciphertexts, one opaque 32-byte blob per field, in
/// the order of the fields of the plain metrics. Nothing outside the
/// confidential-compute boundary reads them.
#[derive(Clone, Copy, Debug, PartialEq, Eq)]
pub struct EncryptedWalletMetrics {
    pub wallet_age_days: [u8; 32],
    pub transaction_count: [u8; 32],
    pub total_volume_usd: [u8; 32],
    pub unique_protocols: [u8; 32],
    pub defi_positions: [u8; 32],
    pub nft_count: [u8; 32],
    pub failed_txs: [u8; 32],
    pub sol_balance: [u8; 32],
}

/// The blob of 32 zero bytes.
pub open spec fn zero_blob() -> [u8; 32] {
    vstd::array::spec_array_fill_for_copy_type::<u8, 32>(0u8)
}

impl EncryptedWalletMetrics {
    /// The metrics of a record that has seen no submission: every blob zero.
    pub open spec fn zeroed() -> EncryptedWalletMetrics {
        EncryptedWalletMetrics {
            wallet_age_days: zero_blob(),
            transaction_count: zero_blob(),
            total_volume_usd: zero_blob(),
            unique_protocols: zero_blob(),
            defi_positions: zero_blob(),
            nft_count: zero_blob(),
            failed_txs: zero_blob(),
            sol_balance: zero_blob(),
        }
    }

    /// The metrics of a record that has seen no submission.
    pub fn new() -> (metrics: EncryptedWalletMetrics)
        ensures
            metrics == EncryptedWalletMetrics::zeroed(),
    {
        EncryptedWalletMetrics {
            wallet_age_days: [0u8; 32],
            transaction_count: [0u8; 32],
            total_volume_usd: [0u8; 32],
            unique_protocols: [0u8; 32],
            defi_positions: [0u8; 32],
            nft_count: [0u8; 32],
            failed_txs: [0u8; 32],
            sol_balance: [0u8; 32],
        }
    }
}

/// The credit record of one wallet.
#[derive(Clone, Copy, Debug, PartialEq, Eq)]
pub struct CreditAccount {
    /// The identity key of the wallet.
    pub wallet: [u8; 32],
    /// The metrics of the latest submission.
    pub encrypted_metrics: EncryptedWalletMetrics,
    /// The latest computed score; zero until the first one arrives.
    pub current_score: u16,
    /// The tier of the latest computed score.
    pub risk_level: RiskLevel,
    /// When the latest score was computed; zero until the first one arrives.
    pub score_timestamp: i64,
    /// When the latest submission was accepted; zero until the first one.
    pub last_updated: i64,
}

/// Whether a submission at `now` falls in the cooldown of one accepted at
/// `last_updated`. A record that has never been updated has no cooldown.
pub open spec fn cooldown_active(last_updated: i64, now: i64, cooldown: i64) -> bool {
    last_updated > 0 && now - last_updated < cooldown
}

/// Whether a score computed at `score_timestamp` is too old at `now` to be
/// disclosed.
pub open spec fn score_expired(score_timestamp: i64, now: i64, validity: i64) -> bool {
    now - score_timestamp >= validity
}

impl CreditAccount {
    /// The record of a wallet before its first submission: every field but the
    /// wallet holds its zero value.
    pub open spec fn fresh(wallet: [u8; 32]) -> CreditAccount {
        CreditAccount {
            wallet,
            encrypted_metrics: EncryptedWalletMetrics::zeroed(),
            current_score: 0,
            risk_level: RiskLevel::Low,
            score_timestamp: 0,
            last_updated: 0,
        }
    }

    /// The record after a submission accepted at `now`.
    pub open spec fn with_submission(self, metrics: EncryptedWalletMetrics, now: i64) -> CreditAccount {
        CreditAccount { encrypted_metrics: metrics, last_updated: now, ..self }
    }

    /// The record after a score computed at `now`.
    pub open spec fn with_score(self, score: u16, now: i64) -> CreditAccount {
        CreditAccount {
            current_score: score,
            risk_level: risk_tier(score as int),
            score_timestamp: now,
            ..self
        }
    }

    /// The record of a wallet before its first submission.
    pub fn new(wallet: [u8; 32]) -> (record: CreditAccount)
        ensures
            record == CreditAccount::fresh(wallet),
    {
        CreditAccount {
            wallet,
            encrypted_metrics: EncryptedWalletMetrics::new(),
            current_score: 0,
            risk_level: RiskLevel::Low,
            score_timestamp: 0,
            last_updated: 0,
        }
    }

    /// Whether a submission at `now` would be refused.
    pub fn in_cooldown(&self, now: i64, policy: &Policy) -> (active: bool)
        ensures
            active == cooldown_active(self.last_updated, now, policy.update_cooldown),
    {
        self.last_updated > 0 && (now as i128) - (self.last_updated as i128)
            < policy.update_cooldown as i128
    }

    /// Records a submission made at `now`, unless the cooldown of the previous
    /// one is active: then nothing is changed.
    pub fn apply_submission(
        &mut self,
        metrics: EncryptedWalletMetrics,
        now: i64,
        policy: &Policy,
    ) -> (outcome: Result<(), ErrorCode>)
        ensures
            cooldown_active(old(self).last_updated, now, policy.update_cooldown) ==> outcome
                == Err::<(), ErrorCode>(ErrorCode::UpdateTooSoon) && *final(self) == *old(self),
            !cooldown_active(old(self).last_updated, now, policy.update_cooldown) ==> outcome
                == Ok::<(), ErrorCode>(()) && *final(self) == old(self).with_submission(
                metrics,
                now,
            ),
    {
        if self.in_cooldown(now, policy) {
            return Err(ErrorCode::UpdateTooSoon);
        }
        self.encrypted_metrics = metrics;
        self.last_updated = now;
        Ok(())
    }

    /// Records a score computed at `now`, with the tier that follows from it.
    /// No cooldown applies: the score answers a submission that was accepted.
    pub fn apply_score(&mut self, score: u16, now: i64)
        ensures
            *final(self) == old(self).with_score(score, now),
    {
        self.current_score = score;
        self.risk_level = RiskLevel::from_score(score);
        self.score_timestamp = now;
    }

    /// Whether the score may be disclosed at `now`.
    pub fn check_freshness(&self, now: i64, policy: &Policy) -> (outcome: Result<(), ErrorCode>)
        ensures
            score_expired(self.score_timestamp, now, policy.score_validity) ==> outcome
                == Err::<(), ErrorCode>(ErrorCode::ScoreExpired),
            !score_expired(self.score_timestamp, now, policy.score_validity) ==> outcome
                == Ok::<(), ErrorCode>(()),
    {
        if (now as i128) - (self.score_timestamp as i128) >= policy.score_validity as i128 {
            Err(ErrorCode::ScoreExpired)
        } else {
            Ok(())
        }
    }
}

/// Cooldown: after a submission accepted at a positive time `first`, a second
/// one that comes less than the cooldown later is in the cooldown, so it is
/// refused and the record keeps the first submission's metrics and time.
pub proof fn lemma_early_resubmission_is_refused(
    record: CreditAccount,
    first_metrics: EncryptedWalletMetrics,
    first: i64,
    second: i64,
    cooldown: i64,
)
    requires
        first > 0,
        !cooldown_active(record.last_updated, first, cooldown),
        second - first < cooldown,
    ensures
        cooldown_active(record.with_submission(first_metrics, first).last_updated, second, cooldown),
        record.with_submission(first_metrics, first).encrypted_metrics == first_metrics,
        record.with_submission(first_metrics, first).last_updated == first,
{
}

/// Once the cooldown has passed, the next submission is accepted.
pub proof fn lemma_late_resubmission_is_accepted(
    record: CreditAccount,
    first_metrics: EncryptedWalletMetrics,
    first: i64,
    second: i64,
    cooldown: i64,
)
    requires
        second - first >= cooldown,
    ensures
        !cooldown_active(record.with_submission(first_metrics, first).last_updated, second, cooldown),
{
}

/// Freshness: a score is expired from `score_timestamp + validity` on and
/// fresh at every earlier time, the second before included.
pub proof fn lemma_freshness_boundary(score_timestamp: i64, now: i64, validity: i64)
    ensures
        now >= score_timestamp + validity ==> score_expired(score_timestamp, now, validity),
        now < score_timestamp + validity ==> !score_expired(score_timestamp, now, validity),
        now == score_timestamp + validity - 1 ==> !score_expired(score_timestamp, now, validity),
{
}

/// With a clock that never shows a negative time and a cooldown that is not
/// negative, an accepted submission never moves `last_updated` backwards.
pub proof fn lemma_last_updated_never_decreases(
    record: CreditAccount,
    metrics: EncryptedWalletMetrics,
    now: i64,
    cooldown: i64,
)
    requires
        record.last_updated >= 0,
        now >= 0,
        cooldown >= 0,
        !cooldown_active(record.last_updated, now, cooldown),
    ensures
        record.with_submission(metrics, now).last_updated >= record.last_updated,
        record.with_submission(metrics, now).last_updated >= 0,
{
}

/// A score leaves the submission untouched and a submission leaves the score
/// untouched.
pub proof fn lemma_score_and_submission_are_independent(
    record: CreditAccount,
    metrics: EncryptedWalletMetrics,
    score: u16,
    submitted: i64,
    scored: i64,
)
    ensures
        record.with_score(score, scored).encrypted_metrics == record.encrypted_metrics,
        record.with_score(score, scored).last_updated == record.last_updated,
        record.with_score(score, scored).wallet == record.wallet,
        record.with_submission(metrics, submitted).current_score == record.current_score,
        record.with_submission(metrics, submitted).risk_level == record.risk_level,
        record.with_submission(metrics, submitted).score_timestamp == record.score_timestamp,
        record.with_submission(metrics, submitted).wallet == record.wallet,
        record.with_submission(metrics, submitted).with_score(score, scored) == record.with_score(
            score,
            scored,
        ).with_submission(metrics, submitted),
{
}

} // verus!
