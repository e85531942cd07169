//! The instructions of the scoring program.
//!
//! Each instruction is a decision on plain values. It is handed a context
//! that holds what it reads of the ledger (the credit record, the keys
//! involved, the clock, whether a computation is still in flight) and answers
//! with the request to dispatch, the computation to register and the event to
//! emit. Dispatching and emitting are left to the caller, who must persist a
//! changed context only once the dispatch has been accepted: a request that
//! the compute service refuses leaves no trace in a record.
//!
//! The compute service delivers one result per request. A callback is told
//! whether its computation is still in flight: the first result resolves it,
//! and any later one is ignored.

use vstd::prelude::*;
use vstd::bytes::{spec_u128_to_le_bytes, u128_to_le_bytes};
use crate::circuit::Circuit;
use crate::errors::ErrorCode;
use crate::record::{cooldown_active, score_expired, CreditAccount, EncryptedWalletMetrics, Policy};
use crate::request::{score_request, share_request, ComputationRequest};
use crate::scoring::{risk_tier, RiskLevel};

verus! {

/// What a submission reads of the ledger.
#[derive(Clone, Copy, Debug, PartialEq, Eq)]
pub struct SubmitAndCalculate {
    /// The key of the wallet that signs the submission.
    pub wallet: [u8; 32],
    /// The credit record of the wallet, fresh if this is its first submission.
    pub credit_account: CreditAccount,
    /// The address under which the record is stored.
    pub credit_account_key: [u8; 32],
    /// The cluster of compute nodes that serves the program, if one is set.
    pub cluster: Option<u32>,
    /// The clock's time, in seconds.
    pub unix_timestamp: i64,
}

/// What the callback of a scoring computation reads of the ledger.
#[derive(Clone, Copy, Debug, PartialEq, Eq)]
pub struct ScoreCallback {
    /// The credit record that the computation was requested for.
    pub credit_account: CreditAccount,
    /// Whether the computation is still in flight, that is, whether no result
    /// of it has been delivered yet.
    pub in_flight: bool,
    /// The clock's time, in seconds.
    pub unix_timestamp: i64,
}

/// What the callback of a disclosure computation reads of the ledger.
#[derive(Clone, Copy, Debug, PartialEq, Eq)]
pub struct ShareCallback {
    /// Whether the computation is still in flight, that is, whether no result
    /// of it has been delivered yet.
    pub in_flight: bool,
}

/// What a disclosure reads of the ledger.
#[derive(Clone, Copy, Debug, PartialEq, Eq)]
pub struct ShareScore {
    /// The credit record whose score is to be disclosed.
    pub credit_account: CreditAccount,
    /// The account of the party the score is shared with.
    pub receiver: [u8; 32],
    /// The cluster of compute nodes that serves the program, if one is set.
    pub cluster: Option<u32>,
    /// The clock's time, in seconds.
    pub unix_timestamp: i64,
}

/// Emitted when a submission has been accepted and its computation queued.
#[derive(Clone, Copy, Debug, PartialEq, Eq)]
pub struct ScoreCalculationStarted {
    pub wallet: [u8; 32],
    pub timestamp: i64,
}

/// Emitted when a computed score has been written to a record.
#[derive(Clone, Copy, Debug, PartialEq, Eq)]
pub struct ScoreCalculated {
    pub wallet: [u8; 32],
    pub score: u16,
    pub risk_level: RiskLevel,
}

/// Emitted when a disclosure has been queued.
#[derive(Clone, Copy, Debug, PartialEq, Eq)]
pub struct ScoreShared {
    pub wallet: [u8; 32],
    pub shared_with: [u8; 32],
    pub timestamp: i64,
}

/// Emitted when a disclosure has been computed: the report, encrypted for its
/// receiver.
#[derive(Clone, Copy, Debug, PartialEq, Eq)]
pub struct EncryptedScoreShared {
    /// The nonce of the encryption, in little-endian bytes.
    pub nonce: [u8; 16],
    pub encrypted_score: [u8; 32],
    pub encrypted_risk_level: [u8; 32],
}

/// What the compute service delivers for a request: exactly one result.
#[derive(Debug, PartialEq, Eq)]
pub enum ComputationOutputs<O> {
    Success(O),
    Failure,
}

/// A computation in flight: which wallet it is for and which circuit runs.
#[derive(Clone, Copy, Debug, PartialEq, Eq)]
pub struct PendingComputation {
    pub wallet: [u8; 32],
    pub circuit: Circuit,
}

/// What became of a result that the compute service delivered.
#[derive(Debug, PartialEq, Eq)]
pub enum Reconciliation<E> {
    /// The computation succeeded; the event announces its result.
    Resolved(E),
    /// The computation failed; this is its terminal state.
    Failed(ErrorCode),
    /// No computation in flight awaited this result. Nothing was changed.
    Ignored,
}

/// A report as the compute service returns it: encrypted for the receiver,
/// the score's ciphertext first and the risk tier's second.
#[derive(Clone, Copy, Debug, PartialEq, Eq)]
pub struct EncryptedReport {
    pub encryption_key: [u8; 32],
    pub nonce: u128,
    pub ciphertexts: [[u8; 32]; 2],
}

/// How a computation definition is registered with the compute service.
#[derive(Clone, Copy, Debug, PartialEq, Eq)]
pub struct ComputationDefinition {
    /// The circuit that the definition is for.
    pub circuit: Circuit,
    /// Whether a computation is finalized within its callback.
    pub finalize_during_callback: bool,
    /// The compute units granted to the callback; zero for the default.
    pub cu_amount: u64,
}

/// A submission that was made outside the cooldown.
#[derive(Debug, PartialEq, Eq)]
pub struct ScoreSubmission {
    /// The request to dispatch.
    pub request: ComputationRequest,
    /// The computation to register once the request has been accepted.
    pub pending: PendingComputation,
    /// The event to emit once the request has been accepted.
    pub event: ScoreCalculationStarted,
}

/// A disclosure of a score that is still fresh.
#[derive(Debug, PartialEq, Eq)]
pub struct ScoreDisclosure {
    /// The request to dispatch.
    pub request: ComputationRequest,
    /// The computation to register once the request has been accepted.
    pub pending: PendingComputation,
    /// The event to emit once the request has been accepted.
    pub event: ScoreShared,
}

/// The sixteen bytes of a nonce, least significant first.
fn nonce_bytes(nonce: u128) -> (bytes: [u8; 16])
    ensures
        bytes@ == spec_u128_to_le_bytes(nonce),
{
    let listed: Vec<u8> = u128_to_le_bytes(nonce);
    let mut bytes: [u8; 16] = [0u8; 16];
    let mut i: usize = 0;
    while i < 16
        invariant
            i <= 16,
            listed@.len() == 16,
            forall|k: int| 0 <= k < i ==> bytes@[k] == listed@[k],
        decreases 16 - i,
    {
        bytes[i] = listed[i];
        i = i + 1;
    }
    assert(bytes@ =~= listed@);
    bytes
}

/// The record of a submission context after an accepted submission: the
/// wallet is bound to the record, the metrics are replaced and the time of
/// the submission is stamped.
pub open spec fn submitted_account(
    ctx: SubmitAndCalculate,
    encrypted_metrics: EncryptedWalletMetrics,
) -> CreditAccount {
    CreditAccount {
        wallet: ctx.wallet,
        ..ctx.credit_account.with_submission(encrypted_metrics, ctx.unix_timestamp)
    }
}

/// The event of a disclosure that the compute service has computed.
pub open spec fn disclosed(report: EncryptedReport, event: EncryptedScoreShared) -> bool {
    &&& event.nonce@ == spec_u128_to_le_bytes(report.nonce)
    &&& event.encrypted_score == report.ciphertexts[0]
    &&& event.encrypted_risk_level == report.ciphertexts[1]
}

/// The computation definition to register: that of the scoring circuit,
/// finalized during its callback, with the default compute units.
pub fn init_comp_defs() -> (definition: ComputationDefinition)
    ensures
        definition == (ComputationDefinition {
            circuit: Circuit::CalculateCreditScore,
            finalize_during_callback: true,
            cu_amount: 0,
        }),
{
    ComputationDefinition {
        circuit: Circuit::CalculateCreditScore,
        finalize_during_callback: true,
        cu_amount: 0,
    }
}

/// Handles a submission of encrypted metrics.
///
/// While the cooldown of the previous submission is active the submission is
/// refused, whatever else holds. Outside the cooldown it is refused where no
/// cluster is set to serve it. A refusal leaves the context as it was.
/// Otherwise the record takes the wallet, the metrics and the time, and the
/// scoring request is returned with the computation to register and the event
/// that announces it.
pub fn submit_and_calculate_score(
    ctx: &mut SubmitAndCalculate,
    policy: &Policy,
    computation_offset: u64,
    encrypted_metrics: EncryptedWalletMetrics,
    sender_pubkey: [u8; 32],
    nonce: u128,
) -> (outcome: Result<ScoreSubmission, ErrorCode>)
    ensures
        cooldown_active(
            old(ctx).credit_account.last_updated,
            old(ctx).unix_timestamp,
            policy.update_cooldown,
        ) ==> outcome is Err && outcome->Err_0 == ErrorCode::UpdateTooSoon && *final(ctx) == *old(
            ctx,
        ),
        !cooldown_active(
            old(ctx).credit_account.last_updated,
            old(ctx).unix_timestamp,
            policy.update_cooldown,
        ) && old(ctx).cluster is None ==> outcome is Err && outcome->Err_0
            == ErrorCode::ClusterNotSet && *final(ctx) == *old(ctx),
        !cooldown_active(
            old(ctx).credit_account.last_updated,
            old(ctx).unix_timestamp,
            policy.update_cooldown,
        ) && old(ctx).cluster is Some ==> outcome is Ok && *final(ctx) == (SubmitAndCalculate {
            credit_account: submitted_account(*old(ctx), encrypted_metrics),
            ..*old(ctx)
        }) && outcome->Ok_0.request@ == score_request(
            old(ctx).credit_account_key,
            computation_offset,
            sender_pubkey,
            nonce,
            encrypted_metrics,
        ) && outcome->Ok_0.pending == (PendingComputation {
            wallet: old(ctx).wallet,
            circuit: Circuit::CalculateCreditScore,
        }) && outcome->Ok_0.event == (ScoreCalculationStarted {
            wallet: old(ctx).wallet,
            timestamp: old(ctx).unix_timestamp,
        }),
{
    let current_time: i64 = ctx.unix_timestamp;
    if ctx.credit_account.in_cooldown(current_time, policy) {
        return Err(ErrorCode::UpdateTooSoon);
    }
    if ctx.cluster.is_none() {
        return Err(ErrorCode::ClusterNotSet);
    }
    match ctx.credit_account.apply_submission(encrypted_metrics, current_time, policy) {
        Err(refusal) => Err(refusal),
        Ok(()) => {
            ctx.credit_account.wallet = ctx.wallet;
            let request = ComputationRequest::for_score(
                ctx.credit_account_key,
                computation_offset,
                sender_pubkey,
                nonce,
                &encrypted_metrics,
            );
            let pending = PendingComputation {
                wallet: ctx.wallet,
                circuit: Circuit::CalculateCreditScore,
            };
            let event = ScoreCalculationStarted { wallet: ctx.wallet, timestamp: current_time };
            Ok(ScoreSubmission { request, pending, event })
        },
    }
}

/// Handles the result of a scoring computation.
///
/// The first result of a computation resolves it: a score is written to the
/// record with its tier and the time and announced by an event; a failure is
/// reported as `CalculationFailed` and leaves the record with its previous
/// score. Either way the computation is no longer in flight. A result of a
/// computation that is not in flight is ignored: nothing is changed and no
/// event is due.
pub fn calculate_credit_score_callback(
    ctx: &mut ScoreCallback,
    output: ComputationOutputs<u16>,
) -> (result: Reconciliation<ScoreCalculated>)
    ensures
        !old(ctx).in_flight ==> result == Reconciliation::<ScoreCalculated>::Ignored && *final(ctx)
            == *old(ctx),
        old(ctx).in_flight && output is Failure ==> result == Reconciliation::<
            ScoreCalculated,
        >::Failed(ErrorCode::CalculationFailed) && *final(ctx) == (ScoreCallback {
            in_flight: false,
            ..*old(ctx)
        }),
        output matches ComputationOutputs::Success(score) ==> (old(ctx).in_flight ==> result
            == Reconciliation::Resolved(
            ScoreCalculated {
                wallet: old(ctx).credit_account.wallet,
                score,
                risk_level: risk_tier(score as int),
            },
        ) && *final(ctx) == (ScoreCallback {
            credit_account: old(ctx).credit_account.with_score(score, old(ctx).unix_timestamp),
            in_flight: false,
            ..*old(ctx)
        })),
{
    if !ctx.in_flight {
        return Reconciliation::Ignored;
    }
    ctx.in_flight = false;
    match output {
        ComputationOutputs::Success(score) => {
            let current_time: i64 = ctx.unix_timestamp;
            ctx.credit_account.apply_score(score, current_time);
            Reconciliation::Resolved(
                ScoreCalculated {
                    wallet: ctx.credit_account.wallet,
                    score,
                    risk_level: ctx.credit_account.risk_level,
                },
            )
        },
        ComputationOutputs::Failure => Reconciliation::Failed(ErrorCode::CalculationFailed),
    }
}

/// Handles a request to disclose the score of a record to a receiver.
///
/// A score that is no longer fresh is not disclosed, whatever else holds. A
/// fresh one is not disclosed where no cluster is set to serve the request.
/// Otherwise the disclosure request over the stored metrics is returned with
/// the computation to register and the event that announces it. The record is
/// only read.
pub fn share_score_with(
    ctx: &ShareScore,
    policy: &Policy,
    computation_offset: u64,
    receiver_pubkey: [u8; 32],
    receiver_nonce: u128,
    sender_pubkey: [u8; 32],
    sender_nonce: u128,
) -> (outcome: Result<ScoreDisclosure, ErrorCode>)
    ensures
        score_expired(ctx.credit_account.score_timestamp, ctx.unix_timestamp, policy.score_validity)
            ==> outcome is Err && outcome->Err_0 == ErrorCode::ScoreExpired,
        !score_expired(
            ctx.credit_account.score_timestamp,
            ctx.unix_timestamp,
            policy.score_validity,
        ) && ctx.cluster is None ==> outcome is Err && outcome->Err_0 == ErrorCode::ClusterNotSet,
        !score_expired(
            ctx.credit_account.score_timestamp,
            ctx.unix_timestamp,
            policy.score_validity,
        ) && ctx.cluster is Some ==> outcome is Ok && outcome->Ok_0.request@ == share_request(
            computation_offset,
            receiver_pubkey,
            receiver_nonce,
            sender_pubkey,
            sender_nonce,
            ctx.credit_account.encrypted_metrics,
        ) && outcome->Ok_0.pending == (PendingComputation {
            wallet: ctx.credit_account.wallet,
            circuit: Circuit::CalculateAndShareScore,
        }) && outcome->Ok_0.event == (ScoreShared {
            wallet: ctx.credit_account.wallet,
            shared_with: ctx.receiver,
            timestamp: ctx.unix_timestamp,
        }),
{
    match ctx.credit_account.check_freshness(ctx.unix_timestamp, policy) {
        Err(refusal) => Err(refusal),
        Ok(()) => {
            if ctx.cluster.is_none() {
                return Err(ErrorCode::ClusterNotSet);
            }
            let request = ComputationRequest::for_share(
                computation_offset,
                receiver_pubkey,
                receiver_nonce,
                sender_pubkey,
                sender_nonce,
                &ctx.credit_account.encrypted_metrics,
            );
            let pending = PendingComputation {
                wallet: ctx.credit_account.wallet,
                circuit: Circuit::CalculateAndShareScore,
            };
            let event = ScoreShared {
                wallet: ctx.credit_account.wallet,
                shared_with: ctx.receiver,
                timestamp: ctx.unix_timestamp,
            };
            Ok(ScoreDisclosure { request, pending, event })
        },
    }
}

/// Handles the result of a disclosure computation.
///
/// The first result of a computation resolves it: an encrypted report becomes
/// the event that carries it to the receiver; a failure is reported as
/// `SharingFailed` and nothing is emitted. Either way the computation is no
/// longer in flight. A result of a computation that is not in flight is
/// ignored. No record is involved in any case.
pub fn calculate_and_share_score_callback(
    ctx: &mut ShareCallback,
    output: ComputationOutputs<EncryptedReport>,
) -> (result: Reconciliation<EncryptedScoreShared>)
    ensures
        !old(ctx).in_flight ==> result == Reconciliation::<EncryptedScoreShared>::Ignored
            && *final(ctx) == *old(ctx),
        old(ctx).in_flight && output is Failure ==> result == Reconciliation::<
            EncryptedScoreShared,
        >::Failed(ErrorCode::SharingFailed) && !final(ctx).in_flight,
        output matches ComputationOutputs::Success(report) ==> (old(ctx).in_flight ==> !final(ctx).in_flight
            && (result matches Reconciliation::Resolved(event) && disclosed(report, event))),
{
    if !ctx.in_flight {
        return Reconciliation::Ignored;
    }
    ctx.in_flight = false;
    match output {
        ComputationOutputs::Success(report) => Reconciliation::Resolved(
            EncryptedScoreShared {
                nonce: nonce_bytes(report.nonce),
                encrypted_score: report.ciphertexts[0],
                encrypted_risk_level: report.ciphertexts[1],
            },
        ),
        ComputationOutputs::Failure => Reconciliation::Failed(ErrorCode::SharingFailed),
    }
}

} // verus!
