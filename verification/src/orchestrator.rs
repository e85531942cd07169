//! The orchestrator: the credit records of all wallets together with the
//! computations that are in flight.
//!
//! A submission or a disclosure is made in two steps, with the dispatch to
//! the compute service between them. The first step checks the rule and
//! builds the request, and changes nothing. The second step is taken once the
//! service has accepted the request: it commits the submission and registers
//! the computation under the identifier that its caller chose. A request that
//! the service refuses is simply never committed, so it leaves no trace.
//!
//! The service delivers exactly one result per request. The first result
//! under an identifier in flight resolves the computation; a result under any
//! other identifier is a protocol violation and is ignored. Identifiers are
//! chosen by the caller, who keeps them distinct among the computations in
//! flight.

use std::collections::HashMap;
use vstd::prelude::*;
use crate::circuit::Circuit;
use crate::errors::ErrorCode;
use crate::program::{
    calculate_and_share_score_callback,
    calculate_credit_score_callback,
    disclosed,
    share_score_with,
    submit_and_calculate_score,
    ComputationOutputs,
    EncryptedReport,
    EncryptedScoreShared,
    PendingComputation,
    Reconciliation,
    ScoreCalculated,
    ScoreCalculationStarted,
    ScoreCallback,
    ScoreDisclosure,
    ScoreShared,
    ScoreSubmission,
    ShareCallback,
    ShareScore,
    SubmitAndCalculate,
};
use crate::record::{cooldown_active, score_expired, CreditAccount, EncryptedWalletMetrics, Policy};
use crate::request::{score_request, share_request};
use crate::scoring::risk_tier;
use crate::store::{record_in, CreditStore};

verus! {

broadcast use vstd::std_specs::hash::group_hash_axioms;

/// The credit records of all wallets and the computations in flight.
#[derive(Debug)]
pub struct Orchestrator {
    store: CreditStore,
    pending: HashMap<u64, PendingComputation>,
    policy: Policy,
}

/// An orchestrator as a mathematical value.
pub struct OrchestratorView {
    /// The stored records, each under its wallet.
    pub records: Map<[u8; 32], CreditAccount>,
    /// The computations in flight, each under its identifier.
    pub pending: Map<u64, PendingComputation>,
    /// The time windows in force.
    pub policy: Policy,
}

impl View for Orchestrator {
    type V = OrchestratorView;

    closed spec fn view(&self) -> OrchestratorView {
        OrchestratorView { records: self.store@, pending: self.pending@, policy: self.policy }
    }
}

/// The orchestrator before anything has happened.
pub open spec fn initial(policy: Policy) -> OrchestratorView {
    OrchestratorView { records: Map::empty(), pending: Map::empty(), policy }
}

/// Whether a computation of the circuit is in flight under the identifier.
pub open spec fn awaits(state: OrchestratorView, computation_offset: u64, circuit: Circuit) -> bool {
    state.pending.contains_key(computation_offset) && state.pending[computation_offset].circuit
        == circuit
}

/// Whether a submission for the wallet at `now` is refused.
pub open spec fn submission_refused(state: OrchestratorView, wallet: [u8; 32], now: i64) -> bool {
    cooldown_active(record_in(state.records, wallet).last_updated, now, state.policy.update_cooldown)
}

/// Whether a disclosure of the wallet's score at `now` is refused.
pub open spec fn disclosure_refused(state: OrchestratorView, wallet: [u8; 32], now: i64) -> bool {
    score_expired(record_in(state.records, wallet).score_timestamp, now, state.policy.score_validity)
}

/// The state after a committed submission: the wallet's record holds the
/// metrics and the time, and a scoring computation is in flight.
pub open spec fn after_submission(
    state: OrchestratorView,
    wallet: [u8; 32],
    computation_offset: u64,
    metrics: EncryptedWalletMetrics,
    now: i64,
) -> OrchestratorView {
    OrchestratorView {
        records: state.records.insert(
            wallet,
            record_in(state.records, wallet).with_submission(metrics, now),
        ),
        pending: state.pending.insert(
            computation_offset,
            PendingComputation { wallet, circuit: Circuit::CalculateCreditScore },
        ),
        ..state
    }
}

/// The state after a committed disclosure: a disclosure computation is in
/// flight and no record has changed.
pub open spec fn after_share(
    state: OrchestratorView,
    wallet: [u8; 32],
    computation_offset: u64,
) -> OrchestratorView {
    OrchestratorView {
        pending: state.pending.insert(
            computation_offset,
            PendingComputation { wallet, circuit: Circuit::CalculateAndShareScore },
        ),
        ..state
    }
}

/// The state after the result of a scoring computation has been delivered.
pub open spec fn after_score_result(
    state: OrchestratorView,
    computation_offset: u64,
    output: ComputationOutputs<u16>,
    now: i64,
) -> OrchestratorView {
    if awaits(state, computation_offset, Circuit::CalculateCreditScore) {
        let wallet = state.pending[computation_offset].wallet;
        OrchestratorView {
            records: match output {
                ComputationOutputs::Success(score) => state.records.insert(
                    wallet,
                    record_in(state.records, wallet).with_score(score, now),
                ),
                ComputationOutputs::Failure => state.records,
            },
            pending: state.pending.remove(computation_offset),
            ..state
        }
    } else {
        state
    }
}

/// What is reported for the result of a scoring computation.
pub open spec fn score_reconciliation(
    state: OrchestratorView,
    computation_offset: u64,
    output: ComputationOutputs<u16>,
) -> Reconciliation<ScoreCalculated> {
    if awaits(state, computation_offset, Circuit::CalculateCreditScore) {
        match output {
            ComputationOutputs::Success(score) => Reconciliation::Resolved(
                ScoreCalculated {
                    wallet: state.pending[computation_offset].wallet,
                    score,
                    risk_level: risk_tier(score as int),
                },
            ),
            ComputationOutputs::Failure => Reconciliation::Failed(ErrorCode::CalculationFailed),
        }
    } else {
        Reconciliation::Ignored
    }
}

/// The state after the result of a disclosure computation has been
/// delivered. The records are never touched.
pub open spec fn after_share_result(
    state: OrchestratorView,
    computation_offset: u64,
) -> OrchestratorView {
    if awaits(state, computation_offset, Circuit::CalculateAndShareScore) {
        OrchestratorView { pending: state.pending.remove(computation_offset), ..state }
    } else {
        state
    }
}

/// Whether `result` is what is reported for the result of a disclosure
/// computation.
pub open spec fn is_share_reconciliation(
    state: OrchestratorView,
    computation_offset: u64,
    output: ComputationOutputs<EncryptedReport>,
    result: Reconciliation<EncryptedScoreShared>,
) -> bool {
    if awaits(state, computation_offset, Circuit::CalculateAndShareScore) {
        match output {
            ComputationOutputs::Success(report) => result matches Reconciliation::Resolved(event)
                && disclosed(report, event),
            ComputationOutputs::Failure => result == Reconciliation::<
                EncryptedScoreShared,
            >::Failed(ErrorCode::SharingFailed),
        }
    } else {
        result == Reconciliation::<EncryptedScoreShared>::Ignored
    }
}

impl Orchestrator {
    /// An orchestrator without records or computations in flight.
    pub fn new(policy: Policy) -> (orchestrator: Orchestrator)
        ensures
            orchestrator@ == initial(policy),
    {
        Orchestrator { store: CreditStore::new(), pending: HashMap::new(), policy }
    }

    /// The time windows in force.
    pub fn policy(&self) -> (policy: Policy)
        ensures
            policy == self@.policy,
    {
        self.policy
    }

    /// The record of the wallet: the stored one, or the fresh record where
    /// none is stored.
    pub fn record(&self, wallet: &[u8; 32]) -> (record: CreditAccount)
        ensures
            record == record_in(self@.records, *wallet),
    {
        self.store.get_or_create(wallet)
    }

    /// The computation in flight under the identifier, if there is one.
    pub fn pending_computation(&self, computation_offset: u64) -> (pending: Option<
        PendingComputation,
    >)
        ensures
            self@.pending.contains_key(computation_offset) ==> pending == Some(
                self@.pending[computation_offset],
            ),
            !self@.pending.contains_key(computation_offset) ==> pending is None,
    {
        match self.pending.get(&computation_offset) {
            Some(pending) => Some(*pending),
            None => None,
        }
    }

    /// Whether a computation is in flight under the identifier.
    pub fn is_pending(&self, computation_offset: u64) -> (pending: bool)
        ensures
            pending == self@.pending.contains_key(computation_offset),
    {
        self.pending.contains_key(&computation_offset)
    }

    /// The number of computations in flight.
    pub fn pending_count(&self) -> (count: usize)
        ensures
            count == self@.pending.len(),
    {
        self.pending.len()
    }

    /// First step of a submission: checks that the wallet is out of its
    /// cooldown and then that a cluster serves the program, and builds the
    /// scoring request. Nothing is changed.
    pub fn prepare_submission(
        &self,
        wallet: [u8; 32],
        credit_account_key: [u8; 32],
        cluster: Option<u32>,
        computation_offset: u64,
        encrypted_metrics: EncryptedWalletMetrics,
        sender_pubkey: [u8; 32],
        nonce: u128,
        now: i64,
    ) -> (outcome: Result<ScoreSubmission, ErrorCode>)
        ensures
            submission_refused(self@, wallet, now) ==> outcome is Err && outcome->Err_0
                == ErrorCode::UpdateTooSoon,
            !submission_refused(self@, wallet, now) && cluster is None ==> outcome is Err
                && outcome->Err_0 == ErrorCode::ClusterNotSet,
            !submission_refused(self@, wallet, now) && cluster is Some ==> outcome is Ok
                && outcome->Ok_0.request@ == score_request(
                credit_account_key,
                computation_offset,
                sender_pubkey,
                nonce,
                encrypted_metrics,
            ) && outcome->Ok_0.pending == (PendingComputation {
                wallet,
                circuit: Circuit::CalculateCreditScore,
            }) && outcome->Ok_0.event == (ScoreCalculationStarted { wallet, timestamp: now }),
    {
        let mut ctx = SubmitAndCalculate {
            wallet,
            credit_account: self.store.get_or_create(&wallet),
            credit_account_key,
            cluster,
            unix_timestamp: now,
        };
        submit_and_calculate_score(
            &mut ctx,
            &self.policy,
            computation_offset,
            encrypted_metrics,
            sender_pubkey,
            nonce,
        )
    }

    /// Second step of a submission, taken once the compute service has
    /// accepted the request: records the submission and registers the
    /// computation. The cooldown is checked again; while it is active nothing
    /// is changed.
    ///
    /// The caller chooses an identifier that no computation in flight bears.
    /// One that is in flight is bound anew: the earlier computation is
    /// forgotten and its result, should it still arrive, is taken for this
    /// one's or ignored.
    pub fn commit_submission(
        &mut self,
        wallet: [u8; 32],
        computation_offset: u64,
        encrypted_metrics: EncryptedWalletMetrics,
        now: i64,
    ) -> (outcome: Result<(), ErrorCode>)
        ensures
            submission_refused(old(self)@, wallet, now) ==> outcome == Err::<(), ErrorCode>(
                ErrorCode::UpdateTooSoon,
            ) && final(self)@ == old(self)@,
            !submission_refused(old(self)@, wallet, now) ==> outcome == Ok::<(), ErrorCode>(())
                && final(self)@ == after_submission(
                old(self)@,
                wallet,
                computation_offset,
                encrypted_metrics,
                now,
            ),
    {
        match self.store.apply_submission(&wallet, encrypted_metrics, now, &self.policy) {
            Err(refusal) => Err(refusal),
            Ok(()) => {
                self.pending.insert(
                    computation_offset,
                    PendingComputation { wallet, circuit: Circuit::CalculateCreditScore },
                );
                Ok(())
            },
        }
    }

    /// Delivers the result of a scoring computation.
    ///
    /// If a scoring computation is in flight under the identifier, it is
    /// resolved: a score is written to the record of its wallet, a failure
    /// leaves the record with its previous score. Any other result is ignored.
    pub fn reconcile_score(
        &mut self,
        computation_offset: u64,
        output: ComputationOutputs<u16>,
        now: i64,
    ) -> (result: Reconciliation<ScoreCalculated>)
        ensures
            final(self)@ == after_score_result(old(self)@, computation_offset, output, now),
            result == score_reconciliation(old(self)@, computation_offset, output),
    {
        let awaited: Option<[u8; 32]> = match self.pending_computation(computation_offset) {
            Some(PendingComputation { wallet, circuit: Circuit::CalculateCreditScore }) => Some(
                wallet,
            ),
            _ => None,
        };
        let mut ctx = ScoreCallback {
            credit_account: match awaited {
                Some(wallet) => self.store.get_or_create(&wallet),
                None => CreditAccount::new([0u8; 32]),
            },
            in_flight: awaited.is_some(),
            unix_timestamp: now,
        };
        let result = calculate_credit_score_callback(&mut ctx, output);
        match &result {
            Reconciliation::Resolved(_) => {
                self.pending.remove(&computation_offset);
                self.store.put(ctx.credit_account);
            },
            Reconciliation::Failed(_) => {
                self.pending.remove(&computation_offset);
            },
            Reconciliation::Ignored => {},
        }
        result
    }

    /// First step of a disclosure: checks that the wallet's score is fresh and
    /// then that a cluster serves the program, and builds the disclosure
    /// request over the stored metrics. Nothing is changed.
    pub fn prepare_share(
        &self,
        wallet: [u8; 32],
        receiver: [u8; 32],
        cluster: Option<u32>,
        computation_offset: u64,
        receiver_pubkey: [u8; 32],
        receiver_nonce: u128,
        sender_pubkey: [u8; 32],
        sender_nonce: u128,
        now: i64,
    ) -> (outcome: Result<ScoreDisclosure, ErrorCode>)
        ensures
            disclosure_refused(self@, wallet, now) ==> outcome is Err && outcome->Err_0
                == ErrorCode::ScoreExpired,
            !disclosure_refused(self@, wallet, now) && cluster is None ==> outcome is Err
                && outcome->Err_0 == ErrorCode::ClusterNotSet,
            !disclosure_refused(self@, wallet, now) && cluster is Some ==> outcome is Ok
                && outcome->Ok_0.request@ == share_request(
                computation_offset,
                receiver_pubkey,
                receiver_nonce,
                sender_pubkey,
                sender_nonce,
                record_in(self@.records, wallet).encrypted_metrics,
            ) && outcome->Ok_0.pending == (PendingComputation {
                wallet,
                circuit: Circuit::CalculateAndShareScore,
            }) && outcome->Ok_0.event == (ScoreShared {
                wallet,
                shared_with: receiver,
                timestamp: now,
            }),
    {
        let ctx = ShareScore {
            credit_account: self.store.get_or_create(&wallet),
            receiver,
            cluster,
            unix_timestamp: now,
        };
        share_score_with(
            &ctx,
            &self.policy,
            computation_offset,
            receiver_pubkey,
            receiver_nonce,
            sender_pubkey,
            sender_nonce,
        )
    }

    /// Second step of a disclosure, taken once the compute service has
    /// accepted the request: registers the computation. No record is changed.
    ///
    /// As for a submission, an identifier that is in flight is bound anew.
    pub fn commit_share(&mut self, wallet: [u8; 32], computation_offset: u64)
        ensures
            final(self)@ == after_share(old(self)@, wallet, computation_offset),
    {
        self.pending.insert(
            computation_offset,
            PendingComputation { wallet, circuit: Circuit::CalculateAndShareScore },
        );
    }

    /// Delivers the result of a disclosure computation.
    ///
    /// If a disclosure is in flight under the identifier, it is resolved: an
    /// encrypted report becomes the event that carries it to the receiver, a
    /// failure is reported as such. Any other result is ignored. No record is
    /// changed in any case.
    pub fn reconcile_share(
        &mut self,
        computation_offset: u64,
        output: ComputationOutputs<EncryptedReport>,
    ) -> (result: Reconciliation<EncryptedScoreShared>)
        ensures
            final(self)@ == after_share_result(old(self)@, computation_offset),
            is_share_reconciliation(old(self)@, computation_offset, output, result),
    {
        let mut ctx = ShareCallback {
            in_flight: match self.pending_computation(computation_offset) {
                Some(PendingComputation {
                    wallet: _,
                    circuit: Circuit::CalculateAndShareScore,
                }) => true,
                _ => false,
            },
        };
        let result = calculate_and_share_score_callback(&mut ctx, output);
        match &result {
            Reconciliation::Ignored => {},
            _ => {
                self.pending.remove(&computation_offset);
            },
        }
        result
    }
}

/// A result is consumed once: after the result of a scoring computation has
/// been delivered, its identifier is no longer in flight, and a second
/// result under the same identifier is ignored and changes nothing.
pub proof fn lemma_score_result_is_consumed_once(
    state: OrchestratorView,
    computation_offset: u64,
    first: ComputationOutputs<u16>,
    first_time: i64,
    second: ComputationOutputs<u16>,
    second_time: i64,
)
    ensures
        ({
            let resolved = after_score_result(state, computation_offset, first, first_time);
            &&& awaits(state, computation_offset, Circuit::CalculateCreditScore)
                ==> !resolved.pending.contains_key(computation_offset)
            &&& after_score_result(resolved, computation_offset, second, second_time) == resolved
            &&& score_reconciliation(resolved, computation_offset, second) == Reconciliation::<
                ScoreCalculated,
            >::Ignored
        }),
{
}

/// The same holds of disclosures: once the result of a disclosure has been
/// delivered, a second result under the same identifier is ignored.
pub proof fn lemma_share_result_is_consumed_once(
    state: OrchestratorView,
    computation_offset: u64,
    second: ComputationOutputs<EncryptedReport>,
    report: Reconciliation<EncryptedScoreShared>,
)
    requires
        is_share_reconciliation(
            after_share_result(state, computation_offset),
            computation_offset,
            second,
            report,
        ),
    ensures
        awaits(state, computation_offset, Circuit::CalculateAndShareScore) ==> !after_share_result(
            state,
            computation_offset,
        ).pending.contains_key(computation_offset),
        after_share_result(after_share_result(state, computation_offset), computation_offset)
            == after_share_result(state, computation_offset),
        report == Reconciliation::<EncryptedScoreShared>::Ignored,
{
}

/// A result that no computation in flight awaits changes nothing and is
/// reported as ignored.
pub proof fn lemma_unexpected_result_is_ignored(
    state: OrchestratorView,
    computation_offset: u64,
    output: ComputationOutputs<u16>,
    now: i64,
)
    requires
        !awaits(state, computation_offset, Circuit::CalculateCreditScore),
    ensures
        after_score_result(state, computation_offset, output, now) == state,
        score_reconciliation(state, computation_offset, output) == Reconciliation::<
            ScoreCalculated,
        >::Ignored,
{
}

/// A failed calculation leaves every record as it was: the previous score
/// of the wallet stands.
pub proof fn lemma_failed_calculation_keeps_records(
    state: OrchestratorView,
    computation_offset: u64,
    now: i64,
)
    ensures
        after_score_result(
            state,
            computation_offset,
            ComputationOutputs::Failure,
            now,
        ).records == state.records,
{
}

/// A disclosure never changes a record, neither when it is committed nor
/// when its result is delivered.
pub proof fn lemma_disclosure_keeps_records(
    state: OrchestratorView,
    wallet: [u8; 32],
    computation_offset: u64,
)
    ensures
        after_share(state, wallet, computation_offset).records == state.records,
        after_share_result(state, computation_offset).records == state.records,
{
}

/// Cooldown: after a submission committed at a positive time `first`, a
/// second submission for the same wallet less than the cooldown later is
/// refused, and the record still holds the first submission's metrics and
/// time.
pub proof fn lemma_resubmission_in_cooldown_is_refused(
    state: OrchestratorView,
    wallet: [u8; 32],
    computation_offset: u64,
    first_metrics: EncryptedWalletMetrics,
    first: i64,
    second: i64,
)
    requires
        first > 0,
        !submission_refused(state, wallet, first),
        second - first < state.policy.update_cooldown,
    ensures
        ({
            let submitted = after_submission(
                state,
                wallet,
                computation_offset,
                first_metrics,
                first,
            );
            &&& submission_refused(submitted, wallet, second)
            &&& record_in(submitted.records, wallet).encrypted_metrics == first_metrics
            &&& record_in(submitted.records, wallet).last_updated == first
        }),
{
}

/// Freshness: once a score has been written at `scored`, a disclosure for
/// the wallet is refused from `scored` plus the validity on, and at no
/// earlier time.
pub proof fn lemma_disclosure_depends_on_freshness(
    state: OrchestratorView,
    computation_offset: u64,
    score: u16,
    scored: i64,
    now: i64,
)
    requires
        awaits(state, computation_offset, Circuit::CalculateCreditScore),
    ensures
        disclosure_refused(
            after_score_result(
                state,
                computation_offset,
                ComputationOutputs::Success(score),
                scored,
            ),
            state.pending[computation_offset].wallet,
            now,
        ) <==> now >= scored + state.policy.score_validity,
{
}

/// What happens for one wallet leaves the records of all other wallets as
/// they were.
pub proof fn lemma_other_wallets_are_untouched(
    state: OrchestratorView,
    wallet: [u8; 32],
    other: [u8; 32],
    computation_offset: u64,
    metrics: EncryptedWalletMetrics,
    output: ComputationOutputs<u16>,
    now: i64,
)
    requires
        other != wallet,
    ensures
        record_in(
            after_submission(state, wallet, computation_offset, metrics, now).records,
            other,
        ) == record_in(state.records, other),
        awaits(state, computation_offset, Circuit::CalculateCreditScore)
            && state.pending[computation_offset].wallet == wallet ==> record_in(
            after_score_result(state, computation_offset, output, now).records,
            other,
        ) == record_in(state.records, other),
{
}

/// Two computations for one wallet may be in flight together. Their results
/// are applied in the order of their arrival, so the score that arrives last
/// is the one that the record ends with.
pub proof fn lemma_last_result_wins(
    state: OrchestratorView,
    earlier: u64,
    later: u64,
    earlier_score: u16,
    earlier_time: i64,
    later_score: u16,
    later_time: i64,
)
    requires
        earlier != later,
        awaits(state, earlier, Circuit::CalculateCreditScore),
        awaits(state, later, Circuit::CalculateCreditScore),
        state.pending[earlier].wallet == state.pending[later].wallet,
    ensures
        ({
            let wallet = state.pending[later].wallet;
            let end = after_score_result(
                after_score_result(
                    state,
                    earlier,
                    ComputationOutputs::Success(earlier_score),
                    earlier_time,
                ),
                later,
                ComputationOutputs::Success(later_score),
                later_time,
            );
            &&& record_in(end.records, wallet).current_score == later_score
            &&& record_in(end.records, wallet).score_timestamp == later_time
            &&& record_in(end.records, wallet).risk_level == risk_tier(later_score as int)
            &&& !end.pending.contains_key(earlier)
            &&& !end.pending.contains_key(later)
        }),
{
}

} // verus!
