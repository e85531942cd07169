//! Requests to the compute service.
//!
//! A request names a circuit and carries a positionally ordered argument
//! list. The order is part of the wire contract: the service binds arguments
//! to circuit parameters by position alone, so a reordered list is accepted
//! and silently computes on the wrong values.

use vstd::prelude::*;
use crate::circuit::Circuit;
use crate::record::EncryptedWalletMetrics;

verus! {

/// One argument of a computation.
#[derive(Clone, Copy, Debug, PartialEq, Eq)]
pub enum Argument {
    /// The public key with which the encrypted arguments that follow were
    /// shared.
    ArcisPubkey([u8; 32]),
    /// A nonce, in the clear.
    PlaintextU128(u128),
    /// The ciphertext of a 16-bit value.
    EncryptedU16([u8; 32]),
    /// The ciphertext of a 32-bit value.
    EncryptedU32([u8; 32]),
    /// The ciphertext of a 64-bit value.
    EncryptedU64([u8; 32]),
}

/// An account that the compute service hands to the callback of a
/// computation.
#[derive(Clone, Copy, Debug, PartialEq, Eq)]
pub struct CallbackAccount {
    /// The address of the account.
    pub pubkey: [u8; 32],
    /// Whether the callback may write to it.
    pub is_writable: bool,
}

/// A request, ready to be dispatched to the compute service.
#[derive(Debug, PartialEq, Eq)]
pub struct ComputationRequest {
    /// The circuit to run.
    pub circuit: Circuit,
    /// The identifier that the caller chose for this request, under which the
    /// result will come back.
    pub computation_offset: u64,
    /// The arguments, in the order of the circuit's parameters.
    pub args: Vec<Argument>,
    /// The accounts handed to the callback.
    pub callback_accounts: Vec<CallbackAccount>,
}

/// A request as a mathematical value.
pub struct ComputationRequestView {
    pub circuit: Circuit,
    pub computation_offset: u64,
    pub args: Seq<Argument>,
    pub callback_accounts: Seq<CallbackAccount>,
}

impl View for ComputationRequest {
    type V = ComputationRequestView;

    open spec fn view(&self) -> ComputationRequestView {
        ComputationRequestView {
            circuit: self.circuit,
            computation_offset: self.computation_offset,
            args: self.args@,
            callback_accounts: self.callback_accounts@,
        }
    }
}

/// The eight metric ciphertexts, in the declared order of the fields of the
/// wallet metrics, each tagged with the width of its plain value.
pub open spec fn metrics_arguments(metrics: EncryptedWalletMetrics) -> Seq<Argument> {
    seq![
        Argument::EncryptedU32(metrics.wallet_age_days),
        Argument::EncryptedU32(metrics.transaction_count),
        Argument::EncryptedU64(metrics.total_volume_usd),
        Argument::EncryptedU16(metrics.unique_protocols),
        Argument::EncryptedU16(metrics.defi_positions),
        Argument::EncryptedU16(metrics.nft_count),
        Argument::EncryptedU16(metrics.failed_txs),
        Argument::EncryptedU64(metrics.sol_balance),
    ]
}

/// The arguments of a scoring request: the sender's key, the nonce, then the
/// metrics.
pub open spec fn score_arguments(
    sender_pubkey: [u8; 32],
    nonce: u128,
    metrics: EncryptedWalletMetrics,
) -> Seq<Argument> {
    seq![Argument::ArcisPubkey(sender_pubkey), Argument::PlaintextU128(nonce)] + metrics_arguments(
        metrics,
    )
}

/// The arguments of a disclosure request: the receiver's key and nonce, the
/// sender's key and nonce, then the metrics.
pub open spec fn share_arguments(
    receiver_pubkey: [u8; 32],
    receiver_nonce: u128,
    sender_pubkey: [u8; 32],
    sender_nonce: u128,
    metrics: EncryptedWalletMetrics,
) -> Seq<Argument> {
    seq![
        Argument::ArcisPubkey(receiver_pubkey),
        Argument::PlaintextU128(receiver_nonce),
        Argument::ArcisPubkey(sender_pubkey),
        Argument::PlaintextU128(sender_nonce),
    ] + metrics_arguments(metrics)
}

/// The scoring request for a submission. Its callback is handed the credit
/// record, writable, so that the score can be written to it.
pub open spec fn score_request(
    credit_account_key: [u8; 32],
    computation_offset: u64,
    sender_pubkey: [u8; 32],
    nonce: u128,
    metrics: EncryptedWalletMetrics,
) -> ComputationRequestView {
    ComputationRequestView {
        circuit: Circuit::CalculateCreditScore,
        computation_offset,
        args: score_arguments(sender_pubkey, nonce, metrics),
        callback_accounts: seq![CallbackAccount { pubkey: credit_account_key, is_writable: true }],
    }
}

/// The disclosure request for a stored record. Its callback is handed no
/// account: a disclosure writes to no record.
pub open spec fn share_request(
    computation_offset: u64,
    receiver_pubkey: [u8; 32],
    receiver_nonce: u128,
    sender_pubkey: [u8; 32],
    sender_nonce: u128,
    metrics: EncryptedWalletMetrics,
) -> ComputationRequestView {
    ComputationRequestView {
        circuit: Circuit::CalculateAndShareScore,
        computation_offset,
        args: share_arguments(
            receiver_pubkey,
            receiver_nonce,
            sender_pubkey,
            sender_nonce,
            metrics,
        ),
        callback_accounts: Seq::empty(),
    }
}

/// Appends the eight metric ciphertexts to an argument list.
fn push_metrics(args: &mut Vec<Argument>, metrics: &EncryptedWalletMetrics)
    ensures
        final(args)@ == old(args)@ + metrics_arguments(*metrics),
{
    args.push(Argument::EncryptedU32(metrics.wallet_age_days));
    args.push(Argument::EncryptedU32(metrics.transaction_count));
    args.push(Argument::EncryptedU64(metrics.total_volume_usd));
    args.push(Argument::EncryptedU16(metrics.unique_protocols));
    args.push(Argument::EncryptedU16(metrics.defi_positions));
    args.push(Argument::EncryptedU16(metrics.nft_count));
    args.push(Argument::EncryptedU16(metrics.failed_txs));
    args.push(Argument::EncryptedU64(metrics.sol_balance));
    assert(args@ =~= old(args)@ + metrics_arguments(*metrics));
}

impl ComputationRequest {
    /// Builds the scoring request for a submission.
    pub fn for_score(
        credit_account_key: [u8; 32],
        computation_offset: u64,
        sender_pubkey: [u8; 32],
        nonce: u128,
        metrics: &EncryptedWalletMetrics,
    ) -> (request: ComputationRequest)
        ensures
            request@ == score_request(
                credit_account_key,
                computation_offset,
                sender_pubkey,
                nonce,
                *metrics,
            ),
    {
        let mut args: Vec<Argument> = Vec::new();
        args.push(Argument::ArcisPubkey(sender_pubkey));
        args.push(Argument::PlaintextU128(nonce));
        assert(args@ =~= seq![
            Argument::ArcisPubkey(sender_pubkey),
            Argument::PlaintextU128(nonce),
        ]);
        push_metrics(&mut args, metrics);
        let mut callback_accounts: Vec<CallbackAccount> = Vec::new();
        callback_accounts.push(CallbackAccount { pubkey: credit_account_key, is_writable: true });
        assert(callback_accounts@ =~= seq![
            CallbackAccount { pubkey: credit_account_key, is_writable: true },
        ]);
        ComputationRequest {
            circuit: Circuit::CalculateCreditScore,
            computation_offset,
            args,
            callback_accounts,
        }
    }

    /// Builds the disclosure request for the metrics of a stored record.
    pub fn for_share(
        computation_offset: u64,
        receiver_pubkey: [u8; 32],
        receiver_nonce: u128,
        sender_pubkey: [u8; 32],
        sender_nonce: u128,
        metrics: &EncryptedWalletMetrics,
    ) -> (request: ComputationRequest)
        ensures
            request@ == share_request(
                computation_offset,
                receiver_pubkey,
                receiver_nonce,
                sender_pubkey,
                sender_nonce,
                *metrics,
            ),
    {
        let mut args: Vec<Argument> = Vec::new();
        args.push(Argument::ArcisPubkey(receiver_pubkey));
        args.push(Argument::PlaintextU128(receiver_nonce));
        args.push(Argument::ArcisPubkey(sender_pubkey));
        args.push(Argument::PlaintextU128(sender_nonce));
        assert(args@ =~= seq![
            Argument::ArcisPubkey(receiver_pubkey),
            Argument::PlaintextU128(receiver_nonce),
            Argument::ArcisPubkey(sender_pubkey),
            Argument::PlaintextU128(sender_nonce),
        ]);
        push_metrics(&mut args, metrics);
        ComputationRequest {
            circuit: Circuit::CalculateAndShareScore,
            computation_offset,
            args,
            callback_accounts: Vec::new(),
        }
    }

    /// The offset of the computation definition of the request's circuit.
    pub fn comp_def_offset(&self) -> (offset: u32)
        ensures
            offset == crate::circuit::comp_def_offset_of(self.circuit.name_text()),
    {
        self.circuit.comp_def_offset()
    }
}

/// What the callbacks are handed: that of a scoring request the credit
/// record alone, writable, so that the score can be written to it; that of a
/// disclosure request nothing, so that it can write to no record.
pub proof fn lemma_callback_accounts(
    credit_account_key: [u8; 32],
    computation_offset: u64,
    first_pubkey: [u8; 32],
    first_nonce: u128,
    second_pubkey: [u8; 32],
    second_nonce: u128,
    metrics: EncryptedWalletMetrics,
)
    ensures
        score_request(
            credit_account_key,
            computation_offset,
            first_pubkey,
            first_nonce,
            metrics,
        ).callback_accounts.len() == 1,
        score_request(
            credit_account_key,
            computation_offset,
            first_pubkey,
            first_nonce,
            metrics,
        ).callback_accounts[0] == (CallbackAccount {
            pubkey: credit_account_key,
            is_writable: true,
        }),
        share_request(
            computation_offset,
            first_pubkey,
            first_nonce,
            second_pubkey,
            second_nonce,
            metrics,
        ).callback_accounts.len() == 0,
{
}

/// The layout of a scoring request's arguments: ten of them, the sender's key
/// first, the nonce second, then the metric ciphertexts in field order.
pub proof fn lemma_score_arguments_layout(
    sender_pubkey: [u8; 32],
    nonce: u128,
    metrics: EncryptedWalletMetrics,
)
    ensures
        score_arguments(sender_pubkey, nonce, metrics).len() == 10,
        score_arguments(sender_pubkey, nonce, metrics)[0] == Argument::ArcisPubkey(sender_pubkey),
        score_arguments(sender_pubkey, nonce, metrics)[1] == Argument::PlaintextU128(nonce),
        score_arguments(sender_pubkey, nonce, metrics).subrange(2, 10) == metrics_arguments(
            metrics,
        ),
        metrics_arguments(metrics)[0] == Argument::EncryptedU32(metrics.wallet_age_days),
        metrics_arguments(metrics)[1] == Argument::EncryptedU32(metrics.transaction_count),
        metrics_arguments(metrics)[2] == Argument::EncryptedU64(metrics.total_volume_usd),
        metrics_arguments(metrics)[3] == Argument::EncryptedU16(metrics.unique_protocols),
        metrics_arguments(metrics)[4] == Argument::EncryptedU16(metrics.defi_positions),
        metrics_arguments(metrics)[5] == Argument::EncryptedU16(metrics.nft_count),
        metrics_arguments(metrics)[6] == Argument::EncryptedU16(metrics.failed_txs),
        metrics_arguments(metrics)[7] == Argument::EncryptedU64(metrics.sol_balance),
{
    assert(score_arguments(sender_pubkey, nonce, metrics).subrange(2, 10) =~= metrics_arguments(
        metrics,
    ));
}

/// The layout of a disclosure request's arguments: twelve of them, the
/// receiver's key and nonce, the sender's key and nonce, then the metric
/// ciphertexts in field order.
pub proof fn lemma_share_arguments_layout(
    receiver_pubkey: [u8; 32],
    receiver_nonce: u128,
    sender_pubkey: [u8; 32],
    sender_nonce: u128,
    metrics: EncryptedWalletMetrics,
)
    ensures
        share_arguments(
            receiver_pubkey,
            receiver_nonce,
            sender_pubkey,
            sender_nonce,
            metrics,
        ).len() == 12,
        share_arguments(receiver_pubkey, receiver_nonce, sender_pubkey, sender_nonce, metrics)[0]
            == Argument::ArcisPubkey(receiver_pubkey),
        share_arguments(receiver_pubkey, receiver_nonce, sender_pubkey, sender_nonce, metrics)[1]
            == Argument::PlaintextU128(receiver_nonce),
        share_arguments(receiver_pubkey, receiver_nonce, sender_pubkey, sender_nonce, metrics)[2]
            == Argument::ArcisPubkey(sender_pubkey),
        share_arguments(receiver_pubkey, receiver_nonce, sender_pubkey, sender_nonce, metrics)[3]
            == Argument::PlaintextU128(sender_nonce),
        share_arguments(
            receiver_pubkey,
            receiver_nonce,
            sender_pubkey,
            sender_nonce,
            metrics,
        ).subrange(4, 12) == metrics_arguments(metrics),
{
    assert(share_arguments(
        receiver_pubkey,
        receiver_nonce,
        sender_pubkey,
        sender_nonce,
        metrics,
    ).subrange(4, 12) =~= metrics_arguments(metrics));
}

/// Nothing is lost on the wire: two scoring requests with the same argument
/// list were built from the same key, nonce and metrics.
pub proof fn lemma_score_arguments_determine_inputs(
    sender_a: [u8; 32],
    nonce_a: u128,
    metrics_a: EncryptedWalletMetrics,
    sender_b: [u8; 32],
    nonce_b: u128,
    metrics_b: EncryptedWalletMetrics,
)
    requires
        score_arguments(sender_a, nonce_a, metrics_a) == score_arguments(
            sender_b,
            nonce_b,
            metrics_b,
        ),
    ensures
        sender_a == sender_b,
        nonce_a == nonce_b,
        metrics_a == metrics_b,
{
    let a = score_arguments(sender_a, nonce_a, metrics_a);
    let b = score_arguments(sender_b, nonce_b, metrics_b);
    assert(a[0] == b[0]);
    assert(a[1] == b[1]);
    assert(a[2] == b[2]);
    assert(a[3] == b[3]);
    assert(a[4] == b[4]);
    assert(a[5] == b[5]);
    assert(a[6] == b[6]);
    assert(a[7] == b[7]);
    assert(a[8] == b[8]);
    assert(a[9] == b[9]);
}

} // verus!
