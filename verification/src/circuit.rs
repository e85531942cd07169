//! The two confidential circuits and the offsets under which the compute
//! service knows them.

use vstd::prelude::*;

verus! {

/// The offset under which the compute service registers the computation
/// definition of the circuit with the given name. It is derived from a digest
/// of the name and is the same wherever it is computed.
pub uninterp spec fn comp_def_offset_of(circuit_name: Seq<char>) -> u32;

/// Calls `arcium_anchor::comp_def_offset`, which hashes the name with SHA-256
/// and reads the first four bytes of the digest as a little-endian integer.
/// The result is taken on trust to be a function of the name alone; nothing
/// else is claimed of it.
#[verifier::external_body]
fn comp_def_offset(circuit_name: &str) -> (offset: u32)
    ensures
        offset == comp_def_offset_of(circuit_name@),
{
    arcium_anchor::comp_def_offset(circuit_name)
}

/// A circuit that the compute service runs on encrypted wallet metrics.
#[derive(Clone, Copy, Debug, PartialEq, Eq)]
pub enum Circuit {
    /// Scores the metrics and reveals the score.
    CalculateCreditScore,
    /// Scores the metrics and encrypts the report for a recipient.
    CalculateAndShareScore,
}

impl Circuit {
    /// The name under which the circuit is compiled and registered.
    pub open spec fn name_text(self) -> Seq<char> {
        match self {
            Circuit::CalculateCreditScore => "calculate_credit_score"@,
            Circuit::CalculateAndShareScore => "calculate_and_share_score"@,
        }
    }

    /// The name under which the circuit is compiled and registered.
    pub fn name(&self) -> (name: &'static str)
        ensures
            name@ == self.name_text(),
    {
        match self {
            Circuit::CalculateCreditScore => "calculate_credit_score",
            Circuit::CalculateAndShareScore => "calculate_and_share_score",
        }
    }

    /// The offset of the circuit's computation definition, which every request
    /// for the circuit carries.
    pub fn comp_def_offset(&self) -> (offset: u32)
        ensures
            offset == comp_def_offset_of(self.name_text()),
    {
        comp_def_offset(self.name())
    }
}

} // verus!
