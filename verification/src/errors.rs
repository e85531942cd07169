//! The errors of the scoring protocol.

use vstd::prelude::*;

verus! {

/// Why a step of the protocol was refused or failed.
///
/// `UpdateTooSoon`, `ScoreExpired` and `ClusterNotSet` are returned to the
/// caller at once and leave every record as it was. `CalculationFailed` and
/// `SharingFailed` are the terminal state of a computation that the compute
/// service reported as failed.
#[derive(Clone, Copy, Debug, PartialEq, Eq)]
pub enum ErrorCode {
    /// A submission arrived while the cooldown of the previous one was active.
    UpdateTooSoon,
    /// The compute service reported that scoring failed.
    CalculationFailed,
    /// The stored score is too old to be disclosed.
    ScoreExpired,
    /// The compute service reported that a disclosure failed.
    SharingFailed,
    /// The compute service has no cluster to accept the request.
    ClusterNotSet,
}

impl ErrorCode {
    /// The text shown for each error.
    pub open spec fn message_text(self) -> Seq<char> {
        match self {
            ErrorCode::UpdateTooSoon => "Must wait 24 hours between score updates"@,
            ErrorCode::CalculationFailed => "Score calculation failed"@,
            ErrorCode::ScoreExpired => "Score is older than 7 days"@,
            ErrorCode::SharingFailed => "Failed to share score"@,
            ErrorCode::ClusterNotSet => "cluster not found"@,
        }
    }

    /// The text shown for this error.
    pub fn message(&self) -> (text: &'static str)
        ensures
            text@ == self.message_text(),
    {
        match self {
            ErrorCode::UpdateTooSoon => "Must wait 24 hours between score updates",
            ErrorCode::CalculationFailed => "Score calculation failed",
            ErrorCode::ScoreExpired => "Score is older than 7 days",
            ErrorCode::SharingFailed => "Failed to share score",
            ErrorCode::ClusterNotSet => "cluster not found",
        }
    }

    /// Whether the error is the terminal state of a computation, reported by
    /// the compute service, rather than a refusal returned at submission.
    pub fn is_asynchronous(&self) -> (asynchronous: bool)
        ensures
            asynchronous == (*self == ErrorCode::CalculationFailed || *self
                == ErrorCode::SharingFailed),
    {
        match self {
            ErrorCode::CalculationFailed => true,
            ErrorCode::SharingFailed => true,
            _ => false,
        }
    }
}

} // verus!
