//! Errors: aborts of a whole request, and failures inside the aggregator.

use vstd::prelude::*;
use crate::messages::{DapVersion, TransitionFailure};

verus! {

/// Why a whole request is refused; reported to the peer as a problem
/// document.
#[derive(Clone, Copy, Debug, PartialEq, Eq, Structural)]
pub enum DapAbort {
    UnrecognizedTask,
    UnauthorizedRequest,
    VersionMismatch { expected: DapVersion, found: DapVersion },
    BatchInvalid,
    BatchOverlap,
    InvalidBatchSize,
    BatchMismatch,
    BadRequest,
    Internal,
}

/// What went wrong inside the aggregator, where no abort describes it.
#[derive(Clone, Copy, Debug, PartialEq, Eq, Structural)]
pub enum FatalDapError {
    /// An increment could not be added to an aggregate share.
    InvalidMerge,
    /// A fixed-size operation was asked of a time-interval task, or the
    /// other way round.
    QueryTypeMismatch,
    /// A fixed-size task has no batch that could be collected.
    EmptyBatchQueue,
    /// A message kind has no media type in the given version.
    ContentType,
    /// The peer answered without naming a media type.
    PeerRespMissingMediaType,
    /// The peer refused a request.
    PeerAbort,
    /// The storage backend could not be reached or answered out of turn.
    Storage,
    /// A time-interval task has a batch window of no width.
    InvalidTimePrecision,
}

/// An error of the aggregator.
#[derive(Clone, Copy, Debug, PartialEq, Eq, Structural)]
pub enum DapError {
    /// Internal; surfaces as an internal error with status 500.
    Fatal(FatalDapError),
    /// Aborts the request.
    Abort(DapAbort),
    /// Rejects one report.
    Transition(TransitionFailure),
}

/// The HTTP status with which an abort is reported.
pub open spec fn abort_status(abort: DapAbort) -> u16 {
    if abort == DapAbort::Internal {
        500
    } else {
        400
    }
}

impl DapAbort {
    /// The HTTP status with which this abort is reported: 500 for an
    /// internal error, 400 for every other.
    pub fn status(&self) -> (r: u16)
        ensures
            r == abort_status(*self),
    {
        match self {
            DapAbort::Internal => 500,
            _ => 400,
        }
    }
}

/// The abort as which an error surfaces.
pub open spec fn error_abort(error: DapError) -> DapAbort {
    match error {
        DapError::Abort(abort) => abort,
        _ => DapAbort::Internal,
    }
}

impl DapError {
    /// The abort as which this error surfaces: itself where it is one, an
    /// internal error otherwise.
    pub fn into_abort(self) -> (r: DapAbort)
        ensures
            r == error_abort(self),
    {
        match self {
            DapError::Abort(abort) => abort,
            _ => DapAbort::Internal,
        }
    }
}

/// The name under which an abort is reported to the peer.
pub open spec fn abort_name(abort: DapAbort) -> Seq<char> {
    match abort {
        DapAbort::UnrecognizedTask => "unrecognized-task"@,
        DapAbort::UnauthorizedRequest => "unauthorized-request"@,
        DapAbort::VersionMismatch { .. } => "version-mismatch"@,
        DapAbort::BatchInvalid => "batch-invalid"@,
        DapAbort::BatchOverlap => "batch-overlap"@,
        DapAbort::InvalidBatchSize => "invalid-batch-size"@,
        DapAbort::BatchMismatch => "batch-mismatch"@,
        DapAbort::BadRequest => "bad-request"@,
        DapAbort::Internal => "internal-error"@,
    }
}

/// The name under which the failure of a report is reported to the peer.
pub open spec fn failure_name(failure: TransitionFailure) -> Seq<char> {
    match failure {
        TransitionFailure::BatchCollected => "batch-collected"@,
        TransitionFailure::ReportReplayed => "report-replayed"@,
        TransitionFailure::ReportDropped => "report-dropped"@,
        TransitionFailure::HpkeUnknownConfigId => "hpke-unknown-config-id"@,
        TransitionFailure::HpkeUnknownAead => "hpke-unknown-aead"@,
        TransitionFailure::HpkeDecryptError => "hpke-decrypt-error"@,
        TransitionFailure::VdafPrepError => "vdaf-prep-error"@,
        TransitionFailure::TaskExpired => "task-expired"@,
        TransitionFailure::ReportTooEarly => "report-too-early"@,
    }
}

impl DapAbort {
    /// The name under which this abort is reported to the peer.
    pub fn name(&self) -> (r: &'static str)
        ensures
            r@ == abort_name(*self),
    {
        match self {
            DapAbort::UnrecognizedTask => "unrecognized-task",
            DapAbort::UnauthorizedRequest => "unauthorized-request",
            DapAbort::VersionMismatch { .. } => "version-mismatch",
            DapAbort::BatchInvalid => "batch-invalid",
            DapAbort::BatchOverlap => "batch-overlap",
            DapAbort::InvalidBatchSize => "invalid-batch-size",
            DapAbort::BatchMismatch => "batch-mismatch",
            DapAbort::BadRequest => "bad-request",
            DapAbort::Internal => "internal-error",
        }
    }
}

/// The name under which the failure of a report is reported to the peer.
pub fn transition_failure_name(failure: TransitionFailure) -> (r: &'static str)
    ensures
        r@ == failure_name(failure),
{
    match failure {
        TransitionFailure::BatchCollected => "batch-collected",
        TransitionFailure::ReportReplayed => "report-replayed",
        TransitionFailure::ReportDropped => "report-dropped",
        TransitionFailure::HpkeUnknownConfigId => "hpke-unknown-config-id",
        TransitionFailure::HpkeUnknownAead => "hpke-unknown-aead",
        TransitionFailure::HpkeDecryptError => "hpke-decrypt-error",
        TransitionFailure::VdafPrepError => "vdaf-prep-error",
        TransitionFailure::TaskExpired => "task-expired",
        TransitionFailure::ReportTooEarly => "report-too-early",
    }
}

} // verus!
