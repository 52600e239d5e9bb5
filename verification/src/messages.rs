//! Identifiers and small vocabulary types shared by every component.

use vstd::prelude::*;

verus! {

/// Seconds since the beginning of UNIX time.
pub type Time = u64;

/// Compares two byte strings.
pub fn bytes_eq(a: &[u8], b: &[u8]) -> (r: bool)
    ensures
        r == (a@ == b@),
{
    if a.len() != b.len() {
        return false;
    }
    let mut i: usize = 0;
    while i < a.len()
        invariant
            a@.len() == b@.len(),
            i <= a@.len(),
            forall|k: int| 0 <= k < i ==> a@[k] == b@[k],
        decreases a@.len() - i,
    {
        if a[i] != b[i] {
            return false;
        }
        i += 1;
    }
    assert(a@ =~= b@);
    true
}

/// Identifier of a task: 32 bytes.
#[derive(Clone, Copy, Debug, PartialEq, Eq, Hash)]
pub struct TaskId {
    pub bytes: [u8; 32],
}

impl View for TaskId {
    type V = Seq<u8>;

    open spec fn view(&self) -> Seq<u8> {
        self.bytes@
    }
}

impl TaskId {
    /// Whether two task identifiers hold the same bytes.
    pub fn same(&self, other: &TaskId) -> (r: bool)
        ensures
            r == (self@ == other@),
    {
        bytes_eq(self.bytes.as_slice(), other.bytes.as_slice())
    }
}

/// Identifier of a report: 16 bytes.
#[derive(Clone, Copy, Debug, PartialEq, Eq, Hash)]
pub struct ReportId {
    pub bytes: [u8; 16],
}

impl View for ReportId {
    type V = Seq<u8>;

    open spec fn view(&self) -> Seq<u8> {
        self.bytes@
    }
}

impl ReportId {
    /// Whether two report identifiers hold the same bytes.
    pub fn same(&self, other: &ReportId) -> (r: bool)
        ensures
            r == (self@ == other@),
    {
        bytes_eq(self.bytes.as_slice(), other.bytes.as_slice())
    }
}

/// Identifier of a fixed-size batch: 32 bytes.
#[derive(Clone, Copy, Debug, PartialEq, Eq, Hash)]
pub struct BatchId {
    pub bytes: [u8; 32],
}

impl View for BatchId {
    type V = Seq<u8>;

    open spec fn view(&self) -> Seq<u8> {
        self.bytes@
    }
}

impl BatchId {
    /// Whether two batch identifiers hold the same bytes.
    pub fn same(&self, other: &BatchId) -> (r: bool)
        ensures
            r == (self@ == other@),
    {
        bytes_eq(self.bytes.as_slice(), other.bytes.as_slice())
    }
}

/// What every report carries in the clear.
#[derive(Clone, Copy, Debug, PartialEq, Eq, Hash)]
pub struct ReportMetadata {
    pub id: ReportId,
    pub time: Time,
}

/// Why a single report left the pipeline. Terminal for that report; never
/// aborts the job it travelled in.
#[derive(Clone, Copy, Debug, PartialEq, Eq, Structural)]
pub enum TransitionFailure {
    BatchCollected,
    ReportReplayed,
    ReportDropped,
    HpkeUnknownConfigId,
    HpkeUnknownAead,
    HpkeDecryptError,
    VdafPrepError,
    TaskExpired,
    ReportTooEarly,
}

/// Protocol version named by the first path segment of a request.
#[derive(Clone, Copy, Debug, PartialEq, Eq, Structural)]
pub enum DapVersion {
    Draft02,
    Draft05,
    Unknown,
}

/// How a task partitions its reports into batches.
#[derive(Clone, Copy, Debug, PartialEq, Eq, Structural)]
pub enum DapQueryConfig {
    TimeInterval,
    FixedSize { max_batch_size: u64 },
}

/// Which batch a collection or aggregate-share request is about.
#[derive(Clone, Copy, Debug, PartialEq, Eq, Hash)]
pub enum BatchSelector {
    TimeInterval { start: Time, duration: u64 },
    FixedSizeByBatchId { batch_id: BatchId },
}

/// A batch selector as plain values.
pub enum SelectorKey {
    TimeInterval { start: int, duration: int },
    FixedSize(Seq<u8>),
}

impl View for BatchSelector {
    type V = SelectorKey;

    open spec fn view(&self) -> SelectorKey {
        match self {
            BatchSelector::TimeInterval { start, duration } => SelectorKey::TimeInterval {
                start: *start as int,
                duration: *duration as int,
            },
            BatchSelector::FixedSizeByBatchId { batch_id } => SelectorKey::FixedSize(batch_id@),
        }
    }
}

} // verus!
