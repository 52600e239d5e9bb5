//! The aggregate span builder: prepared reports grouped by bucket, each
//! bucket with the sum of its reports' output shares.

use vstd::prelude::*;
use crate::error::{DapError, FatalDapError};
use crate::messages::{BatchId, DapQueryConfig, ReportId, ReportMetadata, Time, TransitionFailure};
use crate::share::{merged, DapAggregateShare, ShareView, VdafAggregateShare};
use crate::store::{
    copy_reports, names, span_view, BucketKey, DapAggregateSpan, DapBatchBucket,
    MergeAggShareError, SpanEntry, SpanEntryView,
};
use crate::task::{batch_window_of, DapTaskConfig};

verus! {

/// A report after preparation: what is known of it in the clear, and this
/// aggregator's output share.
#[derive(Debug)]
pub struct PreparedReport {
    pub metadata: ReportMetadata,
    pub out_share: VdafAggregateShare,
}

/// The batch that the reports of an aggregation job belong to, as far as
/// the job says: for a time-interval task each report's time decides.
#[derive(Clone, Copy, Debug)]
pub enum PartialBatchSelector {
    TimeInterval,
    FixedSizeByBatchId { batch_id: BatchId },
}

/// The checksum of a single report: its identifier, filled up with zero
/// bytes.
pub open spec fn report_checksum(id: Seq<u8>) -> Seq<u8> {
    Seq::new(
        32,
        |i: int|
            if i < 16 {
                id[i]
            } else {
                0u8
            },
    )
}

/// Computes the checksum of a single report.
pub fn checksum_of(id: &ReportId) -> (r: [u8; 32])
    ensures
        r@ == report_checksum(id@),
{
    let mut out: [u8; 32] = [0u8; 32];
    let mut i: usize = 0;
    while i < 16
        invariant
            i <= 16,
            forall|k: int| 0 <= k < i ==> out@[k] == id@[k],
            forall|k: int| i <= k < 32 ==> out@[k] == 0u8,
        decreases 16 - i,
    {
        out[i] = id.bytes[i];
        i += 1;
    }
    assert(out@ =~= report_checksum(id@));
    out
}

/// The bucket of a report: the batch that the job names, or the batch
/// window of the report's time.
pub open spec fn bucket_of(selector: PartialBatchSelector, time_precision: u64, time: Time) -> BucketKey {
    match selector {
        PartialBatchSelector::TimeInterval => BucketKey::TimeInterval(
            batch_window_of(time, time_precision),
        ),
        PartialBatchSelector::FixedSizeByBatchId { batch_id } => BucketKey::FixedSize(batch_id@),
    }
}

/// The share of a single report.
pub open spec fn single_share(report: PreparedReport) -> ShareView {
    ShareView {
        report_count: 1,
        min_time: report.metadata.time as int,
        max_time: report.metadata.time as int,
        checksum: report_checksum(report.metadata.id@),
        data: Some(report.out_share@),
    }
}

/// Whether `place` is where a bucket stands in a span: at its first entry
/// for that bucket, or behind the last entry where it has none.
pub open spec fn is_place(span: Seq<SpanEntryView>, bucket: BucketKey, place: int) -> bool {
    &&& 0 <= place <= span.len()
    &&& place < span.len() ==> span[place].bucket == bucket
    &&& forall|k: int| 0 <= k < place ==> (#[trigger] span[k]).bucket != bucket
}

/// Where a bucket stands in a span.
pub open spec fn place_of(span: Seq<SpanEntryView>, bucket: BucketKey) -> int {
    choose|place: int| is_place(span, bucket, place)
}

/// A bucket stands at one place only.
pub proof fn lemma_place_unique(span: Seq<SpanEntryView>, bucket: BucketKey, place: int)
    requires
        is_place(span, bucket, place),
    ensures
        place_of(span, bucket) == place,
{
    let other = place_of(span, bucket);
    if other < place {
        assert(span[other].bucket != bucket);
    } else if place < other {
        assert(span[place].bucket != bucket);
    }
}

/// A span after one more report is added: the report's share is merged
/// into the entry of its bucket, or begins a new entry behind the others.
/// `None` where the shares cannot be added.
pub open spec fn span_with(span: Seq<SpanEntryView>, bucket: BucketKey, report: PreparedReport) -> Option<
    Seq<SpanEntryView>,
> {
    let place = place_of(span, bucket);
    if place < span.len() {
        match merged(span[place].share, single_share(report)) {
            Some(share) => Some(
                span.update(
                    place,
                    SpanEntryView {
                        bucket,
                        share,
                        reports: span[place].reports.push(report.metadata),
                    },
                ),
            ),
            None => None,
        }
    } else {
        Some(
            span.push(
                SpanEntryView {
                    bucket,
                    share: single_share(report),
                    reports: seq![report.metadata],
                },
            ),
        )
    }
}

/// The span of the first `n` of a job's prepared reports, added one after
/// the other; `None` where shares cannot be added.
pub open spec fn span_built(
    selector: PartialBatchSelector,
    time_precision: u64,
    reports: Seq<PreparedReport>,
    n: int,
) -> Option<Seq<SpanEntryView>>
    decreases n,
{
    if n <= 0 {
        Some(Seq::empty())
    } else {
        match span_built(selector, time_precision, reports, n - 1) {
            None => None,
            Some(span) => span_with(
                span,
                bucket_of(selector, time_precision, reports[n - 1].metadata.time),
                reports[n - 1],
            ),
        }
    }
}

/// Once the first `n` reports cannot be added up, more of them cannot
/// either.
pub proof fn lemma_span_built_stays_none(
    selector: PartialBatchSelector,
    time_precision: u64,
    reports: Seq<PreparedReport>,
    n: int,
    m: int,
)
    requires
        n <= m,
        span_built(selector, time_precision, reports, n).is_none(),
    ensures
        span_built(selector, time_precision, reports, m).is_none(),
    decreases m - n,
{
    if n < m {
        lemma_span_built_stays_none(selector, time_precision, reports, n, m - 1);
    }
}

/// Whether a job's partial selector is one that the task's query type
/// calls for, and the task's batch window has a width where it is used.
pub open spec fn job_selector_valid(
    query: DapQueryConfig,
    time_precision: u64,
    selector: PartialBatchSelector,
) -> bool {
    match (query, selector) {
        (DapQueryConfig::TimeInterval, PartialBatchSelector::TimeInterval) => time_precision > 0,
        (DapQueryConfig::FixedSize { .. }, PartialBatchSelector::FixedSizeByBatchId { .. }) => true,
        _ => false,
    }
}

/// Finds the bucket of a report.
pub fn bucket_for(task_config: &DapTaskConfig, selector: &PartialBatchSelector, time: Time) -> (r:
    DapBatchBucket)
    requires
        job_selector_valid(task_config.query, task_config.time_precision, *selector),
    ensures
        r@ == bucket_of(*selector, task_config.time_precision, time),
{
    match selector {
        PartialBatchSelector::TimeInterval => DapBatchBucket::TimeInterval {
            batch_window: task_config.quantized_time_lower_bound(time),
        },
        PartialBatchSelector::FixedSizeByBatchId { batch_id } => DapBatchBucket::FixedSize {
            batch_id: *batch_id,
        },
    }
}

/// Decides whether a job's partial selector suits the task.
pub fn check_job_selector(task_config: &DapTaskConfig, selector: &PartialBatchSelector) -> (r: bool)
    ensures
        r == job_selector_valid(task_config.query, task_config.time_precision, *selector),
{
    match (&task_config.query, selector) {
        (DapQueryConfig::TimeInterval, PartialBatchSelector::TimeInterval) => {
            task_config.time_precision > 0
        },
        (DapQueryConfig::FixedSize { .. }, PartialBatchSelector::FixedSizeByBatchId { .. }) => true,
        _ => false,
    }
}

/// Finds where a bucket stands in a span.
fn find_place(span: &Vec<SpanEntry<DapAggregateShare>>, bucket: &DapBatchBucket) -> (r: usize)
    ensures
        is_place(span_view(span@), bucket@, r as int),
{
    let mut i: usize = 0;
    while i < span.len()
        invariant
            i <= span@.len(),
            forall|k: int| 0 <= k < i ==> (#[trigger] span_view(span@)[k]).bucket != bucket@,
        decreases span@.len() - i,
    {
        if span[i].bucket.same(bucket) {
            return i;
        }
        i += 1;
    }
    i
}

/// Groups prepared reports by bucket and adds up the output shares of each
/// bucket, in the order of the reports. The job's partial selector must
/// suit the task; shares that cannot be added are an internal error.
pub fn build_span(
    task_config: &DapTaskConfig,
    selector: &PartialBatchSelector,
    reports: &Vec<PreparedReport>,
) -> (r: Result<DapAggregateSpan<DapAggregateShare>, DapError>)
    ensures
        match r {
            Ok(span) => {
                &&& job_selector_valid(task_config.query, task_config.time_precision, *selector)
                &&& span_built(
                    *selector,
                    task_config.time_precision,
                    reports@,
                    reports@.len() as int,
                ) == Some(span_view(span.span@))
            },
            Err(e) => if job_selector_valid(
                task_config.query,
                task_config.time_precision,
                *selector,
            ) {
                e == DapError::Fatal(FatalDapError::InvalidMerge) && span_built(
                    *selector,
                    task_config.time_precision,
                    reports@,
                    reports@.len() as int,
                ).is_none()
            } else {
                e == DapError::Fatal(FatalDapError::QueryTypeMismatch)
            },
        },
{
    if !check_job_selector(task_config, selector) {
        return Err(DapError::Fatal(FatalDapError::QueryTypeMismatch));
    }
    let mut span: Vec<SpanEntry<DapAggregateShare>> = Vec::new();
    let mut i: usize = 0;
    assert(span_view(span@) =~= Seq::empty());
    while i < reports.len()
        invariant
            i <= reports@.len(),
            job_selector_valid(task_config.query, task_config.time_precision, *selector),
            span_built(*selector, task_config.time_precision, reports@, i as int) == Some(
                span_view(span@),
            ),
        decreases reports@.len() - i,
    {
        let report = &reports[i];
        let bucket = bucket_for(task_config, selector, report.metadata.time);
        let single = DapAggregateShare {
            report_count: 1,
            min_time: report.metadata.time,
            max_time: report.metadata.time,
            checksum: checksum_of(&report.metadata.id),
            data: Some(report.out_share.duplicate()),
        };
        assert(single@ == single_share(*report));
        let ghost before = span_view(span@);
        let place = find_place(&span, &bucket);
        proof {
            lemma_place_unique(before, bucket@, place as int);
        }
        if place < span.len() {
            let entry = &span[place];
            match entry.value.merge(&single) {
                None => {
                    proof {
                        lemma_span_built_stays_none(
                            *selector,
                            task_config.time_precision,
                            reports@,
                            i + 1,
                            reports@.len() as int,
                        );
                    }
                    return Err(DapError::Fatal(FatalDapError::InvalidMerge));
                },
                Some(share) => {
                    let mut listed = copy_reports(&entry.reports);
                    listed.push(report.metadata);
                    span.set(place, SpanEntry { bucket, value: share, reports: listed });
                    assert(span_view(span@) =~= span_with(before, bucket@, *report).unwrap());
                },
            }
        } else {
            let mut listed: Vec<ReportMetadata> = Vec::new();
            listed.push(report.metadata);
            span.push(SpanEntry { bucket, value: single, reports: listed });
            assert(span_view(span@) =~= span_with(before, bucket@, *report).unwrap());
        }
        i += 1;
    }
    Ok(DapAggregateSpan { span })
}

/// What became of a report when its bucket was put to the store.
#[derive(Clone, Copy, Debug, PartialEq, Eq, Structural)]
pub enum MergeStatus {
    /// The report is part of its bucket's share.
    Merged,
    /// The report is rejected for good.
    Rejected(TransitionFailure),
    /// The report's bucket was left as it was because another of its
    /// reports is a replay; this one may be put again.
    RolledBack,
}

/// What became of a report, from what the store said of its bucket: merged
/// where the bucket was; rejected as collected where the bucket was; where
/// replays were found, rejected as replayed if it is one of them and rolled
/// back if not.
pub open spec fn status_of(result: Result<(), MergeAggShareError>, id: Seq<u8>) -> MergeStatus {
    match result {
        Ok(()) => MergeStatus::Merged,
        Err(MergeAggShareError::AlreadyCollected) => MergeStatus::Rejected(
            TransitionFailure::BatchCollected,
        ),
        Err(MergeAggShareError::ReplaysDetected(list)) => if names(list@, id) {
            MergeStatus::Rejected(TransitionFailure::ReportReplayed)
        } else {
            MergeStatus::RolledBack
        },
        Err(MergeAggShareError::Other(_)) => MergeStatus::RolledBack,
    }
}

/// The statuses of the first `n` reports of one bucket.
pub open spec fn entry_statuses(entry: SpanEntry<Result<(), MergeAggShareError>>, n: int) -> Seq<
    (ReportId, MergeStatus),
> {
    Seq::new(
        n as nat,
        |i: int| (entry.reports@[i].id, status_of(entry.value, entry.reports@[i].id@)),
    )
}

/// The statuses of the reports of the first `n` buckets of a span, bucket
/// after bucket.
pub open spec fn span_statuses(span: Seq<SpanEntry<Result<(), MergeAggShareError>>>, n: int) -> Seq<
    (ReportId, MergeStatus),
>
    decreases n,
{
    if n <= 0 {
        Seq::empty()
    } else {
        span_statuses(span, n - 1) + entry_statuses(span[n - 1], span[n - 1].reports@.len() as int)
    }
}

/// The error of the first bucket, among the first `n`, that the store
/// could not handle.
pub open spec fn first_failure(span: Seq<SpanEntry<Result<(), MergeAggShareError>>>, n: int) -> Option<
    DapError,
>
    decreases n,
{
    if n <= 0 {
        None
    } else {
        match first_failure(span, n - 1) {
            Some(e) => Some(e),
            None => match span[n - 1].value {
                Err(MergeAggShareError::Other(e)) => Some(e),
                _ => None,
            },
        }
    }
}

/// A failure among the first `n` buckets is the failure among more.
pub proof fn lemma_first_failure_stays(
    span: Seq<SpanEntry<Result<(), MergeAggShareError>>>,
    n: int,
    m: int,
)
    requires
        n <= m,
        first_failure(span, n).is_some(),
    ensures
        first_failure(span, m) == first_failure(span, n),
    decreases m - n,
{
    if n < m {
        lemma_first_failure_stays(span, n, m - 1);
    }
}

/// Says of each report of a span what became of it, bucket after bucket,
/// unless the store could not handle a bucket: then the error of the first
/// such bucket.
pub fn span_transitions(span: &DapAggregateSpan<Result<(), MergeAggShareError>>) -> (r: Result<
    Vec<(ReportId, MergeStatus)>,
    DapError,
>)
    ensures
        match r {
            Ok(statuses) => first_failure(span.span@, span.span@.len() as int).is_none()
                && statuses@ == span_statuses(span.span@, span.span@.len() as int),
            Err(e) => first_failure(span.span@, span.span@.len() as int) == Some(e),
        },
{
    let mut out: Vec<(ReportId, MergeStatus)> = Vec::new();
    let mut i: usize = 0;
    while i < span.span.len()
        invariant
            i <= span.span@.len(),
            first_failure(span.span@, i as int).is_none(),
            out@ == span_statuses(span.span@, i as int),
        decreases span.span@.len() - i,
    {
        let entry = &span.span[i];
        let ghost done = out@;
        match &entry.value {
            Err(MergeAggShareError::Other(e)) => {
                proof {
                    lemma_first_failure_stays(span.span@, i + 1, span.span@.len() as int);
                }
                return Err(*e);
            },
            _ => {},
        }
        let mut j: usize = 0;
        while j < entry.reports.len()
            invariant
                j <= entry.reports@.len(),
                !(entry.value matches Err(MergeAggShareError::Other(_))),
                out@ == done + entry_statuses(*entry, j as int),
            decreases entry.reports@.len() - j,
        {
            let id = entry.reports[j].id;
            let status = match &entry.value {
                Ok(()) => MergeStatus::Merged,
                Err(MergeAggShareError::AlreadyCollected) => MergeStatus::Rejected(
                    TransitionFailure::BatchCollected,
                ),
                Err(MergeAggShareError::ReplaysDetected(list)) => if crate::store::is_named(
                    list,
                    &id,
                ) {
                    MergeStatus::Rejected(TransitionFailure::ReportReplayed)
                } else {
                    MergeStatus::RolledBack
                },
                Err(MergeAggShareError::Other(_)) => MergeStatus::RolledBack,
            };
            out.push((id, status));
            assert(out@ =~= done + entry_statuses(*entry, j + 1));
            j += 1;
        }
        i += 1;
    }
    Ok(out)
}

} // verus!
