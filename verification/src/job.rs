//! An aggregation job from prepared reports to the status of each report:
//! the reports are grouped into a span, the span is put to the
//! aggregator's store, and the store's answers are read report by report.

use vstd::prelude::*;
use crate::aggregator::DapAggregator;
use crate::error::{DapError, FatalDapError};
use crate::messages::{
    DapQueryConfig, ReportId, ReportMetadata, SelectorKey, TaskId, TransitionFailure,
};
use crate::shard::ShardConfig;
use crate::span::{
    build_span, entry_statuses, first_failure, job_selector_valid, span_built, span_statuses,
    span_transitions, status_of, MergeStatus, PartialBatchSelector, PreparedReport,
};
use crate::share::{merged, summed_data, xor_bytes};
use crate::store::{
    answers, covers, has_replay, lemma_plain_is_given, marked_state, processed_key,
    processed_keys, replays, reports_outcome, span_outcome, span_outcome_given, span_state,
    span_state_given, span_view, BucketId, MergeAggShareError, ProcessedKey, PutOutcome,
    SpanEntry, SpanEntryView, StoreState,
};
use crate::store_laws::{lemma_collected_stays, run, StoreOp};
use crate::task::DapTaskConfig;

verus! {

/// What becomes of a report, from the outcome of its bucket: merged where
/// the bucket was; rejected as collected where the bucket was; where
/// replays were found, rejected as replayed if it is one of them and rolled
/// back if not; rolled back where the shares cannot be added.
pub open spec fn status_from(outcome: PutOutcome, id: Seq<u8>) -> MergeStatus {
    match outcome {
        PutOutcome::Merged => MergeStatus::Merged,
        PutOutcome::AlreadyCollected => MergeStatus::Rejected(TransitionFailure::BatchCollected),
        PutOutcome::Replays(replayed) => if replayed.contains(id) {
            MergeStatus::Rejected(TransitionFailure::ReportReplayed)
        } else {
            MergeStatus::RolledBack
        },
        PutOutcome::Failed => MergeStatus::RolledBack,
    }
}

/// The statuses of the reports of one bucket, in their order.
pub open spec fn bucket_statuses(reports: Seq<ReportMetadata>, outcome: PutOutcome) -> Seq<
    (ReportId, MergeStatus),
> {
    Seq::new(reports.len(), |i: int| (reports[i].id, status_from(outcome, reports[i].id@)))
}

/// The statuses of the reports of the first `n` buckets of a span that is
/// put to a store, bucket after bucket.
pub open spec fn job_statuses(
    state: StoreState,
    config: ShardConfig,
    task_id: Seq<u8>,
    span: Seq<SpanEntryView>,
    n: int,
) -> Seq<(ReportId, MergeStatus)>
    decreases n,
{
    if n <= 0 {
        Seq::empty()
    } else {
        job_statuses(state, config, task_id, span, n - 1) + bucket_statuses(
            span[n - 1].reports,
            span_outcome(state, config, task_id, span, n - 1),
        )
    }
}

/// Whether the shares of one of the first `n` buckets of a span cannot be
/// added to what the store holds.
pub open spec fn job_fails(
    state: StoreState,
    config: ShardConfig,
    task_id: Seq<u8>,
    span: Seq<SpanEntryView>,
    n: int,
) -> bool
    decreases n,
{
    n > 0 && (job_fails(state, config, task_id, span, n - 1) || span_outcome(
        state,
        config,
        task_id,
        span,
        n - 1,
    ) is Failed)
}

/// The span that a job puts to the store, or the error for which it puts
/// none: the job's selector does not suit the task, or the output shares
/// of a bucket cannot be added.
pub open spec fn job_span(
    query: DapQueryConfig,
    time_precision: u64,
    selector: PartialBatchSelector,
    reports: Seq<PreparedReport>,
) -> Result<Seq<SpanEntryView>, DapError> {
    if !job_selector_valid(query, time_precision, selector) {
        Err(DapError::Fatal(FatalDapError::QueryTypeMismatch))
    } else {
        match span_built(selector, time_precision, reports, reports.len() as int) {
            Some(span) => Ok(span),
            None => Err(DapError::Fatal(FatalDapError::InvalidMerge)),
        }
    }
}

/// Whether a result is what a job yields on a store that does not fail of
/// its own: an internal error where shares cannot be added, else the
/// status of every report.
pub open spec fn job_yields(
    result: Result<Vec<(ReportId, MergeStatus)>, DapError>,
    state: StoreState,
    config: ShardConfig,
    task_id: Seq<u8>,
    span: Seq<SpanEntryView>,
) -> bool {
    if job_fails(state, config, task_id, span, span.len() as int) {
        result matches Err(e) && e == DapError::Fatal(FatalDapError::InvalidMerge)
    } else {
        result matches Ok(statuses) && statuses@ == job_statuses(
            state,
            config,
            task_id,
            span,
            span.len() as int,
        )
    }
}

/// Where no answer among the first `n` is an error that ends the job, none
/// of them is an error of the store's own.
pub proof fn lemma_no_failure(given: Seq<SpanEntry<Result<(), MergeAggShareError>>>, n: int)
    requires
        0 <= n <= given.len(),
        first_failure(given, n).is_none(),
    ensures
        forall|i: int|
            0 <= i < n ==> !((#[trigger] given[i]).value matches Err(MergeAggShareError::Other(_))),
    decreases n,
{
    if n > 0 {
        lemma_no_failure(given, n - 1);
    }
}

/// Where every answer reports the outcome of its increment, the statuses
/// read from the answers are those that the outcomes fix, and the job ends
/// in an error exactly where shares cannot be added.
pub proof fn lemma_statuses_follow_outcomes(
    state: StoreState,
    config: ShardConfig,
    task_id: Seq<u8>,
    span: Seq<SpanEntryView>,
    given: Seq<SpanEntry<Result<(), MergeAggShareError>>>,
    n: int,
)
    requires
        0 <= n <= span.len(),
        given.len() == span.len(),
        forall|i: int| 0 <= i < n ==> (#[trigger] given[i]).reports@ == span[i].reports,
        forall|i: int|
            0 <= i < n ==> reports_outcome(
                (#[trigger] given[i]).value,
                span_outcome(state, config, task_id, span, i),
            ),
    ensures
        first_failure(given, n) == if job_fails(state, config, task_id, span, n) {
            Some(DapError::Fatal(FatalDapError::InvalidMerge))
        } else {
            None
        },
        !job_fails(state, config, task_id, span, n) ==> span_statuses(given, n) == job_statuses(
            state,
            config,
            task_id,
            span,
            n,
        ),
    decreases n,
{
    if n > 0 {
        lemma_statuses_follow_outcomes(state, config, task_id, span, given, n - 1);
        let entry = given[n - 1];
        let outcome = span_outcome(state, config, task_id, span, n - 1);
        assert(reports_outcome(entry.value, outcome));
        assert(entry.reports@ == span[n - 1].reports);
        if !job_fails(state, config, task_id, span, n) {
            let read = entry_statuses(entry, entry.reports@.len() as int);
            let fixed = bucket_statuses(span[n - 1].reports, outcome);
            assert forall|i: int| 0 <= i < read.len() implies read[i] == fixed[i] by {
                assert(status_of(entry.value, entry.reports@[i].id@) == status_from(
                    outcome,
                    entry.reports@[i].id@,
                ));
            }
            assert(read =~= fixed);
        }
    }
}

/// Runs an aggregation job on prepared reports. The reports are grouped
/// into a span, bucket by bucket in their order, and the span is put to
/// the aggregator's store. Where that ends without an error the store has
/// taken every increment that it could, and each report has its status:
/// merged; rejected, as collected or as replayed; or rolled back with its
/// bucket. On a store that does not fail of its own the job ends in an
/// error only where shares cannot be added.
pub fn handle_agg_job_init_req<A: DapAggregator>(
    agg: &mut A,
    task_id: &TaskId,
    task_config: &DapTaskConfig,
    selector: &PartialBatchSelector,
    reports: &Vec<PreparedReport>,
) -> (r: Result<Vec<(ReportId, MergeStatus)>, DapError>)
    requires
        old(agg).wf(),
    ensures
        final(agg).wf(),
        final(agg).shard_config() == old(agg).shard_config(),
        final(agg).reliable() == old(agg).reliable(),
        match job_span(task_config.query, task_config.time_precision, *selector, reports@) {
            Err(e) => r matches Err(f) && f == e && final(agg).store_state() == old(
                agg,
            ).store_state(),
            Ok(span) => (r is Ok || old(agg).reliable()) ==> {
                &&& job_yields(r, old(agg).store_state(), old(agg).shard_config(), task_id@, span)
                &&& final(agg).store_state() == span_state(
                    old(agg).store_state(),
                    old(agg).shard_config(),
                    task_id@,
                    span,
                    span.len() as int,
                )
            },
        },
{
    let built = match build_span(task_config, selector, reports) {
        Ok(built) => built,
        Err(e) => {
            return Err(e);
        },
    };
    let ghost state = agg.store_state();
    let ghost config = agg.shard_config();
    let ghost reliable = agg.reliable();
    let ghost span = span_view(built.span@);
    let given = agg.try_put_agg_share_span(task_id, task_config, &built);
    let r = span_transitions(&given);
    proof {
        let n = span.len() as int;
        assert forall|i: int| 0 <= i < n implies (#[trigger] given.span@[i]).reports@
            == span[i].reports by {}
        if r is Ok {
            lemma_no_failure(given.span@, n);
        }
        if r is Ok || reliable {
            assert forall|i: int| 0 <= i < n implies reports_outcome(
                (#[trigger] given.span@[i]).value,
                span_outcome_given(state, config, task_id@, span, given.span@, i),
            ) by {
                assert(answers(
                    given.span@[i].value,
                    span_outcome_given(state, config, task_id@, span, given.span@, i),
                ));
            }
            assert forall|i: int| 0 <= i <= n implies span_state_given(
                state,
                config,
                task_id@,
                span,
                given.span@,
                i,
            ) == span_state(state, config, task_id@, span, i) by {
                lemma_plain_is_given(state, config, task_id@, span, given.span@, i);
            }
            assert forall|i: int| 0 <= i < n implies reports_outcome(
                (#[trigger] given.span@[i]).value,
                span_outcome(state, config, task_id@, span, i),
            ) by {
                assert(span_outcome(state, config, task_id@, span, i) == span_outcome_given(
                    state,
                    config,
                    task_id@,
                    span,
                    given.span@,
                    i,
                ));
            }
            lemma_statuses_follow_outcomes(state, config, task_id@, span, given.span@, n);
        }
    }
    r
}

/// The name of the bucket at place `n` of a task's span.
pub open spec fn bucket_id(task_id: Seq<u8>, span: Seq<SpanEntryView>, n: int) -> BucketId {
    BucketId { task_id, bucket: span[n].bucket }
}

/// A bucket that has been collected is refused before its reports are
/// looked at: whether or not any of them is a replay, the store stays as
/// it was and every report of the bucket is rejected as collected.
pub proof fn lemma_collected_comes_first(
    state: StoreState,
    config: ShardConfig,
    task_id: Seq<u8>,
    span: Seq<SpanEntryView>,
    n: int,
)
    requires
        0 <= n < span.len(),
        span_state(state, config, task_id, span, n).is_collected(bucket_id(task_id, span, n)),
    ensures
        span_outcome(state, config, task_id, span, n) is AlreadyCollected,
        span_state(state, config, task_id, span, n + 1) == span_state(
            state,
            config,
            task_id,
            span,
            n,
        ),
        forall|i: int|
            0 <= i < span[n].reports.len() ==> (#[trigger] bucket_statuses(
                span[n].reports,
                span_outcome(state, config, task_id, span, n),
            )[i]).1 == MergeStatus::Rejected(TransitionFailure::BatchCollected),
{
}

/// A bucket with a replay is refused whole: the store stays as it was,
/// exactly the reports that were aggregated before are rejected as
/// replayed, and the others are rolled back.
pub proof fn lemma_replay_refuses_bucket(
    state: StoreState,
    config: ShardConfig,
    task_id: Seq<u8>,
    span: Seq<SpanEntryView>,
    n: int,
)
    requires
        0 <= n < span.len(),
        !span_state(state, config, task_id, span, n).is_collected(bucket_id(task_id, span, n)),
        has_replay(span_state(state, config, task_id, span, n), config, task_id, span[n].reports),
    ensures
        span_outcome(state, config, task_id, span, n) == PutOutcome::Replays(
            replays(span_state(state, config, task_id, span, n), config, task_id, span[n].reports),
        ),
        span_state(state, config, task_id, span, n + 1) == span_state(
            state,
            config,
            task_id,
            span,
            n,
        ),
        forall|i: int|
            0 <= i < span[n].reports.len() ==> (#[trigger] bucket_statuses(
                span[n].reports,
                span_outcome(state, config, task_id, span, n),
            )[i]).1 == if replays(
                span_state(state, config, task_id, span, n),
                config,
                task_id,
                span[n].reports,
            ).contains(span[n].reports[i].id@) {
                MergeStatus::Rejected(TransitionFailure::ReportReplayed)
            } else {
                MergeStatus::RolledBack
            },
{
}

/// A bucket that is open and whose reports are all new is merged, if its
/// shares can be added: the count of reports grows by the increment's, the
/// checksums are folded, the payloads are summed, exactly the reports of
/// the increment are recorded, and every report of the bucket is merged.
pub proof fn lemma_clean_bucket_is_merged(
    state: StoreState,
    config: ShardConfig,
    task_id: Seq<u8>,
    span: Seq<SpanEntryView>,
    n: int,
)
    requires
        0 <= n < span.len(),
        !span_state(state, config, task_id, span, n).is_collected(bucket_id(task_id, span, n)),
        !has_replay(span_state(state, config, task_id, span, n), config, task_id, span[n].reports),
        merged(
            span_state(state, config, task_id, span, n).share(bucket_id(task_id, span, n)),
            span[n].share,
        ).is_some(),
    ensures
        span_outcome(state, config, task_id, span, n) is Merged,
        ({
            let before = span_state(state, config, task_id, span, n);
            let after = span_state(state, config, task_id, span, n + 1);
            let id = bucket_id(task_id, span, n);
            &&& after.share(id).report_count == before.share(id).report_count
                + span[n].share.report_count
            &&& after.share(id).checksum == xor_bytes(
                before.share(id).checksum,
                span[n].share.checksum,
            )
            &&& summed_data(before.share(id).data, span[n].share.data) == Some(after.share(id).data)
            &&& after.replay == before.replay.union(
                processed_keys(config, task_id, span[n].reports),
            )
            &&& after.collected == before.collected
        }),
        forall|i: int|
            0 <= i < span[n].reports.len() ==> (#[trigger] bucket_statuses(
                span[n].reports,
                span_outcome(state, config, task_id, span, n),
            )[i]).1 == MergeStatus::Merged,
{
}

/// Whether a job rolled a report back with its bucket: such a report may
/// be put again.
pub open spec fn rolled_back(statuses: Seq<(ReportId, MergeStatus)>, id: Seq<u8>) -> bool {
    exists|i: int|
        0 <= i < statuses.len() && (#[trigger] statuses[i]).0@ == id && statuses[i].1
            == MergeStatus::RolledBack
}

/// Decides whether a job rolled a report back with its bucket.
pub fn is_rolled_back(statuses: &Vec<(ReportId, MergeStatus)>, id: &ReportId) -> (r: bool)
    ensures
        r == rolled_back(statuses@, id@),
{
    let mut i: usize = 0;
    while i < statuses.len()
        invariant
            i <= statuses@.len(),
            forall|k: int|
                0 <= k < i ==> !((#[trigger] statuses@[k]).0@ == id@ && statuses@[k].1
                    == MergeStatus::RolledBack),
        decreases statuses@.len() - i,
    {
        let rolled = match statuses[i].1 {
            MergeStatus::RolledBack => true,
            _ => false,
        };
        if rolled && statuses[i].0.same(id) {
            return true;
        }
        i += 1;
    }
    false
}

/// Putting a span never touches the batches that have been collected.
pub proof fn lemma_span_keeps_collected(
    state: StoreState,
    config: ShardConfig,
    task_id: Seq<u8>,
    span: Seq<SpanEntryView>,
    n: int,
)
    requires
        0 <= n <= span.len(),
    ensures
        span_state(state, config, task_id, span, n).collected == state.collected,
    decreases n,
{
    if n > 0 {
        lemma_span_keeps_collected(state, config, task_id, span, n - 1);
    }
}

/// A job after a collection: once a batch of a task is marked as
/// collected, then after whatever else is done to the store, a job's bucket
/// that the batch covers is refused, every report of it is rejected as
/// collected, and the store is left as it was by that bucket.
pub proof fn lemma_job_after_collection(
    state: StoreState,
    config: ShardConfig,
    task_id: Seq<u8>,
    selector: SelectorKey,
    ops: Seq<StoreOp>,
    span: Seq<SpanEntryView>,
    n: int,
)
    requires
        0 <= n < span.len(),
        covers(selector, span[n].bucket),
    ensures
        ({
            let later = run(marked_state(state, task_id, selector), config, ops);
            &&& span_outcome(later, config, task_id, span, n) is AlreadyCollected
            &&& span_state(later, config, task_id, span, n + 1) == span_state(
                later,
                config,
                task_id,
                span,
                n,
            )
            &&& forall|i: int|
                0 <= i < span[n].reports.len() ==> (#[trigger] bucket_statuses(
                    span[n].reports,
                    span_outcome(later, config, task_id, span, n),
                )[i]).1 == MergeStatus::Rejected(TransitionFailure::BatchCollected)
        }),
{
    let id = bucket_id(task_id, span, n);
    let marked = marked_state(state, task_id, selector);
    let later = run(marked, config, ops);
    assert(marked.collected[state.collected.len() as int].holds(id));
    lemma_collected_stays(marked, config, ops, id);
    lemma_span_keeps_collected(later, config, task_id, span, n);
    let at = span_state(later, config, task_id, span, n);
    let place = choose|i: int| 0 <= i < later.collected.len() && #[trigger] later.collected[i].holds(id);
    assert(at.collected[place].holds(id));
    lemma_collected_comes_first(later, config, task_id, span, n);
}

/// The name under which a report of a span is recorded.
pub open spec fn span_key(
    config: ShardConfig,
    task_id: Seq<u8>,
    span: Seq<SpanEntryView>,
    bucket: int,
    report: int,
) -> ProcessedKey {
    processed_key(config, task_id, span[bucket].reports[report])
}

/// What the first run of a span that is merged whole leaves behind: the
/// collected batches as they were, and every report of the buckets put so
/// far in the record.
pub proof fn lemma_merged_span_is_recorded(
    state: StoreState,
    config: ShardConfig,
    task_id: Seq<u8>,
    span: Seq<SpanEntryView>,
    n: int,
)
    requires
        0 <= n <= span.len(),
        forall|k: int| 0 <= k < span.len() ==> #[trigger] span_outcome(state, config, task_id, span, k) is Merged,
    ensures
        forall|x: ProcessedKey| #[trigger]
            state.replay.contains(x) ==> span_state(state, config, task_id, span, n).replay.contains(x),
        forall|m: int, i: int|
            0 <= m < n && 0 <= i < span[m].reports.len() ==> span_state(
                state,
                config,
                task_id,
                span,
                n,
            ).replay.contains(#[trigger] span_key(config, task_id, span, m, i)),
    decreases n,
{
    if n > 0 {
        lemma_merged_span_is_recorded(state, config, task_id, span, n - 1);
        let before = span_state(state, config, task_id, span, n - 1);
        let after = span_state(state, config, task_id, span, n);
        assert(span_outcome(state, config, task_id, span, n - 1) is Merged);
        assert(after.replay == before.replay.union(
            processed_keys(config, task_id, span[n - 1].reports),
        ));
        assert forall|m: int, i: int| 0 <= m < n && 0 <= i < span[m].reports.len() implies after.replay.contains(
            #[trigger] span_key(config, task_id, span, m, i),
        ) by {
            if m == n - 1 {
                assert(processed_keys(config, task_id, span[n - 1].reports).contains(
                    processed_key(config, task_id, span[n - 1].reports[i]),
                ));
            } else {
                assert(before.replay.contains(span_key(config, task_id, span, m, i)));
            }
        }
    }
}

/// A job put twice: where a span whose buckets all hold a report was
/// merged whole, putting the same span again leaves the store as it is,
/// bucket after bucket, and every report is rejected as replayed.
pub proof fn lemma_resubmission(
    state: StoreState,
    config: ShardConfig,
    task_id: Seq<u8>,
    span: Seq<SpanEntryView>,
    n: int,
)
    requires
        0 <= n <= span.len(),
        forall|k: int| 0 <= k < span.len() ==> span[k].reports.len() > 0,
        forall|k: int| 0 <= k < span.len() ==> #[trigger] span_outcome(state, config, task_id, span, k) is Merged,
    ensures
        ({
            let after = span_state(state, config, task_id, span, span.len() as int);
            &&& span_state(after, config, task_id, span, n) == after
            &&& !job_fails(after, config, task_id, span, n)
            &&& forall|k: int, i: int|
                0 <= k < n && 0 <= i < span[k].reports.len() ==> (#[trigger] bucket_statuses(
                    span[k].reports,
                    span_outcome(after, config, task_id, span, k),
                )[i]).1 == MergeStatus::Rejected(TransitionFailure::ReportReplayed)
        }),
    decreases n,
{
    let len = span.len() as int;
    let after = span_state(state, config, task_id, span, len);
    if n > 0 {
        lemma_resubmission(state, config, task_id, span, n - 1);
        let k = n - 1;
        let id = bucket_id(task_id, span, k);
        // The bucket was open when it was merged, and nothing was collected since.
        assert(span_outcome(state, config, task_id, span, k) is Merged);
        lemma_span_keeps_collected(state, config, task_id, span, k);
        lemma_span_keeps_collected(state, config, task_id, span, len);
        let then = span_state(state, config, task_id, span, k);
        assert(!then.is_collected(id));
        assert(!after.is_collected(id)) by {
            if after.is_collected(id) {
                let place = choose|i: int|
                    0 <= i < after.collected.len() && #[trigger] after.collected[i].holds(id);
                assert(then.collected[place].holds(id));
            }
        }
        // Every report of the bucket is in the record.
        lemma_merged_span_is_recorded(state, config, task_id, span, len);
        assert forall|i: int| 0 <= i < span[k].reports.len() implies after.replay.contains(
            processed_key(config, task_id, #[trigger] span[k].reports[i]),
        ) by {
            assert(after.replay.contains(span_key(config, task_id, span, k, i)));
        }
        assert(after.replay.contains(processed_key(config, task_id, span[k].reports[0])));
        assert(has_replay(after, config, task_id, span[k].reports));
        assert(span_outcome(after, config, task_id, span, k) == PutOutcome::Replays(
            replays(after, config, task_id, span[k].reports),
        ));
        assert forall|i: int| 0 <= i < span[k].reports.len() implies replays(
            after,
            config,
            task_id,
            span[k].reports,
        ).contains(#[trigger] span[k].reports[i].id@) by {}
    }
}

/// Whether a name is that of a report in one of the first `n` buckets of a
/// span.
pub open spec fn named_before(
    config: ShardConfig,
    task_id: Seq<u8>,
    span: Seq<SpanEntryView>,
    n: int,
    name: ProcessedKey,
) -> bool {
    exists|m: int, i: int|
        0 <= m < n && 0 <= i < span[m].reports.len() && #[trigger] span_key(
            config,
            task_id,
            span,
            m,
            i,
        ) == name
}

/// A job of fresh reports: where no bucket of a span is collected, no
/// report of it is in the record, no report stands in two of its buckets,
/// and the shares of every bucket can be added, every bucket is merged,
/// every report is merged and recorded, and nothing else is recorded.
pub proof fn lemma_fresh_reports_are_merged(
    state: StoreState,
    config: ShardConfig,
    task_id: Seq<u8>,
    span: Seq<SpanEntryView>,
    n: int,
)
    requires
        0 <= n <= span.len(),
        forall|k: int| 0 <= k < span.len() ==> !state.is_collected(#[trigger] bucket_id(task_id, span, k)),
        forall|k: int, i: int|
            0 <= k < span.len() && 0 <= i < span[k].reports.len() ==> !state.replay.contains(
                #[trigger] span_key(config, task_id, span, k, i),
            ),
        forall|m: int, i: int, k: int, j: int|
            0 <= m < k < span.len() && 0 <= i < span[m].reports.len() && 0 <= j
                < span[k].reports.len() ==> #[trigger] span_key(config, task_id, span, m, i)
                != #[trigger] span_key(config, task_id, span, k, j),
        forall|k: int|
            0 <= k < span.len() ==> merged(
                (#[trigger] span_state(state, config, task_id, span, k)).share(
                    bucket_id(task_id, span, k),
                ),
                span[k].share,
            ).is_some(),
    ensures
        forall|k: int| 0 <= k < n ==> #[trigger] span_outcome(state, config, task_id, span, k) is Merged,
        !job_fails(state, config, task_id, span, n),
        forall|k: int, i: int|
            0 <= k < n && 0 <= i < span[k].reports.len() ==> (#[trigger] bucket_statuses(
                span[k].reports,
                span_outcome(state, config, task_id, span, k),
            )[i]).1 == MergeStatus::Merged,
        forall|name: ProcessedKey| #[trigger]
            span_state(state, config, task_id, span, n).replay.contains(name) <==> (
            state.replay.contains(name) || named_before(config, task_id, span, n, name)),
    decreases n,
{
    if n > 0 {
        let k = n - 1;
        lemma_fresh_reports_are_merged(state, config, task_id, span, k);
        let before = span_state(state, config, task_id, span, k);
        let after = span_state(state, config, task_id, span, n);
        let id = bucket_id(task_id, span, k);
        // The bucket is open.
        lemma_span_keeps_collected(state, config, task_id, span, k);
        assert(!before.is_collected(id)) by {
            if before.is_collected(id) {
                let place = choose|i: int|
                    0 <= i < before.collected.len() && #[trigger] before.collected[i].holds(id);
                assert(state.collected[place].holds(id));
            }
        }
        // None of its reports is in the record.
        assert(!has_replay(before, config, task_id, span[k].reports)) by {
            if has_replay(before, config, task_id, span[k].reports) {
                let j = choose|j: int|
                    0 <= j < span[k].reports.len() && before.replay.contains(
                        #[trigger] processed_key(config, task_id, span[k].reports[j]),
                    );
                let name = span_key(config, task_id, span, k, j);
                assert(before.replay.contains(name));
                assert(named_before(config, task_id, span, k, name));
                let (m, i) = choose|m: int, i: int|
                    0 <= m < k && 0 <= i < span[m].reports.len() && #[trigger] span_key(
                        config,
                        task_id,
                        span,
                        m,
                        i,
                    ) == name;
                assert(span_key(config, task_id, span, m, i) != span_key(config, task_id, span, k, j));
            }
        }
        assert(merged(before.share(id), span[k].share).is_some());
        assert(span_outcome(state, config, task_id, span, k) is Merged);
        // What is recorded now.
        assert forall|name: ProcessedKey| #[trigger]
            after.replay.contains(name) <==> (state.replay.contains(name) || named_before(
                config,
                task_id,
                span,
                n,
                name,
            )) by {
            let more = processed_keys(config, task_id, span[k].reports);
            assert(after.replay.contains(name) <==> (before.replay.contains(name) || more.contains(
                name,
            )));
            if more.contains(name) {
                let i = choose|i: int|
                    0 <= i < span[k].reports.len() && #[trigger] processed_key(
                        config,
                        task_id,
                        span[k].reports[i],
                    ) == name;
                assert(span_key(config, task_id, span, k, i) == name);
            }
            if named_before(config, task_id, span, k, name) {
                let (m, i) = choose|m: int, i: int|
                    0 <= m < k && 0 <= i < span[m].reports.len() && #[trigger] span_key(
                        config,
                        task_id,
                        span,
                        m,
                        i,
                    ) == name;
                assert(span_key(config, task_id, span, m, i) == name);
            }
            if named_before(config, task_id, span, n, name) {
                let (m, i) = choose|m: int, i: int|
                    0 <= m < n && 0 <= i < span[m].reports.len() && #[trigger] span_key(
                        config,
                        task_id,
                        span,
                        m,
                        i,
                    ) == name;
                if m == k {
                    assert(processed_key(config, task_id, span[k].reports[i]) == name);
                    assert(more.contains(name));
                } else {
                    assert(span_key(config, task_id, span, m, i) == name);
                    assert(named_before(config, task_id, span, k, name));
                }
            }
        }
    }
}

} // verus!
