//! What holds of the aggregate store over every sequence of operations.

use vstd::prelude::*;
use vstd::set_lib::*;
use crate::messages::{ReportMetadata, SelectorKey, Time};
use crate::report::least_valid_time;
use crate::shard::{partition_of, PartitionKey, ShardConfig};
use crate::share::ShareView;
use crate::store::{
    covers, empty_store, expired, has_replay, marked_state, processed_key, processed_keys, put_outcome,
    put_state, span_outcome, span_state, BucketId, ProcessedKey, SpanEntryView, StoreState,
};

verus! {

/// An operation that changes the store.
pub enum StoreOp {
    /// An increment is put to a bucket.
    Put { id: BucketId, delta: ShareView, reports: Seq<ReportMetadata> },
    /// A batch of a task is marked as collected.
    Mark { task_id: Seq<u8>, selector: SelectorKey },
}

/// The store after one operation.
pub open spec fn step(state: StoreState, config: ShardConfig, op: StoreOp) -> StoreState {
    match op {
        StoreOp::Put { id, delta, reports } => put_state(state, config, id, delta, reports),
        StoreOp::Mark { task_id, selector } => marked_state(state, task_id, selector),
    }
}

/// The store after a sequence of operations.
pub open spec fn run(state: StoreState, config: ShardConfig, ops: Seq<StoreOp>) -> StoreState
    decreases ops.len(),
{
    if ops.len() == 0 {
        state
    } else {
        step(run(state, config, ops.drop_last()), config, ops.last())
    }
}

/// The reports of an increment that belong to a partition, each counted
/// once.
pub open spec fn keys_in(
    config: ShardConfig,
    task_id: Seq<u8>,
    reports: Seq<ReportMetadata>,
    partition: PartitionKey,
) -> Set<ProcessedKey> {
    processed_keys(config, task_id, reports).filter(|k: ProcessedKey| k.partition == partition)
}

/// The number of reports that a sequence of operations merges into a
/// partition: for each increment that is merged, its reports in that
/// partition.
pub open spec fn merged_reports(
    state: StoreState,
    config: ShardConfig,
    ops: Seq<StoreOp>,
    partition: PartitionKey,
) -> nat
    decreases ops.len(),
{
    if ops.len() == 0 {
        0
    } else {
        let before = run(state, config, ops.drop_last());
        let earlier = merged_reports(state, config, ops.drop_last(), partition);
        match ops.last() {
            StoreOp::Put { id, delta, reports } => if put_outcome(
                before,
                config,
                id,
                delta,
                reports,
            ) is Merged {
                earlier + keys_in(config, id.task_id, reports, partition).len()
            } else {
                earlier
            },
            StoreOp::Mark { .. } => earlier,
        }
    }
}

/// The reports of an increment are finitely many.
pub proof fn lemma_processed_keys_finite(
    config: ShardConfig,
    task_id: Seq<u8>,
    reports: Seq<ReportMetadata>,
)
    ensures
        processed_keys(config, task_id, reports).finite(),
{
    let named = reports.map_values(|r: ReportMetadata| processed_key(config, task_id, r));
    assert forall|k: ProcessedKey|
        processed_keys(config, task_id, reports).contains(k) implies named.to_set().contains(
        k,
    ) by {
        let i = choose|i: int|
            0 <= i < reports.len() && #[trigger] processed_key(config, task_id, reports[i]) == k;
        assert(named[i] == k);
    }
    vstd::seq_lib::seq_to_set_is_finite(named);
    assert(processed_keys(config, task_id, reports).subset_of(named.to_set()));
    lemma_set_subset_finite(named.to_set(), processed_keys(config, task_id, reports));
}

/// Replay isolation, one operation at a time: the replay set of a
/// partition grows by exactly the reports that are merged into it.
pub proof fn lemma_replay_isolation_from(
    state: StoreState,
    config: ShardConfig,
    ops: Seq<StoreOp>,
    partition: PartitionKey,
)
    requires
        state.replay.finite(),
    ensures
        run(state, config, ops).replay.finite(),
        run(state, config, ops).replay_set(partition).finite(),
        run(state, config, ops).replay_set(partition).len() == state.replay_set(partition).len()
            + merged_reports(state, config, ops, partition),
    decreases ops.len(),
{
    let in_partition = |k: ProcessedKey| k.partition == partition;
    if ops.len() == 0 {
        state.replay.lemma_len_filter(in_partition);
    } else {
        lemma_replay_isolation_from(state, config, ops.drop_last(), partition);
        let before = run(state, config, ops.drop_last());
        let after = run(state, config, ops);
        match ops.last() {
            StoreOp::Put { id, delta, reports } => {
                if put_outcome(before, config, id, delta, reports) is Merged {
                    let keys = processed_keys(config, id.task_id, reports);
                    lemma_processed_keys_finite(config, id.task_id, reports);
                    lemma_set_union_finite_iff(before.replay, keys);
                    keys.lemma_len_filter(in_partition);
                    let old_part = before.replay_set(partition);
                    let new_part = keys_in(config, id.task_id, reports, partition);
                    assert(after.replay_set(partition) =~= old_part + new_part);
                    assert(old_part.disjoint(new_part)) by {
                        assert forall|k: ProcessedKey| new_part.contains(k) implies !old_part.contains(
                            k,
                        ) by {
                            let i = choose|i: int|
                                0 <= i < reports.len() && #[trigger] processed_key(
                                    config,
                                    id.task_id,
                                    reports[i],
                                ) == k;
                            assert(!has_replay(before, config, id.task_id, reports));
                        }
                    }
                    lemma_set_disjoint_lens(old_part, new_part);
                }
            },
            StoreOp::Mark { .. } => {},
        }
    }
}

/// Replay isolation: whatever is done to a store that started empty, the
/// replay set of every partition is finite and holds as many reports as
/// were merged into that partition, none of them twice.
pub proof fn lemma_replay_isolation(config: ShardConfig, ops: Seq<StoreOp>, partition: PartitionKey)
    ensures
        run(empty_store(), config, ops).replay_set(partition).finite(),
        run(empty_store(), config, ops).replay_set(partition).len() == merged_reports(
            empty_store(),
            config,
            ops,
            partition,
        ),
{
    lemma_replay_isolation_from(empty_store(), config, ops, partition);
    assert(empty_store().replay_set(partition) =~= Set::empty());
}

/// Bucket atomicity: an increment that is refused, for replays or for any
/// other reason, leaves the store as it was; in particular the share of its
/// bucket.
pub proof fn lemma_bucket_atomicity(
    state: StoreState,
    config: ShardConfig,
    id: BucketId,
    delta: ShareView,
    reports: Seq<ReportMetadata>,
)
    requires
        !(put_outcome(state, config, id, delta, reports) is Merged),
    ensures
        put_state(state, config, id, delta, reports) == state,
        put_state(state, config, id, delta, reports).share(id) == state.share(id),
{
}

/// Bucket atomicity within a span: where the increment at place `n` is
/// refused for replays, the store after it is the store before it.
pub proof fn lemma_span_atomicity(
    state: StoreState,
    config: ShardConfig,
    task_id: Seq<u8>,
    span: Seq<SpanEntryView>,
    n: int,
)
    requires
        0 <= n < span.len(),
        span_outcome(state, config, task_id, span, n) is Replays,
    ensures
        span_state(state, config, task_id, span, n + 1) == span_state(
            state,
            config,
            task_id,
            span,
            n,
        ),
{
}

/// A bucket that lies in a collected batch stays there, whatever is done
/// to the store.
pub proof fn lemma_collected_stays(
    state: StoreState,
    config: ShardConfig,
    ops: Seq<StoreOp>,
    id: BucketId,
)
    requires
        state.is_collected(id),
    ensures
        run(state, config, ops).is_collected(id),
    decreases ops.len(),
{
    if ops.len() > 0 {
        lemma_collected_stays(state, config, ops.drop_last(), id);
        let before = run(state, config, ops.drop_last());
        let after = run(state, config, ops);
        let i = choose|i: int| 0 <= i < before.collected.len() && #[trigger] before.collected[i].holds(id);
        assert(after.collected[i] == before.collected[i]);
        assert(after.collected[i].holds(id));
    }
}

/// Collection terminality: once a batch of a task is marked as collected,
/// every increment that is put to a bucket of that batch, after whatever
/// else is done to the store, is refused as already collected.
pub proof fn lemma_collection_terminal(
    state: StoreState,
    config: ShardConfig,
    task_id: Seq<u8>,
    selector: SelectorKey,
    ops: Seq<StoreOp>,
    id: BucketId,
    delta: ShareView,
    reports: Seq<ReportMetadata>,
)
    requires
        id.task_id == task_id,
        covers(selector, id.bucket),
    ensures
        put_outcome(
            run(marked_state(state, task_id, selector), config, ops),
            config,
            id,
            delta,
            reports,
        ) is AlreadyCollected,
{
    let marked = marked_state(state, task_id, selector);
    assert(marked.collected[state.collected.len() as int].holds(id));
    lemma_collected_stays(marked, config, ops, id);
}

/// Forgetting spares what can still come: where the safety interval is no
/// shorter than a storage epoch less one second, a report whose time is
/// still valid at `now` lies in no partition that may be forgotten at
/// `now`. So a report of a forgotten partition is dropped for its time
/// before it could be taken for new.
pub proof fn lemma_purge_spares_valid_reports(
    config: ShardConfig,
    task_id: Seq<u8>,
    id: Seq<u8>,
    time: Time,
    now: Time,
    safety_interval: u64,
)
    requires
        config.wf(),
        safety_interval + 1 >= config.report_storage_epoch_duration,
        time >= least_valid_time(now, config.report_storage_epoch_duration),
    ensures
        !expired(config, partition_of(config, task_id, id, time), now, safety_interval),
{
    let d = config.report_storage_epoch_duration as int;
    let t = time as int;
    // The end of the report's epoch lies behind the report's time.
    assert((t / d + 1) * d > t) by (nonlinear_arith)
        requires
            d > 0,
            t >= 0,
    ;
}

} // verus!
