//! Batch coordination: which selectors a task accepts, when a batch may be
//! collected, and which batch of a fixed-size task is current.

use vstd::prelude::*;
use crate::error::{DapAbort, DapError, FatalDapError};
use crate::messages::{BatchId, BatchSelector, DapQueryConfig, SelectorKey, TaskId};
use crate::share::{DapAggregateShare, ShareView};
use crate::store::{covered_sum, marked_state, AggregateStore, BucketId, BucketKey, StoreState};
use crate::task::DapTaskConfig;

verus! {

/// Whether a task accepts a selector: a time interval that starts on a
/// batch window and spans whole windows, for a time-interval task; a batch
/// identifier, for a fixed-size task.
pub open spec fn selector_valid(query: DapQueryConfig, time_precision: u64, selector: SelectorKey) -> bool {
    match (query, selector) {
        (DapQueryConfig::TimeInterval, SelectorKey::TimeInterval { start, duration }) => {
            time_precision > 0 && start % (time_precision as int) == 0 && duration % (
            time_precision as int) == 0
        },
        (DapQueryConfig::FixedSize { .. }, SelectorKey::FixedSize(_)) => true,
        _ => false,
    }
}

impl DapTaskConfig {
    /// Whether a selector is one that the task accepts.
    pub fn is_valid_batch_sel(&self, batch_sel: &BatchSelector) -> (r: bool)
        ensures
            r == selector_valid(self.query, self.time_precision, batch_sel@),
    {
        match (&self.query, batch_sel) {
            (DapQueryConfig::TimeInterval, BatchSelector::TimeInterval { start, duration }) => {
                self.time_precision > 0 && *start % self.time_precision == 0 && *duration
                    % self.time_precision == 0
            },
            (DapQueryConfig::FixedSize { .. }, BatchSelector::FixedSizeByBatchId { .. }) => true,
            _ => false,
        }
    }
}

/// Why a batch cannot be collected, as far as the request and the batches
/// collected so far show: the task does not accept the selector; the
/// selector names a batch that never received a report; the selector
/// overlaps a collected batch.
pub open spec fn collect_refusal(
    state: StoreState,
    task_id: Seq<u8>,
    query: DapQueryConfig,
    time_precision: u64,
    selector: SelectorKey,
) -> Option<DapAbort> {
    if !selector_valid(query, time_precision, selector) {
        Some(DapAbort::BatchInvalid)
    } else if selector matches SelectorKey::FixedSize(batch_id) && !state.shares.dom().contains(
        BucketId { task_id, bucket: BucketKey::FixedSize(batch_id) },
    ) {
        Some(DapAbort::BatchInvalid)
    } else if state.is_overlapping(task_id, selector) {
        Some(DapAbort::BatchOverlap)
    } else {
        None
    }
}

/// What a collection yields: the refusal, if there is one; else an internal
/// error where the covered shares cannot be added; else a refusal where
/// they hold too few reports; else their sum.
pub open spec fn collect_outcome(
    state: StoreState,
    task_id: Seq<u8>,
    query: DapQueryConfig,
    time_precision: u64,
    min_batch_size: u64,
    selector: SelectorKey,
) -> Result<ShareView, DapError> {
    match collect_refusal(state, task_id, query, time_precision, selector) {
        Some(abort) => Err(DapError::Abort(abort)),
        None => match covered_sum(state, task_id, selector, state.order.len() as int) {
            None => Err(DapError::Fatal(FatalDapError::InvalidMerge)),
            Some(share) => if share.report_count < min_batch_size {
                Err(DapError::Abort(DapAbort::InvalidBatchSize))
            } else {
                Ok(share)
            },
        },
    }
}

/// Decides whether a batch may be collected, as far as the request and the
/// batches collected so far show.
pub fn check_batch(
    store: &AggregateStore,
    task_id: &TaskId,
    task_config: &DapTaskConfig,
    batch_sel: &BatchSelector,
) -> (r: Result<(), DapAbort>)
    requires
        store.wf(),
    ensures
        match r {
            Ok(()) => collect_refusal(
                store@,
                task_id@,
                task_config.query,
                task_config.time_precision,
                batch_sel@,
            ).is_none(),
            Err(abort) => collect_refusal(
                store@,
                task_id@,
                task_config.query,
                task_config.time_precision,
                batch_sel@,
            ) == Some(abort),
        },
{
    if !task_config.is_valid_batch_sel(batch_sel) {
        return Err(DapAbort::BatchInvalid);
    }
    match batch_sel {
        BatchSelector::FixedSizeByBatchId { batch_id } => {
            if !store.batch_exists(task_id, batch_id) {
                return Err(DapAbort::BatchInvalid);
            }
        },
        _ => {},
    }
    if store.is_batch_overlapping(task_id, batch_sel) {
        return Err(DapAbort::BatchOverlap);
    }
    Ok(())
}

/// Collects a batch: checks the request, sums the covered shares, checks
/// the least batch size, marks the batch as collected and hands out the
/// sum. Where the batch is not handed out the store stays as it was.
pub fn collect(
    store: &mut AggregateStore,
    task_id: &TaskId,
    task_config: &DapTaskConfig,
    batch_sel: &BatchSelector,
) -> (r: Result<DapAggregateShare, DapError>)
    requires
        old(store).wf(),
    ensures
        final(store).wf(),
        final(store).shard_config() == old(store).shard_config(),
        match r {
            Ok(share) => {
                &&& collect_outcome(
                    old(store)@,
                    task_id@,
                    task_config.query,
                    task_config.time_precision,
                    task_config.min_batch_size,
                    batch_sel@,
                ) == Ok::<ShareView, DapError>(share@)
                &&& final(store)@ == marked_state(old(store)@, task_id@, batch_sel@)
            },
            Err(e) => {
                &&& collect_outcome(
                    old(store)@,
                    task_id@,
                    task_config.query,
                    task_config.time_precision,
                    task_config.min_batch_size,
                    batch_sel@,
                ) == Err::<ShareView, DapError>(e)
                &&& final(store)@ == old(store)@
            },
        },
{
    match check_batch(store, task_id, task_config, batch_sel) {
        Err(abort) => {
            return Err(DapError::Abort(abort));
        },
        Ok(()) => {},
    }
    let share = match store.get_agg_share(task_id, batch_sel) {
        Err(e) => {
            return Err(e);
        },
        Ok(share) => share,
    };
    if share.report_count < task_config.min_batch_size {
        return Err(DapError::Abort(DapAbort::InvalidBatchSize));
    }
    let _ = store.mark_collected(task_id, batch_sel);
    Ok(share)
}

/// What the batch queue of a fixed-size task says of its current batch.
#[derive(Clone, Copy, Debug)]
pub enum LeaderBatchQueueResult {
    /// The oldest batch that has not been collected.
    Current(BatchId),
    /// Every batch has been collected, or none was ever opened.
    EmptyQueue,
}

/// A batch in the queue of a fixed-size task.
#[derive(Clone, Copy, Debug, PartialEq, Eq)]
pub struct QueuedBatch {
    pub batch_id: BatchId,
    /// The number of reports that were assigned to the batch.
    pub report_count: u64,
}

/// The batches of a fixed-size task that have not been collected, oldest
/// first. Reports are assigned to the youngest; collection takes the
/// oldest.
pub struct LeaderBatchQueue {
    batches: Vec<QueuedBatch>,
}

impl View for LeaderBatchQueue {
    type V = Seq<QueuedBatch>;

    closed spec fn view(&self) -> Seq<QueuedBatch> {
        self.batches@
    }
}

/// The queue after one more report is assigned: the youngest batch takes
/// it while it holds fewer reports than the greatest batch size allows;
/// else a fresh batch begins with it.
pub open spec fn assigned(queue: Seq<QueuedBatch>, fresh: BatchId, max_batch_size: u64) -> Seq<
    QueuedBatch,
> {
    if queue.len() > 0 && queue.last().report_count < max_batch_size {
        queue.update(
            queue.len() - 1,
            QueuedBatch {
                batch_id: queue.last().batch_id,
                report_count: (queue.last().report_count + 1) as u64,
            },
        )
    } else {
        queue.push(QueuedBatch { batch_id: fresh, report_count: 1 })
    }
}

/// The place of the oldest batch with the given identifier; the length of
/// the queue where there is none.
pub open spec fn batch_place(queue: Seq<QueuedBatch>, batch_id: Seq<u8>) -> int
    decreases queue.len(),
{
    if queue.len() == 0 {
        0
    } else if queue[0].batch_id@ == batch_id {
        0
    } else {
        1 + batch_place(queue.drop_first(), batch_id)
    }
}

impl LeaderBatchQueue {
    /// A queue without batches.
    pub fn new() -> (r: LeaderBatchQueue)
        ensures
            r@ == Seq::<QueuedBatch>::empty(),
    {
        LeaderBatchQueue { batches: Vec::new() }
    }

    /// The batch that a collection takes next: the oldest in the queue.
    pub fn current(&self) -> (r: LeaderBatchQueueResult)
        ensures
            match r {
                LeaderBatchQueueResult::Current(batch_id) => self@.len() > 0 && batch_id
                    == self@[0].batch_id,
                LeaderBatchQueueResult::EmptyQueue => self@.len() == 0,
            },
    {
        if self.batches.len() == 0 {
            LeaderBatchQueueResult::EmptyQueue
        } else {
            LeaderBatchQueueResult::Current(self.batches[0].batch_id)
        }
    }

    /// Assigns one more report to a batch, and says to which. `fresh` is
    /// the identifier of the batch that begins if the youngest is full.
    pub fn assign(&mut self, fresh: BatchId, max_batch_size: u64) -> (r: BatchId)
        ensures
            final(self)@ == assigned(old(self)@, fresh, max_batch_size),
            r == final(self)@.last().batch_id,
    {
        let n = self.batches.len();
        if n > 0 && self.batches[n - 1].report_count < max_batch_size {
            let youngest = self.batches[n - 1];
            self.batches.set(
                n - 1,
                QueuedBatch { batch_id: youngest.batch_id, report_count: youngest.report_count + 1 },
            );
            youngest.batch_id
        } else {
            self.batches.push(QueuedBatch { batch_id: fresh, report_count: 1 });
            fresh
        }
    }

    /// Takes a batch out of the queue, as when it is collected. Says
    /// whether the queue held it.
    pub fn remove(&mut self, batch_id: &BatchId) -> (r: bool)
        ensures
            r == (batch_place(old(self)@, batch_id@) < old(self)@.len()),
            final(self)@ == if r {
                old(self)@.remove(batch_place(old(self)@, batch_id@))
            } else {
                old(self)@
            },
    {
        let ghost all = self.batches@;
        let mut i: usize = 0;
        assert(all.subrange(0, all.len() as int) =~= all);
        while i < self.batches.len()
            invariant
                i <= all.len(),
                self.batches@ == all,
                all == old(self)@,
                batch_place(all, batch_id@) == i + batch_place(
                    all.subrange(i as int, all.len() as int),
                    batch_id@,
                ),
            decreases all.len() - i,
        {
            let ghost rest = all.subrange(i as int, all.len() as int);
            assert(rest[0] == all[i as int]);
            assert(rest.drop_first() =~= all.subrange(i + 1, all.len() as int));
            if self.batches[i].batch_id.same(batch_id) {
                self.batches.remove(i);
                return true;
            }
            i += 1;
        }
        assert(all.subrange(i as int, all.len() as int).len() == 0);
        false
    }
}

/// Why a task has no current batch to ask the queue for: it is not known,
/// or it is not a fixed-size task.
pub open spec fn current_batch_refusal(query: Option<DapQueryConfig>) -> Option<DapError> {
    match query {
        None => Some(DapError::Abort(DapAbort::UnrecognizedTask)),
        Some(DapQueryConfig::FixedSize { .. }) => None,
        Some(DapQueryConfig::TimeInterval) => Some(
            DapError::Fatal(FatalDapError::QueryTypeMismatch),
        ),
    }
}

/// The query type of a task that may be unknown.
pub open spec fn query_of(task_config: Option<&DapTaskConfig>) -> Option<DapQueryConfig> {
    match task_config {
        Some(config) => Some(config.query),
        None => None,
    }
}

/// Decides whether the batch queue is to be asked for a task's current
/// batch.
pub fn check_current_batch(task_config: Option<&DapTaskConfig>) -> (r: Result<(), DapError>)
    ensures
        match r {
            Ok(()) => current_batch_refusal(query_of(task_config)).is_none(),
            Err(e) => current_batch_refusal(query_of(task_config)) == Some(e),
        },
{
    match task_config {
        None => Err(DapError::Abort(DapAbort::UnrecognizedTask)),
        Some(config) => match config.query {
            DapQueryConfig::FixedSize { .. } => Ok(()),
            DapQueryConfig::TimeInterval => Err(DapError::Fatal(FatalDapError::QueryTypeMismatch)),
        },
    }
}

/// The batch that is current for a task, from what the batch queue said:
/// the oldest batch that has not been collected. An empty queue is an
/// internal error, and so is a task that is not a fixed-size one.
pub fn internal_current_batch(
    task_config: Option<&DapTaskConfig>,
    queue: LeaderBatchQueueResult,
) -> (r: Result<BatchId, DapError>)
    ensures
        match current_batch_refusal(query_of(task_config)) {
            Some(e) => r == Err::<BatchId, DapError>(e),
            None => match queue {
                LeaderBatchQueueResult::Current(batch_id) => r == Ok::<BatchId, DapError>(batch_id),
                LeaderBatchQueueResult::EmptyQueue => r == Err::<BatchId, DapError>(
                    DapError::Fatal(FatalDapError::EmptyBatchQueue),
                ),
            },
        },
{
    match check_current_batch(task_config) {
        Err(e) => Err(e),
        Ok(()) => match queue {
            LeaderBatchQueueResult::Current(batch_id) => Ok(batch_id),
            LeaderBatchQueueResult::EmptyQueue => Err(
                DapError::Fatal(FatalDapError::EmptyBatchQueue),
            ),
        },
    }
}

/// The query-type guard: a time-interval task has no current batch and
/// accepts no batch identifier as a selector; a fixed-size task accepts no
/// time interval as a selector.
pub proof fn lemma_query_type_guard(
    query: DapQueryConfig,
    time_precision: u64,
    batch_id: Seq<u8>,
    start: int,
    duration: int,
)
    ensures
        query is TimeInterval ==> current_batch_refusal(Some(query)) == Some(
            DapError::Fatal(FatalDapError::QueryTypeMismatch),
        ),
        query is TimeInterval ==> !selector_valid(
            query,
            time_precision,
            SelectorKey::FixedSize(batch_id),
        ),
        query is FixedSize ==> !selector_valid(
            query,
            time_precision,
            SelectorKey::TimeInterval { start, duration },
        ),
        query is FixedSize ==> current_batch_refusal(Some(query)).is_none(),
{
}

/// A collected batch cannot be collected again, nor any batch that
/// overlaps it: whatever the store held, once a selector is marked as
/// collected a valid request that overlaps it is refused for the overlap.
pub proof fn lemma_no_second_collection(
    state: StoreState,
    task_id: Seq<u8>,
    query: DapQueryConfig,
    time_precision: u64,
    min_batch_size: u64,
    collected: SelectorKey,
    selector: SelectorKey,
)
    requires
        crate::store::overlaps(collected, selector),
        collect_refusal(
            marked_state(state, task_id, collected),
            task_id,
            query,
            time_precision,
            selector,
        ) != Some(DapAbort::BatchInvalid),
    ensures
        collect_outcome(
            marked_state(state, task_id, collected),
            task_id,
            query,
            time_precision,
            min_batch_size,
            selector,
        ) == Err::<ShareView, DapError>(DapError::Abort(DapAbort::BatchOverlap)),
{
    let marked = marked_state(state, task_id, collected);
    assert(marked.collected[state.collected.len() as int].meets(task_id, selector));
}

} // verus!
