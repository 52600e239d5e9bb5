//! The aggregate store: aggregate shares by task and bucket, the set of
//! reports already aggregated in each storage partition, and the batches
//! already collected.

use vstd::prelude::*;
use crate::error::{DapError, FatalDapError};
use crate::messages::{BatchId, BatchSelector, ReportId, ReportMetadata, SelectorKey, TaskId, Time};
use crate::shard::{partition_of, Partition, PartitionKey, ShardConfig};
use crate::share::{empty_share, merged, DapAggregateShare, ShareView};

verus! {

/// The unit of aggregation: a batch window of a time-interval task, or a
/// batch of a fixed-size task.
#[derive(Clone, Copy, Debug)]
pub enum DapBatchBucket {
    FixedSize { batch_id: BatchId },
    TimeInterval { batch_window: Time },
}

/// A bucket as plain values.
pub enum BucketKey {
    FixedSize(Seq<u8>),
    TimeInterval(int),
}

impl View for DapBatchBucket {
    type V = BucketKey;

    open spec fn view(&self) -> BucketKey {
        match self {
            DapBatchBucket::FixedSize { batch_id } => BucketKey::FixedSize(batch_id@),
            DapBatchBucket::TimeInterval { batch_window } => BucketKey::TimeInterval(
                *batch_window as int,
            ),
        }
    }
}

impl DapBatchBucket {
    /// Whether two buckets are the same one.
    pub fn same(&self, other: &DapBatchBucket) -> (r: bool)
        ensures
            r == (self@ == other@),
    {
        match (self, other) {
            (
                DapBatchBucket::FixedSize { batch_id: a },
                DapBatchBucket::FixedSize { batch_id: b },
            ) => a.same(b),
            (
                DapBatchBucket::TimeInterval { batch_window: a },
                DapBatchBucket::TimeInterval { batch_window: b },
            ) => *a == *b,
            _ => false,
        }
    }
}

/// Whether a selector covers a bucket: a time interval covers the windows
/// that start inside it, a batch identifier covers the batch it names.
pub open spec fn covers(selector: SelectorKey, bucket: BucketKey) -> bool {
    match (selector, bucket) {
        (SelectorKey::TimeInterval { start, duration }, BucketKey::TimeInterval(window)) => start
            <= window < start + duration,
        (SelectorKey::FixedSize(a), BucketKey::FixedSize(b)) => a == b,
        _ => false,
    }
}

/// Whether a time lies in an interval.
pub open spec fn in_interval(start: int, duration: int, time: int) -> bool {
    start <= time < start + duration
}

/// Whether a time lies in both of two intervals.
pub open spec fn intervals_meet(first_start: int, first_duration: int, second_start: int, second_duration: int) -> bool {
    exists|time: int|
        #![trigger in_interval(first_start, first_duration, time)]
        in_interval(first_start, first_duration, time) && in_interval(second_start, second_duration, time)
}

/// Whether two selectors have something in common: a time that lies in
/// both intervals, or the batch that both name.
pub open spec fn overlaps(a: SelectorKey, b: SelectorKey) -> bool {
    match (a, b) {
        (
            SelectorKey::TimeInterval { start: first_start, duration: first_duration },
            SelectorKey::TimeInterval { start: second_start, duration: second_duration },
        ) => intervals_meet(first_start, first_duration, second_start, second_duration),
        (SelectorKey::FixedSize(x), SelectorKey::FixedSize(y)) => x == y,
        _ => false,
    }
}

/// Decides whether a selector covers a bucket.
pub fn selector_covers(selector: &BatchSelector, bucket: &DapBatchBucket) -> (r: bool)
    ensures
        r == covers(selector@, bucket@),
{
    match (selector, bucket) {
        (
            BatchSelector::TimeInterval { start, duration },
            DapBatchBucket::TimeInterval { batch_window },
        ) => *start <= *batch_window && *batch_window - *start < *duration,
        (
            BatchSelector::FixedSizeByBatchId { batch_id: a },
            DapBatchBucket::FixedSize { batch_id: b },
        ) => a.same(b),
        _ => false,
    }
}

/// Decides whether two selectors overlap.
pub fn selectors_overlap(a: &BatchSelector, b: &BatchSelector) -> (r: bool)
    ensures
        r == overlaps(a@, b@),
{
    match (a, b) {
        (
            BatchSelector::TimeInterval { start: first_start, duration: first_duration },
            BatchSelector::TimeInterval { start: second_start, duration: second_duration },
        ) => {
            // The later start is the time to look at: it lies in its own
            // interval if that is not empty, and in the other if that
            // reaches it.
            let r = if *first_start >= *second_start {
                *first_duration > 0 && *first_start - *second_start < *second_duration
            } else {
                *second_duration > 0 && *second_start - *first_start < *first_duration
            };
            proof {
                let later = if *first_start >= *second_start {
                    *first_start as int
                } else {
                    *second_start as int
                };
                if r {
                    assert(in_interval(*first_start as int, *first_duration as int, later) && in_interval(
                        *second_start as int,
                        *second_duration as int,
                        later,
                    ));
                    assert(intervals_meet(*first_start as int, *first_duration as int, *second_start as int, *second_duration as int));
                } else {
                    assert forall|time: int|
                        !(#[trigger] in_interval(*first_start as int, *first_duration as int, time) && in_interval(
                            *second_start as int,
                            *second_duration as int,
                            time,
                        )) by {}
                    assert(!intervals_meet(*first_start as int, *first_duration as int, *second_start as int, *second_duration as int));
                }
            }
            r
        },
        (
            BatchSelector::FixedSizeByBatchId { batch_id: x },
            BatchSelector::FixedSizeByBatchId { batch_id: y },
        ) => x.same(y),
        _ => false,
    }
}

/// Names a stored share: a task and one of its buckets.
pub struct BucketId {
    pub task_id: Seq<u8>,
    pub bucket: BucketKey,
}

/// Names an aggregated report: its partition and its identifier.
pub struct ProcessedKey {
    pub partition: PartitionKey,
    pub id: Seq<u8>,
}

/// Names a collected batch: a task and the selector it was collected with.
pub struct CollectedKey {
    pub task_id: Seq<u8>,
    pub selector: SelectorKey,
}

impl CollectedKey {
    /// Whether a bucket lies in this batch.
    pub open spec fn holds(self, id: BucketId) -> bool {
        self.task_id == id.task_id && covers(self.selector, id.bucket)
    }

    /// Whether a selector of a task overlaps this batch.
    pub open spec fn meets(self, task_id: Seq<u8>, selector: SelectorKey) -> bool {
        self.task_id == task_id && overlaps(self.selector, selector)
    }
}

/// What the store holds.
pub struct StoreState {
    /// The share of each bucket that has one.
    pub shares: Map<BucketId, ShareView>,
    /// The buckets that have a share, in the order in which they got it.
    pub order: Seq<BucketId>,
    /// The reports that have been aggregated.
    pub replay: Set<ProcessedKey>,
    /// The batches that have been collected, oldest first.
    pub collected: Seq<CollectedKey>,
}

impl StoreState {
    /// The share of a bucket; empty where nothing was merged into it.
    pub open spec fn share(self, id: BucketId) -> ShareView {
        if self.shares.dom().contains(id) {
            self.shares[id]
        } else {
            empty_share()
        }
    }

    /// The replay set of a partition: the aggregated reports that it holds.
    pub open spec fn replay_set(self, partition: PartitionKey) -> Set<ProcessedKey> {
        self.replay.filter(|k: ProcessedKey| k.partition == partition)
    }

    /// Whether a bucket lies in a batch that has been collected.
    pub open spec fn is_collected(self, id: BucketId) -> bool {
        exists|i: int| 0 <= i < self.collected.len() && #[trigger] self.collected[i].holds(id)
    }

    /// Whether a selector overlaps a batch of the task that has been
    /// collected.
    pub open spec fn is_overlapping(self, task_id: Seq<u8>, selector: SelectorKey) -> bool {
        exists|i: int|
            0 <= i < self.collected.len() && #[trigger] self.collected[i].meets(task_id, selector)
    }
}

/// The name under which a report of a task is recorded once aggregated.
pub open spec fn processed_key(config: ShardConfig, task_id: Seq<u8>, report: ReportMetadata) -> ProcessedKey {
    ProcessedKey { partition: partition_of(config, task_id, report.id@, report.time), id: report.id@ }
}

/// The names under which the reports of an increment are recorded.
pub open spec fn processed_keys(config: ShardConfig, task_id: Seq<u8>, reports: Seq<ReportMetadata>) -> Set<
    ProcessedKey,
> {
    Set::new(
        |k: ProcessedKey|
            exists|i: int|
                0 <= i < reports.len() && #[trigger] processed_key(config, task_id, reports[i])
                    == k,
    )
}

/// The identifiers of those reports of an increment that have been
/// aggregated before.
pub open spec fn replays(
    state: StoreState,
    config: ShardConfig,
    task_id: Seq<u8>,
    reports: Seq<ReportMetadata>,
) -> Set<Seq<u8>> {
    Set::new(
        |id: Seq<u8>|
            exists|i: int|
                0 <= i < reports.len() && #[trigger] reports[i].id@ == id && state.replay.contains(
                    processed_key(config, task_id, reports[i]),
                ),
    )
}

/// A share as stored, with the task and bucket that it belongs to.
#[derive(Debug)]
pub struct StoredBucket {
    pub task_id: TaskId,
    pub bucket: DapBatchBucket,
    pub share: DapAggregateShare,
}

impl StoredBucket {
    /// The name of this share.
    pub open spec fn id(&self) -> BucketId {
        BucketId { task_id: self.task_id@, bucket: self.bucket@ }
    }
}

/// An aggregated report as recorded.
#[derive(Clone, Copy, Debug)]
pub struct ProcessedReport {
    pub partition: Partition,
    pub id: ReportId,
}

impl View for ProcessedReport {
    type V = ProcessedKey;

    open spec fn view(&self) -> ProcessedKey {
        ProcessedKey { partition: self.partition@, id: self.id@ }
    }
}

/// A collected batch as recorded.
#[derive(Clone, Copy, Debug)]
pub struct CollectedBatch {
    pub task_id: TaskId,
    pub selector: BatchSelector,
}

impl View for CollectedBatch {
    type V = CollectedKey;

    open spec fn view(&self) -> CollectedKey {
        CollectedKey { task_id: self.task_id@, selector: self.selector@ }
    }
}

/// Why an increment was not merged into its bucket.
#[derive(Debug)]
pub enum MergeAggShareError {
    /// The bucket lies in a batch that has been collected.
    AlreadyCollected,
    /// These reports of the increment have been aggregated before.
    ReplaysDetected(Vec<ReportId>),
    /// The increment could not be added to the bucket's share.
    Other(DapError),
}

/// Whether a list names a report.
pub open spec fn names(list: Seq<ReportId>, id: Seq<u8>) -> bool {
    exists|i: int| 0 <= i < list.len() && #[trigger] list[i]@ == id
}

/// Whether a list names exactly the reports of a set, each of them once.
pub open spec fn lists_exactly(list: Seq<ReportId>, set: Set<Seq<u8>>) -> bool {
    &&& forall|id: Seq<u8>| names(list, id) <==> set.contains(id)
    &&& forall|i: int, j: int| 0 <= i < j < list.len() ==> list[i]@ != list[j]@
}

/// Whether a record holds a report.
pub open spec fn recorded(list: Seq<ProcessedReport>, key: ProcessedKey) -> bool {
    exists|i: int| 0 <= i < list.len() && #[trigger] list[i]@ == key
}

/// Looks a report up in a list of identifiers.
pub fn is_named(list: &Vec<ReportId>, id: &ReportId) -> (r: bool)
    ensures
        r == names(list@, id@),
{
    let mut i: usize = 0;
    while i < list.len()
        invariant
            i <= list@.len(),
            forall|k: int| 0 <= k < i ==> list@[k]@ != id@,
        decreases list@.len() - i,
    {
        if list[i].same(id) {
            return true;
        }
        i += 1;
    }
    false
}

/// Looks a report up in a record.
pub fn is_recorded(list: &Vec<ProcessedReport>, key: &ProcessedReport) -> (r: bool)
    ensures
        r == recorded(list@, key@),
{
    let mut i: usize = 0;
    while i < list.len()
        invariant
            i <= list@.len(),
            forall|k: int| 0 <= k < i ==> list@[k]@ != key@,
        decreases list@.len() - i,
    {
        if list[i].partition.same(&key.partition) && list[i].id.same(&key.id) {
            assert(list@[i as int]@ == key@);
            return true;
        }
        i += 1;
    }
    false
}

/// What becomes of an increment that is put to a bucket.
pub enum PutOutcome {
    /// It is merged.
    Merged,
    /// It is refused: the bucket has been collected.
    AlreadyCollected,
    /// It is refused: these of its reports are replays.
    Replays(Set<Seq<u8>>),
    /// It is refused: it cannot be added to the bucket's share.
    Failed,
}

/// Whether any report of an increment has been aggregated before.
pub open spec fn has_replay(
    state: StoreState,
    config: ShardConfig,
    task_id: Seq<u8>,
    reports: Seq<ReportMetadata>,
) -> bool {
    exists|i: int|
        0 <= i < reports.len() && state.replay.contains(
            #[trigger] processed_key(config, task_id, reports[i]),
        )
}

/// The outcome of putting an increment to a bucket: refused where the
/// bucket is collected; else refused where any of its reports is a replay;
/// else merged, if the shares can be added.
pub open spec fn put_outcome(
    state: StoreState,
    config: ShardConfig,
    id: BucketId,
    delta: ShareView,
    reports: Seq<ReportMetadata>,
) -> PutOutcome {
    if state.is_collected(id) {
        PutOutcome::AlreadyCollected
    } else if has_replay(state, config, id.task_id, reports) {
        PutOutcome::Replays(replays(state, config, id.task_id, reports))
    } else if merged(state.share(id), delta).is_none() {
        PutOutcome::Failed
    } else {
        PutOutcome::Merged
    }
}

/// The store after an increment is put to a bucket: unchanged unless the
/// increment is merged; then the bucket holds the sum and every report of
/// the increment is recorded.
pub open spec fn put_state(
    state: StoreState,
    config: ShardConfig,
    id: BucketId,
    delta: ShareView,
    reports: Seq<ReportMetadata>,
) -> StoreState {
    if put_outcome(state, config, id, delta, reports) is Merged {
        StoreState {
            shares: state.shares.insert(id, merged(state.share(id), delta).unwrap()),
            order: if state.shares.dom().contains(id) {
                state.order
            } else {
                state.order.push(id)
            },
            replay: state.replay.union(processed_keys(config, id.task_id, reports)),
            collected: state.collected,
        }
    } else {
        state
    }
}

/// Whether a result reports an outcome.
pub open spec fn reports_outcome(result: Result<(), MergeAggShareError>, outcome: PutOutcome) -> bool {
    match outcome {
        PutOutcome::Merged => result is Ok,
        PutOutcome::AlreadyCollected => result == Err::<(), MergeAggShareError>(
            MergeAggShareError::AlreadyCollected,
        ),
        PutOutcome::Replays(set) => result matches Err(MergeAggShareError::ReplaysDetected(list))
            && lists_exactly(list@, set),
        PutOutcome::Failed => result == Err::<(), MergeAggShareError>(
            MergeAggShareError::Other(DapError::Fatal(FatalDapError::InvalidMerge)),
        ),
    }
}

/// The aggregate store.
pub struct AggregateStore {
    config: ShardConfig,
    buckets: Vec<StoredBucket>,
    processed: Vec<ProcessedReport>,
    collected: Vec<CollectedBatch>,
    state: Ghost<StoreState>,
}

impl View for AggregateStore {
    type V = StoreState;

    closed spec fn view(&self) -> StoreState {
        self.state@
    }
}

/// The store that holds nothing.
pub open spec fn empty_store() -> StoreState {
    StoreState {
        shares: Map::empty(),
        order: Seq::empty(),
        replay: Set::empty(),
        collected: Seq::empty(),
    }
}

impl AggregateStore {
    /// How this store spreads reports over partitions.
    pub closed spec fn shard_config(&self) -> ShardConfig {
        self.config
    }

    /// Whether what is stored is what `view` says.
    pub closed spec fn wf(&self) -> bool {
        let state = self.state@;
        &&& self.config.wf()
        &&& self.buckets@.len() == state.order.len()
        &&& forall|i: int|
            0 <= i < self.buckets@.len() ==> {
                &&& (#[trigger] self.buckets@[i]).id() == state.order[i]
                &&& state.shares.dom().contains(state.order[i])
                &&& state.shares[state.order[i]] == self.buckets@[i].share@
            }
        &&& forall|id: BucketId| #[trigger]
            state.shares.dom().contains(id) ==> exists|i: int|
                0 <= i < state.order.len() && #[trigger] state.order[i] == id
        &&& forall|k: ProcessedKey| #[trigger]
            state.replay.contains(k) <==> recorded(self.processed@, k)
        &&& forall|i: int, j: int|
            0 <= i < j < self.processed@.len() ==> self.processed@[i]@ != self.processed@[j]@
        &&& forall|i: int, j: int|
            0 <= i < j < state.order.len() ==> state.order[i] != state.order[j]
        &&& self.collected@.len() == state.collected.len()
        &&& forall|i: int|
            0 <= i < self.collected@.len() ==> (#[trigger] self.collected@[i])@
                == state.collected[i]
    }

    /// A store that holds nothing.
    pub fn new(config: ShardConfig) -> (r: AggregateStore)
        requires
            config.wf(),
        ensures
            r.wf(),
            r@ == empty_store(),
            r.shard_config() == config,
    {
        AggregateStore {
            config,
            buckets: Vec::new(),
            processed: Vec::new(),
            collected: Vec::new(),
            state: Ghost(empty_store()),
        }
    }

    /// Whether a bucket lies in a batch that has been collected.
    pub fn is_collected(&self, task_id: &TaskId, bucket: &DapBatchBucket) -> (r: bool)
        requires
            self.wf(),
        ensures
            r == self@.is_collected(BucketId { task_id: task_id@, bucket: bucket@ }),
    {
        let ghost id = BucketId { task_id: task_id@, bucket: bucket@ };
        let mut i: usize = 0;
        while i < self.collected.len()
            invariant
                self.wf(),
                id == (BucketId { task_id: task_id@, bucket: bucket@ }),
                i <= self.collected@.len(),
                forall|k: int| 0 <= k < i ==> !(#[trigger] self.collected@[k])@.holds(id),
            decreases self.collected@.len() - i,
        {
            if self.collected[i].task_id.same(task_id) && selector_covers(
                &self.collected[i].selector,
                bucket,
            ) {
                assert(self.collected@[i as int]@.holds(id));
                assert(self@.collected[i as int].holds(id));
                return true;
            }
            i += 1;
        }
        assert forall|k: int| 0 <= k < self@.collected.len() implies !(
        #[trigger] self@.collected[k].holds(id)) by {
            assert(self@.collected[k] == self.collected@[k]@);
        }
        false
    }

    /// Whether a selector overlaps a batch of the task that has been
    /// collected.
    pub fn is_batch_overlapping(&self, task_id: &TaskId, selector: &BatchSelector) -> (r: bool)
        requires
            self.wf(),
        ensures
            r == self@.is_overlapping(task_id@, selector@),
    {
        let mut i: usize = 0;
        while i < self.collected.len()
            invariant
                self.wf(),
                i <= self.collected@.len(),
                forall|k: int|
                    0 <= k < i ==> !(#[trigger] self.collected@[k])@.meets(task_id@, selector@),
            decreases self.collected@.len() - i,
        {
            if self.collected[i].task_id.same(task_id) && selectors_overlap(
                &self.collected[i].selector,
                selector,
            ) {
                assert(self.collected@[i as int]@.meets(task_id@, selector@));
                assert(self@.collected[i as int].meets(task_id@, selector@));
                return true;
            }
            i += 1;
        }
        assert forall|k: int| 0 <= k < self@.collected.len() implies !(
        #[trigger] self@.collected[k].meets(task_id@, selector@)) by {
            assert(self@.collected[k] == self.collected@[k]@);
        }
        false
    }

    /// The place of a bucket's share, if the bucket has one.
    fn find_bucket(&self, task_id: &TaskId, bucket: &DapBatchBucket) -> (r: Option<usize>)
        requires
            self.wf(),
        ensures
            match r {
                Some(i) => i < self.buckets@.len() && self.buckets@[i as int].id() == (BucketId {
                    task_id: task_id@,
                    bucket: bucket@,
                }),
                None => !self@.shares.dom().contains(
                    BucketId { task_id: task_id@, bucket: bucket@ },
                ),
            },
    {
        let ghost id = BucketId { task_id: task_id@, bucket: bucket@ };
        let mut i: usize = 0;
        while i < self.buckets.len()
            invariant
                self.wf(),
                id == (BucketId { task_id: task_id@, bucket: bucket@ }),
                i <= self.buckets@.len(),
                forall|k: int| 0 <= k < i ==> (#[trigger] self.buckets@[k]).id() != id,
            decreases self.buckets@.len() - i,
        {
            if self.buckets[i].task_id.same(task_id) && self.buckets[i].bucket.same(bucket) {
                return Some(i);
            }
            i += 1;
        }
        proof {
            if self@.shares.dom().contains(id) {
                let k = choose|k: int| 0 <= k < self@.order.len() && #[trigger] self@.order[k] == id;
                assert(self.buckets@[k].id() == id);
            }
        }
        None
    }

    /// Whether a batch of a fixed-size task has ever received a report.
    pub fn batch_exists(&self, task_id: &TaskId, batch_id: &BatchId) -> (r: bool)
        requires
            self.wf(),
        ensures
            r == self@.shares.dom().contains(
                BucketId { task_id: task_id@, bucket: BucketKey::FixedSize(batch_id@) },
            ),
    {
        let bucket = DapBatchBucket::FixedSize { batch_id: *batch_id };
        match self.find_bucket(task_id, &bucket) {
            Some(i) => {
                assert(self@.order[i as int] == self.buckets@[i as int].id());
                true
            },
            None => false,
        }
    }
}

impl AggregateStore {
    /// Names each report of an increment as it would be recorded, and
    /// lists those that have been aggregated before.
    fn examine(&self, task_id: &TaskId, reports: &Vec<ReportMetadata>) -> (r: (
        Vec<ProcessedReport>,
        Vec<ReportId>,
    ))
        requires
            self.wf(),
        ensures
            r.0@.len() == reports@.len(),
            forall|i: int|
                0 <= i < reports@.len() ==> (#[trigger] r.0@[i])@ == processed_key(
                    self.shard_config(),
                    task_id@,
                    reports@[i],
                ),
            lists_exactly(r.1@, replays(self@, self.shard_config(), task_id@, reports@)),
            (r.1@.len() > 0) == has_replay(self@, self.shard_config(), task_id@, reports@),
    {
        let mut keys: Vec<ProcessedReport> = Vec::new();
        let mut found: Vec<ReportId> = Vec::new();
        let mut i: usize = 0;
        while i < reports.len()
            invariant
                self.wf(),
                i <= reports@.len(),
                keys@.len() == i,
                forall|k: int|
                    0 <= k < i ==> (#[trigger] keys@[k])@ == processed_key(
                        self.config,
                        task_id@,
                        reports@[k],
                    ),
                lists_exactly(
                    found@,
                    replays(self@, self.config, task_id@, reports@.subrange(0, i as int)),
                ),
                (found@.len() > 0) == has_replay(
                    self@,
                    self.config,
                    task_id@,
                    reports@.subrange(0, i as int),
                ),
            decreases reports@.len() - i,
        {
            let report = &reports[i];
            let key = ProcessedReport {
                partition: self.config.partition(task_id, report),
                id: report.id,
            };
            let ghost before = reports@.subrange(0, i as int);
            let ghost after = reports@.subrange(0, i + 1);
            let ghost found_before = found@;
            assert(key@ == processed_key(self.config, task_id@, reports@[i as int]));
            let replayed = is_recorded(&self.processed, &key);
            let listed = is_named(&found, &report.id);
            if replayed && !listed {
                found.push(report.id);
            }
            keys.push(key);
            proof {
                let state = self@;
                let config = self.config;
                assert(replayed == state.replay.contains(key@));
                assert(after[i as int] == reports@[i as int]);
                assert forall|k: int| 0 <= k < i implies after[k] == before[k] by {}
                // What the longer prefix adds to the set of replays.
                assert forall|id: Seq<u8>|
                    replays(state, config, task_id@, after).contains(id) <==> (replays(
                        state,
                        config,
                        task_id@,
                        before,
                    ).contains(id) || (replayed && id == report.id@)) by {
                    if replays(state, config, task_id@, after).contains(id) {
                        let k = choose|k: int|
                            0 <= k < after.len() && #[trigger] after[k].id@ == id
                                && state.replay.contains(processed_key(config, task_id@, after[k]));
                        if k < i {
                            assert(before[k].id@ == id);
                        }
                    }
                    if replays(state, config, task_id@, before).contains(id) {
                        let k = choose|k: int|
                            0 <= k < before.len() && #[trigger] before[k].id@ == id
                                && state.replay.contains(
                                processed_key(config, task_id@, before[k]),
                            );
                        assert(after[k].id@ == id);
                    }
                    if replayed && id == report.id@ {
                        assert(after[i as int].id@ == id);
                    }
                }
                assert(has_replay(state, config, task_id@, after) == (has_replay(
                    state,
                    config,
                    task_id@,
                    before,
                ) || replayed)) by {
                    if has_replay(state, config, task_id@, after) {
                        let k = choose|k: int|
                            0 <= k < after.len() && state.replay.contains(
                                #[trigger] processed_key(config, task_id@, after[k]),
                            );
                        if k < i {
                            assert(state.replay.contains(
                                processed_key(config, task_id@, before[k]),
                            ));
                        }
                    }
                    if has_replay(state, config, task_id@, before) {
                        let k = choose|k: int|
                            0 <= k < before.len() && state.replay.contains(
                                #[trigger] processed_key(config, task_id@, before[k]),
                            );
                        assert(state.replay.contains(processed_key(config, task_id@, after[k])));
                    }
                    if replayed {
                        assert(state.replay.contains(
                            processed_key(config, task_id@, after[i as int]),
                        ));
                    }
                }
                // What the list names now.
                assert forall|id: Seq<u8>|
                    names(found@, id) <==> (names(found_before, id) || (replayed
                        && id == report.id@)) by {
                    if names(found@, id) {
                        let k = choose|k: int| 0 <= k < found@.len() && #[trigger] found@[k]@ == id;
                        if k < found_before.len() {
                            assert(found_before[k]@ == id);
                        }
                    }
                    if names(found_before, id) {
                        let k = choose|k: int|
                            0 <= k < found_before.len() && #[trigger] found_before[k]@ == id;
                        assert(found@[k]@ == id);
                    }
                    if replayed && id == report.id@ {
                        if listed {
                        } else {
                            assert(found@[found_before.len() as int]@ == id);
                        }
                    }
                }
                if replayed && !listed {
                    assert(found@.len() > 0);
                } else if replayed {
                    assert(found_before.len() > 0);
                }
            }
            i += 1;
        }
        assert(reports@.subrange(0, i as int) =~= reports@);
        (keys, found)
    }
}

/// Adds reports to a record, each of them once.
fn record(list: &mut Vec<ProcessedReport>, keys: &Vec<ProcessedReport>)
    requires
        forall|i: int, j: int| 0 <= i < j < old(list)@.len() ==> old(list)@[i]@ != old(list)@[j]@,
    ensures
        forall|i: int, j: int|
            0 <= i < j < final(list)@.len() ==> final(list)@[i]@ != final(list)@[j]@,
        forall|k: ProcessedKey|
            recorded(final(list)@, k) <==> (recorded(old(list)@, k) || recorded(keys@, k)),
        final(list)@.len() >= old(list)@.len(),
{
    let mut i: usize = 0;
    while i < keys.len()
        invariant
            i <= keys@.len(),
            forall|a: int, b: int| 0 <= a < b < list@.len() ==> list@[a]@ != list@[b]@,
            forall|k: ProcessedKey|
                recorded(list@, k) <==> (recorded(old(list)@, k) || recorded(
                    keys@.subrange(0, i as int),
                    k,
                )),
            list@.len() >= old(list)@.len(),
        decreases keys@.len() - i,
    {
        let key = keys[i];
        let ghost before = list@;
        let ghost seen = keys@.subrange(0, i as int);
        let ghost seen_after = keys@.subrange(0, i + 1);
        let present = is_recorded(list, &key);
        if !present {
            list.push(key);
        }
        proof {
            assert(seen_after[i as int] == key);
            assert forall|k: ProcessedKey|
                recorded(seen_after, k) <==> (recorded(seen, k) || k == key@) by {
                if recorded(seen_after, k) {
                    let j = choose|j: int| 0 <= j < seen_after.len() && #[trigger] seen_after[j]@ == k;
                    if j < i {
                        assert(seen[j]@ == k);
                    }
                }
                if recorded(seen, k) {
                    let j = choose|j: int| 0 <= j < seen.len() && #[trigger] seen[j]@ == k;
                    assert(seen_after[j]@ == k);
                }
                if k == key@ {
                    assert(seen_after[i as int]@ == k);
                }
            }
            assert forall|k: ProcessedKey|
                recorded(list@, k) <==> (recorded(before, k) || k == key@) by {
                if recorded(list@, k) {
                    let j = choose|j: int| 0 <= j < list@.len() && #[trigger] list@[j]@ == k;
                    if j < before.len() {
                        assert(before[j]@ == k);
                    }
                }
                if recorded(before, k) {
                    let j = choose|j: int| 0 <= j < before.len() && #[trigger] before[j]@ == k;
                    assert(list@[j]@ == k);
                }
                if k == key@ && !present {
                    assert(list@[before.len() as int]@ == k);
                }
            }
            assert forall|a: int, b: int| 0 <= a < b < list@.len() implies list@[a]@
                != list@[b]@ by {
                if b == before.len() {
                    assert(before[a]@ == list@[a]@);
                    assert(!recorded(before, key@));
                }
            }
            assert forall|k: ProcessedKey|
                recorded(list@, k) <==> (recorded(old(list)@, k) || recorded(seen_after, k)) by {
                assert(recorded(before, k) <==> (recorded(old(list)@, k) || recorded(seen, k)));
                assert(recorded(seen_after, k) <==> (recorded(seen, k) || k == key@));
                assert(recorded(list@, k) <==> (recorded(before, k) || k == key@));
            }
        }
        i += 1;
    }
    assert(keys@.subrange(0, i as int) =~= keys@);
}

impl AggregateStore {
    /// Puts an increment to a bucket. The increment is merged into the
    /// bucket's share, and its reports are recorded, unless the bucket has
    /// been collected, one of the reports has been aggregated before, or the
    /// shares cannot be added; then nothing changes.
    pub fn try_put_bucket(
        &mut self,
        task_id: &TaskId,
        bucket: &DapBatchBucket,
        delta: &DapAggregateShare,
        reports: &Vec<ReportMetadata>,
    ) -> (r: Result<(), MergeAggShareError>)
        requires
            old(self).wf(),
        ensures
            final(self).wf(),
            final(self).shard_config() == old(self).shard_config(),
            reports_outcome(
                r,
                put_outcome(
                    old(self)@,
                    old(self).shard_config(),
                    BucketId { task_id: task_id@, bucket: bucket@ },
                    delta@,
                    reports@,
                ),
            ),
            final(self)@ == put_state(
                old(self)@,
                old(self).shard_config(),
                BucketId { task_id: task_id@, bucket: bucket@ },
                delta@,
                reports@,
            ),
    {
        let ghost id = BucketId { task_id: task_id@, bucket: bucket@ };
        let ghost before = self@;
        if self.is_collected(task_id, bucket) {
            return Err(MergeAggShareError::AlreadyCollected);
        }
        let (keys, found) = self.examine(task_id, reports);
        if found.len() > 0 {
            return Err(MergeAggShareError::ReplaysDetected(found));
        }
        let place = self.find_bucket(task_id, bucket);
        let sum = match place {
            Some(i) => {
                assert(before.order[i as int] == self.buckets@[i as int].id());
                self.buckets[i].share.merge(delta)
            },
            None => DapAggregateShare::empty().merge(delta),
        };
        match sum {
            None => Err(MergeAggShareError::Other(DapError::Fatal(FatalDapError::InvalidMerge))),
            Some(share) => {
                let ghost after = put_state(before, self.config, id, delta@, reports@);
                let ghost old_buckets = self.buckets@;
                let ghost old_processed = self.processed@;
                let entry = StoredBucket { task_id: *task_id, bucket: *bucket, share };
                match place {
                    Some(i) => {
                        self.buckets.set(i, entry);
                    },
                    None => {
                        self.buckets.push(entry);
                    },
                }
                record(&mut self.processed, &keys);
                self.state = Ghost(after);
                proof {
                    assert forall|i: int| 0 <= i < self.buckets@.len() implies {
                        &&& (#[trigger] self.buckets@[i]).id() == after.order[i]
                        &&& after.shares.dom().contains(after.order[i])
                        &&& after.shares[after.order[i]] == self.buckets@[i].share@
                    } by {
                        if i < old_buckets.len() {
                            assert(old_buckets[i].id() == before.order[i]);
                        }
                    }
                    assert forall|b: BucketId| #[trigger]
                        after.shares.dom().contains(b) implies exists|i: int|
                        0 <= i < after.order.len() && #[trigger] after.order[i] == b by {
                        if b == id {
                            match place {
                                Some(i) => {
                                    assert(after.order[i as int] == b);
                                },
                                None => {
                                    assert(after.order[before.order.len() as int] == b);
                                },
                            }
                        } else {
                            let i = choose|i: int|
                                0 <= i < before.order.len() && #[trigger] before.order[i] == b;
                            assert(after.order[i] == b);
                        }
                    }
                    assert(self.buckets@.len() == after.order.len());
                    assert forall|i: int, j: int|
                        0 <= i < j < after.order.len() implies after.order[i] != after.order[j] by {
                        if j == before.order.len() {
                            assert(before.shares.dom().contains(before.order[i]));
                            assert(old_buckets[i].id() == before.order[i]);
                        }
                    }
                    assert(self.collected@.len() == after.collected.len());
                    assert forall|k: ProcessedKey| #[trigger]
                        after.replay.contains(k) <==> recorded(self.processed@, k) by {
                        assert(before.replay.contains(k) <==> recorded(old_processed, k));
                        if recorded(keys@, k) {
                            let i = choose|i: int| 0 <= i < keys@.len() && #[trigger] keys@[i]@ == k;
                            assert(processed_key(self.config, task_id@, reports@[i]) == k);
                        }
                        if processed_keys(self.config, task_id@, reports@).contains(k) {
                            let i = choose|i: int|
                                0 <= i < reports@.len() && #[trigger] processed_key(
                                    self.config,
                                    task_id@,
                                    reports@[i],
                                ) == k;
                            assert(keys@[i]@ == k);
                        }
                    }
                }
                Ok(())
            },
        }
    }
}

/// One bucket of a span: what is said of the bucket, and the reports that
/// it is said of.
#[derive(Debug)]
pub struct SpanEntry<T> {
    pub bucket: DapBatchBucket,
    pub value: T,
    pub reports: Vec<ReportMetadata>,
}

/// A span: one entry per bucket, in the order in which they are handled.
#[derive(Debug)]
pub struct DapAggregateSpan<T> {
    pub span: Vec<SpanEntry<T>>,
}

/// One bucket of a span of shares, as plain values.
pub struct SpanEntryView {
    pub bucket: BucketKey,
    pub share: ShareView,
    pub reports: Seq<ReportMetadata>,
}

/// The plain values of one bucket of a span of shares.
pub open spec fn entry_view(entry: SpanEntry<DapAggregateShare>) -> SpanEntryView {
    SpanEntryView { bucket: entry.bucket@, share: entry.value@, reports: entry.reports@ }
}

/// The plain values of a span of shares.
pub open spec fn span_view(span: Seq<SpanEntry<DapAggregateShare>>) -> Seq<SpanEntryView> {
    Seq::new(span.len(), |i: int| entry_view(span[i]))
}

/// The store after the first `n` increments of a span are put, one after
/// the other.
pub open spec fn span_state(
    state: StoreState,
    config: ShardConfig,
    task_id: Seq<u8>,
    span: Seq<SpanEntryView>,
    n: int,
) -> StoreState
    decreases n,
{
    if n <= 0 {
        state
    } else {
        put_state(
            span_state(state, config, task_id, span, n - 1),
            config,
            BucketId { task_id, bucket: span[n - 1].bucket },
            span[n - 1].share,
            span[n - 1].reports,
        )
    }
}

/// The outcome of the increment at place `n` of a span, after those before
/// it have been put.
pub open spec fn span_outcome(
    state: StoreState,
    config: ShardConfig,
    task_id: Seq<u8>,
    span: Seq<SpanEntryView>,
    n: int,
) -> PutOutcome {
    put_outcome(
        span_state(state, config, task_id, span, n),
        config,
        BucketId { task_id, bucket: span[n].bucket },
        span[n].share,
        span[n].reports,
    )
}

/// Whether an answer is one that a store may give for an outcome: it
/// reports the outcome, or it is an error of the store's own.
pub open spec fn answers(result: Result<(), MergeAggShareError>, outcome: PutOutcome) -> bool {
    result matches Err(MergeAggShareError::Other(_)) || reports_outcome(result, outcome)
}

/// The store after the first `n` increments of a span are put, given what
/// the store answered for each: an increment is merged where the answer is
/// `Ok`, and leaves the store as it was where the answer is an error of
/// any kind.
pub open spec fn span_state_given(
    state: StoreState,
    config: ShardConfig,
    task_id: Seq<u8>,
    span: Seq<SpanEntryView>,
    given: Seq<SpanEntry<Result<(), MergeAggShareError>>>,
    n: int,
) -> StoreState
    decreases n,
{
    if n <= 0 {
        state
    } else {
        let before = span_state_given(state, config, task_id, span, given, n - 1);
        if given[n - 1].value is Ok {
            put_state(
                before,
                config,
                BucketId { task_id, bucket: span[n - 1].bucket },
                span[n - 1].share,
                span[n - 1].reports,
            )
        } else {
            before
        }
    }
}

/// The outcome of the increment at place `n` of a span, given what the
/// store answered for those before it.
pub open spec fn span_outcome_given(
    state: StoreState,
    config: ShardConfig,
    task_id: Seq<u8>,
    span: Seq<SpanEntryView>,
    given: Seq<SpanEntry<Result<(), MergeAggShareError>>>,
    n: int,
) -> PutOutcome {
    put_outcome(
        span_state_given(state, config, task_id, span, given, n),
        config,
        BucketId { task_id, bucket: span[n].bucket },
        span[n].share,
        span[n].reports,
    )
}

/// Where every answer reports the outcome of its increment, the store goes
/// the way that the outcomes alone fix.
pub proof fn lemma_given_is_plain(
    state: StoreState,
    config: ShardConfig,
    task_id: Seq<u8>,
    span: Seq<SpanEntryView>,
    given: Seq<SpanEntry<Result<(), MergeAggShareError>>>,
    n: int,
)
    requires
        0 <= n <= span.len(),
        forall|i: int|
            0 <= i < n ==> reports_outcome(
                (#[trigger] given[i]).value,
                span_outcome(state, config, task_id, span, i),
            ),
    ensures
        span_state_given(state, config, task_id, span, given, n) == span_state(
            state,
            config,
            task_id,
            span,
            n,
        ),
    decreases n,
{
    if n > 0 {
        lemma_given_is_plain(state, config, task_id, span, given, n - 1);
        assert(reports_outcome(given[n - 1].value, span_outcome(state, config, task_id, span, n - 1)));
    }
}

/// The same, where each answer is held against the outcome after the
/// answers before it.
pub proof fn lemma_plain_is_given(
    state: StoreState,
    config: ShardConfig,
    task_id: Seq<u8>,
    span: Seq<SpanEntryView>,
    given: Seq<SpanEntry<Result<(), MergeAggShareError>>>,
    n: int,
)
    requires
        0 <= n <= span.len(),
        forall|i: int|
            0 <= i < n ==> reports_outcome(
                (#[trigger] given[i]).value,
                span_outcome_given(state, config, task_id, span, given, i),
            ),
    ensures
        span_state_given(state, config, task_id, span, given, n) == span_state(
            state,
            config,
            task_id,
            span,
            n,
        ),
    decreases n,
{
    if n > 0 {
        lemma_plain_is_given(state, config, task_id, span, given, n - 1);
        assert(reports_outcome(
            given[n - 1].value,
            span_outcome_given(state, config, task_id, span, given, n - 1),
        ));
    }
}

/// The sum of the shares of those among the first `n` buckets of the store
/// that belong to the task and are covered by the selector; `None` where
/// they cannot be added.
pub open spec fn covered_sum(state: StoreState, task_id: Seq<u8>, selector: SelectorKey, n: int) -> Option<
    ShareView,
>
    decreases n,
{
    if n <= 0 {
        Some(empty_share())
    } else {
        match covered_sum(state, task_id, selector, n - 1) {
            None => None,
            Some(sum) => {
                let id = state.order[n - 1];
                if id.task_id == task_id && covers(selector, id.bucket) {
                    merged(sum, state.shares[id])
                } else {
                    Some(sum)
                }
            },
        }
    }
}

/// The store after a batch of a task is marked as collected.
pub open spec fn marked_state(state: StoreState, task_id: Seq<u8>, selector: SelectorKey) -> StoreState {
    StoreState {
        shares: state.shares,
        order: state.order,
        replay: state.replay,
        collected: state.collected.push(CollectedKey { task_id, selector }),
    }
}

/// Copies a list of report metadata.
pub fn copy_reports(reports: &Vec<ReportMetadata>) -> (r: Vec<ReportMetadata>)
    ensures
        r@ == reports@,
{
    let mut out: Vec<ReportMetadata> = Vec::new();
    let mut i: usize = 0;
    while i < reports.len()
        invariant
            i <= reports@.len(),
            out@ == reports@.subrange(0, i as int),
        decreases reports@.len() - i,
    {
        out.push(reports[i]);
        assert(out@ =~= reports@.subrange(0, i + 1));
        i += 1;
    }
    assert(out@ =~= reports@);
    out
}

impl AggregateStore {
    /// Puts the increments of a span to their buckets, one after the other,
    /// and says of each bucket what became of its increment.
    pub fn try_put_agg_share_span(
        &mut self,
        task_id: &TaskId,
        agg_share_span: &DapAggregateSpan<DapAggregateShare>,
    ) -> (r: DapAggregateSpan<Result<(), MergeAggShareError>>)
        requires
            old(self).wf(),
        ensures
            final(self).wf(),
            final(self).shard_config() == old(self).shard_config(),
            final(self)@ == span_state(
                old(self)@,
                old(self).shard_config(),
                task_id@,
                span_view(agg_share_span.span@),
                agg_share_span.span@.len() as int,
            ),
            r.span@.len() == agg_share_span.span@.len(),
            forall|i: int|
                0 <= i < r.span@.len() ==> {
                    &&& (#[trigger] r.span@[i]).bucket@ == agg_share_span.span@[i].bucket@
                    &&& r.span@[i].reports@ == agg_share_span.span@[i].reports@
                    &&& reports_outcome(
                        r.span@[i].value,
                        span_outcome(
                            old(self)@,
                            old(self).shard_config(),
                            task_id@,
                            span_view(agg_share_span.span@),
                            i,
                        ),
                    )
                },
    {
        let ghost before = self@;
        let ghost config = self.config;
        let mut out: Vec<SpanEntry<Result<(), MergeAggShareError>>> = Vec::new();
        let mut i: usize = 0;
        while i < agg_share_span.span.len()
            invariant
                self.wf(),
                self.config == config,
                i <= agg_share_span.span@.len(),
                self@ == span_state(
                    before,
                    config,
                    task_id@,
                    span_view(agg_share_span.span@),
                    i as int,
                ),
                out@.len() == i,
                forall|k: int|
                    0 <= k < i ==> {
                        &&& (#[trigger] out@[k]).bucket@ == agg_share_span.span@[k].bucket@
                        &&& out@[k].reports@ == agg_share_span.span@[k].reports@
                        &&& reports_outcome(
                            out@[k].value,
                            span_outcome(
                                before,
                                config,
                                task_id@,
                                span_view(agg_share_span.span@),
                                k,
                            ),
                        )
                    },
            decreases agg_share_span.span@.len() - i,
        {
            let entry = &agg_share_span.span[i];
            let result = self.try_put_bucket(task_id, &entry.bucket, &entry.value, &entry.reports);
            out.push(
                SpanEntry { bucket: entry.bucket, value: result, reports: copy_reports(&entry.reports) },
            );
            i += 1;
        }
        DapAggregateSpan { span: out }
    }

    /// The sum of the shares of every bucket of a task that a selector
    /// covers, in the order in which the buckets got their shares.
    pub fn get_agg_share(&self, task_id: &TaskId, batch_sel: &BatchSelector) -> (r: Result<
        DapAggregateShare,
        DapError,
    >)
        requires
            self.wf(),
        ensures
            match r {
                Ok(share) => covered_sum(self@, task_id@, batch_sel@, self@.order.len() as int)
                    == Some(share@),
                Err(e) => e == DapError::Fatal(FatalDapError::InvalidMerge) && covered_sum(
                    self@,
                    task_id@,
                    batch_sel@,
                    self@.order.len() as int,
                ).is_none(),
            },
    {
        let mut sum = DapAggregateShare::empty();
        let mut i: usize = 0;
        while i < self.buckets.len()
            invariant
                self.wf(),
                i <= self.buckets@.len(),
                covered_sum(self@, task_id@, batch_sel@, i as int) == Some(sum@),
            decreases self.buckets@.len() - i,
        {
            let entry = &self.buckets[i];
            assert(entry.id() == self@.order[i as int]);
            if entry.task_id.same(task_id) && selector_covers(batch_sel, &entry.bucket) {
                match sum.merge(&entry.share) {
                    Some(next) => {
                        sum = next;
                    },
                    None => {
                        proof {
                            lemma_covered_sum_stays_none(
                                self@,
                                task_id@,
                                batch_sel@,
                                i + 1,
                                self@.order.len() as int,
                            );
                        }
                        return Err(DapError::Fatal(FatalDapError::InvalidMerge));
                    },
                }
            }
            i += 1;
        }
        Ok(sum)
    }

    /// Marks a batch of a task as collected: from now on nothing is merged
    /// into a bucket that the selector covers.
    pub fn mark_collected(&mut self, task_id: &TaskId, batch_sel: &BatchSelector) -> (r: Result<
        (),
        DapError,
    >)
        requires
            old(self).wf(),
        ensures
            r is Ok,
            final(self).wf(),
            final(self).shard_config() == old(self).shard_config(),
            final(self)@ == marked_state(old(self)@, task_id@, batch_sel@),
    {
        let ghost after = marked_state(self@, task_id@, batch_sel@);
        self.collected.push(CollectedBatch { task_id: *task_id, selector: *batch_sel });
        self.state = Ghost(after);
        Ok(())
    }
}

/// Once the covered shares among the first `n` buckets cannot be added,
/// those among more buckets cannot either.
pub proof fn lemma_covered_sum_stays_none(
    state: StoreState,
    task_id: Seq<u8>,
    selector: SelectorKey,
    n: int,
    m: int,
)
    requires
        n <= m,
        covered_sum(state, task_id, selector, n).is_none(),
    ensures
        covered_sum(state, task_id, selector, m).is_none(),
    decreases m - n,
{
    if n < m {
        lemma_covered_sum_stays_none(state, task_id, selector, n, m - 1);
    }
}

impl AggregateStore {
    /// Whether a report of a task has been aggregated.
    pub fn is_aggregated(&self, task_id: &TaskId, report: &ReportMetadata) -> (r: bool)
        requires
            self.wf(),
        ensures
            r == self@.replay.contains(processed_key(self.shard_config(), task_id@, *report)),
    {
        let key = ProcessedReport {
            partition: self.config.partition(task_id, report),
            id: report.id,
        };
        is_recorded(&self.processed, &key)
    }

    /// The number of reports that have been aggregated, over all
    /// partitions.
    pub fn aggregated_reports(&self) -> (r: usize)
        requires
            self.wf(),
        ensures
            self@.replay.finite(),
            r == self@.replay.len(),
    {
        proof {
            let keys = self.processed@.map_values(|p: ProcessedReport| p@);
            assert(keys.no_duplicates());
            assert forall|k: ProcessedKey| self@.replay.contains(k) <==> keys.to_set().contains(
                k,
            ) by {
                if self@.replay.contains(k) {
                    let i = choose|i: int|
                        0 <= i < self.processed@.len() && #[trigger] self.processed@[i]@ == k;
                    assert(keys[i] == k);
                }
                if keys.to_set().contains(k) {
                    let i = choose|i: int| 0 <= i < keys.len() && keys[i] == k;
                    assert(self.processed@[i]@ == k);
                }
            }
            assert(self@.replay =~= keys.to_set());
            keys.unique_seq_to_set();
            vstd::seq_lib::seq_to_set_is_finite(keys);
        }
        self.processed.len()
    }
}

/// Whether a partition may be forgotten at `now`: its epoch has ended, and
/// the safety interval after its end has passed.
pub open spec fn expired(config: ShardConfig, partition: PartitionKey, now: Time, safety_interval: u64) -> bool {
    (partition.epoch + 1) * config.report_storage_epoch_duration + safety_interval < now
}

/// The store after the partitions that may be forgotten at `now` are
/// forgotten, with the reports recorded in them.
pub open spec fn purged_state(state: StoreState, config: ShardConfig, now: Time, safety_interval: u64) -> StoreState {
    StoreState {
        shares: state.shares,
        order: state.order,
        replay: state.replay.filter(
            |k: ProcessedKey| !expired(config, k.partition, now, safety_interval),
        ),
        collected: state.collected,
    }
}

impl AggregateStore {
    /// Forgets the partitions whose lifetime is over at `now`, with the
    /// reports recorded in them. Shares and collected batches stay. Says
    /// how many reports were forgotten.
    pub fn purge(&mut self, now: Time, safety_interval: u64) -> (r: usize)
        requires
            old(self).wf(),
        ensures
            final(self).wf(),
            final(self).shard_config() == old(self).shard_config(),
            final(self)@ == purged_state(old(self)@, old(self).shard_config(), now, safety_interval),
    {
        let ghost before = self.processed@;
        let ghost state = self@;
        let ghost after = purged_state(state, self.config, now, safety_interval);
        let mut kept: Vec<ProcessedReport> = Vec::new();
        let mut i: usize = 0;
        while i < self.processed.len()
            invariant
                self.wf(),
                self.processed@ == before,
                i <= before.len(),
                kept@.len() <= i,
                forall|k: ProcessedKey|
                    recorded(kept@, k) <==> (recorded(before.subrange(0, i as int), k) && !expired(
                        self.config,
                        k.partition,
                        now,
                        safety_interval,
                    )),
                forall|a: int, b: int| 0 <= a < b < kept@.len() ==> kept@[a]@ != kept@[b]@,
            decreases before.len() - i,
        {
            let entry = self.processed[i];
            let epochs: u128 = entry.partition.epoch as u128 + 1;
            let width: u128 = self.config.report_storage_epoch_duration as u128;
            assert(epochs * width <= 0x1_0000_0000_0000_0000 * 0xffff_ffff_ffff_ffff)
                by (nonlinear_arith)
                requires
                    0 <= epochs <= 0x1_0000_0000_0000_0000,
                    0 <= width <= 0xffff_ffff_ffff_ffff,
            ;
            let end: u128 = epochs * width + safety_interval as u128;
            let gone = end < now as u128;
            let ghost seen = before.subrange(0, i as int);
            let ghost seen_after = before.subrange(0, i + 1);
            let ghost kept_before = kept@;
            if !gone {
                kept.push(entry);
            }
            proof {
                assert(gone == expired(self.config, entry@.partition, now, safety_interval));
                assert(seen_after[i as int] == entry);
                assert forall|k: ProcessedKey|
                    recorded(seen_after, k) <==> (recorded(seen, k) || k == entry@) by {
                    if recorded(seen_after, k) {
                        let j = choose|j: int|
                            0 <= j < seen_after.len() && #[trigger] seen_after[j]@ == k;
                        if j < i {
                            assert(seen[j]@ == k);
                        }
                    }
                    if recorded(seen, k) {
                        let j = choose|j: int| 0 <= j < seen.len() && #[trigger] seen[j]@ == k;
                        assert(seen_after[j]@ == k);
                    }
                    if k == entry@ {
                        assert(seen_after[i as int]@ == k);
                    }
                }
                assert forall|k: ProcessedKey|
                    recorded(kept@, k) <==> (recorded(kept_before, k) || (!gone && k
                        == entry@)) by {
                    if recorded(kept@, k) {
                        let j = choose|j: int| 0 <= j < kept@.len() && #[trigger] kept@[j]@ == k;
                        if j < kept_before.len() {
                            assert(kept_before[j]@ == k);
                        }
                    }
                    if recorded(kept_before, k) {
                        let j = choose|j: int|
                            0 <= j < kept_before.len() && #[trigger] kept_before[j]@ == k;
                        assert(kept@[j]@ == k);
                    }
                    if !gone && k == entry@ {
                        assert(kept@[kept_before.len() as int]@ == k);
                    }
                }
                assert forall|k: ProcessedKey|
                    recorded(kept@, k) <==> (recorded(seen_after, k) && !expired(
                        self.config,
                        k.partition,
                        now,
                        safety_interval,
                    )) by {
                    assert(recorded(kept_before, k) <==> (recorded(seen, k) && !expired(
                        self.config,
                        k.partition,
                        now,
                        safety_interval,
                    )));
                    assert(recorded(seen_after, k) <==> (recorded(seen, k) || k == entry@));
                    assert(recorded(kept@, k) <==> (recorded(kept_before, k) || (!gone && k
                        == entry@)));
                }
                assert forall|a: int, b: int| 0 <= a < b < kept@.len() implies kept@[a]@
                    != kept@[b]@ by {
                    if b == kept_before.len() {
                        assert(kept_before[a]@ == kept@[a]@);
                        assert(recorded(kept_before, kept@[a]@));
                        if kept@[a]@ == entry@ {
                            let j = choose|j: int| 0 <= j < seen.len() && #[trigger] seen[j]@ == entry@;
                            assert(before[j]@ == before[i as int]@);
                        }
                    }
                }
            }
            i += 1;
        }
        assert(before.subrange(0, i as int) =~= before);
        let removed = self.processed.len() - kept.len();
        self.processed = kept;
        self.state = Ghost(after);
        proof {
            assert forall|k: ProcessedKey| #[trigger]
                after.replay.contains(k) <==> recorded(self.processed@, k) by {
                assert(state.replay.contains(k) <==> recorded(before, k));
            }
        }
        removed
    }
}

} // verus!
