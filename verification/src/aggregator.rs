//! What an aggregator offers to the handlers of the protocol, and an
//! aggregator that keeps everything in memory.

use vstd::prelude::*;
use crate::cache::TaskCache;
use crate::config::{DapGlobalConfig, DaphneWorkerAuthMethod, HpkeConfig};
use crate::error::{DapError, FatalDapError};
use crate::messages::{BatchId, BatchSelector, TaskId, Time};
use crate::request::{unauthorized, unauthorized_reason, DapRequest, UnauthorizedReason};
use crate::shard::ShardConfig;
use crate::share::DapAggregateShare;
use crate::store::{
    answers, covered_sum, lemma_given_is_plain, marked_state, reports_outcome, span_outcome,
    span_outcome_given, span_state, span_state_given, span_view, AggregateStore, BucketId,
    BucketKey, DapAggregateSpan, MergeAggShareError, StoreState,
};
use crate::task::DapTaskConfig;

verus! {

/// What an aggregator offers to the handlers of the protocol.
pub trait DapAggregator: Sized {
    /// Whether the aggregator is in a state in which it can be asked.
    spec fn wf(&self) -> bool;

    /// What the aggregate store behind the aggregator holds.
    spec fn store_state(&self) -> StoreState;

    /// How the store spreads reports over partitions.
    spec fn shard_config(&self) -> ShardConfig;

    /// Whether the store never fails of its own: it answers with an error
    /// only where shares cannot be added.
    spec fn reliable(&self) -> bool;

    /// Why a request is not authorized for a task; `None` where it is.
    fn unauthorized_reason(&self, task_config: &DapTaskConfig, req: &DapRequest) -> Result<
        Option<UnauthorizedReason>,
        DapError,
    >;

    /// The settings shared by every task.
    fn get_global_config(&self) -> &DapGlobalConfig;

    /// The secret from which the verify keys of in-band tasks are derived.
    fn taskprov_vdaf_verify_key_init(&self) -> Option<&[u8; 32]>;

    /// The collector's HPKE configuration for in-band tasks.
    fn taskprov_collector_hpke_config(&self) -> Option<&HpkeConfig>;

    /// Takes an in-band task into the aggregator's tasks. The store is not
    /// touched.
    fn taskprov_put(&mut self, task_id: &TaskId, task_config: DapTaskConfig) -> (r: Result<
        (),
        DapError,
    >)
        requires
            old(self).wf(),
        ensures
            final(self).wf(),
            final(self).store_state() == old(self).store_state(),
            final(self).shard_config() == old(self).shard_config(),
            final(self).reliable() == old(self).reliable(),
    ;

    /// The configuration of a task, if the task is known.
    fn get_task_config_for(&self, task_id: &TaskId) -> Result<Option<&DapTaskConfig>, DapError>
        requires
            self.wf(),
    ;

    /// The time, in seconds since the beginning of UNIX time.
    fn get_current_time(&self) -> Time;

    /// Whether a selector overlaps a batch of the task that has been
    /// collected.
    fn is_batch_overlapping(&self, task_id: &TaskId, batch_sel: &BatchSelector) -> (r: Result<
        bool,
        DapError,
    >)
        requires
            self.wf(),
        ensures
            r matches Ok(overlapping) ==> overlapping == self.store_state().is_overlapping(
                task_id@,
                batch_sel@,
            ),
            self.reliable() ==> r is Ok,
    ;

    /// Whether a batch of a fixed-size task has ever received a report.
    fn batch_exists(&self, task_id: &TaskId, batch_id: &BatchId) -> (r: Result<bool, DapError>)
        requires
            self.wf(),
        ensures
            r matches Ok(exists) ==> exists == self.store_state().shares.dom().contains(
                BucketId { task_id: task_id@, bucket: BucketKey::FixedSize(batch_id@) },
            ),
            self.reliable() ==> r is Ok,
    ;

    /// Puts the increments of a span to their buckets, one after the other.
    /// Each bucket is all or nothing: its increment is merged and its
    /// reports are recorded where the answer is `Ok`; else the bucket and
    /// the record stay as they were. An answer reports the outcome of its
    /// increment (collected, else replays, else merged) or is an error of
    /// the store's own. The span that comes back has the buckets of the one
    /// that went in, in the same order.
    fn try_put_agg_share_span(
        &mut self,
        task_id: &TaskId,
        task_config: &DapTaskConfig,
        agg_share_span: &DapAggregateSpan<DapAggregateShare>,
    ) -> (r: DapAggregateSpan<Result<(), MergeAggShareError>>)
        requires
            old(self).wf(),
        ensures
            final(self).wf(),
            final(self).shard_config() == old(self).shard_config(),
            final(self).reliable() == old(self).reliable(),
            r.span@.len() == agg_share_span.span@.len(),
            forall|i: int|
                0 <= i < r.span@.len() ==> (#[trigger] r.span@[i]).bucket@
                    == agg_share_span.span@[i].bucket@ && r.span@[i].reports@
                    == agg_share_span.span@[i].reports@,
            forall|i: int|
                0 <= i < r.span@.len() ==> answers(
                    (#[trigger] r.span@[i]).value,
                    span_outcome_given(
                        old(self).store_state(),
                        old(self).shard_config(),
                        task_id@,
                        span_view(agg_share_span.span@),
                        r.span@,
                        i,
                    ),
                ),
            old(self).reliable() ==> forall|i: int|
                0 <= i < r.span@.len() ==> reports_outcome(
                    (#[trigger] r.span@[i]).value,
                    span_outcome_given(
                        old(self).store_state(),
                        old(self).shard_config(),
                        task_id@,
                        span_view(agg_share_span.span@),
                        r.span@,
                        i,
                    ),
                ),
            final(self).store_state() == span_state_given(
                old(self).store_state(),
                old(self).shard_config(),
                task_id@,
                span_view(agg_share_span.span@),
                r.span@,
                agg_share_span.span@.len() as int,
            ),
    ;

    /// The sum of the shares of every bucket that a selector covers.
    fn get_agg_share(&self, task_id: &TaskId, batch_sel: &BatchSelector) -> (r: Result<
        DapAggregateShare,
        DapError,
    >)
        requires
            self.wf(),
        ensures
            r matches Ok(share) ==> covered_sum(
                self.store_state(),
                task_id@,
                batch_sel@,
                self.store_state().order.len() as int,
            ) == Some(share@),
            self.reliable() ==> (r is Ok <==> covered_sum(
                self.store_state(),
                task_id@,
                batch_sel@,
                self.store_state().order.len() as int,
            ).is_some()),
    ;

    /// Marks a batch as collected: where that succeeds, nothing is merged
    /// from now on into a bucket that the selector covers.
    fn mark_collected(&mut self, task_id: &TaskId, batch_sel: &BatchSelector) -> (r: Result<
        (),
        DapError,
    >)
        requires
            old(self).wf(),
        ensures
            final(self).wf(),
            final(self).shard_config() == old(self).shard_config(),
            final(self).reliable() == old(self).reliable(),
            r is Ok ==> final(self).store_state() == marked_state(
                old(self).store_state(),
                task_id@,
                batch_sel@,
            ),
            old(self).reliable() ==> r is Ok,
    ;

    /// The host that requests are accounted to.
    fn host(&self) -> &str;
}

/// An aggregator that keeps its tasks and its aggregate store in memory.
pub struct MemoryAggregator {
    pub global: DapGlobalConfig,
    /// How senders of requests for a task are recognised.
    pub auth: DaphneWorkerAuthMethod,
    pub taskprov_vdaf_verify_key_init: Option<[u8; 32]>,
    pub taskprov_collector_hpke_config: Option<HpkeConfig>,
    pub tasks: TaskCache<DapTaskConfig>,
    pub store: AggregateStore,
    /// The time that the aggregator goes by.
    pub now: Time,
    pub host: String,
}

impl MemoryAggregator {
    /// An aggregator without tasks, with an empty store.
    pub fn new(
        global: DapGlobalConfig,
        sharding: ShardConfig,
        auth: DaphneWorkerAuthMethod,
        now: Time,
        host: String,
    ) -> (r: MemoryAggregator)
        requires
            sharding.wf(),
        ensures
            r.wf(),
            r.store@ == crate::store::empty_store(),
            r.store.shard_config() == sharding,
            r.tasks@ == Map::<Seq<u8>, DapTaskConfig>::empty(),
            r.global == global,
            r.now == now,
            r.host == host,
    {
        MemoryAggregator {
            global,
            auth,
            taskprov_vdaf_verify_key_init: None,
            taskprov_collector_hpke_config: None,
            tasks: TaskCache::new(),
            store: AggregateStore::new(sharding),
            now,
            host,
        }
    }
}

impl DapAggregator for MemoryAggregator {
    /// The aggregator's tasks and store are well formed.
    open spec fn wf(&self) -> bool {
        self.tasks.wf() && self.store.wf()
    }

    open spec fn store_state(&self) -> StoreState {
        self.store@
    }

    open spec fn shard_config(&self) -> ShardConfig {
        self.store.shard_config()
    }

    /// Memory does not fail.
    open spec fn reliable(&self) -> bool {
        true
    }

    /// A request is authorized where its sender shows what the aggregator
    /// expects; a request without a sender is not.
    fn unauthorized_reason(&self, task_config: &DapTaskConfig, req: &DapRequest) -> (r: Result<
        Option<UnauthorizedReason>,
        DapError,
    >)
        ensures
            r == Ok::<Option<UnauthorizedReason>, DapError>(
                match req.sender_auth {
                    Some(sender) => unauthorized(self.auth, sender),
                    None => Some(UnauthorizedReason::Missing),
                },
            ),
    {
        match &req.sender_auth {
            Some(sender) => Ok(unauthorized_reason(&self.auth, sender)),
            None => Ok(Some(UnauthorizedReason::Missing)),
        }
    }

    fn get_global_config(&self) -> (r: &DapGlobalConfig)
        ensures
            *r == self.global,
    {
        &self.global
    }

    fn taskprov_vdaf_verify_key_init(&self) -> (r: Option<&[u8; 32]>)
        ensures
            match r {
                Some(key) => self.taskprov_vdaf_verify_key_init == Some(*key),
                None => self.taskprov_vdaf_verify_key_init.is_none(),
            },
    {
        self.taskprov_vdaf_verify_key_init.as_ref()
    }

    fn taskprov_collector_hpke_config(&self) -> (r: Option<&HpkeConfig>)
        ensures
            match r {
                Some(config) => self.taskprov_collector_hpke_config == Some(*config),
                None => self.taskprov_collector_hpke_config.is_none(),
            },
    {
        self.taskprov_collector_hpke_config.as_ref()
    }

    fn taskprov_put(&mut self, task_id: &TaskId, task_config: DapTaskConfig) -> (r: Result<
        (),
        DapError,
    >)
        ensures
            r is Ok,
            final(self).wf(),
            final(self).tasks@ == old(self).tasks@.insert(task_id@, task_config),
            final(self).store@ == old(self).store@,
    {
        self.tasks.insert(*task_id, task_config);
        Ok(())
    }

    fn get_task_config_for(&self, task_id: &TaskId) -> (r: Result<Option<&DapTaskConfig>, DapError>)
        ensures
            r matches Ok(found) && match found {
                Some(config) => self.tasks@.dom().contains(task_id@) && *config
                    == self.tasks@[task_id@],
                None => !self.tasks@.dom().contains(task_id@),
            },
    {
        Ok(self.tasks.get(task_id))
    }

    fn get_current_time(&self) -> (r: Time)
        ensures
            r == self.now,
    {
        self.now
    }

    fn is_batch_overlapping(&self, task_id: &TaskId, batch_sel: &BatchSelector) -> (r: Result<
        bool,
        DapError,
    >)
        ensures
            r == Ok::<bool, DapError>(self.store@.is_overlapping(task_id@, batch_sel@)),
    {
        Ok(self.store.is_batch_overlapping(task_id, batch_sel))
    }

    fn batch_exists(&self, task_id: &TaskId, batch_id: &BatchId) -> (r: Result<bool, DapError>)
        ensures
            r == Ok::<bool, DapError>(
                self.store@.shares.dom().contains(
                    BucketId { task_id: task_id@, bucket: BucketKey::FixedSize(batch_id@) },
                ),
            ),
    {
        Ok(self.store.batch_exists(task_id, batch_id))
    }

    fn try_put_agg_share_span(
        &mut self,
        task_id: &TaskId,
        task_config: &DapTaskConfig,
        agg_share_span: &DapAggregateSpan<DapAggregateShare>,
    ) -> (r: DapAggregateSpan<Result<(), MergeAggShareError>>)
        ensures
            final(self).wf(),
            final(self).tasks@ == old(self).tasks@,
            final(self).store.shard_config() == old(self).store.shard_config(),
            final(self).store@ == span_state(
                old(self).store@,
                old(self).store.shard_config(),
                task_id@,
                span_view(agg_share_span.span@),
                agg_share_span.span@.len() as int,
            ),
            forall|i: int|
                0 <= i < r.span@.len() ==> reports_outcome(
                    (#[trigger] r.span@[i]).value,
                    span_outcome(
                        old(self).store@,
                        old(self).store.shard_config(),
                        task_id@,
                        span_view(agg_share_span.span@),
                        i,
                    ),
                ),
    {
        let ghost before = self.store@;
        let ghost config = self.store.shard_config();
        let r = self.store.try_put_agg_share_span(task_id, agg_share_span);
        proof {
            let span = span_view(agg_share_span.span@);
            assert forall|i: int| 0 <= i <= r.span@.len() implies span_state_given(
                before,
                config,
                task_id@,
                span,
                r.span@,
                i,
            ) == span_state(before, config, task_id@, span, i) by {
                lemma_given_is_plain(before, config, task_id@, span, r.span@, i);
            }
        }
        r
    }

    fn get_agg_share(&self, task_id: &TaskId, batch_sel: &BatchSelector) -> (r: Result<
        DapAggregateShare,
        DapError,
    >)
        ensures
            match r {
                Ok(share) => covered_sum(
                    self.store@,
                    task_id@,
                    batch_sel@,
                    self.store@.order.len() as int,
                ) == Some(share@),
                Err(e) => e == DapError::Fatal(FatalDapError::InvalidMerge) && covered_sum(
                    self.store@,
                    task_id@,
                    batch_sel@,
                    self.store@.order.len() as int,
                ).is_none(),
            },
    {
        self.store.get_agg_share(task_id, batch_sel)
    }

    fn mark_collected(&mut self, task_id: &TaskId, batch_sel: &BatchSelector) -> (r: Result<
        (),
        DapError,
    >)
        ensures
            r is Ok,
            final(self).wf(),
            final(self).tasks@ == old(self).tasks@,
            final(self).store.shard_config() == old(self).store.shard_config(),
            final(self).store@ == marked_state(old(self).store@, task_id@, batch_sel@),
    {
        self.store.mark_collected(task_id, batch_sel)
    }

    fn host(&self) -> (r: &str)
        ensures
            r@ == self.host@,
    {
        self.host.as_str()
    }
}

} // verus!
