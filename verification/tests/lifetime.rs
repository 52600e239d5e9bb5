use dap_aggregator::batch::{
    internal_current_batch, LeaderBatchQueue, LeaderBatchQueueResult,
};
use dap_aggregator::config::HpkeConfig;
use dap_aggregator::messages::{
    BatchId, BatchSelector, DapQueryConfig, DapVersion, ReportId, ReportMetadata, TaskId,
};
use dap_aggregator::shard::ShardConfig;
use dap_aggregator::share::{DapAggregateShare, VdafAggregateShare};
use dap_aggregator::store::{AggregateStore, DapBatchBucket, MergeAggShareError};
use dap_aggregator::task::{DapTaskConfig, Prio3Config, VdafConfig};

fn store() -> AggregateStore {
    AggregateStore::new(ShardConfig {
        report_shard_key: [0; 32],
        report_shard_count: 8,
        report_storage_epoch_duration: 1000,
    })
}

fn task() -> TaskId {
    TaskId { bytes: [1; 32] }
}

fn meta(id: u8, time: u64) -> ReportMetadata {
    ReportMetadata { id: ReportId { bytes: [id; 16] }, time }
}

fn delta() -> DapAggregateShare {
    DapAggregateShare {
        report_count: 1,
        min_time: 0,
        max_time: 0,
        checksum: [0; 32],
        data: Some(VdafAggregateShare::Field64(vec![1, 0, 0, 0, 0, 0, 0, 0])),
    }
}

fn window(start: u64) -> DapBatchBucket {
    DapBatchBucket::TimeInterval { batch_window: start }
}

fn batch(id: u8) -> BatchId {
    BatchId { bytes: [id; 32] }
}

#[test]
fn purge_forgets_partitions_whose_lifetime_is_over() {
    let mut store = store();
    for (id, time) in [(1u8, 10u64), (2, 999), (3, 1000), (4, 2500)] {
        assert!(store.try_put_bucket(&task(), &window(0), &delta(), &vec![meta(id, time)]).is_ok());
    }
    assert_eq!(store.aggregated_reports(), 4);
    // The first epoch ends at 1000; with a safety interval of 500 it is kept up to 1500.
    assert_eq!(store.purge(1500, 500), 0);
    assert_eq!(store.aggregated_reports(), 4);
    assert_eq!(store.purge(1501, 500), 2);
    assert_eq!(store.aggregated_reports(), 2);
    assert!(!store.is_aggregated(&task(), &meta(1, 10)));
    assert!(!store.is_aggregated(&task(), &meta(2, 999)));
    assert!(store.is_aggregated(&task(), &meta(3, 1000)));
    assert!(store.is_aggregated(&task(), &meta(4, 2500)));
    // The shares stay.
    let all = BatchSelector::TimeInterval { start: 0, duration: 3600 };
    assert_eq!(store.get_agg_share(&task(), &all).unwrap().report_count, 4);
    assert_eq!(store.purge(u64::MAX, u64::MAX), 0);
    assert_eq!(store.purge(u64::MAX, 0), 2);
    assert_eq!(store.aggregated_reports(), 0);
    assert_eq!(store.purge(u64::MAX, 0), 0);
}

#[test]
fn purge_leaves_collected_batches_closed() {
    let mut store = store();
    assert!(store.try_put_bucket(&task(), &window(0), &delta(), &vec![meta(1, 10)]).is_ok());
    store.mark_collected(&task(), &BatchSelector::TimeInterval { start: 0, duration: 3600 }).unwrap();
    assert_eq!(store.purge(10_000, 0), 1);
    let result = store.try_put_bucket(&task(), &window(0), &delta(), &vec![meta(1, 10)]);
    assert!(matches!(result, Err(MergeAggShareError::AlreadyCollected)));
    // In an open bucket the forgotten report would be taken for new.
    assert!(store.try_put_bucket(&task(), &window(3600), &delta(), &vec![meta(1, 10)]).is_ok());
}

#[test]
fn reports_attach_to_the_youngest_batch() {
    let mut queue = LeaderBatchQueue::new();
    assert!(matches!(queue.current(), LeaderBatchQueueResult::EmptyQueue));
    assert_eq!(queue.assign(batch(1), 2), batch(1));
    assert_eq!(queue.assign(batch(2), 2), batch(1));
    // The first batch is full: the next report begins the fresh one.
    assert_eq!(queue.assign(batch(3), 2), batch(3));
    assert_eq!(queue.assign(batch(4), 2), batch(3));
    assert_eq!(queue.assign(batch(5), 2), batch(5));
    // Collection takes the oldest.
    assert!(matches!(queue.current(), LeaderBatchQueueResult::Current(id) if id == batch(1)));
    assert!(queue.remove(&batch(1)));
    assert!(!queue.remove(&batch(1)));
    assert!(!queue.remove(&batch(2)));
    assert!(matches!(queue.current(), LeaderBatchQueueResult::Current(id) if id == batch(3)));
    assert!(queue.remove(&batch(5)));
    assert!(queue.remove(&batch(3)));
    assert!(matches!(queue.current(), LeaderBatchQueueResult::EmptyQueue));
}

#[test]
fn a_batch_size_of_zero_gives_each_report_its_own_batch() {
    let mut queue = LeaderBatchQueue::new();
    assert_eq!(queue.assign(batch(1), 0), batch(1));
    assert_eq!(queue.assign(batch(2), 0), batch(2));
    assert!(matches!(queue.current(), LeaderBatchQueueResult::Current(id) if id == batch(1)));
}

#[test]
fn current_batch_comes_from_the_queue() {
    let config = DapTaskConfig {
        version: DapVersion::Draft05,
        leader_url: String::new(),
        helper_url: String::new(),
        time_precision: 3600,
        expiration: u64::MAX,
        min_batch_size: 1,
        query: DapQueryConfig::FixedSize { max_batch_size: 3 },
        vdaf: VdafConfig::Prio3(Prio3Config::Count),
        dp_config: None,
        vdaf_verify_key: vec![],
        collector_hpke_config: HpkeConfig { id: 0, kem_id: 0, kdf_id: 0, aead_id: 0, public_key: vec![] },
        taskprov: false,
    };
    let mut queue = LeaderBatchQueue::new();
    assert!(internal_current_batch(Some(&config), queue.current()).is_err());
    queue.assign(batch(7), 3);
    assert_eq!(internal_current_batch(Some(&config), queue.current()), Ok(batch(7)));
}
