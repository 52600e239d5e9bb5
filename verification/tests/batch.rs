use dap_aggregator::batch::{
    check_batch, check_current_batch, collect, internal_current_batch, LeaderBatchQueueResult,
};
use dap_aggregator::config::HpkeConfig;
use dap_aggregator::error::{DapAbort, DapError, FatalDapError};
use dap_aggregator::messages::{
    BatchId, BatchSelector, DapQueryConfig, DapVersion, ReportId, ReportMetadata, TaskId,
};
use dap_aggregator::shard::ShardConfig;
use dap_aggregator::share::{DapAggregateShare, VdafAggregateShare};
use dap_aggregator::store::{AggregateStore, DapBatchBucket};
use dap_aggregator::task::{DapTaskConfig, Prio3Config, VdafConfig};

fn config(query: DapQueryConfig, time_precision: u64, min_batch_size: u64) -> DapTaskConfig {
    DapTaskConfig {
        version: DapVersion::Draft05,
        leader_url: String::new(),
        helper_url: String::new(),
        time_precision,
        expiration: u64::MAX,
        min_batch_size,
        query,
        vdaf: VdafConfig::Prio3(Prio3Config::Count),
        dp_config: None,
        vdaf_verify_key: vec![],
        collector_hpke_config: HpkeConfig { id: 0, kem_id: 0, kdf_id: 0, aead_id: 0, public_key: vec![] },
        taskprov: false,
    }
}

fn store() -> AggregateStore {
    AggregateStore::new(ShardConfig {
        report_shard_key: [0; 32],
        report_shard_count: 1,
        report_storage_epoch_duration: 1,
    })
}

fn task() -> TaskId {
    TaskId { bytes: [1; 32] }
}

fn interval(start: u64, duration: u64) -> BatchSelector {
    BatchSelector::TimeInterval { start, duration }
}

fn batch(id: u8) -> BatchSelector {
    BatchSelector::FixedSizeByBatchId { batch_id: BatchId { bytes: [id; 32] } }
}

fn delta(count: u64) -> DapAggregateShare {
    DapAggregateShare {
        report_count: count,
        min_time: 0,
        max_time: 0,
        checksum: [0; 32],
        data: Some(VdafAggregateShare::Field64(count.to_le_bytes().to_vec())),
    }
}

fn reports(from: u8, count: u8) -> Vec<ReportMetadata> {
    (from..from + count).map(|i| ReportMetadata { id: ReportId { bytes: [i; 16] }, time: 0 }).collect()
}

#[test]
fn time_interval_selector_must_lie_on_windows() {
    let task = config(DapQueryConfig::TimeInterval, 3600, 1);
    assert!(task.is_valid_batch_sel(&interval(0, 3600)));
    assert!(task.is_valid_batch_sel(&interval(7200, 36_000)));
    assert!(task.is_valid_batch_sel(&interval(3600, 0)));
    assert!(!task.is_valid_batch_sel(&interval(1, 3600)));
    assert!(!task.is_valid_batch_sel(&interval(3600, 3599)));
    assert!(!task.is_valid_batch_sel(&interval(999_000, 4_600)));
    assert!(!config(DapQueryConfig::TimeInterval, 0, 1).is_valid_batch_sel(&interval(0, 0)));
}

#[test]
fn query_types_do_not_mix() {
    let time_interval = config(DapQueryConfig::TimeInterval, 3600, 1);
    let fixed_size = config(DapQueryConfig::FixedSize { max_batch_size: 10 }, 3600, 1);
    assert!(!time_interval.is_valid_batch_sel(&batch(1)));
    assert!(!fixed_size.is_valid_batch_sel(&interval(0, 3600)));
    assert!(fixed_size.is_valid_batch_sel(&batch(1)));

    let current = LeaderBatchQueueResult::Current(BatchId { bytes: [4; 32] });
    assert_eq!(
        internal_current_batch(Some(&time_interval), current),
        Err(DapError::Fatal(FatalDapError::QueryTypeMismatch))
    );
    assert_eq!(
        check_current_batch(Some(&time_interval)),
        Err(DapError::Fatal(FatalDapError::QueryTypeMismatch))
    );
    assert_eq!(internal_current_batch(Some(&fixed_size), current), Ok(BatchId { bytes: [4; 32] }));
    assert_eq!(check_current_batch(Some(&fixed_size)), Ok(()));

    let mut store = store();
    assert!(store
        .try_put_bucket(&task(), &DapBatchBucket::TimeInterval { batch_window: 0 }, &delta(3), &reports(0, 3))
        .is_ok());
    let refused = collect(&mut store, &task(), &time_interval, &batch(1));
    assert_eq!(refused.unwrap_err(), DapError::Abort(DapAbort::BatchInvalid));
    let refused = collect(&mut store, &task(), &fixed_size, &interval(0, 3600));
    assert_eq!(refused.unwrap_err(), DapError::Abort(DapAbort::BatchInvalid));
}

#[test]
fn current_batch_of_an_unknown_task_or_empty_queue() {
    let fixed_size = config(DapQueryConfig::FixedSize { max_batch_size: 10 }, 3600, 1);
    assert_eq!(
        internal_current_batch(None, LeaderBatchQueueResult::EmptyQueue),
        Err(DapError::Abort(DapAbort::UnrecognizedTask))
    );
    assert_eq!(check_current_batch(None), Err(DapError::Abort(DapAbort::UnrecognizedTask)));
    assert_eq!(
        internal_current_batch(Some(&fixed_size), LeaderBatchQueueResult::EmptyQueue),
        Err(DapError::Fatal(FatalDapError::EmptyBatchQueue))
    );
}

#[test]
fn fixed_size_collection() {
    let fixed_size = config(DapQueryConfig::FixedSize { max_batch_size: 10 }, 3600, 2);
    let mut store = store();
    // A batch that never received a report is unknown.
    assert_eq!(check_batch(&store, &task(), &fixed_size, &batch(1)), Err(DapAbort::BatchInvalid));
    let bucket = DapBatchBucket::FixedSize { batch_id: BatchId { bytes: [1; 32] } };
    assert!(store.try_put_bucket(&task(), &bucket, &delta(1), &reports(0, 1)).is_ok());
    assert_eq!(check_batch(&store, &task(), &fixed_size, &batch(1)), Ok(()));
    assert_eq!(
        collect(&mut store, &task(), &fixed_size, &batch(1)).unwrap_err(),
        DapError::Abort(DapAbort::InvalidBatchSize)
    );
    assert!(store.try_put_bucket(&task(), &bucket, &delta(2), &reports(1, 2)).is_ok());
    let share = collect(&mut store, &task(), &fixed_size, &batch(1)).unwrap();
    assert_eq!(share.report_count, 3);
    assert_eq!(check_batch(&store, &task(), &fixed_size, &batch(1)), Err(DapAbort::BatchOverlap));
    assert_eq!(
        collect(&mut store, &task(), &fixed_size, &batch(1)).unwrap_err(),
        DapError::Abort(DapAbort::BatchOverlap)
    );
}

#[test]
fn collection_that_cannot_add_shares_fails_inside() {
    let task_config = config(DapQueryConfig::TimeInterval, 10, 1);
    let mut store = store();
    let wide = DapAggregateShare {
        data: Some(VdafAggregateShare::Field128(vec![0; 16])),
        ..delta(1)
    };
    assert!(store
        .try_put_bucket(&task(), &DapBatchBucket::TimeInterval { batch_window: 0 }, &delta(1), &reports(0, 1))
        .is_ok());
    assert!(store
        .try_put_bucket(&task(), &DapBatchBucket::TimeInterval { batch_window: 10 }, &wide, &reports(1, 1))
        .is_ok());
    assert_eq!(
        collect(&mut store, &task(), &task_config, &interval(0, 20)).unwrap_err(),
        DapError::Fatal(FatalDapError::InvalidMerge)
    );
    assert_eq!(collect(&mut store, &task(), &task_config, &interval(0, 10)).unwrap().report_count, 1);
}

#[test]
fn batch_windows() {
    let task = config(DapQueryConfig::TimeInterval, 3600, 1);
    assert_eq!(task.quantized_time_lower_bound(1_000_000), 997_200);
    assert_eq!(task.quantized_time_lower_bound(1_000_500), 997_200);
    assert_eq!(task.quantized_time_lower_bound(3599), 0);
    assert_eq!(task.quantized_time_lower_bound(3600), 3600);
    assert_eq!(config(DapQueryConfig::TimeInterval, 1, 1).quantized_time_lower_bound(u64::MAX), u64::MAX);
}
