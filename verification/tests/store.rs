use dap_aggregator::error::{DapError, FatalDapError};
use dap_aggregator::messages::{BatchId, BatchSelector, ReportId, ReportMetadata, TaskId};
use dap_aggregator::shard::ShardConfig;
use dap_aggregator::share::{DapAggregateShare, VdafAggregateShare};
use dap_aggregator::store::{
    copy_reports, is_named, selector_covers, selectors_overlap, AggregateStore, DapAggregateSpan,
    DapBatchBucket, MergeAggShareError, SpanEntry,
};

fn sharding() -> ShardConfig {
    ShardConfig { report_shard_key: [1; 32], report_shard_count: 2, report_storage_epoch_duration: 1000 }
}

fn task() -> TaskId {
    TaskId { bytes: [1; 32] }
}

fn meta(id: u8, time: u64) -> ReportMetadata {
    ReportMetadata { id: ReportId { bytes: [id; 16] }, time }
}

fn delta(count: u64, value: u64) -> DapAggregateShare {
    DapAggregateShare {
        report_count: count,
        min_time: 10,
        max_time: 20,
        checksum: [count as u8; 32],
        data: Some(VdafAggregateShare::Field64(value.to_le_bytes().to_vec())),
    }
}

fn window(start: u64) -> DapBatchBucket {
    DapBatchBucket::TimeInterval { batch_window: start }
}

fn all() -> BatchSelector {
    BatchSelector::TimeInterval { start: 0, duration: u64::MAX }
}

#[test]
fn merged_reports_are_counted_once_each() {
    let mut store = AggregateStore::new(sharding());
    assert_eq!(store.aggregated_reports(), 0);
    let reports = vec![meta(1, 5), meta(2, 6), meta(3, 1500)];
    assert!(store.try_put_bucket(&task(), &window(0), &delta(3, 3), &reports).is_ok());
    assert_eq!(store.aggregated_reports(), 3);
    for report in &reports {
        assert!(store.is_aggregated(&task(), report));
    }
    assert!(!store.is_aggregated(&task(), &meta(4, 5)));
    assert!(!store.is_aggregated(&TaskId { bytes: [2; 32] }, &meta(1, 5)));

    // A refused increment adds nothing.
    let refused = store.try_put_bucket(&task(), &window(0), &delta(2, 2), &vec![meta(9, 5), meta(2, 6)]);
    assert!(refused.is_err());
    assert_eq!(store.aggregated_reports(), 3);
    assert!(!store.is_aggregated(&task(), &meta(9, 5)));

    // A report that an increment lists twice is recorded once.
    let twice = vec![meta(7, 5), meta(7, 5)];
    assert!(store.try_put_bucket(&task(), &window(0), &delta(2, 2), &twice).is_ok());
    assert_eq!(store.aggregated_reports(), 4);
}

#[test]
fn replay_detection_is_scoped_by_task_and_epoch() {
    let mut store = AggregateStore::new(sharding());
    assert!(store.try_put_bucket(&task(), &window(0), &delta(1, 1), &vec![meta(1, 5)]).is_ok());
    // The same identifier in another epoch lies in another partition.
    assert!(store.try_put_bucket(&task(), &window(0), &delta(1, 1), &vec![meta(1, 1005)]).is_ok());
    // The same identifier for another task lies in another partition.
    let other = TaskId { bytes: [2; 32] };
    assert!(store.try_put_bucket(&other, &window(0), &delta(1, 1), &vec![meta(1, 5)]).is_ok());
    // In the same epoch of the same task it is a replay, whatever the bucket.
    let again = store.try_put_bucket(&task(), &window(3600), &delta(1, 1), &vec![meta(1, 999)]);
    assert!(matches!(again, Err(MergeAggShareError::ReplaysDetected(_))));
    assert_eq!(store.aggregated_reports(), 3);
}

#[test]
fn replays_are_listed_once_each_in_order() {
    let mut store = AggregateStore::new(sharding());
    let first = vec![meta(1, 5), meta(2, 5), meta(3, 5)];
    assert!(store.try_put_bucket(&task(), &window(0), &delta(3, 3), &first).is_ok());
    let second = vec![meta(3, 5), meta(8, 5), meta(1, 5), meta(3, 5)];
    match store.try_put_bucket(&task(), &window(0), &delta(4, 4), &second) {
        Err(MergeAggShareError::ReplaysDetected(ids)) => {
            assert_eq!(ids, vec![ReportId { bytes: [3; 16] }, ReportId { bytes: [1; 16] }]);
            assert!(is_named(&ids, &ReportId { bytes: [1; 16] }));
            assert!(!is_named(&ids, &ReportId { bytes: [8; 16] }));
        }
        other => panic!("unexpected result {:?}", other),
    }
    let share = store.get_agg_share(&task(), &all()).unwrap();
    assert_eq!(share.report_count, 3);
    assert_eq!(share.checksum, [3; 32]);
}

#[test]
fn shares_that_cannot_be_added_leave_the_store_alone() {
    let mut store = AggregateStore::new(sharding());
    assert!(store.try_put_bucket(&task(), &window(0), &delta(1, 1), &vec![meta(1, 5)]).is_ok());
    let wrong = DapAggregateShare {
        data: Some(VdafAggregateShare::Field128(vec![0; 16])),
        ..delta(1, 1)
    };
    let result = store.try_put_bucket(&task(), &window(0), &wrong, &vec![meta(2, 5)]);
    assert!(matches!(
        result,
        Err(MergeAggShareError::Other(DapError::Fatal(FatalDapError::InvalidMerge)))
    ));
    assert_eq!(store.aggregated_reports(), 1);
    assert!(!store.is_aggregated(&task(), &meta(2, 5)));
    assert_eq!(store.get_agg_share(&task(), &all()).unwrap().report_count, 1);
}

#[test]
fn collected_comes_before_replays() {
    let mut store = AggregateStore::new(sharding());
    assert!(store.try_put_bucket(&task(), &window(0), &delta(1, 1), &vec![meta(1, 5)]).is_ok());
    store.mark_collected(&task(), &BatchSelector::TimeInterval { start: 0, duration: 3600 }).unwrap();
    let result = store.try_put_bucket(&task(), &window(0), &delta(1, 1), &vec![meta(1, 5)]);
    assert!(matches!(result, Err(MergeAggShareError::AlreadyCollected)));
    // The next window is open.
    assert!(store.try_put_bucket(&task(), &window(3600), &delta(1, 1), &vec![meta(2, 5)]).is_ok());
}

#[test]
fn span_is_put_bucket_after_bucket() {
    let mut store = AggregateStore::new(sharding());
    let span = DapAggregateSpan {
        span: vec![
            SpanEntry { bucket: window(0), value: delta(1, 5), reports: vec![meta(1, 5)] },
            SpanEntry { bucket: window(3600), value: delta(1, 6), reports: vec![meta(1, 5)] },
            SpanEntry { bucket: window(7200), value: delta(2, 7), reports: vec![meta(2, 5), meta(3, 5)] },
        ],
    };
    let result = store.try_put_agg_share_span(&task(), &span);
    assert_eq!(result.span.len(), 3);
    assert!(result.span[0].value.is_ok());
    // The second bucket holds the report that the first one has just recorded.
    assert!(matches!(&result.span[1].value, Err(MergeAggShareError::ReplaysDetected(ids)) if ids.len() == 1));
    assert!(result.span[2].value.is_ok());
    for (entry, input) in result.span.iter().zip(span.span.iter()) {
        assert_eq!(entry.bucket.same(&input.bucket), true);
        assert_eq!(entry.reports, input.reports);
    }
    assert_eq!(store.aggregated_reports(), 3);
    let share = store.get_agg_share(&task(), &all()).unwrap();
    assert_eq!(share.report_count, 3);
    let narrow = BatchSelector::TimeInterval { start: 7200, duration: 3600 };
    assert_eq!(store.get_agg_share(&task(), &narrow).unwrap().report_count, 2);
    let none = BatchSelector::TimeInterval { start: 3600, duration: 3600 };
    assert_eq!(store.get_agg_share(&task(), &none).unwrap().report_count, 0);
}

#[test]
fn fixed_size_batches_are_told_apart() {
    let mut store = AggregateStore::new(sharding());
    let first = BatchId { bytes: [1; 32] };
    let second = BatchId { bytes: [2; 32] };
    let bucket = DapBatchBucket::FixedSize { batch_id: first };
    assert!(!store.batch_exists(&task(), &first));
    assert!(store.try_put_bucket(&task(), &bucket, &delta(2, 2), &vec![meta(1, 5), meta(2, 5)]).is_ok());
    assert!(store.batch_exists(&task(), &first));
    assert!(!store.batch_exists(&task(), &second));
    assert!(!store.batch_exists(&TaskId { bytes: [9; 32] }, &first));
    let selector = BatchSelector::FixedSizeByBatchId { batch_id: first };
    assert_eq!(store.get_agg_share(&task(), &selector).unwrap().report_count, 2);
    let other = BatchSelector::FixedSizeByBatchId { batch_id: second };
    assert_eq!(store.get_agg_share(&task(), &other).unwrap().report_count, 0);
    assert!(!store.is_batch_overlapping(&task(), &selector));
    store.mark_collected(&task(), &selector).unwrap();
    assert!(store.is_batch_overlapping(&task(), &selector));
    assert!(!store.is_batch_overlapping(&task(), &other));
    assert!(store.is_collected(&task(), &bucket));
}

#[test]
fn selectors_and_buckets() {
    let interval = BatchSelector::TimeInterval { start: 3600, duration: 7200 };
    assert!(selector_covers(&interval, &window(3600)));
    assert!(selector_covers(&interval, &window(7200)));
    assert!(!selector_covers(&interval, &window(10_800)));
    assert!(!selector_covers(&interval, &window(0)));
    let batch = BatchSelector::FixedSizeByBatchId { batch_id: BatchId { bytes: [1; 32] } };
    assert!(!selector_covers(&batch, &window(3600)));
    assert!(!selector_covers(&interval, &DapBatchBucket::FixedSize { batch_id: BatchId { bytes: [1; 32] } }));
    let end = BatchSelector::TimeInterval { start: u64::MAX - 10, duration: u64::MAX };
    assert!(selector_covers(&end, &window(u64::MAX)));
    assert!(selectors_overlap(&end, &BatchSelector::TimeInterval { start: u64::MAX, duration: 1 }));
    assert!(!selectors_overlap(&interval, &batch));
    assert!(!selectors_overlap(&interval, &BatchSelector::TimeInterval { start: 0, duration: 3600 }));
    assert!(!selectors_overlap(&interval, &BatchSelector::TimeInterval { start: 5000, duration: 0 }));
    assert!(selectors_overlap(&interval, &BatchSelector::TimeInterval { start: 0, duration: 3601 }));
    assert_eq!(copy_reports(&vec![meta(1, 2), meta(3, 4)]), vec![meta(1, 2), meta(3, 4)]);
}
