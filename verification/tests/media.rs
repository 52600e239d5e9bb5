use dap_aggregator::media::DapMediaType;
use dap_aggregator::messages::DapVersion;

fn kinds() -> Vec<DapMediaType> {
    vec![
        DapMediaType::AggregationJobInitReq,
        DapMediaType::AggregationJobResp,
        DapMediaType::AggregationJobContinueReq,
        DapMediaType::Draft02AggregateContinueResp,
        DapMediaType::AggregateShareReq,
        DapMediaType::AggregateShare,
        DapMediaType::CollectReq,
        DapMediaType::Collection,
        DapMediaType::HpkeConfigList,
        DapMediaType::Report,
    ]
}

fn same(a: &DapMediaType, b: &DapMediaType) -> bool {
    format!("{:?}", a) == format!("{:?}", b)
}

#[test]
fn names_in_the_newer_version() {
    let v = DapVersion::Draft05;
    let name = |m: DapMediaType| m.as_str_for_version(v);
    assert_eq!(name(DapMediaType::AggregationJobInitReq).unwrap(), "application/dap-aggregation-job-init-req");
    assert_eq!(name(DapMediaType::AggregationJobResp).unwrap(), "application/dap-aggregation-job-resp");
    assert_eq!(
        name(DapMediaType::AggregationJobContinueReq).unwrap(),
        "application/dap-aggregation-job-continue-req"
    );
    assert_eq!(name(DapMediaType::Draft02AggregateContinueResp), None);
    assert_eq!(name(DapMediaType::AggregateShareReq).unwrap(), "application/dap-aggregate-share-req");
    assert_eq!(name(DapMediaType::AggregateShare).unwrap(), "application/dap-aggregate-share");
    assert_eq!(name(DapMediaType::CollectReq).unwrap(), "application/dap-collect-req");
    assert_eq!(name(DapMediaType::Collection).unwrap(), "application/dap-collection");
    assert_eq!(name(DapMediaType::HpkeConfigList).unwrap(), "application/dap-hpke-config-list");
    assert_eq!(name(DapMediaType::Report).unwrap(), "application/dap-report");
    assert_eq!(name(DapMediaType::Missing), None);
    assert_eq!(name(DapMediaType::Invalid(String::from("text/plain"))).unwrap(), "text/plain");
}

#[test]
fn names_in_the_older_version() {
    let v = DapVersion::Draft02;
    let name = |m: DapMediaType| m.as_str_for_version(v);
    assert_eq!(name(DapMediaType::AggregationJobInitReq).unwrap(), "application/dap-aggregate-initialize-req");
    assert_eq!(name(DapMediaType::AggregationJobResp).unwrap(), "application/dap-aggregate-initialize-resp");
    assert_eq!(name(DapMediaType::AggregationJobContinueReq).unwrap(), "application/dap-aggregate-continue-req");
    assert_eq!(
        name(DapMediaType::Draft02AggregateContinueResp).unwrap(),
        "application/dap-aggregate-continue-resp"
    );
    assert_eq!(name(DapMediaType::AggregateShare).unwrap(), "application/dap-aggregate-share-resp");
    assert_eq!(name(DapMediaType::Collection).unwrap(), "application/dap-collect-resp");
    assert_eq!(name(DapMediaType::HpkeConfigList).unwrap(), "application/dap-hpke-config");
}

#[test]
fn reading_undoes_naming() {
    for version in [DapVersion::Draft02, DapVersion::Draft05] {
        for kind in kinds() {
            if let Some(name) = kind.as_str_for_version(version) {
                let read = DapMediaType::from_str_for_version(version, Some(name.as_str()));
                assert!(same(&read, &kind), "{:?} {:?} {:?}", version, kind, read);
            }
        }
    }
}

#[test]
fn unknown_and_missing_content_types() {
    let read = DapMediaType::from_str_for_version(DapVersion::Draft05, None);
    assert!(matches!(read, DapMediaType::Missing));
    let read = DapMediaType::from_str_for_version(DapVersion::Draft05, Some("text/plain"));
    assert!(matches!(read, DapMediaType::Invalid(text) if text == "text/plain"));
    // A name of the other version is not known.
    let read = DapMediaType::from_str_for_version(DapVersion::Draft05, Some("application/dap-hpke-config"));
    assert!(matches!(read, DapMediaType::Invalid(_)));
    let read = DapMediaType::from_str_for_version(DapVersion::Draft02, Some("application/dap-collection"));
    assert!(matches!(read, DapMediaType::Invalid(_)));
    let read = DapMediaType::from_str_for_version(DapVersion::Unknown, Some("application/dap-report"));
    assert!(matches!(read, DapMediaType::Invalid(text) if text == "application/dap-report"));
    assert_eq!(DapMediaType::Report.as_str_for_version(DapVersion::Unknown), None);
}
