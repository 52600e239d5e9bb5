use dap_aggregator::admin::{
    internal_add_hpke_config, internal_add_task, internal_endpoint_for_task, read_dp_config,
    read_query, read_vdaf, validate, AddTaskAction, AddTaskError, AddTaskProgress, EndpointReply,
    HpkeReceiverConfig, InternalTestAddTask, InternalTestDpConfig, InternalTestEndpointForTask,
    InternalTestRole, InternalTestVdaf,
};
use dap_aggregator::base64url::encode;
use dap_aggregator::config::{
    DapGlobalConfig, DaphneWorkerConfig, DaphneWorkerDeployment, HpkeConfig,
};
use dap_aggregator::endpoint::ParsedUrl;
use dap_aggregator::messages::{DapQueryConfig, DapVersion, TaskId};
use dap_aggregator::task::{Prio3Config, VdafConfig, VdafDpConfig, ZCdpBudget};

fn b64(bytes: &[u8]) -> String {
    String::from_utf8(encode(bytes)).unwrap()
}

fn text(s: &str) -> Option<String> {
    Some(String::from(s))
}

fn vdaf(typ: &str, bits: Option<&str>, length: Option<&str>) -> InternalTestVdaf {
    InternalTestVdaf { typ: String::from(typ), bits: bits.map(String::from), length: length.map(String::from) }
}

fn no_dp() -> InternalTestDpConfig {
    InternalTestDpConfig { distribution: None, zcdp_numerator: None, zcdp_denominator: None }
}

fn hpke() -> HpkeConfig {
    HpkeConfig { id: 9, kem_id: 0x20, kdf_id: 1, aead_id: 1, public_key: vec![4; 32] }
}

fn command(role: InternalTestRole) -> InternalTestAddTask {
    InternalTestAddTask {
        task_id: b64(&[5; 32]),
        leader: String::from("https://leader.example/"),
        helper: String::from("https://helper.example/"),
        vdaf: vdaf("Prio3Count", None, None),
        dp_config: no_dp(),
        leader_authentication_token: String::from("leader-token"),
        collector_authentication_token: match role {
            InternalTestRole::Leader => text("collector-token"),
            InternalTestRole::Helper => None,
        },
        role,
        vdaf_verify_key: b64(&[1; 16]),
        query_type: 1,
        min_batch_size: 10,
        max_batch_size: None,
        time_precision: 3600,
        collector_hpke_config: b64(&hpke().encode().unwrap()),
        task_expiration: 2_000_000_000,
    }
}

fn failure(cmd: &InternalTestAddTask, progress: AddTaskProgress) -> AddTaskError {
    match internal_add_task(DapVersion::Draft05, cmd, progress) {
        AddTaskAction::Fail(e) => e,
        other => panic!("unexpected action {:?}", other),
    }
}

const STORED: AddTaskProgress = AddTaskProgress::LeaderTokenStored { existed: false };

#[test]
fn vdaf_by_name_and_parameters() {
    assert_eq!(read_vdaf(&vdaf("Prio3Count", None, None)), Ok(VdafConfig::Prio3(Prio3Config::Count)));
    assert_eq!(
        read_vdaf(&vdaf("Prio3Sum", Some("8"), None)),
        Ok(VdafConfig::Prio3(Prio3Config::Sum { bits: 8 }))
    );
    assert_eq!(
        read_vdaf(&vdaf("Prio3SumVec", Some("1"), Some("100"))),
        Ok(VdafConfig::Prio3(Prio3Config::SumVec { bits: 1, len: 100 }))
    );
    assert_eq!(
        read_vdaf(&vdaf("Prio3Histogram", Some("12"), None)),
        Ok(VdafConfig::Prio3(Prio3Config::Histogram { len: 12 }))
    );
    for unknown in [
        vdaf("Prio3Count", Some("1"), None),
        vdaf("Prio3Sum", None, None),
        vdaf("Prio3Sum", Some("8"), Some("1")),
        vdaf("Prio3SumVec", Some("8"), None),
        vdaf("Prio3Histogram", None, Some("4")),
        vdaf("Prio2", None, None),
        vdaf("", None, None),
    ] {
        assert_eq!(read_vdaf(&unknown), Err(AddTaskError::UnrecognizedVdaf));
    }
    for invalid in [
        vdaf("Prio3Sum", Some("eight"), None),
        vdaf("Prio3Sum", Some("-1"), None),
        vdaf("Prio3SumVec", Some("x"), Some("1")),
        vdaf("Prio3SumVec", Some("1"), Some("")),
        vdaf("Prio3Histogram", Some("99999999999999999999999999"), None),
    ] {
        assert_eq!(read_vdaf(&invalid), Err(AddTaskError::InvalidVdafParameter));
    }
}

#[test]
fn noise_by_distribution_and_budget() {
    let dp = |d: Option<&str>, n: Option<&str>, m: Option<&str>| InternalTestDpConfig {
        distribution: d.map(String::from),
        zcdp_numerator: n.map(String::from),
        zcdp_denominator: m.map(String::from),
    };
    assert_eq!(read_dp_config(&no_dp()), Ok(None));
    assert_eq!(read_dp_config(&dp(Some("Laplace"), Some("1"), Some("2"))), Ok(None));
    assert_eq!(read_dp_config(&dp(Some("Gaussian"), Some("1"), None)), Ok(None));
    assert_eq!(read_dp_config(&dp(None, Some("1"), Some("2"))), Ok(None));
    assert_eq!(
        read_dp_config(&dp(Some("Gaussian"), Some("1"), Some("2"))),
        Ok(Some(VdafDpConfig { zcdp_budget: ZCdpBudget { numerator: 1, denominator: 2 } }))
    );
    assert_eq!(
        read_dp_config(&dp(Some("Gaussian"), Some("340282366920938463463374607431768211455"), Some("1"))),
        Ok(Some(VdafDpConfig { zcdp_budget: ZCdpBudget { numerator: u128::MAX, denominator: 1 } }))
    );
    for (n, m) in [("1", "0"), ("one", "2"), ("1", "two"), ("340282366920938463463374607431768211456", "1")] {
        assert_eq!(
            read_dp_config(&dp(Some("Gaussian"), Some(n), Some(m))),
            Err(AddTaskError::InvalidDpBudget)
        );
    }
}

#[test]
fn query_by_type_and_size() {
    assert_eq!(read_query(1, None), Ok(DapQueryConfig::TimeInterval));
    assert_eq!(read_query(1, Some(5)), Err(AddTaskError::UnexpectedMaxBatchSize));
    assert_eq!(read_query(2, Some(5)), Ok(DapQueryConfig::FixedSize { max_batch_size: 5 }));
    assert_eq!(read_query(2, None), Err(AddTaskError::MissingMaxBatchSize));
    assert_eq!(read_query(0, None), Err(AddTaskError::UnrecognizedQueryType));
    assert_eq!(read_query(3, Some(1)), Err(AddTaskError::UnrecognizedQueryType));
}

#[test]
fn command_is_read_in_order() {
    let task = validate(&command(InternalTestRole::Leader)).unwrap();
    assert_eq!(task.task_id, TaskId { bytes: [5; 32] });
    assert_eq!(task.vdaf, VdafConfig::Prio3(Prio3Config::Count));
    assert_eq!(task.vdaf_verify_key, vec![1; 16]);
    assert_eq!(task.collector_hpke_config.public_key, vec![4; 32]);

    let cases: Vec<(InternalTestAddTask, AddTaskError)> = vec![
        (
            InternalTestAddTask { task_id: b64(&[5; 31]), ..command(InternalTestRole::Leader) },
            AddTaskError::InvalidTaskId,
        ),
        (
            InternalTestAddTask { task_id: String::from("!!"), vdaf: vdaf("?", None, None), ..command(InternalTestRole::Leader) },
            AddTaskError::InvalidTaskId,
        ),
        (
            InternalTestAddTask {
                vdaf: vdaf("?", None, None),
                vdaf_verify_key: String::from("!"),
                ..command(InternalTestRole::Leader)
            },
            AddTaskError::UnrecognizedVdaf,
        ),
        (
            InternalTestAddTask { vdaf_verify_key: String::from("!"), ..command(InternalTestRole::Leader) },
            AddTaskError::InvalidVerifyKey,
        ),
        (
            InternalTestAddTask { vdaf_verify_key: b64(&[1; 32]), ..command(InternalTestRole::Leader) },
            AddTaskError::InvalidVerifyKeyLength,
        ),
        (
            InternalTestAddTask { collector_hpke_config: String::from("="), ..command(InternalTestRole::Leader) },
            AddTaskError::InvalidHpkeConfigText,
        ),
        (
            InternalTestAddTask { collector_hpke_config: b64(&[1, 2, 3]), ..command(InternalTestRole::Leader) },
            AddTaskError::InvalidHpkeConfig,
        ),
    ];
    for (cmd, expected) in cases {
        assert_eq!(validate(&cmd).unwrap_err(), expected);
        assert_eq!(failure(&cmd, AddTaskProgress::Begin), expected);
        assert_eq!(failure(&cmd, STORED), expected);
    }
}

#[test]
fn leader_task_is_added_in_four_steps() {
    let cmd = command(InternalTestRole::Leader);
    let v = DapVersion::Draft05;
    assert!(matches!(
        internal_add_task(v, &cmd, AddTaskProgress::Begin),
        AddTaskAction::StoreLeaderToken { task_id } if task_id == TaskId { bytes: [5; 32] }
    ));
    assert!(matches!(
        internal_add_task(v, &cmd, STORED),
        AddTaskAction::StoreCollectorToken { task_id } if task_id == TaskId { bytes: [5; 32] }
    ));
    match internal_add_task(v, &cmd, AddTaskProgress::CollectorTokenStored { existed: false }) {
        AddTaskAction::StoreTask { task_id, config } => {
            assert_eq!(task_id, TaskId { bytes: [5; 32] });
            assert_eq!(config.version, DapVersion::Draft05);
            assert_eq!(config.leader_url, "https://leader.example/");
            assert_eq!(config.helper_url, "https://helper.example/");
            assert_eq!(config.time_precision, 3600);
            assert_eq!(config.expiration, 2_000_000_000);
            assert_eq!(config.min_batch_size, 10);
            assert_eq!(config.query, DapQueryConfig::TimeInterval);
            assert_eq!(config.vdaf, VdafConfig::Prio3(Prio3Config::Count));
            assert_eq!(config.dp_config, None);
            assert_eq!(config.vdaf_verify_key, vec![1; 16]);
            assert_eq!(config.collector_hpke_config.id, 9);
            assert!(!config.taskprov);
        }
        other => panic!("unexpected action {:?}", other),
    }
    assert!(matches!(
        internal_add_task(v, &cmd, AddTaskProgress::TaskStored { existed: false }),
        AddTaskAction::Done
    ));
}

#[test]
fn helper_task_skips_the_collector_token() {
    let cmd = InternalTestAddTask {
        query_type: 2,
        max_batch_size: Some(100),
        ..command(InternalTestRole::Helper)
    };
    match internal_add_task(DapVersion::Draft02, &cmd, STORED) {
        AddTaskAction::StoreTask { config, .. } => {
            assert_eq!(config.version, DapVersion::Draft02);
            assert_eq!(config.query, DapQueryConfig::FixedSize { max_batch_size: 100 });
        }
        other => panic!("unexpected action {:?}", other),
    }
}

#[test]
fn what_exists_or_does_not_suit_ends_the_adding() {
    let leader = command(InternalTestRole::Leader);
    let helper = command(InternalTestRole::Helper);
    assert_eq!(
        failure(&leader, AddTaskProgress::LeaderTokenStored { existed: true }),
        AddTaskError::LeaderTokenExists
    );
    assert_eq!(
        failure(&leader, AddTaskProgress::CollectorTokenStored { existed: true }),
        AddTaskError::CollectorTokenExists
    );
    assert_eq!(failure(&leader, AddTaskProgress::TaskStored { existed: true }), AddTaskError::TaskExists);
    let no_token = InternalTestAddTask { collector_authentication_token: None, ..command(InternalTestRole::Leader) };
    assert_eq!(failure(&no_token, STORED), AddTaskError::MissingCollectorToken);
    let extra = InternalTestAddTask { collector_authentication_token: text("t"), ..command(InternalTestRole::Helper) };
    assert_eq!(failure(&extra, STORED), AddTaskError::UnexpectedCollectorToken);
    // The query type is looked at only when the tokens are stored.
    let bad_query = InternalTestAddTask { query_type: 7, ..command(InternalTestRole::Leader) };
    assert!(matches!(
        internal_add_task(DapVersion::Draft05, &bad_query, AddTaskProgress::Begin),
        AddTaskAction::StoreLeaderToken { .. }
    ));
    assert!(matches!(
        internal_add_task(DapVersion::Draft05, &bad_query, STORED),
        AddTaskAction::StoreCollectorToken { .. }
    ));
    assert_eq!(
        failure(&bad_query, AddTaskProgress::CollectorTokenStored { existed: false }),
        AddTaskError::UnrecognizedQueryType
    );
    let bad_helper = InternalTestAddTask { max_batch_size: Some(1), ..helper };
    assert_eq!(failure(&bad_helper, STORED), AddTaskError::UnexpectedMaxBatchSize);
}

fn receiver(id: u8) -> HpkeReceiverConfig {
    HpkeReceiverConfig {
        config: HpkeConfig { id, kem_id: 0x20, kdf_id: 1, aead_id: 1, public_key: vec![id] },
        private_key: vec![id],
    }
}

#[test]
fn hpke_configuration_is_added_once() {
    let list = internal_add_hpke_config(vec![], receiver(1)).unwrap();
    let list = internal_add_hpke_config(list, receiver(2)).unwrap();
    assert_eq!(list.iter().map(|r| r.config.id).collect::<Vec<u8>>(), vec![1, 2]);
    assert_eq!(internal_add_hpke_config(list, receiver(1)).unwrap_err(), 1);
    let list = vec![receiver(1), receiver(2), receiver(3)];
    assert_eq!(internal_add_hpke_config(list, receiver(3)).unwrap_err(), 3);
}

fn worker_config(is_leader: bool, base_url: Option<ParsedUrl>) -> DaphneWorkerConfig {
    DaphneWorkerConfig {
        is_leader,
        global: DapGlobalConfig {
            report_storage_epoch_duration: 1,
            report_storage_max_future_time_skew: 1,
            allow_taskprov: false,
        },
        deployment: DaphneWorkerDeployment::Prod,
        collection_job_id_key: None,
        report_shard_key: [0; 32],
        report_shard_count: 1,
        base_url,
        taskprov: None,
        default_version: DapVersion::Draft05,
        admin_token: None,
        helper_state_store_garbage_collect_after_secs: None,
        processed_alarm_safety_interval: 0,
        metrics_push_config: None,
    }
}

fn base() -> Option<ParsedUrl> {
    Some(ParsedUrl {
        href: String::from("https://leader.example/dap/"),
        path: String::from("/dap/"),
        host: text("leader.example"),
    })
}

#[test]
fn endpoint_is_path_and_version() {
    let leader = InternalTestEndpointForTask { role: InternalTestRole::Leader };
    let helper = InternalTestEndpointForTask { role: InternalTestRole::Helper };
    let reply = internal_endpoint_for_task(&worker_config(true, base()), DapVersion::Draft05, leader);
    assert!(matches!(reply, EndpointReply::Endpoint(e) if e == "/dap/v05/"));
    let reply = internal_endpoint_for_task(&worker_config(false, base()), DapVersion::Draft02, helper);
    assert!(matches!(reply, EndpointReply::Endpoint(e) if e == "/dap/v02/"));
    let reply = internal_endpoint_for_task(&worker_config(true, base()), DapVersion::Draft05, helper);
    assert!(matches!(reply, EndpointReply::RoleMismatch));
    let reply = internal_endpoint_for_task(&worker_config(false, None), DapVersion::Draft05, leader);
    assert!(matches!(reply, EndpointReply::RoleMismatch));
    let reply = internal_endpoint_for_task(&worker_config(false, None), DapVersion::Draft05, helper);
    assert!(matches!(reply, EndpointReply::NotConfigured));
}
