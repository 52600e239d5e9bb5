use dap_aggregator::base64url::encode;
use dap_aggregator::config::{DaphneWorkerAuthMethod, HpkeConfig};
use dap_aggregator::endpoint::ParsedUrl;
use dap_aggregator::error::{DapAbort, DapError, FatalDapError};
use dap_aggregator::media::DapMediaType;
use dap_aggregator::messages::{DapVersion, TaskId};
use dap_aggregator::request::{
    extract_version_parameter, handle_agg_job, handle_hpke_config_req, host_or_default,
    interpret_http, prepare_http, unauthorized_reason, worker_request_to_dap, AggJobHandler,
    DapRequest, DapResource, DaphneWorkerAuth, HttpMethod, RequestError, TaskLookup,
    TlsClientAuth, UnauthorizedReason, WorkerRequest,
};

fn b64(bytes: &[u8]) -> String {
    String::from_utf8(encode(bytes)).unwrap()
}

fn text(s: &str) -> Option<String> {
    Some(String::from(s))
}

fn incoming(path: &str, content_type: Option<&str>) -> WorkerRequest {
    WorkerRequest {
        path: String::from(path),
        url: format!("https://helper.example{}", path),
        dap_auth_token: text("token"),
        tls_client_auth: None,
        content_type: content_type.map(String::from),
        payload: vec![7; 40],
        task_id: text(&b64(&[2; 32])),
        agg_job_id: text(&b64(&[3; 16])),
        collect_job_id: text(&b64(&[4; 16])),
        taskprov: None,
    }
}

#[test]
fn version_is_the_first_segment() {
    assert_eq!(extract_version_parameter("/v02/aggregate"), Some(DapVersion::Draft02));
    assert_eq!(extract_version_parameter("/v05/tasks/abc/reports"), Some(DapVersion::Draft05));
    assert_eq!(extract_version_parameter("/v09/tasks"), Some(DapVersion::Unknown));
    assert_eq!(extract_version_parameter("/v05"), None);
    assert_eq!(extract_version_parameter("/"), None);
    assert_eq!(extract_version_parameter(""), None);
    assert_eq!(extract_version_parameter("v05/x"), None);
}

#[test]
fn newer_request_names_task_and_job_in_the_route() {
    let req = incoming(
        "/v05/tasks/x/aggregation_jobs/y",
        Some("application/dap-aggregation-job-init-req"),
    );
    let dap = worker_request_to_dap(req).unwrap();
    assert_eq!(dap.version, DapVersion::Draft05);
    assert!(matches!(dap.media_type, DapMediaType::AggregationJobInitReq));
    assert_eq!(dap.task_id, Some(TaskId { bytes: [2; 32] }));
    assert!(matches!(dap.resource, DapResource::AggregationJob(id) if id.bytes == [3; 16]));
    assert_eq!(dap.payload, vec![7; 40]);
    assert_eq!(dap.url, "https://helper.example/v05/tasks/x/aggregation_jobs/y");
    let auth = dap.sender_auth.unwrap();
    assert_eq!(auth.bearer_token, text("token"));
    assert!(auth.cf_tls_client_auth.is_none());
    assert_eq!(dap.taskprov, None);
}

#[test]
fn resource_follows_the_media_type() {
    let collect = worker_request_to_dap(incoming("/v05/tasks/x/c", Some("application/dap-collect-req"))).unwrap();
    assert!(matches!(collect.resource, DapResource::CollectionJob(id) if id.bytes == [4; 16]));
    let cont = worker_request_to_dap(incoming(
        "/v05/tasks/x/a",
        Some("application/dap-aggregation-job-continue-req"),
    ))
    .unwrap();
    assert!(matches!(cont.resource, DapResource::AggregationJob(_)));
    let report = worker_request_to_dap(incoming("/v05/tasks/x/r", Some("application/dap-report"))).unwrap();
    assert!(matches!(report.resource, DapResource::Undefined));
    let missing = worker_request_to_dap(incoming("/v05/tasks/x/r", None)).unwrap();
    assert!(matches!(missing.media_type, DapMediaType::Missing));
    assert!(matches!(missing.resource, DapResource::Undefined));
    let bad_id = WorkerRequest {
        agg_job_id: text("tooshort"),
        task_id: text("***"),
        ..incoming("/v05/tasks/x/a", Some("application/dap-aggregation-job-init-req"))
    };
    let dap = worker_request_to_dap(bad_id).unwrap();
    assert!(matches!(dap.resource, DapResource::Undefined));
    assert_eq!(dap.task_id, None);
}

#[test]
fn older_request_names_the_task_in_the_body() {
    let mut payload = vec![9u8; 32];
    payload.extend_from_slice(&[1, 2, 3]);
    let req = WorkerRequest {
        payload,
        ..incoming("/v02/aggregate", Some("application/dap-aggregate-initialize-req"))
    };
    let dap = worker_request_to_dap(req).unwrap();
    assert_eq!(dap.version, DapVersion::Draft02);
    assert!(matches!(dap.media_type, DapMediaType::AggregationJobInitReq));
    assert_eq!(dap.task_id, Some(TaskId { bytes: [9; 32] }));
    assert!(matches!(dap.resource, DapResource::Undefined));
    let short = WorkerRequest { payload: vec![9; 31], ..incoming("/v02/aggregate", None) };
    assert_eq!(worker_request_to_dap(short).unwrap().task_id, None);
}

#[test]
fn requests_without_a_known_version_are_refused() {
    assert_eq!(worker_request_to_dap(incoming("/", None)).unwrap_err(), RequestError::NoVersionInPath);
    assert_eq!(worker_request_to_dap(incoming("/v07/x", None)).unwrap_err(), RequestError::UnknownVersion);
}

#[test]
fn certificate_counts_only_when_presented() {
    let cert = |presented: &str| {
        Some(TlsClientAuth { cert_presented: String::from(presented), cert_subject: String::from("CN=leader") })
    };
    let req = WorkerRequest { tls_client_auth: cert("1"), ..incoming("/v05/x", None) };
    let auth = worker_request_to_dap(req).unwrap().sender_auth.unwrap();
    assert_eq!(auth.cf_tls_client_auth.unwrap().cert_subject, "CN=leader");
    let req = WorkerRequest { tls_client_auth: cert("0"), ..incoming("/v05/x", None) };
    assert!(worker_request_to_dap(req).unwrap().sender_auth.unwrap().cf_tls_client_auth.is_none());
}

fn outgoing(media_type: DapMediaType, version: DapVersion, token: Option<&str>) -> DapRequest {
    DapRequest {
        version,
        media_type,
        task_id: None,
        resource: DapResource::Undefined,
        payload: vec![1, 2],
        url: String::from("https://helper.example/v05/x"),
        sender_auth: Some(DaphneWorkerAuth { bearer_token: token.map(String::from), cf_tls_client_auth: None }),
        taskprov: None,
    }
}

#[test]
fn outgoing_request_is_prepared() {
    let out = prepare_http(outgoing(DapMediaType::AggregateShareReq, DapVersion::Draft05, Some("t")), false).unwrap();
    assert_eq!(out.method, HttpMethod::Post);
    assert_eq!(out.content_type, "application/dap-aggregate-share-req");
    assert_eq!(out.dap_auth_token, text("t"));
    assert_eq!(out.payload, vec![1, 2]);
    assert_eq!(out.url, "https://helper.example/v05/x");
    let out = prepare_http(outgoing(DapMediaType::AggregationJobInitReq, DapVersion::Draft02, None), true).unwrap();
    assert_eq!(out.method, HttpMethod::Put);
    assert_eq!(out.content_type, "application/dap-aggregate-initialize-req");
    assert_eq!(out.dap_auth_token, None);
    let without_sender = DapRequest { sender_auth: None, ..outgoing(DapMediaType::Report, DapVersion::Draft05, None) };
    assert_eq!(prepare_http(without_sender, false).unwrap().dap_auth_token, None);
    for (media, version) in [
        (DapMediaType::Missing, DapVersion::Draft05),
        (DapMediaType::Draft02AggregateContinueResp, DapVersion::Draft05),
        (DapMediaType::Report, DapVersion::Unknown),
    ] {
        assert_eq!(
            prepare_http(outgoing(media, version, None), false).unwrap_err(),
            DapError::Fatal(FatalDapError::ContentType)
        );
    }
}

#[test]
fn peer_response_is_read() {
    let resp = interpret_http(DapVersion::Draft05, 200, text("application/dap-aggregation-job-resp"), vec![5]).unwrap();
    assert_eq!(resp.version, DapVersion::Draft05);
    assert!(matches!(resp.media_type, DapMediaType::AggregationJobResp));
    assert_eq!(resp.payload, vec![5]);
    let resp = interpret_http(DapVersion::Draft05, 200, text("text/html"), vec![]).unwrap();
    assert!(matches!(resp.media_type, DapMediaType::Invalid(_)));
    assert_eq!(
        interpret_http(DapVersion::Draft05, 200, None, vec![]).unwrap_err(),
        DapError::Fatal(FatalDapError::PeerRespMissingMediaType)
    );
    for status in [201u16, 400, 404, 500, 0] {
        assert_eq!(
            interpret_http(DapVersion::Draft05, status, text("application/problem+json"), vec![]).unwrap_err(),
            DapError::Fatal(FatalDapError::PeerAbort)
        );
    }
}

#[test]
fn hpke_configuration_is_served() {
    let config = HpkeConfig { id: 1, kem_id: 0x20, kdf_id: 1, aead_id: 1, public_key: vec![8; 4] };
    let resp = handle_hpke_config_req(DapVersion::Draft05, &config, TaskLookup::NotAsked).unwrap();
    assert_eq!(resp.version, DapVersion::Draft05);
    assert!(matches!(resp.media_type, DapMediaType::HpkeConfigList));
    assert_eq!(resp.payload, vec![0, 13, 1, 0, 0x20, 0, 1, 0, 1, 0, 4, 8, 8, 8, 8]);
    assert!(handle_hpke_config_req(DapVersion::Draft05, &config, TaskLookup::Found(DapVersion::Draft05)).is_ok());
    assert_eq!(
        handle_hpke_config_req(DapVersion::Draft05, &config, TaskLookup::Unknown).unwrap_err(),
        DapError::Abort(DapAbort::UnrecognizedTask)
    );
    assert_eq!(
        handle_hpke_config_req(DapVersion::Draft05, &config, TaskLookup::Found(DapVersion::Draft02)).unwrap_err(),
        DapError::Abort(DapAbort::VersionMismatch { expected: DapVersion::Draft05, found: DapVersion::Draft02 })
    );
    let huge = HpkeConfig { public_key: vec![0; 0xffff], ..config };
    assert_eq!(
        handle_hpke_config_req(DapVersion::Draft05, &huge, TaskLookup::NotAsked).unwrap_err(),
        DapError::Abort(DapAbort::Internal)
    );
}

#[test]
fn aggregation_job_messages_find_their_handler() {
    assert_eq!(handle_agg_job(&DapMediaType::AggregationJobInitReq), Ok(AggJobHandler::Init));
    assert_eq!(handle_agg_job(&DapMediaType::AggregationJobContinueReq), Ok(AggJobHandler::Continue));
    for other in [DapMediaType::Report, DapMediaType::Missing, DapMediaType::Invalid(String::new())] {
        assert_eq!(handle_agg_job(&other), Err(DapAbort::BadRequest));
    }
}

#[test]
fn host_of_a_request() {
    let with_host = ParsedUrl { href: String::new(), path: String::new(), host: text("a.example") };
    assert_eq!(host_or_default(&with_host), "a.example");
    let without = ParsedUrl { href: String::new(), path: String::new(), host: None };
    assert_eq!(host_or_default(&without), "unspecified-daphne-worker-host");
}

#[test]
fn sender_is_recognised_by_token_or_certificate() {
    let method = DaphneWorkerAuthMethod {
        bearer_token: text("secret"),
        cf_tls_client_auth_subjects: Some(vec![String::from("CN=a"), String::from("CN=leader")]),
    };
    let sender = |token: Option<&str>, cert: Option<(&str, &str)>| DaphneWorkerAuth {
        bearer_token: token.map(String::from),
        cf_tls_client_auth: cert.map(|(p, s)| TlsClientAuth {
            cert_presented: String::from(p),
            cert_subject: String::from(s),
        }),
    };
    assert_eq!(unauthorized_reason(&method, &sender(Some("secret"), None)), None);
    assert_eq!(unauthorized_reason(&method, &sender(None, Some(("1", "CN=leader")))), None);
    assert_eq!(unauthorized_reason(&method, &sender(Some("wrong"), Some(("1", "CN=a")))), None);
    assert_eq!(
        unauthorized_reason(&method, &sender(Some("wrong"), None)),
        Some(UnauthorizedReason::Invalid)
    );
    assert_eq!(
        unauthorized_reason(&method, &sender(None, Some(("1", "CN=other")))),
        Some(UnauthorizedReason::Invalid)
    );
    assert_eq!(unauthorized_reason(&method, &sender(None, None)), Some(UnauthorizedReason::Missing));
    assert_eq!(
        unauthorized_reason(&method, &sender(None, Some(("0", "CN=leader")))),
        Some(UnauthorizedReason::Missing)
    );
    let token_only = DaphneWorkerAuthMethod { bearer_token: text("secret"), cf_tls_client_auth_subjects: None };
    assert_eq!(
        unauthorized_reason(&token_only, &sender(None, Some(("1", "CN=leader")))),
        Some(UnauthorizedReason::Invalid)
    );
    let nothing = DaphneWorkerAuthMethod { bearer_token: None, cf_tls_client_auth_subjects: None };
    assert_eq!(
        unauthorized_reason(&nothing, &sender(Some("secret"), None)),
        Some(UnauthorizedReason::Invalid)
    );
}
