//! Requests and responses of the protocol: how an incoming HTTP request is
//! read, how an outgoing one is prepared, and what a peer's response means.

use vstd::prelude::*;
use vstd::utf8::encode_utf8;
use crate::base64url::{decode_array, decoded};
use crate::config::{version_from_str, version_of, DaphneWorkerAuthMethod, HpkeConfig};
use crate::endpoint::{text_is, ParsedUrl};
use crate::error::{DapAbort, DapError, FatalDapError};
use crate::hpke::config_list_encoded;
use crate::media::{media_kind_of, media_type_name, DapMediaType, MediaKind};
use crate::messages::{DapVersion, TaskId};

verus! {

/// The value that the `matchit` crate binds to a parameter when a path is
/// matched against a single route. Stands for `Router::insert` of the
/// route, `Router::at` of the path, and `Params::get` of the key.
pub uninterp spec fn route_param(route: Seq<char>, key: Seq<char>, path: Seq<char>) -> Option<
    Seq<char>,
>;

/// Calls `matchit::Router::insert` with a route, `Router::at` with a path
/// and `Params::get` with a key. Only the route of a version and what is
/// behind it is taken: a route with many parameters can make the router
/// panic. Trusted: the outcome is a function of the three texts alone,
/// named `route_param`; nothing is claimed about which paths match.
#[verifier::external_body]
pub(crate) fn match_route_param(route: &str, key: &str, path: &str) -> (r: Option<String>)
    requires
        route@ == "/:version/*remaining"@,
    ensures
        r.is_some() == route_param(route@, key@, path@).is_some(),
        r.is_some() ==> r.unwrap()@ == route_param(route@, key@, path@).unwrap(),
{
    let mut router: matchit::Router<bool> = matchit::Router::new();
    router.insert(route, true).ok()?;
    router.at(path).ok()?.params.get(key).map(|v| v.to_string())
}

/// The version that a request path names: what its first segment is read
/// as, where the path has a first segment and more behind it.
pub open spec fn path_version(path: Seq<char>) -> Option<DapVersion> {
    match route_param("/:version/*remaining"@, "version"@, path) {
        Some(text) => Some(version_of(text)),
        None => None,
    }
}

/// Reads the version that a request path names.
pub fn extract_version_parameter(path: &str) -> (r: Option<DapVersion>)
    ensures
        r == path_version(path@),
{
    match match_route_param("/:version/*remaining", "version", path) {
        Some(text) => Some(version_from_str(text.as_str())),
        None => None,
    }
}

/// Identifier of an aggregation job: 16 bytes.
#[derive(Clone, Copy, Debug)]
pub struct AggregationJobId {
    pub bytes: [u8; 16],
}

/// Identifier of a collection job: 16 bytes.
#[derive(Clone, Copy, Debug)]
pub struct CollectionJobId {
    pub bytes: [u8; 16],
}

/// What a request is about, besides its task.
#[derive(Clone, Copy, Debug)]
pub enum DapResource {
    AggregationJob(AggregationJobId),
    CollectionJob(CollectionJobId),
    Undefined,
}

/// A resource as plain values.
pub enum ResourceKey {
    AggregationJob(Seq<u8>),
    CollectionJob(Seq<u8>),
    Undefined,
}

impl View for DapResource {
    type V = ResourceKey;

    open spec fn view(&self) -> ResourceKey {
        match self {
            DapResource::AggregationJob(id) => ResourceKey::AggregationJob(id.bytes@),
            DapResource::CollectionJob(id) => ResourceKey::CollectionJob(id.bytes@),
            DapResource::Undefined => ResourceKey::Undefined,
        }
    }
}

/// What the transport says of the sender's certificate.
#[derive(Debug)]
pub struct TlsClientAuth {
    /// "1" where a certificate was presented.
    pub cert_presented: String,
    /// The subject of the certificate.
    pub cert_subject: String,
}

/// How the sender of a request shows who it is.
#[derive(Debug)]
pub struct DaphneWorkerAuth {
    pub bearer_token: Option<String>,
    pub cf_tls_client_auth: Option<TlsClientAuth>,
}

/// A request of the protocol.
#[derive(Debug)]
pub struct DapRequest {
    pub version: DapVersion,
    pub media_type: DapMediaType,
    pub task_id: Option<TaskId>,
    pub resource: DapResource,
    pub payload: Vec<u8>,
    pub url: String,
    pub sender_auth: Option<DaphneWorkerAuth>,
    pub taskprov: Option<String>,
}

/// A response of the protocol.
#[derive(Debug)]
pub struct DapResponse {
    pub version: DapVersion,
    pub media_type: DapMediaType,
    pub payload: Vec<u8>,
}

/// An incoming HTTP request as plain values.
#[derive(Debug)]
pub struct WorkerRequest {
    /// The path of the request's address.
    pub path: String,
    /// The request's address.
    pub url: String,
    /// The header that carries a bearer token.
    pub dap_auth_token: Option<String>,
    /// What the transport says of the sender's certificate.
    pub tls_client_auth: Option<TlsClientAuth>,
    pub content_type: Option<String>,
    pub payload: Vec<u8>,
    /// The parameters that the route binds.
    pub task_id: Option<String>,
    pub agg_job_id: Option<String>,
    pub collect_job_id: Option<String>,
    /// The header that carries an in-band task configuration.
    pub taskprov: Option<String>,
}

/// The 16 bytes that a route parameter denotes, where it is there and is
/// URL-safe base64 of that length.
pub open spec fn job_id_of(param: Option<String>) -> Option<Seq<u8>> {
    match param {
        Some(text) => match decoded(encode_utf8(text@)) {
            Some(bytes) => if bytes.len() == 16 {
                Some(bytes)
            } else {
                None
            },
            None => None,
        },
        None => None,
    }
}

/// The 32 bytes that a route parameter denotes, where it is there and is
/// URL-safe base64 of that length.
pub open spec fn task_id_of(param: Option<String>) -> Option<Seq<u8>> {
    match param {
        Some(text) => match decoded(encode_utf8(text@)) {
            Some(bytes) => if bytes.len() == 32 {
                Some(bytes)
            } else {
                None
            },
            None => None,
        },
        None => None,
    }
}

/// The task that a request is about: in the older version the first 32
/// bytes of the body, in the newer one the route's parameter.
pub open spec fn request_task_id(version: DapVersion, req: WorkerRequest) -> Option<Seq<u8>> {
    match version {
        DapVersion::Draft02 => if req.payload@.len() >= 32 {
            Some(req.payload@.subrange(0, 32))
        } else {
            None
        },
        _ => task_id_of(req.task_id),
    }
}

/// The resource that a request is about: in the newer version the job that
/// the route names, for the media types that are about a job; undefined
/// otherwise.
pub open spec fn request_resource(version: DapVersion, media: MediaKind, req: WorkerRequest) -> ResourceKey {
    match version {
        DapVersion::Draft05 => match media {
            MediaKind::AggregationJobInitReq | MediaKind::AggregationJobContinueReq => match job_id_of(
                req.agg_job_id,
            ) {
                Some(id) => ResourceKey::AggregationJob(id),
                None => ResourceKey::Undefined,
            },
            MediaKind::CollectReq => match job_id_of(req.collect_job_id) {
                Some(id) => ResourceKey::CollectionJob(id),
                None => ResourceKey::Undefined,
            },
            _ => ResourceKey::Undefined,
        },
        _ => ResourceKey::Undefined,
    }
}

/// The certificate of a sender that counts: the one that was presented.
pub open spec fn presented(auth: Option<TlsClientAuth>) -> Option<TlsClientAuth> {
    match auth {
        Some(a) => if a.cert_presented@ == "1"@ {
            Some(a)
        } else {
            None
        },
        None => None,
    }
}

/// Why an incoming request is no request of the protocol.
#[derive(Clone, Copy, Debug, PartialEq, Eq, Structural)]
pub enum RequestError {
    /// The path has no first segment with more behind it.
    NoVersionInPath,
    /// The first segment of the path names no known version.
    UnknownVersion,
}

/// Whether a request of the protocol is what an incoming request reads
/// as.
pub open spec fn reads_as(req: WorkerRequest, dap: DapRequest) -> bool {
    &&& path_version(req.path@) == Some(dap.version)
    &&& dap.version != DapVersion::Unknown
    &&& dap.media_type@ == media_kind_of(
        dap.version,
        match req.content_type {
            Some(t) => Some(t@),
            None => None,
        },
    )
    &&& match dap.task_id {
        Some(id) => request_task_id(dap.version, req) == Some(id@),
        None => request_task_id(dap.version, req).is_none(),
    }
    &&& dap.resource@ == request_resource(dap.version, dap.media_type@, req)
    &&& dap.payload == req.payload
    &&& dap.url == req.url
    &&& dap.sender_auth.is_some()
    &&& dap.sender_auth.unwrap().bearer_token == req.dap_auth_token
    &&& dap.sender_auth.unwrap().cf_tls_client_auth == presented(req.tls_client_auth)
    &&& dap.taskprov == req.taskprov
}

/// Reads a job identifier from a route parameter.
fn read_job_id(param: &Option<String>) -> (r: Option<[u8; 16]>)
    ensures
        match r {
            Some(id) => job_id_of(*param) == Some(id@),
            None => job_id_of(*param).is_none(),
        },
{
    match param {
        Some(text) => decode_array::<16>(text.as_str().as_bytes()),
        None => None,
    }
}

/// Reads the task that a request is about.
fn read_task_id(version: DapVersion, req: &WorkerRequest) -> (r: Option<TaskId>)
    ensures
        match r {
            Some(id) => request_task_id(version, *req) == Some(id@),
            None => request_task_id(version, *req).is_none(),
        },
{
    match version {
        DapVersion::Draft02 => {
            if req.payload.len() < 32 {
                return None;
            }
            let mut bytes: [u8; 32] = [0u8; 32];
            let mut i: usize = 0;
            while i < 32
                invariant
                    i <= 32,
                    req.payload@.len() >= 32,
                    forall|k: int| 0 <= k < i ==> bytes@[k] == req.payload@[k],
                decreases 32 - i,
            {
                bytes[i] = req.payload[i];
                i += 1;
            }
            assert(bytes@ =~= req.payload@.subrange(0, 32));
            Some(TaskId { bytes })
        },
        _ => match &req.task_id {
            Some(text) => match decode_array::<32>(text.as_str().as_bytes()) {
                Some(bytes) => Some(TaskId { bytes }),
                None => None,
            },
            None => None,
        },
    }
}

/// Reads an incoming HTTP request as a request of the protocol.
pub fn worker_request_to_dap(req: WorkerRequest) -> (r: Result<DapRequest, RequestError>)
    ensures
        match r {
            Ok(dap) => reads_as(req, dap),
            Err(e) => match path_version(req.path@) {
                None => e == RequestError::NoVersionInPath,
                Some(version) => version == DapVersion::Unknown && e
                    == RequestError::UnknownVersion,
            },
        },
{
    let version = match extract_version_parameter(req.path.as_str()) {
        Some(v) => v,
        None => {
            return Err(RequestError::NoVersionInPath);
        },
    };
    let task_id = read_task_id(version, &req);
    let media_type = match &req.content_type {
        Some(text) => DapMediaType::from_str_for_version(version, Some(text.as_str())),
        None => DapMediaType::from_str_for_version(version, None),
    };
    let resource = match version {
        DapVersion::Unknown => {
            return Err(RequestError::UnknownVersion);
        },
        DapVersion::Draft02 => DapResource::Undefined,
        DapVersion::Draft05 => match &media_type {
            DapMediaType::AggregationJobInitReq | DapMediaType::AggregationJobContinueReq => {
                match read_job_id(&req.agg_job_id) {
                    Some(bytes) => DapResource::AggregationJob(AggregationJobId { bytes }),
                    None => DapResource::Undefined,
                }
            },
            DapMediaType::CollectReq => match read_job_id(&req.collect_job_id) {
                Some(bytes) => DapResource::CollectionJob(CollectionJobId { bytes }),
                None => DapResource::Undefined,
            },
            _ => DapResource::Undefined,
        },
    };
    let WorkerRequest {
        path: _,
        url,
        dap_auth_token,
        tls_client_auth,
        content_type: _,
        payload,
        task_id: _,
        agg_job_id: _,
        collect_job_id: _,
        taskprov,
    } = req;
    let cf_tls_client_auth = match tls_client_auth {
        Some(auth) => if text_is(auth.cert_presented.as_str(), "1") {
            Some(auth)
        } else {
            None
        },
        None => None,
    };
    Ok(
        DapRequest {
            version,
            media_type,
            task_id,
            resource,
            payload,
            url,
            sender_auth: Some(DaphneWorkerAuth { bearer_token: dap_auth_token, cf_tls_client_auth }),
            taskprov,
        },
    )
}

/// The method of an outgoing request.
#[derive(Clone, Copy, Debug, PartialEq, Eq, Structural)]
pub enum HttpMethod {
    Post,
    Put,
}

/// An outgoing HTTP request to the peer, as plain values.
#[derive(Debug)]
pub struct OutgoingRequest {
    pub method: HttpMethod,
    pub url: String,
    pub content_type: String,
    /// The bearer token that goes into the header for it, if there is one.
    pub dap_auth_token: Option<String>,
    pub payload: Vec<u8>,
}

/// The bearer token that a request carries.
pub open spec fn bearer_of(auth: Option<DaphneWorkerAuth>) -> Option<String> {
    match auth {
        Some(a) => a.bearer_token,
        None => None,
    }
}

/// Prepares the HTTP request that carries a request of the protocol to the
/// peer. A message kind without a content type in the request's version is
/// an internal error.
pub fn prepare_http(req: DapRequest, is_put: bool) -> (r: Result<OutgoingRequest, DapError>)
    ensures
        match r {
            Ok(out) => {
                &&& media_type_name(req.version, req.media_type@) == Some(out.content_type@)
                &&& out.method == if is_put {
                    HttpMethod::Put
                } else {
                    HttpMethod::Post
                }
                &&& out.url == req.url
                &&& out.payload == req.payload
                &&& out.dap_auth_token == bearer_of(req.sender_auth)
            },
            Err(e) => e == DapError::Fatal(FatalDapError::ContentType) && media_type_name(
                req.version,
                req.media_type@,
            ).is_none(),
        },
{
    let content_type = match req.media_type.as_str_for_version(req.version) {
        Some(text) => text,
        None => {
            return Err(DapError::Fatal(FatalDapError::ContentType));
        },
    };
    let DapRequest {
        version: _,
        media_type: _,
        task_id: _,
        resource: _,
        payload,
        url,
        sender_auth,
        taskprov: _,
    } = req;
    let dap_auth_token = match sender_auth {
        Some(auth) => auth.bearer_token,
        None => None,
    };
    Ok(
        OutgoingRequest {
            method: if is_put {
                HttpMethod::Put
            } else {
                HttpMethod::Post
            },
            url,
            content_type,
            dap_auth_token,
            payload,
        },
    )
}

/// Reads the peer's response to a request of the protocol: a response of
/// the protocol where the status is 200 and a content type is named; an
/// internal error otherwise.
pub fn interpret_http(version: DapVersion, status: u16, content_type: Option<String>, payload: Vec<u8>) -> (r:
    Result<DapResponse, DapError>)
    ensures
        match r {
            Ok(resp) => {
                &&& status == 200
                &&& content_type.is_some()
                &&& resp.version == version
                &&& resp.media_type@ == media_kind_of(version, Some(content_type.unwrap()@))
                &&& resp.payload == payload
            },
            Err(e) => if status != 200 {
                e == DapError::Fatal(FatalDapError::PeerAbort)
            } else {
                content_type.is_none() && e == DapError::Fatal(
                    FatalDapError::PeerRespMissingMediaType,
                )
            },
        },
{
    if status != 200 {
        return Err(DapError::Fatal(FatalDapError::PeerAbort));
    }
    match content_type {
        None => Err(DapError::Fatal(FatalDapError::PeerRespMissingMediaType)),
        Some(text) => Ok(
            DapResponse {
                version,
                media_type: DapMediaType::from_str_for_version(version, Some(text.as_str())),
                payload,
            },
        ),
    }
}

/// What is known of the task that a request for the HPKE configuration
/// names.
#[derive(Clone, Copy, Debug, PartialEq, Eq, Structural)]
pub enum TaskLookup {
    /// The request names no task.
    NotAsked,
    /// The request names a task that is not known.
    Unknown,
    /// The request names a task of the given version.
    Found(DapVersion),
}

/// Why a request for the HPKE configuration is refused.
pub open spec fn hpke_config_refusal(version: DapVersion, task: TaskLookup) -> Option<DapError> {
    match task {
        TaskLookup::NotAsked => None,
        TaskLookup::Unknown => Some(DapError::Abort(DapAbort::UnrecognizedTask)),
        TaskLookup::Found(task_version) => if task_version != version {
            Some(
                DapError::Abort(
                    DapAbort::VersionMismatch { expected: version, found: task_version },
                ),
            )
        } else {
            None
        },
    }
}

/// Answers a request for the aggregator's HPKE configuration: the list
/// that holds the configuration, unless the request names a task that is
/// unknown or of another version. A configuration that cannot be written
/// is an internal error.
pub fn handle_hpke_config_req(version: DapVersion, hpke_config: &HpkeConfig, task: TaskLookup) -> (r:
    Result<DapResponse, DapError>)
    ensures
        match r {
            Ok(resp) => {
                &&& hpke_config_refusal(version, task).is_none()
                &&& resp.version == version
                &&& resp.media_type@ == MediaKind::HpkeConfigList
                &&& resp.payload@ == config_list_encoded(hpke_config@)
                &&& hpke_config@.public_key.len() + 9 <= 0xffff
            },
            Err(e) => match hpke_config_refusal(version, task) {
                Some(refusal) => e == refusal,
                None => e == DapError::Abort(DapAbort::Internal) && hpke_config@.public_key.len()
                    + 9 > 0xffff,
            },
        },
{
    match task {
        TaskLookup::NotAsked => {},
        TaskLookup::Unknown => {
            return Err(DapError::Abort(DapAbort::UnrecognizedTask));
        },
        TaskLookup::Found(task_version) => {
            if task_version != version {
                return Err(
                    DapError::Abort(
                        DapAbort::VersionMismatch { expected: version, found: task_version },
                    ),
                );
            }
        },
    }
    match hpke_config.encode_as_list() {
        Some(payload) => Ok(
            DapResponse { version, media_type: DapMediaType::HpkeConfigList, payload },
        ),
        None => Err(DapError::Abort(DapAbort::Internal)),
    }
}

/// The handler of an aggregation job that a message is for.
#[derive(Clone, Copy, Debug, PartialEq, Eq, Structural)]
pub enum AggJobHandler {
    /// The message begins a job.
    Init,
    /// The message continues a job.
    Continue,
}

/// Finds the handler for a message that was posted to an aggregation job;
/// a message of any other kind is a bad request.
pub fn handle_agg_job(media_type: &DapMediaType) -> (r: Result<AggJobHandler, DapAbort>)
    ensures
        r == match media_type@ {
            MediaKind::AggregationJobInitReq => Ok::<AggJobHandler, DapAbort>(AggJobHandler::Init),
            MediaKind::AggregationJobContinueReq => Ok::<AggJobHandler, DapAbort>(
                AggJobHandler::Continue,
            ),
            _ => Err::<AggJobHandler, DapAbort>(DapAbort::BadRequest),
        },
{
    match media_type {
        DapMediaType::AggregationJobInitReq => Ok(AggJobHandler::Init),
        DapMediaType::AggregationJobContinueReq => Ok(AggJobHandler::Continue),
        _ => Err(DapAbort::BadRequest),
    }
}

/// The host that a request is accounted to: the host of its address, or a
/// fixed name where the address names none.
pub fn host_or_default(url: &ParsedUrl) -> (r: String)
    ensures
        r@ == match url.host {
            Some(host) => host@,
            None => "unspecified-daphne-worker-host"@,
        },
{
    match &url.host {
        Some(host) => host.clone(),
        None => "unspecified-daphne-worker-host".to_owned(),
    }
}

/// Whether a list of texts holds a text.
pub open spec fn holds_text(list: Seq<String>, text: Seq<char>) -> bool {
    exists|i: int| 0 <= i < list.len() && (#[trigger] list[i])@ == text
}

/// Whether a sender is who a task expects: it carries the expected bearer
/// token, or it presented a certificate whose subject the task accepts.
pub open spec fn authorized(method: DaphneWorkerAuthMethod, sender: DaphneWorkerAuth) -> bool {
    ||| (method.bearer_token.is_some() && sender.bearer_token.is_some()
        && method.bearer_token.unwrap()@ == sender.bearer_token.unwrap()@)
    ||| (method.cf_tls_client_auth_subjects.is_some() && presented(
        sender.cf_tls_client_auth,
    ).is_some() && holds_text(
        method.cf_tls_client_auth_subjects.unwrap()@,
        sender.cf_tls_client_auth.unwrap().cert_subject@,
    ))
}

/// Why a request is not authorized.
#[derive(Clone, Copy, Debug, PartialEq, Eq, Structural)]
pub enum UnauthorizedReason {
    /// The sender carries no token and presented no certificate.
    Missing,
    /// What the sender shows is not what the task expects.
    Invalid,
}

/// Why a sender is not authorized, if it is not.
pub open spec fn unauthorized(method: DaphneWorkerAuthMethod, sender: DaphneWorkerAuth) -> Option<
    UnauthorizedReason,
> {
    if authorized(method, sender) {
        None
    } else if sender.bearer_token.is_none() && presented(sender.cf_tls_client_auth).is_none() {
        Some(UnauthorizedReason::Missing)
    } else {
        Some(UnauthorizedReason::Invalid)
    }
}

/// Decides whether a sender is who a task expects.
pub fn unauthorized_reason(method: &DaphneWorkerAuthMethod, sender: &DaphneWorkerAuth) -> (r: Option<
    UnauthorizedReason,
>)
    ensures
        r == unauthorized(*method, *sender),
{
    let token_ok = match (&method.bearer_token, &sender.bearer_token) {
        (Some(expected), Some(shown)) => text_is(expected.as_str(), shown.as_str()),
        _ => false,
    };
    if token_ok {
        return None;
    }
    let certificate = match &sender.cf_tls_client_auth {
        Some(auth) => if text_is(auth.cert_presented.as_str(), "1") {
            Some(auth)
        } else {
            None
        },
        None => None,
    };
    match (&method.cf_tls_client_auth_subjects, certificate) {
        (Some(subjects), Some(auth)) => {
            let mut i: usize = 0;
            while i < subjects.len()
                invariant
                    i <= subjects@.len(),
                    forall|k: int| 0 <= k < i ==> (#[trigger] subjects@[k])@ != auth.cert_subject@,
                    method.cf_tls_client_auth_subjects == Some(*subjects),
                    presented(sender.cf_tls_client_auth) == Some(*auth),
                decreases subjects@.len() - i,
            {
                if text_is(subjects[i].as_str(), auth.cert_subject.as_str()) {
                    assert(subjects@[i as int]@ == auth.cert_subject@);
                    return None;
                }
                i += 1;
            }
            Some(UnauthorizedReason::Invalid)
        },
        (_, Some(_)) => Some(UnauthorizedReason::Invalid),
        (_, None) => if sender.bearer_token.is_some() {
            Some(UnauthorizedReason::Invalid)
        } else {
            Some(UnauthorizedReason::Missing)
        },
    }
}

} // verus!
