//! Long-lived configuration of an aggregator process, built from the plain
//! values that its environment holds.

use vstd::prelude::*;
use vstd::utf8::encode_utf8;
use crate::endpoint::{parse_url, text_is, url_parts, ParsedUrl};
use crate::messages::DapVersion;
use crate::shard::{check_power_of_two, is_power_of_two};
use crate::text::{decode_hex_key, hex_bytes, hex_well_formed, parse_u64, parsed_u64};

verus! {

/// Settings shared by every task.
#[derive(Clone, Copy, Debug)]
pub struct DapGlobalConfig {
    /// Width of a report storage epoch, in seconds.
    pub report_storage_epoch_duration: u64,
    /// How far into the future a report's time may lie, in seconds.
    pub report_storage_max_future_time_skew: u64,
    /// Whether tasks may be provisioned in band.
    pub allow_taskprov: bool,
}

/// An HPKE configuration as advertised to clients.
#[derive(Clone, Debug)]
pub struct HpkeConfig {
    pub id: u8,
    pub kem_id: u16,
    pub kdf_id: u16,
    pub aead_id: u16,
    pub public_key: Vec<u8>,
}

/// How a sender of requests is recognised.
#[derive(Clone, Debug)]
pub struct DaphneWorkerAuthMethod {
    /// Expected bearer token, where tokens are used.
    pub bearer_token: Option<String>,
    /// Accepted certificate subjects, where mutual TLS is used.
    pub cf_tls_client_auth_subjects: Option<Vec<String>>,
}

/// Parameters of tasks that are provisioned in band.
#[derive(Debug)]
pub struct TaskprovConfig {
    pub hpke_collector_config: HpkeConfig,
    pub vdaf_verify_key_init: [u8; 32],
    pub leader_auth: DaphneWorkerAuthMethod,
    pub collector_auth: Option<DaphneWorkerAuthMethod>,
}

/// Where metrics are pushed, and the token presented there.
#[derive(Debug)]
pub struct MetricsPushConfig {
    pub server: ParsedUrl,
    pub bearer_token: String,
}

/// Kind of deployment; anything but production registers its storage
/// partitions for manual deletion.
#[derive(Clone, Copy, Debug, PartialEq, Eq, Structural)]
pub enum DaphneWorkerDeployment {
    Prod,
    Dev,
}

impl Default for DaphneWorkerDeployment {
    fn default() -> (r: Self)
        ensures
            r == DaphneWorkerDeployment::Prod,
    {
        DaphneWorkerDeployment::Prod
    }
}

/// A structured value of the environment, after the caller has tried to
/// read it.
#[derive(Debug)]
pub enum EnvJson<T> {
    /// The key is not set.
    Missing,
    /// The key is set to a text that does not describe a `T`.
    Malformed,
    /// The key is set, and this is what it describes.
    Present(T),
}

/// The keys of the environment.
#[derive(Clone, Copy, Debug, PartialEq, Eq, Structural)]
pub enum ConfigKey {
    AggregatorRole,
    GlobalConfig,
    DefaultVersion,
    BaseUrl,
    CollectionJobIdKey,
    ReportShardKey,
    ReportShardCount,
    Deployment,
    TaskprovHpkeCollectorConfig,
    TaskprovVdafVerifyKeyInit,
    TaskprovLeaderAuth,
    TaskprovCollectorAuth,
    HelperStateStoreGarbageCollectAfterSecs,
    ProcessedAlarmSafetyInterval,
    MetricsPushServerUrl,
    MetricsPushBearerToken,
}

/// Why an environment does not describe a configuration.
#[derive(Clone, Copy, Debug, PartialEq, Eq, Structural)]
pub enum ConfigError {
    /// A key that is needed is not set.
    Missing(ConfigKey),
    /// A key is set to a value that cannot be used.
    Invalid(ConfigKey),
}

/// The environment as plain values: one entry per key, `None` or `Missing`
/// where the key is not set.
#[derive(Debug)]
pub struct WorkerEnv {
    pub aggregator_role: Option<String>,
    pub global_config: EnvJson<DapGlobalConfig>,
    pub default_version: Option<String>,
    pub base_url: Option<String>,
    pub collection_job_id_key: Option<String>,
    pub report_shard_key: Option<String>,
    pub report_shard_count: Option<String>,
    pub deployment: Option<String>,
    pub taskprov_hpke_collector_config: EnvJson<HpkeConfig>,
    pub taskprov_vdaf_verify_key_init: Option<String>,
    pub taskprov_leader_auth: EnvJson<DaphneWorkerAuthMethod>,
    pub taskprov_collector_auth: EnvJson<DaphneWorkerAuthMethod>,
    pub admin_bearer_token: Option<String>,
    pub helper_state_store_garbage_collect_after_secs: Option<String>,
    pub processed_alarm_safety_interval: Option<String>,
    pub metrics_push_server_url: Option<String>,
    pub metrics_push_bearer_token: Option<String>,
}

/// Configuration of an aggregator process.
#[derive(Debug)]
pub struct DaphneWorkerConfig {
    pub is_leader: bool,
    pub global: DapGlobalConfig,
    pub deployment: DaphneWorkerDeployment,
    /// Leader only: key from which collection job identifiers are derived.
    pub collection_job_id_key: Option<[u8; 16]>,
    /// Key under which report identifiers are mapped to storage shards.
    pub report_shard_key: [u8; 32],
    /// Number of storage shards; a power of two.
    pub report_shard_count: u64,
    pub base_url: Option<ParsedUrl>,
    pub taskprov: Option<TaskprovConfig>,
    pub default_version: DapVersion,
    pub admin_token: Option<String>,
    /// Helper only: seconds after which stored helper state is deleted.
    pub helper_state_store_garbage_collect_after_secs: Option<u64>,
    /// Seconds added to an epoch's width before its replay set is deleted.
    pub processed_alarm_safety_interval: u64,
    pub metrics_push_config: Option<MetricsPushConfig>,
}

/// The version that a path segment names.
pub open spec fn version_of(text: Seq<char>) -> DapVersion {
    if text == "v02"@ {
        DapVersion::Draft02
    } else if text == "v05"@ {
        DapVersion::Draft05
    } else {
        DapVersion::Unknown
    }
}

/// Reads a protocol version; any text but the known ones is `Unknown`.
pub fn version_from_str(text: &str) -> (r: DapVersion)
    ensures
        r == version_of(text@),
{
    if text_is(text, "v02") {
        DapVersion::Draft02
    } else if text_is(text, "v05") {
        DapVersion::Draft05
    } else {
        DapVersion::Unknown
    }
}

/// The bytes in which a text is stored.
pub open spec fn text_bytes(text: &String) -> Seq<u8> {
    encode_utf8(text@)
}

/// What a required number of the environment is read as.
pub open spec fn number_of(value: Option<String>, key: ConfigKey) -> Result<u64, ConfigError> {
    match value {
        None => Err(ConfigError::Missing(key)),
        Some(text) => match parsed_u64(text_bytes(&text)) {
            Some(n) => Ok(n),
            None => Err(ConfigError::Invalid(key)),
        },
    }
}

/// Reads a required number of the environment.
pub fn read_number(value: &Option<String>, key: ConfigKey) -> (r: Result<u64, ConfigError>)
    ensures
        r == number_of(*value, key),
{
    match value {
        None => Err(ConfigError::Missing(key)),
        Some(text) => match parse_u64(text.as_str().as_bytes()) {
            Some(n) => Ok(n),
            None => Err(ConfigError::Invalid(key)),
        },
    }
}

/// What the number of shards is read as: a number that is a power of two.
pub open spec fn shard_count_of(value: Option<String>) -> Result<u64, ConfigError> {
    match number_of(value, ConfigKey::ReportShardCount) {
        Ok(count) => if is_power_of_two(count as nat) {
            Ok(count)
        } else {
            Err(ConfigError::Invalid(ConfigKey::ReportShardCount))
        },
        Err(e) => Err(e),
    }
}

/// Reads the number of shards.
pub fn read_shard_count(value: &Option<String>) -> (r: Result<u64, ConfigError>)
    ensures
        r == shard_count_of(*value),
{
    match read_number(value, ConfigKey::ReportShardCount) {
        Ok(count) => if check_power_of_two(count) {
            Ok(count)
        } else {
            Err(ConfigError::Invalid(ConfigKey::ReportShardCount))
        },
        Err(e) => Err(e),
    }
}

/// Whether a key of `N` bytes comes out of a required secret.
pub open spec fn key_error(value: Option<String>, len: nat, key: ConfigKey) -> Option<
    ConfigError,
> {
    match value {
        None => Some(ConfigError::Missing(key)),
        Some(text) => if hex_well_formed(text_bytes(&text)) && text_bytes(&text).len() == 2
            * len {
            None
        } else {
            Some(ConfigError::Invalid(key))
        },
    }
}

/// Reads a required secret key of `N` bytes, written in hexadecimal.
pub fn read_key<const N: usize>(value: &Option<String>, key: ConfigKey) -> (r: Result<
    [u8; N],
    ConfigError,
>)
    ensures
        match r {
            Ok(k) => key_error(*value, N as nat, key).is_none() && k@ == hex_bytes(
                text_bytes(&value.unwrap()),
            ),
            Err(e) => key_error(*value, N as nat, key) == Some(e),
        },
{
    match value {
        None => Err(ConfigError::Missing(key)),
        Some(text) => match decode_hex_key::<N>(text.as_str().as_bytes()) {
            Some(k) => Ok(k),
            None => Err(ConfigError::Invalid(key)),
        },
    }
}

/// What a required structured value of the environment is read as.
pub open spec fn json_error<T>(value: EnvJson<T>, key: ConfigKey) -> Option<ConfigError> {
    match value {
        EnvJson::Missing => Some(ConfigError::Missing(key)),
        EnvJson::Malformed => Some(ConfigError::Invalid(key)),
        EnvJson::Present(_) => None,
    }
}

/// Reads a required structured value of the environment.
pub fn read_json<T>(value: EnvJson<T>, key: ConfigKey) -> (r: Result<T, ConfigError>)
    ensures
        match r {
            Ok(v) => value == EnvJson::Present(v),
            Err(e) => json_error(value, key) == Some(e),
        },
{
    match value {
        EnvJson::Missing => Err(ConfigError::Missing(key)),
        EnvJson::Malformed => Err(ConfigError::Invalid(key)),
        EnvJson::Present(v) => Ok(v),
    }
}

/// The role that the environment names: `true` for the leader.
pub open spec fn role_of(value: Option<String>) -> Result<bool, ConfigError> {
    match value {
        None => Err(ConfigError::Missing(ConfigKey::AggregatorRole)),
        Some(text) => if text@ == "leader"@ {
            Ok(true)
        } else if text@ == "helper"@ {
            Ok(false)
        } else {
            Err(ConfigError::Invalid(ConfigKey::AggregatorRole))
        },
    }
}

/// Reads the aggregator's role.
pub fn read_role(value: &Option<String>) -> (r: Result<bool, ConfigError>)
    ensures
        r == role_of(*value),
{
    match value {
        None => Err(ConfigError::Missing(ConfigKey::AggregatorRole)),
        Some(text) => if text_is(text.as_str(), "leader") {
            Ok(true)
        } else if text_is(text.as_str(), "helper") {
            Ok(false)
        } else {
            Err(ConfigError::Invalid(ConfigKey::AggregatorRole))
        },
    }
}

/// The deployment that the environment names; production where it names
/// none.
pub open spec fn deployment_of(value: Option<String>) -> Result<
    DaphneWorkerDeployment,
    ConfigError,
> {
    match value {
        None => Ok(DaphneWorkerDeployment::Prod),
        Some(text) => if text@ == "prod"@ {
            Ok(DaphneWorkerDeployment::Prod)
        } else if text@ == "dev"@ {
            Ok(DaphneWorkerDeployment::Dev)
        } else {
            Err(ConfigError::Invalid(ConfigKey::Deployment))
        },
    }
}

/// Reads the kind of deployment.
pub fn read_deployment(value: &Option<String>) -> (r: Result<DaphneWorkerDeployment, ConfigError>)
    ensures
        r == deployment_of(*value),
{
    match value {
        None => Ok(DaphneWorkerDeployment::default()),
        Some(text) => if text_is(text.as_str(), "prod") {
            Ok(DaphneWorkerDeployment::Prod)
        } else if text_is(text.as_str(), "dev") {
            Ok(DaphneWorkerDeployment::Dev)
        } else {
            Err(ConfigError::Invalid(ConfigKey::Deployment))
        },
    }
}

/// Whether an optional address of the environment is unusable.
pub open spec fn url_error(value: Option<String>, key: ConfigKey) -> Option<ConfigError> {
    match value {
        Some(text) => if url_parts(text@).is_none() {
            Some(ConfigError::Invalid(key))
        } else {
            None
        },
        None => None,
    }
}

/// Whether `url` is what an optional address of the environment parses to.
pub open spec fn url_matches(url: Option<ParsedUrl>, value: Option<String>) -> bool {
    match value {
        Some(text) => url.is_some() && Some(url.unwrap()@) == url_parts(text@),
        None => url.is_none(),
    }
}

/// Reads an optional address of the environment.
pub fn read_url(value: &Option<String>, key: ConfigKey) -> (r: Result<
    Option<ParsedUrl>,
    ConfigError,
>)
    ensures
        match r {
            Ok(url) => url_error(*value, key).is_none() && url_matches(url, *value),
            Err(e) => url_error(*value, key) == Some(e),
        },
{
    match value {
        None => Ok(None),
        Some(text) => match parse_url(text.as_str()) {
            Some(url) => Ok(Some(url)),
            None => Err(ConfigError::Invalid(key)),
        },
    }
}

/// The first reason, in the order in which the in-band provisioning keys
/// are read, why they describe no parameters.
pub open spec fn taskprov_error(
    hpke_collector_config: EnvJson<HpkeConfig>,
    vdaf_verify_key_init: Option<String>,
    leader_auth: EnvJson<DaphneWorkerAuthMethod>,
    collector_auth: EnvJson<DaphneWorkerAuthMethod>,
    is_leader: bool,
) -> Option<ConfigError> {
    if json_error(hpke_collector_config, ConfigKey::TaskprovHpkeCollectorConfig) is Some {
        json_error(hpke_collector_config, ConfigKey::TaskprovHpkeCollectorConfig)
    } else if key_error(vdaf_verify_key_init, 32, ConfigKey::TaskprovVdafVerifyKeyInit) is Some {
        key_error(vdaf_verify_key_init, 32, ConfigKey::TaskprovVdafVerifyKeyInit)
    } else if json_error(leader_auth, ConfigKey::TaskprovLeaderAuth) is Some {
        json_error(leader_auth, ConfigKey::TaskprovLeaderAuth)
    } else if is_leader {
        json_error(collector_auth, ConfigKey::TaskprovCollectorAuth)
    } else {
        None
    }
}

/// Whether `taskprov` holds what the in-band provisioning keys describe.
pub open spec fn taskprov_matches(
    taskprov: TaskprovConfig,
    hpke_collector_config: EnvJson<HpkeConfig>,
    vdaf_verify_key_init: Option<String>,
    leader_auth: EnvJson<DaphneWorkerAuthMethod>,
    collector_auth: EnvJson<DaphneWorkerAuthMethod>,
    is_leader: bool,
) -> bool {
    &&& hpke_collector_config == EnvJson::Present(taskprov.hpke_collector_config)
    &&& vdaf_verify_key_init.is_some()
    &&& taskprov.vdaf_verify_key_init@ == hex_bytes(text_bytes(&vdaf_verify_key_init.unwrap()))
    &&& leader_auth == EnvJson::Present(taskprov.leader_auth)
    &&& if is_leader {
        taskprov.collector_auth.is_some() && collector_auth == EnvJson::Present(
            taskprov.collector_auth.unwrap(),
        )
    } else {
        taskprov.collector_auth.is_none()
    }
}

/// Why the two metrics keys describe no push target, if they do not: one of
/// them is set without the other, or the address is unusable.
pub open spec fn metrics_error(server_url: Option<String>, bearer_token: Option<String>) -> Option<
    ConfigError,
> {
    match (server_url, bearer_token) {
        (Some(url), Some(_)) => url_error(Some(url), ConfigKey::MetricsPushServerUrl),
        (None, None) => None,
        (Some(_), None) => Some(ConfigError::Missing(ConfigKey::MetricsPushBearerToken)),
        (None, Some(_)) => Some(ConfigError::Missing(ConfigKey::MetricsPushServerUrl)),
    }
}

/// Whether `metrics` is the push target that the two metrics keys describe.
pub open spec fn metrics_matches(
    metrics: Option<MetricsPushConfig>,
    server_url: Option<String>,
    bearer_token: Option<String>,
) -> bool {
    match metrics {
        Some(m) => {
            &&& server_url.is_some()
            &&& Some(m.server@) == url_parts(server_url.unwrap()@)
            &&& bearer_token == Some(m.bearer_token)
        },
        None => server_url.is_none() && bearer_token.is_none(),
    }
}

/// The first reason, in the order in which the keys are read, why an
/// environment describes no configuration; `None` where it describes one.
pub open spec fn config_error(env: WorkerEnv) -> Option<ConfigError> {
    let leader = role_of(env.aggregator_role);
    let global_key = ConfigKey::GlobalConfig;
    if leader is Err {
        Some(leader->Err_0)
    } else if json_error(env.global_config, global_key) is Some {
        json_error(env.global_config, global_key)
    } else if env.default_version.is_none() {
        Some(ConfigError::Missing(ConfigKey::DefaultVersion))
    } else if url_error(env.base_url, ConfigKey::BaseUrl) is Some {
        url_error(env.base_url, ConfigKey::BaseUrl)
    } else if leader->Ok_0 && key_error(
        env.collection_job_id_key,
        16,
        ConfigKey::CollectionJobIdKey,
    ) is Some {
        key_error(env.collection_job_id_key, 16, ConfigKey::CollectionJobIdKey)
    } else if key_error(env.report_shard_key, 32, ConfigKey::ReportShardKey) is Some {
        key_error(env.report_shard_key, 32, ConfigKey::ReportShardKey)
    } else if shard_count_of(env.report_shard_count) is Err {
        Some(shard_count_of(env.report_shard_count)->Err_0)
    } else if deployment_of(env.deployment) is Err {
        Some(deployment_of(env.deployment)->Err_0)
    } else if env.global_config->Present_0.allow_taskprov && taskprov_error(
        env.taskprov_hpke_collector_config,
        env.taskprov_vdaf_verify_key_init,
        env.taskprov_leader_auth,
        env.taskprov_collector_auth,
        leader->Ok_0,
    ) is Some {
        taskprov_error(
            env.taskprov_hpke_collector_config,
            env.taskprov_vdaf_verify_key_init,
            env.taskprov_leader_auth,
            env.taskprov_collector_auth,
            leader->Ok_0,
        )
    } else if !leader->Ok_0 && number_of(
        env.helper_state_store_garbage_collect_after_secs,
        ConfigKey::HelperStateStoreGarbageCollectAfterSecs,
    ) is Err {
        Some(
            number_of(
                env.helper_state_store_garbage_collect_after_secs,
                ConfigKey::HelperStateStoreGarbageCollectAfterSecs,
            )->Err_0,
        )
    } else if number_of(
        env.processed_alarm_safety_interval,
        ConfigKey::ProcessedAlarmSafetyInterval,
    ) is Err {
        Some(
            number_of(
                env.processed_alarm_safety_interval,
                ConfigKey::ProcessedAlarmSafetyInterval,
            )->Err_0,
        )
    } else {
        metrics_error(env.metrics_push_server_url, env.metrics_push_bearer_token)
    }
}

/// Whether `config` holds, field by field, what the environment describes.
pub open spec fn config_matches(config: DaphneWorkerConfig, env: WorkerEnv) -> bool {
    &&& Ok::<bool, ConfigError>(config.is_leader) == role_of(env.aggregator_role)
    &&& env.global_config == EnvJson::Present(config.global)
    &&& Ok::<DaphneWorkerDeployment, ConfigError>(config.deployment) == deployment_of(
        env.deployment,
    )
    &&& if config.is_leader {
        config.collection_job_id_key.is_some() && config.collection_job_id_key.unwrap()@
            == hex_bytes(text_bytes(&env.collection_job_id_key.unwrap()))
    } else {
        config.collection_job_id_key.is_none()
    }
    &&& config.report_shard_key@ == hex_bytes(text_bytes(&env.report_shard_key.unwrap()))
    &&& Ok::<u64, ConfigError>(config.report_shard_count) == shard_count_of(
        env.report_shard_count,
    )
    &&& is_power_of_two(config.report_shard_count as nat)
    &&& url_matches(config.base_url, env.base_url)
    &&& if config.global.allow_taskprov {
        config.taskprov.is_some() && taskprov_matches(
            config.taskprov.unwrap(),
            env.taskprov_hpke_collector_config,
            env.taskprov_vdaf_verify_key_init,
            env.taskprov_leader_auth,
            env.taskprov_collector_auth,
            config.is_leader,
        )
    } else {
        config.taskprov.is_none()
    }
    &&& env.default_version.is_some() && config.default_version == version_of(
        env.default_version.unwrap()@,
    )
    &&& config.admin_token == env.admin_bearer_token
    &&& if config.is_leader {
        config.helper_state_store_garbage_collect_after_secs.is_none()
    } else {
        config.helper_state_store_garbage_collect_after_secs.is_some() && Ok::<u64, ConfigError>(
            config.helper_state_store_garbage_collect_after_secs.unwrap(),
        ) == number_of(
            env.helper_state_store_garbage_collect_after_secs,
            ConfigKey::HelperStateStoreGarbageCollectAfterSecs,
        )
    }
    &&& Ok::<u64, ConfigError>(config.processed_alarm_safety_interval) == number_of(
        env.processed_alarm_safety_interval,
        ConfigKey::ProcessedAlarmSafetyInterval,
    )
    &&& metrics_matches(
        config.metrics_push_config,
        env.metrics_push_server_url,
        env.metrics_push_bearer_token,
    )
}

/// Reads the in-band provisioning parameters.
pub fn read_taskprov(
    hpke_collector_config: EnvJson<HpkeConfig>,
    vdaf_verify_key_init: &Option<String>,
    leader_auth: EnvJson<DaphneWorkerAuthMethod>,
    collector_auth: EnvJson<DaphneWorkerAuthMethod>,
    is_leader: bool,
) -> (r: Result<TaskprovConfig, ConfigError>)
    ensures
        match r {
            Ok(t) => taskprov_error(
                hpke_collector_config,
                *vdaf_verify_key_init,
                leader_auth,
                collector_auth,
                is_leader,
            ).is_none() && taskprov_matches(
                t,
                hpke_collector_config,
                *vdaf_verify_key_init,
                leader_auth,
                collector_auth,
                is_leader,
            ),
            Err(e) => taskprov_error(
                hpke_collector_config,
                *vdaf_verify_key_init,
                leader_auth,
                collector_auth,
                is_leader,
            ) == Some(e),
        },
{
    let hpke = match read_json(hpke_collector_config, ConfigKey::TaskprovHpkeCollectorConfig) {
        Ok(v) => v,
        Err(e) => {
            return Err(e);
        },
    };
    let key = match read_key::<32>(vdaf_verify_key_init, ConfigKey::TaskprovVdafVerifyKeyInit) {
        Ok(v) => v,
        Err(e) => {
            return Err(e);
        },
    };
    let leader = match read_json(leader_auth, ConfigKey::TaskprovLeaderAuth) {
        Ok(v) => v,
        Err(e) => {
            return Err(e);
        },
    };
    let collector = if is_leader {
        match read_json(collector_auth, ConfigKey::TaskprovCollectorAuth) {
            Ok(v) => Some(v),
            Err(e) => {
                return Err(e);
            },
        }
    } else {
        None
    };
    Ok(
        TaskprovConfig {
            hpke_collector_config: hpke,
            vdaf_verify_key_init: key,
            leader_auth: leader,
            collector_auth: collector,
        },
    )
}

/// Reads the metrics push target.
pub fn read_metrics(server_url: Option<String>, bearer_token: Option<String>) -> (r: Result<
    Option<MetricsPushConfig>,
    ConfigError,
>)
    ensures
        match r {
            Ok(m) => metrics_error(server_url, bearer_token).is_none() && metrics_matches(
                m,
                server_url,
                bearer_token,
            ),
            Err(e) => metrics_error(server_url, bearer_token) == Some(e),
        },
{
    match (server_url, bearer_token) {
        (Some(url), Some(token)) => match parse_url(url.as_str()) {
            Some(server) => Ok(Some(MetricsPushConfig { server, bearer_token: token })),
            None => Err(ConfigError::Invalid(ConfigKey::MetricsPushServerUrl)),
        },
        (None, None) => Ok(None),
        (Some(_), None) => Err(ConfigError::Missing(ConfigKey::MetricsPushBearerToken)),
        (None, Some(_)) => Err(ConfigError::Missing(ConfigKey::MetricsPushServerUrl)),
    }
}

impl DaphneWorkerConfig {
    /// Builds the configuration that an environment describes, or says
    /// which key stands in the way: the first one, in the order in which
    /// the keys are read.
    pub fn from_worker_env(env: WorkerEnv) -> (r: Result<DaphneWorkerConfig, ConfigError>)
        ensures
            match r {
                Ok(config) => config_error(env).is_none() && config_matches(config, env),
                Err(e) => config_error(env) == Some(e),
            },
    {
        let WorkerEnv {
            aggregator_role,
            global_config,
            default_version,
            base_url,
            collection_job_id_key,
            report_shard_key,
            report_shard_count,
            deployment,
            taskprov_hpke_collector_config,
            taskprov_vdaf_verify_key_init,
            taskprov_leader_auth,
            taskprov_collector_auth,
            admin_bearer_token,
            helper_state_store_garbage_collect_after_secs,
            processed_alarm_safety_interval,
            metrics_push_server_url,
            metrics_push_bearer_token,
        } = env;
        let is_leader = match read_role(&aggregator_role) {
            Ok(v) => v,
            Err(e) => {
                return Err(e);
            },
        };
        let global = match read_json(global_config, ConfigKey::GlobalConfig) {
            Ok(v) => v,
            Err(e) => {
                return Err(e);
            },
        };
        let default_version = match default_version {
            Some(text) => version_from_str(text.as_str()),
            None => {
                return Err(ConfigError::Missing(ConfigKey::DefaultVersion));
            },
        };
        let base_url = match read_url(&base_url, ConfigKey::BaseUrl) {
            Ok(v) => v,
            Err(e) => {
                return Err(e);
            },
        };
        let collection_job_id_key = if is_leader {
            match read_key::<16>(&collection_job_id_key, ConfigKey::CollectionJobIdKey) {
                Ok(v) => Some(v),
                Err(e) => {
                    return Err(e);
                },
            }
        } else {
            None
        };
        let report_shard_key = match read_key::<32>(&report_shard_key, ConfigKey::ReportShardKey) {
            Ok(v) => v,
            Err(e) => {
                return Err(e);
            },
        };
        let report_shard_count = match read_shard_count(&report_shard_count) {
            Ok(v) => v,
            Err(e) => {
                return Err(e);
            },
        };
        let deployment = match read_deployment(&deployment) {
            Ok(v) => v,
            Err(e) => {
                return Err(e);
            },
        };
        let taskprov = if global.allow_taskprov {
            match read_taskprov(
                taskprov_hpke_collector_config,
                &taskprov_vdaf_verify_key_init,
                taskprov_leader_auth,
                taskprov_collector_auth,
                is_leader,
            ) {
                Ok(v) => Some(v),
                Err(e) => {
                    return Err(e);
                },
            }
        } else {
            None
        };
        let helper_gc = if !is_leader {
            match read_number(
                &helper_state_store_garbage_collect_after_secs,
                ConfigKey::HelperStateStoreGarbageCollectAfterSecs,
            ) {
                Ok(v) => Some(v),
                Err(e) => {
                    return Err(e);
                },
            }
        } else {
            None
        };
        let safety_interval = match read_number(
            &processed_alarm_safety_interval,
            ConfigKey::ProcessedAlarmSafetyInterval,
        ) {
            Ok(v) => v,
            Err(e) => {
                return Err(e);
            },
        };
        let metrics_push_config = match read_metrics(
            metrics_push_server_url,
            metrics_push_bearer_token,
        ) {
            Ok(v) => v,
            Err(e) => {
                return Err(e);
            },
        };
        Ok(
            DaphneWorkerConfig {
                is_leader,
                global,
                deployment,
                collection_job_id_key,
                report_shard_key,
                report_shard_count,
                base_url,
                taskprov,
                default_version,
                admin_token: admin_bearer_token,
                helper_state_store_garbage_collect_after_secs: helper_gc,
                processed_alarm_safety_interval: safety_interval,
                metrics_push_config,
            },
        )
    }
}

} // verus!
