//! The commands of the interoperation test interface: adding a task,
//! adding an HPKE configuration, and asking for the endpoint of a task.

use vstd::prelude::*;
use vstd::utf8::encode_utf8;
use crate::base64url::{decode, decode_array, decoded};
use crate::config::{DaphneWorkerConfig, HpkeConfig};
use crate::endpoint::{join_text, text_is};
use crate::hpke::{config_decoded, HpkeConfigView};
use crate::messages::{DapQueryConfig, DapVersion, TaskId};
use crate::task::{DapTaskConfig, Prio3Config, VdafConfig, VdafDpConfig, ZCdpBudget};
use crate::text::{parse_decimal, parsed_decimal};

verus! {

/// The role that a command is meant for.
#[derive(Clone, Copy, Debug, PartialEq, Eq, Structural)]
pub enum InternalTestRole {
    Leader,
    Helper,
}

/// The aggregation function of a task, as a command names it.
#[derive(Debug)]
pub struct InternalTestVdaf {
    pub typ: String,
    pub bits: Option<String>,
    pub length: Option<String>,
}

/// The noise of a task, as a command names it.
#[derive(Debug)]
pub struct InternalTestDpConfig {
    pub distribution: Option<String>,
    pub zcdp_numerator: Option<String>,
    pub zcdp_denominator: Option<String>,
}

/// The command that adds a task.
#[derive(Debug)]
pub struct InternalTestAddTask {
    pub task_id: String,
    pub leader: String,
    pub helper: String,
    pub vdaf: InternalTestVdaf,
    pub dp_config: InternalTestDpConfig,
    pub leader_authentication_token: String,
    pub collector_authentication_token: Option<String>,
    pub role: InternalTestRole,
    pub vdaf_verify_key: String,
    pub query_type: u8,
    pub min_batch_size: u64,
    pub max_batch_size: Option<u64>,
    pub time_precision: u64,
    pub collector_hpke_config: String,
    pub task_expiration: u64,
}

/// Why a task is not added.
#[derive(Clone, Copy, Debug, PartialEq, Eq, Structural)]
pub enum AddTaskError {
    /// The task identifier is not 32 bytes in URL-safe base64.
    InvalidTaskId,
    /// A parameter of the aggregation function is no number.
    InvalidVdafParameter,
    /// The aggregation function, with the parameters given, is not known.
    UnrecognizedVdaf,
    /// The privacy budget is no fraction.
    InvalidDpBudget,
    /// The verify key is not URL-safe base64.
    InvalidVerifyKey,
    /// The verify key has not the length that the function asks for.
    InvalidVerifyKeyLength,
    /// The collector's HPKE configuration is not URL-safe base64.
    InvalidHpkeConfigText,
    /// The collector's HPKE configuration is not in wire form.
    InvalidHpkeConfig,
    /// A leader token is already stored for the task.
    LeaderTokenExists,
    /// A collector token is already stored for the task.
    CollectorTokenExists,
    /// The command is for a leader and holds no collector token.
    MissingCollectorToken,
    /// The command is for a helper and holds a collector token.
    UnexpectedCollectorToken,
    /// The task is a time-interval one and a greatest batch size is given.
    UnexpectedMaxBatchSize,
    /// The task is a fixed-size one and no greatest batch size is given.
    MissingMaxBatchSize,
    /// The query type is neither 1 nor 2.
    UnrecognizedQueryType,
    /// A configuration is already stored for the task.
    TaskExists,
}

/// The bytes of a text that may be absent.
pub open spec fn opt_bytes(text: Option<String>) -> Option<Seq<u8>> {
    match text {
        Some(t) => Some(encode_utf8(t@)),
        None => None,
    }
}

/// The number that a parameter of an aggregation function denotes.
pub open spec fn parameter_of(text: Seq<u8>) -> Option<usize> {
    match parsed_decimal(text, usize::MAX as u128) {
        Some(n) => Some(n as usize),
        None => None,
    }
}

/// The aggregation function that a command names: by its name and by the
/// parameters that are given with it.
pub open spec fn vdaf_of(vdaf: InternalTestVdaf) -> Result<VdafConfig, AddTaskError> {
    let bits = opt_bytes(vdaf.bits);
    let length = opt_bytes(vdaf.length);
    if vdaf.typ@ == "Prio3Count"@ && bits.is_none() && length.is_none() {
        Ok(VdafConfig::Prio3(Prio3Config::Count))
    } else if vdaf.typ@ == "Prio3Sum"@ && bits.is_some() && length.is_none() {
        match parameter_of(bits.unwrap()) {
            Some(bits) => Ok(VdafConfig::Prio3(Prio3Config::Sum { bits })),
            None => Err(AddTaskError::InvalidVdafParameter),
        }
    } else if vdaf.typ@ == "Prio3SumVec"@ && bits.is_some() && length.is_some() {
        match (parameter_of(bits.unwrap()), parameter_of(length.unwrap())) {
            (Some(bits), Some(len)) => Ok(VdafConfig::Prio3(Prio3Config::SumVec { bits, len })),
            _ => Err(AddTaskError::InvalidVdafParameter),
        }
    } else if vdaf.typ@ == "Prio3Histogram"@ && bits.is_some() && length.is_none() {
        match parameter_of(bits.unwrap()) {
            Some(len) => Ok(VdafConfig::Prio3(Prio3Config::Histogram { len })),
            None => Err(AddTaskError::InvalidVdafParameter),
        }
    } else {
        Err(AddTaskError::UnrecognizedVdaf)
    }
}

/// Reads a parameter of an aggregation function.
fn read_parameter(text: &String) -> (r: Option<usize>)
    ensures
        r == parameter_of(encode_utf8(text@)),
{
    match parse_decimal(text.as_str().as_bytes(), usize::MAX as u128) {
        Some(n) => Some(n as usize),
        None => None,
    }
}

/// Reads the aggregation function that a command names.
pub fn read_vdaf(vdaf: &InternalTestVdaf) -> (r: Result<VdafConfig, AddTaskError>)
    ensures
        r == vdaf_of(*vdaf),
{
    let typ = vdaf.typ.as_str();
    match (&vdaf.bits, &vdaf.length) {
        (None, None) => {
            if text_is(typ, "Prio3Count") {
                Ok(VdafConfig::Prio3(Prio3Config::Count))
            } else {
                Err(AddTaskError::UnrecognizedVdaf)
            }
        },
        (Some(bits), None) => {
            if text_is(typ, "Prio3Sum") {
                match read_parameter(bits) {
                    Some(bits) => Ok(VdafConfig::Prio3(Prio3Config::Sum { bits })),
                    None => Err(AddTaskError::InvalidVdafParameter),
                }
            } else if text_is(typ, "Prio3Histogram") {
                proof {
                    lemma_vdaf_names_differ();
                }
                match read_parameter(bits) {
                    Some(len) => Ok(VdafConfig::Prio3(Prio3Config::Histogram { len })),
                    None => Err(AddTaskError::InvalidVdafParameter),
                }
            } else {
                Err(AddTaskError::UnrecognizedVdaf)
            }
        },
        (Some(bits), Some(length)) => {
            if text_is(typ, "Prio3SumVec") {
                match read_parameter(bits) {
                    None => Err(AddTaskError::InvalidVdafParameter),
                    Some(bits) => match read_parameter(length) {
                        Some(len) => Ok(VdafConfig::Prio3(Prio3Config::SumVec { bits, len })),
                        None => Err(AddTaskError::InvalidVdafParameter),
                    },
                }
            } else {
                Err(AddTaskError::UnrecognizedVdaf)
            }
        },
        (None, Some(_)) => Err(AddTaskError::UnrecognizedVdaf),
    }
}

/// The names of the aggregation functions differ from each other.
pub proof fn lemma_vdaf_names_differ()
    ensures
        "Prio3Sum"@ != "Prio3Histogram"@,
        "Prio3Sum"@ != "Prio3SumVec"@,
        "Prio3Sum"@ != "Prio3Count"@,
        "Prio3Count"@ != "Prio3Histogram"@,
        "Prio3Count"@ != "Prio3SumVec"@,
        "Prio3SumVec"@ != "Prio3Histogram"@,
{
    reveal_strlit("Prio3Sum");
    reveal_strlit("Prio3Histogram");
    reveal_strlit("Prio3SumVec");
    reveal_strlit("Prio3Count");
    assert("Prio3Sum"@.len() == 8);
    assert("Prio3Histogram"@.len() == 14);
    assert("Prio3SumVec"@.len() == 11);
    assert("Prio3Count"@.len() == 10);
}

/// The number that a part of a privacy budget denotes.
pub open spec fn budget_part_of(text: Seq<u8>) -> Option<u128> {
    parsed_decimal(text, u128::MAX)
}

/// The noise that a command names: none unless the distribution is the
/// Gaussian one and both parts of the budget are given; then the budget
/// must be a fraction.
pub open spec fn dp_config_of(dp: InternalTestDpConfig) -> Result<Option<VdafDpConfig>, AddTaskError> {
    if dp.distribution.is_some() && dp.distribution.unwrap()@ == "Gaussian"@
        && dp.zcdp_numerator.is_some() && dp.zcdp_denominator.is_some() {
        match (
            budget_part_of(encode_utf8(dp.zcdp_numerator.unwrap()@)),
            budget_part_of(encode_utf8(dp.zcdp_denominator.unwrap()@)),
        ) {
            (Some(numerator), Some(denominator)) => if denominator == 0 {
                Err(AddTaskError::InvalidDpBudget)
            } else {
                Ok(Some(VdafDpConfig { zcdp_budget: ZCdpBudget { numerator, denominator } }))
            },
            _ => Err(AddTaskError::InvalidDpBudget),
        }
    } else {
        Ok(None)
    }
}

/// Reads the noise that a command names.
pub fn read_dp_config(dp: &InternalTestDpConfig) -> (r: Result<Option<VdafDpConfig>, AddTaskError>)
    ensures
        r == dp_config_of(*dp),
{
    match (&dp.distribution, &dp.zcdp_numerator, &dp.zcdp_denominator) {
        (Some(distribution), Some(n), Some(d)) => {
            if !text_is(distribution.as_str(), "Gaussian") {
                return Ok(None);
            }
            let numerator = match parse_decimal(n.as_str().as_bytes(), u128::MAX) {
                Some(v) => v,
                None => {
                    return Err(AddTaskError::InvalidDpBudget);
                },
            };
            let denominator = match parse_decimal(d.as_str().as_bytes(), u128::MAX) {
                Some(v) => v,
                None => {
                    return Err(AddTaskError::InvalidDpBudget);
                },
            };
            if denominator == 0 {
                return Err(AddTaskError::InvalidDpBudget);
            }
            Ok(Some(VdafDpConfig { zcdp_budget: ZCdpBudget { numerator, denominator } }))
        },
        _ => Ok(None),
    }
}

/// The query type that a command names: 1 for time intervals, without a
/// greatest batch size; 2 for fixed sizes, with one.
pub open spec fn query_of(query_type: u8, max_batch_size: Option<u64>) -> Result<
    DapQueryConfig,
    AddTaskError,
> {
    if query_type == 1 {
        if max_batch_size.is_none() {
            Ok(DapQueryConfig::TimeInterval)
        } else {
            Err(AddTaskError::UnexpectedMaxBatchSize)
        }
    } else if query_type == 2 {
        match max_batch_size {
            Some(max_batch_size) => Ok(DapQueryConfig::FixedSize { max_batch_size }),
            None => Err(AddTaskError::MissingMaxBatchSize),
        }
    } else {
        Err(AddTaskError::UnrecognizedQueryType)
    }
}

/// Reads the query type that a command names.
pub fn read_query(query_type: u8, max_batch_size: Option<u64>) -> (r: Result<
    DapQueryConfig,
    AddTaskError,
>)
    ensures
        r == query_of(query_type, max_batch_size),
{
    match (query_type, max_batch_size) {
        (1, None) => Ok(DapQueryConfig::TimeInterval),
        (1, Some(_)) => Err(AddTaskError::UnexpectedMaxBatchSize),
        (2, Some(max_batch_size)) => Ok(DapQueryConfig::FixedSize { max_batch_size }),
        (2, None) => Err(AddTaskError::MissingMaxBatchSize),
        _ => Err(AddTaskError::UnrecognizedQueryType),
    }
}

/// The length of the verify key that an aggregation function asks for.
pub open spec fn verify_key_len(vdaf: VdafConfig) -> nat {
    match vdaf {
        VdafConfig::Prio3(_) => 16,
    }
}

/// The length of the verify key that an aggregation function asks for.
pub fn verify_key_length(vdaf: &VdafConfig) -> (r: usize)
    ensures
        r == verify_key_len(*vdaf),
{
    match vdaf {
        VdafConfig::Prio3(_) => 16,
    }
}

/// What a command that adds a task holds, once read.
pub struct ValidTask {
    pub task_id: Seq<u8>,
    pub vdaf: VdafConfig,
    pub dp_config: Option<VdafDpConfig>,
    pub vdaf_verify_key: Seq<u8>,
    pub collector_hpke_config: HpkeConfigView,
}

/// What a command that adds a task holds, or the first reason why it
/// cannot be read: the task identifier, the aggregation function, the
/// noise, the verify key and the collector's HPKE configuration, in this
/// order.
pub open spec fn validated(cmd: InternalTestAddTask) -> Result<ValidTask, AddTaskError> {
    let task_id = decoded(encode_utf8(cmd.task_id@));
    let verify_key = decoded(encode_utf8(cmd.vdaf_verify_key@));
    let hpke_text = decoded(encode_utf8(cmd.collector_hpke_config@));
    if task_id.is_none() || task_id.unwrap().len() != 32 {
        Err(AddTaskError::InvalidTaskId)
    } else if vdaf_of(cmd.vdaf) is Err {
        Err(vdaf_of(cmd.vdaf)->Err_0)
    } else if dp_config_of(cmd.dp_config) is Err {
        Err(dp_config_of(cmd.dp_config)->Err_0)
    } else if verify_key.is_none() {
        Err(AddTaskError::InvalidVerifyKey)
    } else if verify_key.unwrap().len() != verify_key_len(vdaf_of(cmd.vdaf)->Ok_0) {
        Err(AddTaskError::InvalidVerifyKeyLength)
    } else if hpke_text.is_none() {
        Err(AddTaskError::InvalidHpkeConfigText)
    } else if config_decoded(hpke_text.unwrap()).is_none() {
        Err(AddTaskError::InvalidHpkeConfig)
    } else {
        Ok(
            ValidTask {
                task_id: task_id.unwrap(),
                vdaf: vdaf_of(cmd.vdaf)->Ok_0,
                dp_config: dp_config_of(cmd.dp_config)->Ok_0,
                vdaf_verify_key: verify_key.unwrap(),
                collector_hpke_config: config_decoded(hpke_text.unwrap()).unwrap(),
            },
        )
    }
}

/// What a command that adds a task holds, once read, as stored values.
#[derive(Debug)]
pub struct ReadTask {
    pub task_id: TaskId,
    pub vdaf: VdafConfig,
    pub dp_config: Option<VdafDpConfig>,
    pub vdaf_verify_key: Vec<u8>,
    pub collector_hpke_config: HpkeConfig,
}

impl View for ReadTask {
    type V = ValidTask;

    open spec fn view(&self) -> ValidTask {
        ValidTask {
            task_id: self.task_id@,
            vdaf: self.vdaf,
            dp_config: self.dp_config,
            vdaf_verify_key: self.vdaf_verify_key@,
            collector_hpke_config: self.collector_hpke_config@,
        }
    }
}

/// Reads a command that adds a task.
pub fn validate(cmd: &InternalTestAddTask) -> (r: Result<ReadTask, AddTaskError>)
    ensures
        match r {
            Ok(task) => validated(*cmd) == Ok::<ValidTask, AddTaskError>(task@),
            Err(e) => validated(*cmd) == Err::<ValidTask, AddTaskError>(e),
        },
{
    let task_id = match decode_array::<32>(cmd.task_id.as_str().as_bytes()) {
        Some(bytes) => TaskId { bytes },
        None => {
            return Err(AddTaskError::InvalidTaskId);
        },
    };
    let vdaf = match read_vdaf(&cmd.vdaf) {
        Ok(v) => v,
        Err(e) => {
            return Err(e);
        },
    };
    let dp_config = match read_dp_config(&cmd.dp_config) {
        Ok(v) => v,
        Err(e) => {
            return Err(e);
        },
    };
    let vdaf_verify_key = match decode(cmd.vdaf_verify_key.as_str().as_bytes()) {
        Some(v) => v,
        None => {
            return Err(AddTaskError::InvalidVerifyKey);
        },
    };
    if vdaf_verify_key.len() != verify_key_length(&vdaf) {
        return Err(AddTaskError::InvalidVerifyKeyLength);
    }
    let hpke_text = match decode(cmd.collector_hpke_config.as_str().as_bytes()) {
        Some(v) => v,
        None => {
            return Err(AddTaskError::InvalidHpkeConfigText);
        },
    };
    let collector_hpke_config = match HpkeConfig::decode(hpke_text.as_slice()) {
        Some(v) => v,
        None => {
            return Err(AddTaskError::InvalidHpkeConfig);
        },
    };
    Ok(ReadTask { task_id, vdaf, dp_config, vdaf_verify_key, collector_hpke_config })
}

/// How far the adding of a task has come.
#[derive(Clone, Copy, Debug, PartialEq, Eq, Structural)]
pub enum AddTaskProgress {
    /// Nothing has been stored.
    Begin,
    /// The leader token was offered to storage; `existed` says that one was
    /// there already.
    LeaderTokenStored { existed: bool },
    /// The collector token was offered to storage.
    CollectorTokenStored { existed: bool },
    /// The configuration was offered to storage.
    TaskStored { existed: bool },
}

/// What is to be done next to add a task.
#[derive(Debug)]
pub enum AddTaskAction {
    /// Store the command's leader token for the task, unless one exists.
    StoreLeaderToken { task_id: TaskId },
    /// Store the command's collector token for the task, unless one
    /// exists.
    StoreCollectorToken { task_id: TaskId },
    /// Store the configuration for the task, unless one exists.
    StoreTask { task_id: TaskId, config: DapTaskConfig },
    /// The task is added.
    Done,
    /// The task is not added.
    Fail(AddTaskError),
}

/// What is to be done next, as plain values.
pub enum NextStep {
    StoreLeaderToken,
    StoreCollectorToken,
    StoreTask(DapQueryConfig),
    Done,
    Fail(AddTaskError),
}

/// The step that stores the configuration, or the reason why the query
/// type stands in the way.
pub open spec fn store_task_step(cmd: InternalTestAddTask) -> NextStep {
    match query_of(cmd.query_type, cmd.max_batch_size) {
        Ok(query) => NextStep::StoreTask(query),
        Err(e) => NextStep::Fail(e),
    }
}

/// What is to be done next to add a task. The command is read first; then
/// the leader token is stored, then the collector token where the command
/// is for a leader, then the configuration; whatever exists already, or
/// does not suit the role, ends the adding.
pub open spec fn next_step(cmd: InternalTestAddTask, progress: AddTaskProgress) -> NextStep {
    match validated(cmd) {
        Err(e) => NextStep::Fail(e),
        Ok(_) => match progress {
            AddTaskProgress::Begin => NextStep::StoreLeaderToken,
            AddTaskProgress::LeaderTokenStored { existed } => if existed {
                NextStep::Fail(AddTaskError::LeaderTokenExists)
            } else {
                match (cmd.role, cmd.collector_authentication_token) {
                    (InternalTestRole::Leader, Some(_)) => NextStep::StoreCollectorToken,
                    (InternalTestRole::Leader, None) => NextStep::Fail(
                        AddTaskError::MissingCollectorToken,
                    ),
                    (InternalTestRole::Helper, None) => store_task_step(cmd),
                    (InternalTestRole::Helper, Some(_)) => NextStep::Fail(
                        AddTaskError::UnexpectedCollectorToken,
                    ),
                }
            },
            AddTaskProgress::CollectorTokenStored { existed } => if existed {
                NextStep::Fail(AddTaskError::CollectorTokenExists)
            } else {
                store_task_step(cmd)
            },
            AddTaskProgress::TaskStored { existed } => if existed {
                NextStep::Fail(AddTaskError::TaskExists)
            } else {
                NextStep::Done
            },
        },
    }
}

/// Whether a configuration is the one that a command describes.
pub open spec fn describes(
    cmd: InternalTestAddTask,
    version: DapVersion,
    query: DapQueryConfig,
    config: DapTaskConfig,
) -> bool {
    &&& validated(cmd) is Ok
    &&& config.version == version
    &&& config.leader_url@ == cmd.leader@
    &&& config.helper_url@ == cmd.helper@
    &&& config.time_precision == cmd.time_precision
    &&& config.expiration == cmd.task_expiration
    &&& config.min_batch_size == cmd.min_batch_size
    &&& config.query == query
    &&& config.vdaf == validated(cmd)->Ok_0.vdaf
    &&& config.dp_config == validated(cmd)->Ok_0.dp_config
    &&& config.vdaf_verify_key@ == validated(cmd)->Ok_0.vdaf_verify_key
    &&& config.collector_hpke_config@ == validated(cmd)->Ok_0.collector_hpke_config
    &&& !config.taskprov
}

/// Whether an action is a step, for the task and the configuration that
/// the command describes.
pub open spec fn action_is(
    action: AddTaskAction,
    step: NextStep,
    cmd: InternalTestAddTask,
    version: DapVersion,
) -> bool {
    match step {
        NextStep::StoreLeaderToken => action matches AddTaskAction::StoreLeaderToken { task_id }
            && validated(cmd) is Ok && task_id@ == validated(cmd)->Ok_0.task_id,
        NextStep::StoreCollectorToken => action matches AddTaskAction::StoreCollectorToken {
            task_id,
        } && validated(cmd) is Ok && task_id@ == validated(cmd)->Ok_0.task_id,
        NextStep::StoreTask(query) => action matches AddTaskAction::StoreTask { task_id, config }
            && describes(cmd, version, query, config) && task_id@ == validated(
            cmd,
        )->Ok_0.task_id,
        NextStep::Done => action is Done,
        NextStep::Fail(e) => action matches AddTaskAction::Fail(f) && f == e,
    }
}

/// The step that stores the configuration.
fn store_task(version: DapVersion, cmd: &InternalTestAddTask, task: ReadTask) -> (r: AddTaskAction)
    requires
        validated(*cmd) == Ok::<ValidTask, AddTaskError>(task@),
    ensures
        action_is(r, store_task_step(*cmd), *cmd, version),
{
    match read_query(cmd.query_type, cmd.max_batch_size) {
        Err(e) => AddTaskAction::Fail(e),
        Ok(query) => {
            let ReadTask { task_id, vdaf, dp_config, vdaf_verify_key, collector_hpke_config } = task;
            AddTaskAction::StoreTask {
                task_id,
                config: DapTaskConfig {
                    version,
                    leader_url: cmd.leader.clone(),
                    helper_url: cmd.helper.clone(),
                    time_precision: cmd.time_precision,
                    expiration: cmd.task_expiration,
                    min_batch_size: cmd.min_batch_size,
                    query,
                    vdaf,
                    dp_config,
                    vdaf_verify_key,
                    collector_hpke_config,
                    taskprov: false,
                },
            }
        },
    }
}

/// Says what is to be done next to add a task, from the command and from
/// how far the adding has come.
pub fn internal_add_task(version: DapVersion, cmd: &InternalTestAddTask, progress: AddTaskProgress) -> (r:
    AddTaskAction)
    ensures
        action_is(r, next_step(*cmd, progress), *cmd, version),
{
    let task = match validate(cmd) {
        Ok(task) => task,
        Err(e) => {
            return AddTaskAction::Fail(e);
        },
    };
    match progress {
        AddTaskProgress::Begin => AddTaskAction::StoreLeaderToken { task_id: task.task_id },
        AddTaskProgress::LeaderTokenStored { existed } => {
            if existed {
                return AddTaskAction::Fail(AddTaskError::LeaderTokenExists);
            }
            match (cmd.role, &cmd.collector_authentication_token) {
                (InternalTestRole::Leader, Some(_)) => AddTaskAction::StoreCollectorToken {
                    task_id: task.task_id,
                },
                (InternalTestRole::Leader, None) => AddTaskAction::Fail(
                    AddTaskError::MissingCollectorToken,
                ),
                (InternalTestRole::Helper, None) => store_task(version, cmd, task),
                (InternalTestRole::Helper, Some(_)) => AddTaskAction::Fail(
                    AddTaskError::UnexpectedCollectorToken,
                ),
            }
        },
        AddTaskProgress::CollectorTokenStored { existed } => {
            if existed {
                AddTaskAction::Fail(AddTaskError::CollectorTokenExists)
            } else {
                store_task(version, cmd, task)
            }
        },
        AddTaskProgress::TaskStored { existed } => {
            if existed {
                AddTaskAction::Fail(AddTaskError::TaskExists)
            } else {
                AddTaskAction::Done
            }
        },
    }
}

/// A receiver's HPKE configuration: what is advertised, and the private
/// key that opens what is sealed to it.
#[derive(Debug)]
pub struct HpkeReceiverConfig {
    pub config: HpkeConfig,
    pub private_key: Vec<u8>,
}

/// Whether a list holds a configuration with the given identifier.
pub open spec fn holds_id(list: Seq<HpkeReceiverConfig>, id: u8) -> bool {
    exists|i: int| 0 <= i < list.len() && (#[trigger] list[i]).config.id == id
}

/// Adds a receiver configuration to those of a version, behind the others.
/// An identifier that the list holds already is refused, and handed back.
pub fn internal_add_hpke_config(
    config_list: Vec<HpkeReceiverConfig>,
    new_receiver: HpkeReceiverConfig,
) -> (r: Result<Vec<HpkeReceiverConfig>, u8>)
    ensures
        match r {
            Ok(list) => !holds_id(config_list@, new_receiver.config.id) && list@
                == config_list@.push(new_receiver),
            Err(id) => holds_id(config_list@, new_receiver.config.id) && id
                == new_receiver.config.id,
        },
{
    let mut i: usize = 0;
    while i < config_list.len()
        invariant
            i <= config_list@.len(),
            forall|k: int| 0 <= k < i ==> (#[trigger] config_list@[k]).config.id
                != new_receiver.config.id,
        decreases config_list@.len() - i,
    {
        if config_list[i].config.id == new_receiver.config.id {
            return Err(new_receiver.config.id);
        }
        i += 1;
    }
    let mut list = config_list;
    list.push(new_receiver);
    Ok(list)
}

/// The command that asks for the endpoint of a task.
#[derive(Clone, Copy, Debug)]
pub struct InternalTestEndpointForTask {
    pub role: InternalTestRole,
}

/// What is answered to a command that asks for the endpoint of a task.
#[derive(Debug)]
pub enum EndpointReply {
    /// The command is meant for the other role.
    RoleMismatch,
    /// The endpoint: the path of the base address, then the version, then
    /// a slash.
    Endpoint(String),
    /// No base address is configured.
    NotConfigured,
}

/// The text that names a version in a path.
pub open spec fn version_name(version: DapVersion) -> Seq<char> {
    match version {
        DapVersion::Draft02 => "v02"@,
        _ => "v05"@,
    }
}

/// Whether a command is meant for the role that the aggregator has.
pub open spec fn role_matches(is_leader: bool, role: InternalTestRole) -> bool {
    is_leader == (role == InternalTestRole::Leader)
}

/// Answers a command that asks for the endpoint of a task.
pub fn internal_endpoint_for_task(
    config: &DaphneWorkerConfig,
    version: DapVersion,
    cmd: InternalTestEndpointForTask,
) -> (r: EndpointReply)
    requires
        version != DapVersion::Unknown,
    ensures
        if !role_matches(config.is_leader, cmd.role) {
            r is RoleMismatch
        } else if config.base_url.is_none() {
            r is NotConfigured
        } else {
            r matches EndpointReply::Endpoint(endpoint) && endpoint@
                == config.base_url.unwrap().path@ + version_name(version) + "/"@
        },
{
    let for_leader = match cmd.role {
        InternalTestRole::Leader => true,
        InternalTestRole::Helper => false,
    };
    if config.is_leader != for_leader {
        return EndpointReply::RoleMismatch;
    }
    match &config.base_url {
        None => EndpointReply::NotConfigured,
        Some(url) => {
            let name = match version {
                DapVersion::Draft02 => "v02",
                _ => "v05",
            };
            let with_version = join_text(url.path.as_str(), name);
            EndpointReply::Endpoint(join_text(with_version.as_str(), "/"))
        },
    }
}

} // verus!
