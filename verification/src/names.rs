//! Names of storage partitions.

use vstd::prelude::*;
use vstd::utf8::encode_utf8;
use crate::config::DaphneWorkerConfig;
use crate::messages::{DapVersion, ReportMetadata, TaskId};
use crate::shard::{epoch_of, shard_of, ShardConfig};
use crate::task::DapTaskConfig;
use crate::text::{
    decimal_text, hex_encode, hex_text, padded_decimal_text, render_padded_u64, render_u64,
};

verus! {

/// Appends a byte string to another.
pub fn append_bytes(out: &mut Vec<u8>, more: &[u8])
    ensures
        final(out)@ == old(out)@ + more@,
{
    let mut i: usize = 0;
    while i < more.len()
        invariant
            i <= more@.len(),
            out@ =~= old(out)@ + more@.subrange(0, i as int),
        decreases more@.len() - i,
    {
        out.push(more[i]);
        i += 1;
    }
    assert(more@.subrange(0, i as int) =~= more@);
}

/// The path segment that names a version.
pub open spec fn version_text(version: DapVersion) -> Seq<u8> {
    match version {
        DapVersion::Draft02 => encode_utf8("v02"@),
        DapVersion::Draft05 => encode_utf8("v05"@),
        DapVersion::Unknown => Seq::empty(),
    }
}

/// The name of what is stored for a task as a whole.
pub open spec fn task_name(version: DapVersion, task_id_hex: Seq<u8>) -> Seq<u8> {
    version_text(version) + encode_utf8("/task/"@) + task_id_hex
}

/// The name of the partition that stores the reports of a task for an
/// epoch and a shard; the epoch is written with twenty digits.
pub open spec fn report_store_name(version: DapVersion, task_id_hex: Seq<u8>, epoch: u64, shard: u64) -> Seq<
    u8,
> {
    task_name(version, task_id_hex) + encode_utf8("/epoch/"@) + padded_decimal_text(
        epoch as nat,
        20,
    ) + encode_utf8("/shard/"@) + decimal_text(shard as nat)
}

/// Writes the path segment that names a version.
pub fn version_as_bytes(version: DapVersion) -> (r: Vec<u8>)
    requires
        version != DapVersion::Unknown,
    ensures
        r@ == version_text(version),
{
    let mut out: Vec<u8> = Vec::new();
    match version {
        DapVersion::Draft02 => {
            append_bytes(&mut out, "v02".as_bytes());
        },
        _ => {
            append_bytes(&mut out, "v05".as_bytes());
        },
    }
    out
}

/// Writes the name of what is stored for a task as a whole.
pub fn durable_name_task(version: DapVersion, task_id_hex: &[u8]) -> (r: Vec<u8>)
    requires
        version != DapVersion::Unknown,
    ensures
        r@ == task_name(version, task_id_hex@),
{
    let mut out = version_as_bytes(version);
    append_bytes(&mut out, "/task/".as_bytes());
    append_bytes(&mut out, task_id_hex);
    out
}

/// Writes the name of the partition that stores the reports of a task for
/// an epoch and a shard.
pub fn durable_name_report_store(version: DapVersion, task_id_hex: &[u8], epoch: u64, shard: u64) -> (r:
    Vec<u8>)
    requires
        version != DapVersion::Unknown,
    ensures
        r@ == report_store_name(version, task_id_hex@, epoch, shard),
{
    let mut out = durable_name_task(version, task_id_hex);
    append_bytes(&mut out, "/epoch/".as_bytes());
    let epoch_text = render_padded_u64(epoch, 20);
    append_bytes(&mut out, epoch_text.as_slice());
    append_bytes(&mut out, "/shard/".as_bytes());
    let shard_text = render_u64(shard);
    append_bytes(&mut out, shard_text.as_slice());
    out
}

impl TaskId {
    /// This identifier in hexadecimal.
    pub fn to_hex(&self) -> (r: Vec<u8>)
        ensures
            r@ == hex_text(self@),
    {
        hex_encode(self.bytes.as_slice())
    }
}

impl DaphneWorkerConfig {
    /// How the configuration spreads reports over partitions.
    pub open spec fn sharding(&self) -> ShardConfig {
        ShardConfig {
            report_shard_key: self.report_shard_key,
            report_shard_count: self.report_shard_count,
            report_storage_epoch_duration: self.global.report_storage_epoch_duration,
        }
    }

    /// How the configuration spreads reports over partitions.
    pub fn shard_config(&self) -> (r: ShardConfig)
        ensures
            r == self.sharding(),
    {
        ShardConfig {
            report_shard_key: self.report_shard_key,
            report_shard_count: self.report_shard_count,
            report_storage_epoch_duration: self.global.report_storage_epoch_duration,
        }
    }

    /// The name of the partition that stores a report of a task: the one
    /// of the report's shard, by its identifier, and of the epoch of its
    /// time.
    pub fn durable_name_report_store(
        &self,
        task_config: &DapTaskConfig,
        task_id_hex: &[u8],
        metadata: &ReportMetadata,
    ) -> (r: Vec<u8>)
        requires
            self.sharding().wf(),
            task_config.version != DapVersion::Unknown,
        ensures
            r@ == report_store_name(
                task_config.version,
                task_id_hex@,
                epoch_of(metadata.time, self.global.report_storage_epoch_duration) as u64,
                shard_of(self.report_shard_key@, metadata.id@, self.report_shard_count) as u64,
            ),
    {
        let sharding = self.shard_config();
        let shard = sharding.shard(&metadata.id);
        let epoch = sharding.epoch(metadata.time);
        durable_name_report_store(task_config.version, task_id_hex, epoch, shard)
    }
}

} // verus!
