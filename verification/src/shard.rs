//! Mapping of reports to storage partitions: a keyed shard by report
//! identifier, and an epoch by report time.

use prio::codec::Decode;
use prio::vdaf::prg::{Prg, PrgSha3, Seed, SeedStream};
use vstd::prelude::*;
use vstd::utf8::encode_utf8;
use crate::messages::{ReportId, ReportMetadata, TaskId, Time};

verus! {

/// The first eight bytes that the cSHAKE128-based generator of the `prio`
/// crate puts out for a seed, a domain separation tag and a binder.
pub uninterp spec fn prg_sha3_prefix(seed: Seq<u8>, dst: Seq<u8>, binder: Seq<u8>) -> Seq<u8>;

/// Calls `PrgSha3::seed_stream` of the `prio` crate and fills eight bytes
/// from the stream. Trusted: the bytes are a function of seed, tag and
/// binder alone, named `prg_sha3_prefix`.
#[verifier::external_body]
pub(crate) fn prg_sha3_fill8(seed: &[u8; 16], dst: &[u8], binder: &[u8]) -> (r: [u8; 8])
    ensures
        r@ == prg_sha3_prefix(seed@, dst@, binder@),
{
    let seed = Seed::<16>::get_decoded(seed).unwrap();
    let mut out = [0u8; 8];
    PrgSha3::seed_stream(&seed, dst, binder).fill(&mut out);
    out
}

/// The number that eight bytes denote, most significant byte first.
pub open spec fn be_value(bytes: Seq<u8>) -> int {
    bytes[0] * 0x100_0000_0000_0000 + bytes[1] * 0x1_0000_0000_0000 + bytes[2] * 0x100_0000_0000
        + bytes[3] * 0x1_0000_0000 + bytes[4] * 0x100_0000 + bytes[5] * 0x1_0000 + bytes[6] * 0x100
        + bytes[7]
}

/// Reads eight bytes as a number, most significant byte first.
pub fn be_u64(bytes: &[u8; 8]) -> (r: u64)
    ensures
        r == be_value(bytes@),
{
    let b0: u64 = bytes[0] as u64;
    let b1: u64 = bytes[1] as u64;
    let b2: u64 = bytes[2] as u64;
    let b3: u64 = bytes[3] as u64;
    let b4: u64 = bytes[4] as u64;
    let b5: u64 = bytes[5] as u64;
    let b6: u64 = bytes[6] as u64;
    let b7: u64 = bytes[7] as u64;
    b0 * 0x100_0000_0000_0000 + b1 * 0x1_0000_0000_0000 + b2 * 0x100_0000_0000 + b3
        * 0x1_0000_0000 + b4 * 0x100_0000 + b5 * 0x1_0000 + b6 * 0x100 + b7
}

/// The tag under which report identifiers are mapped to shards.
pub open spec fn shard_tag() -> Seq<u8> {
    encode_utf8("report shard"@)
}

/// The seed of the generator: the first half of the shard key.
pub open spec fn shard_seed(key: Seq<u8>) -> Seq<u8> {
    key.subrange(0, 16)
}

/// What the generator is bound to for a report: the second half of the
/// shard key, then the report's identifier.
pub open spec fn shard_binder(key: Seq<u8>, id: Seq<u8>) -> Seq<u8> {
    key.subrange(16, 32) + id
}

/// The shard of a report: the keyed pseudorandom number of its identifier,
/// reduced to the number of shards.
pub open spec fn shard_of(key: Seq<u8>, id: Seq<u8>, shard_count: u64) -> int {
    be_value(prg_sha3_prefix(shard_seed(key), shard_tag(), shard_binder(key, id))) % (
    shard_count as int)
}

/// The storage epoch in which a time lies: how many whole epochs have
/// passed before it.
pub open spec fn epoch_of(time: Time, epoch_duration: u64) -> int {
    (time as int) / (epoch_duration as int)
}

/// Whether a number is a power of two.
pub open spec fn is_power_of_two(n: nat) -> bool
    decreases n,
{
    n == 1 || (n > 1 && n % 2 == 0 && is_power_of_two(n / 2))
}

/// Decides whether a number is a power of two.
pub fn check_power_of_two(n: u64) -> (r: bool)
    ensures
        r == is_power_of_two(n as nat),
{
    let mut rest: u64 = n;
    while rest > 1 && rest % 2 == 0
        invariant
            is_power_of_two(rest as nat) == is_power_of_two(n as nat),
        decreases rest,
    {
        rest = rest / 2;
    }
    rest == 1
}

/// How reports are spread over storage partitions.
#[derive(Clone, Copy, Debug)]
pub struct ShardConfig {
    /// Key of the pseudorandom mapping from report identifiers to shards.
    pub report_shard_key: [u8; 32],
    /// Number of shards; a power of two.
    pub report_shard_count: u64,
    /// Width of a storage epoch in seconds; not zero.
    pub report_storage_epoch_duration: u64,
}

impl ShardConfig {
    /// Whether the number of shards is a power of two and an epoch has a
    /// width.
    pub open spec fn wf(&self) -> bool {
        is_power_of_two(self.report_shard_count as nat) && self.report_storage_epoch_duration
            > 0
    }

    /// Checks that the number of shards is a power of two and that an
    /// epoch has a width.
    pub fn is_valid(&self) -> (r: bool)
        ensures
            r == self.wf(),
    {
        check_power_of_two(self.report_shard_count) && self.report_storage_epoch_duration > 0
    }

    /// The shard that holds a report identifier.
    pub fn shard(&self, id: &ReportId) -> (r: u64)
        requires
            self.report_shard_count > 0,
        ensures
            r == shard_of(self.report_shard_key@, id@, self.report_shard_count),
            r < self.report_shard_count,
    {
        let mut seed: [u8; 16] = [0u8; 16];
        let mut binder: Vec<u8> = Vec::new();
        let mut i: usize = 0;
        while i < 16
            invariant
                i <= 16,
                forall|k: int| 0 <= k < i ==> seed@[k] == self.report_shard_key@[k],
                binder@ =~= self.report_shard_key@.subrange(16, 16 + i),
            decreases 16 - i,
        {
            seed[i] = self.report_shard_key[i];
            binder.push(self.report_shard_key[16 + i]);
            i += 1;
        }
        let mut j: usize = 0;
        while j < 16
            invariant
                j <= 16,
                binder@ =~= self.report_shard_key@.subrange(16, 32) + id@.subrange(0, j as int),
            decreases 16 - j,
        {
            binder.push(id.bytes[j]);
            j += 1;
        }
        assert(seed@ =~= shard_seed(self.report_shard_key@));
        assert(id@.subrange(0, 16) =~= id@);
        let stream = prg_sha3_fill8(&seed, "report shard".as_bytes(), binder.as_slice());
        be_u64(&stream) % self.report_shard_count
    }

    /// The storage epoch of a report time.
    pub fn epoch(&self, time: Time) -> (r: u64)
        requires
            self.report_storage_epoch_duration > 0,
        ensures
            r == epoch_of(time, self.report_storage_epoch_duration),
            r == time / self.report_storage_epoch_duration,
    {
        time / self.report_storage_epoch_duration
    }

    /// The partition that stores a report of a task.
    pub fn partition(&self, task_id: &TaskId, metadata: &ReportMetadata) -> (r: Partition)
        requires
            self.wf(),
        ensures
            r@ == partition_of(*self, task_id@, metadata.id@, metadata.time),
    {
        Partition {
            task_id: *task_id,
            epoch: self.epoch(metadata.time),
            shard: self.shard(&metadata.id),
        }
    }
}

/// A storage partition: the unit in which replays are detected.
#[derive(Clone, Copy, Debug)]
pub struct Partition {
    pub task_id: TaskId,
    pub epoch: u64,
    pub shard: u64,
}

/// A partition as plain values.
pub struct PartitionKey {
    pub task_id: Seq<u8>,
    pub epoch: int,
    pub shard: int,
}

impl View for Partition {
    type V = PartitionKey;

    open spec fn view(&self) -> PartitionKey {
        PartitionKey { task_id: self.task_id@, epoch: self.epoch as int, shard: self.shard as int }
    }
}

impl Partition {
    /// Whether two partitions are the same one.
    pub fn same(&self, other: &Partition) -> (r: bool)
        ensures
            r == (self@ == other@),
    {
        self.epoch == other.epoch && self.shard == other.shard && self.task_id.same(&other.task_id)
    }
}

/// The partition of a report, from the sharding parameters, the task and
/// the report's identifier and time.
pub open spec fn partition_of(config: ShardConfig, task_id: Seq<u8>, id: Seq<u8>, time: Time) -> PartitionKey {
    PartitionKey {
        task_id,
        epoch: epoch_of(time, config.report_storage_epoch_duration),
        shard: shard_of(config.report_shard_key@, id, config.report_shard_count),
    }
}

/// A report's shard is fixed by the shard key, the number of shards and the
/// report's identifier: neither the report's time nor the width of an epoch
/// has a part in it.
pub proof fn lemma_shard_stable(
    a: ShardConfig,
    b: ShardConfig,
    task_a: Seq<u8>,
    task_b: Seq<u8>,
    id: Seq<u8>,
    time_a: Time,
    time_b: Time,
)
    requires
        a.report_shard_key@ == b.report_shard_key@,
        a.report_shard_count == b.report_shard_count,
    ensures
        partition_of(a, task_a, id, time_a).shard == partition_of(b, task_b, id, time_b).shard,
{
}

} // verus!
