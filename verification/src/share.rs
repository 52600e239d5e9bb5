//! Aggregate shares: what one bucket has accumulated, and how an increment
//! is added to it.

use prio::field::{Field128, Field64, FieldElement};
use prio::vdaf::{Aggregatable, AggregateShare, OutputShare};
use vstd::prelude::*;
use crate::messages::Time;

verus! {

/// The encoded sum of two encoded vectors over the 64-bit field of the
/// `prio` crate; `None` where either is no such vector or their lengths
/// differ.
pub uninterp spec fn field64_sum(left: Seq<u8>, right: Seq<u8>) -> Option<Seq<u8>>;

/// The encoded sum of two encoded vectors over the 128-bit field of the
/// `prio` crate; `None` where either is no such vector or their lengths
/// differ.
pub uninterp spec fn field128_sum(left: Seq<u8>, right: Seq<u8>) -> Option<Seq<u8>>;

/// Decodes two vectors over `Field64`, calls `AggregateShare::merge` of the
/// `prio` crate on them and encodes the sum. Trusted: the outcome is a
/// function of the two encodings alone, named `field64_sum`.
#[verifier::external_body]
pub(crate) fn merge_field64(left: &[u8], right: &[u8]) -> (r: Option<Vec<u8>>)
    ensures
        r.is_some() == field64_sum(left@, right@).is_some(),
        r.is_some() ==> r.unwrap()@ == field64_sum(left@, right@).unwrap(),
{
    let mut sum = AggregateShare::from(OutputShare::from(Field64::byte_slice_into_vec(left).ok()?));
    let other = AggregateShare::from(OutputShare::from(Field64::byte_slice_into_vec(right).ok()?));
    sum.merge(&other).ok()?;
    Some(Field64::slice_into_byte_vec(sum.as_ref()))
}

/// Decodes two vectors over `Field128`, calls `AggregateShare::merge` of the
/// `prio` crate on them and encodes the sum. Trusted: the outcome is a
/// function of the two encodings alone, named `field128_sum`.
#[verifier::external_body]
pub(crate) fn merge_field128(left: &[u8], right: &[u8]) -> (r: Option<Vec<u8>>)
    ensures
        r.is_some() == field128_sum(left@, right@).is_some(),
        r.is_some() ==> r.unwrap()@ == field128_sum(left@, right@).unwrap(),
{
    let mut sum = AggregateShare::from(OutputShare::from(Field128::byte_slice_into_vec(left).ok()?));
    let other = AggregateShare::from(OutputShare::from(Field128::byte_slice_into_vec(right).ok()?));
    sum.merge(&other).ok()?;
    Some(Field128::slice_into_byte_vec(sum.as_ref()))
}

/// An encoded vector of field elements, tagged with its field.
#[derive(Debug)]
pub enum VdafAggregateShare {
    Field64(Vec<u8>),
    Field128(Vec<u8>),
}

/// An encoded vector of field elements as plain values.
pub enum VdafData {
    Field64(Seq<u8>),
    Field128(Seq<u8>),
}

impl View for VdafAggregateShare {
    type V = VdafData;

    open spec fn view(&self) -> VdafData {
        match self {
            VdafAggregateShare::Field64(bytes) => VdafData::Field64(bytes@),
            VdafAggregateShare::Field128(bytes) => VdafData::Field128(bytes@),
        }
    }
}

/// The view of payload that may be absent.
pub open spec fn data_view(data: Option<VdafAggregateShare>) -> Option<VdafData> {
    match data {
        Some(d) => Some(d@),
        None => None,
    }
}

/// The payload of a share after an increment is added: the share's own
/// where the increment is empty, the increment's where the share is empty,
/// their sum where both are vectors over one field. The outer `None` says
/// that the two cannot be added.
pub open spec fn summed_data(own: Option<VdafData>, delta: Option<VdafData>) -> Option<
    Option<VdafData>,
> {
    match (own, delta) {
        (_, None) => Some(own),
        (None, Some(_)) => Some(delta),
        (Some(VdafData::Field64(a)), Some(VdafData::Field64(b))) => match field64_sum(a, b) {
            Some(sum) => Some(Some(VdafData::Field64(sum))),
            None => None,
        },
        (Some(VdafData::Field128(a)), Some(VdafData::Field128(b))) => match field128_sum(a, b) {
            Some(sum) => Some(Some(VdafData::Field128(sum))),
            None => None,
        },
        _ => None,
    }
}

/// Copies a byte string.
pub fn copy_bytes(bytes: &Vec<u8>) -> (r: Vec<u8>)
    ensures
        r@ == bytes@,
{
    let mut out: Vec<u8> = Vec::new();
    let mut i: usize = 0;
    while i < bytes.len()
        invariant
            i <= bytes@.len(),
            out@ == bytes@.subrange(0, i as int),
        decreases bytes@.len() - i,
    {
        out.push(bytes[i]);
        assert(out@ =~= bytes@.subrange(0, i + 1));
        i += 1;
    }
    assert(out@ =~= bytes@);
    out
}

impl VdafAggregateShare {
    /// A copy of this payload.
    pub fn duplicate(&self) -> (r: VdafAggregateShare)
        ensures
            r@ == self@,
    {
        match self {
            VdafAggregateShare::Field64(bytes) => VdafAggregateShare::Field64(copy_bytes(bytes)),
            VdafAggregateShare::Field128(bytes) => VdafAggregateShare::Field128(copy_bytes(bytes)),
        }
    }
}

/// A copy of a payload that may be absent.
pub fn duplicate_data(data: &Option<VdafAggregateShare>) -> (r: Option<VdafAggregateShare>)
    ensures
        data_view(r) == data_view(*data),
{
    match data {
        Some(d) => Some(d.duplicate()),
        None => None,
    }
}

/// Adds the payload of an increment to the payload of a share.
pub fn sum_data(own: &Option<VdafAggregateShare>, delta: &Option<VdafAggregateShare>) -> (r: Option<
    Option<VdafAggregateShare>,
>)
    ensures
        match r {
            Some(data) => summed_data(data_view(*own), data_view(*delta)) == Some(data_view(data)),
            None => summed_data(data_view(*own), data_view(*delta)).is_none(),
        },
{
    match (own, delta) {
        (_, None) => Some(duplicate_data(own)),
        (None, Some(d)) => Some(Some(d.duplicate())),
        (Some(VdafAggregateShare::Field64(a)), Some(VdafAggregateShare::Field64(b))) => {
            match merge_field64(a.as_slice(), b.as_slice()) {
                Some(sum) => Some(Some(VdafAggregateShare::Field64(sum))),
                None => None,
            }
        },
        (Some(VdafAggregateShare::Field128(a)), Some(VdafAggregateShare::Field128(b))) => {
            match merge_field128(a.as_slice(), b.as_slice()) {
                Some(sum) => Some(Some(VdafAggregateShare::Field128(sum))),
                None => None,
            }
        },
        _ => None,
    }
}

/// Byte-wise exclusive or of two checksums.
pub open spec fn xor_bytes(a: Seq<u8>, b: Seq<u8>) -> Seq<u8> {
    Seq::new(32, |i: int| a[i] ^ b[i])
}

/// Folds one checksum into another.
pub fn xor_checksum(a: &[u8; 32], b: &[u8; 32]) -> (r: [u8; 32])
    ensures
        r@ == xor_bytes(a@, b@),
{
    let mut out: [u8; 32] = [0u8; 32];
    let mut i: usize = 0;
    while i < 32
        invariant
            i <= 32,
            forall|k: int| 0 <= k < i ==> out@[k] == a@[k] ^ b@[k],
        decreases 32 - i,
    {
        out[i] = a[i] ^ b[i];
        i += 1;
    }
    assert(out@ =~= xor_bytes(a@, b@));
    out
}

/// What a bucket has accumulated.
#[derive(Debug)]
pub struct DapAggregateShare {
    /// Number of reports in the share.
    pub report_count: u64,
    /// Earliest report time in the share; meaningless while it is empty.
    pub min_time: Time,
    /// Latest report time in the share; meaningless while it is empty.
    pub max_time: Time,
    /// Exclusive or of the checksums of the reports in the share.
    pub checksum: [u8; 32],
    /// Sum of the reports' output shares; `None` while the share is empty.
    pub data: Option<VdafAggregateShare>,
}

/// An aggregate share as plain values.
pub struct ShareView {
    pub report_count: int,
    pub min_time: int,
    pub max_time: int,
    pub checksum: Seq<u8>,
    pub data: Option<VdafData>,
}

impl View for DapAggregateShare {
    type V = ShareView;

    open spec fn view(&self) -> ShareView {
        ShareView {
            report_count: self.report_count as int,
            min_time: self.min_time as int,
            max_time: self.max_time as int,
            checksum: self.checksum@,
            data: data_view(self.data),
        }
    }
}

/// The share that has accumulated nothing.
pub open spec fn empty_share() -> ShareView {
    ShareView {
        report_count: 0,
        min_time: 0,
        max_time: 0,
        checksum: Seq::new(32, |i: int| 0u8),
        data: None,
    }
}

/// A share after an increment with the given summed payload is added:
/// counts add up, checksums are folded, and the time range widens to hold
/// both (an empty side has no range).
pub open spec fn absorbed(own: ShareView, delta: ShareView, data: Option<VdafData>) -> ShareView {
    ShareView {
        report_count: own.report_count + delta.report_count,
        min_time: if own.report_count == 0 {
            delta.min_time
        } else if delta.report_count > 0 && delta.min_time < own.min_time {
            delta.min_time
        } else {
            own.min_time
        },
        max_time: if own.report_count == 0 {
            delta.max_time
        } else if delta.report_count > 0 && delta.max_time > own.max_time {
            delta.max_time
        } else {
            own.max_time
        },
        checksum: xor_bytes(own.checksum, delta.checksum),
        data,
    }
}

/// What a share is after an increment is added; `None` where the payloads
/// cannot be added or the count of reports would not fit.
pub open spec fn merged(own: ShareView, delta: ShareView) -> Option<ShareView> {
    match summed_data(own.data, delta.data) {
        Some(data) => if own.report_count + delta.report_count <= u64::MAX {
            Some(absorbed(own, delta, data))
        } else {
            None
        },
        None => None,
    }
}

impl DapAggregateShare {
    /// A share that has accumulated nothing.
    pub fn empty() -> (r: DapAggregateShare)
        ensures
            r@ == empty_share(),
    {
        let r = DapAggregateShare {
            report_count: 0,
            min_time: 0,
            max_time: 0,
            checksum: [0u8; 32],
            data: None,
        };
        assert(r.checksum@ =~= Seq::new(32, |i: int| 0u8));
        r
    }

    /// A copy of this share.
    pub fn duplicate(&self) -> (r: DapAggregateShare)
        ensures
            r@ == self@,
    {
        DapAggregateShare {
            report_count: self.report_count,
            min_time: self.min_time,
            max_time: self.max_time,
            checksum: self.checksum,
            data: duplicate_data(&self.data),
        }
    }

    /// This share after an increment whose payload has already been summed
    /// with this share's: `data` is the new payload, the rest is combined.
    /// `None` where the count of reports would not fit.
    pub fn absorb(
        &self,
        delta_count: u64,
        delta_min_time: Time,
        delta_max_time: Time,
        delta_checksum: &[u8; 32],
        data: Option<VdafAggregateShare>,
    ) -> (r: Option<DapAggregateShare>)
        ensures
            r.is_some() == (self.report_count + delta_count <= u64::MAX),
            r.is_some() ==> r.unwrap()@ == absorbed(
                self@,
                ShareView {
                    report_count: delta_count as int,
                    min_time: delta_min_time as int,
                    max_time: delta_max_time as int,
                    checksum: delta_checksum@,
                    data: None,
                },
                data_view(data),
            ),
    {
        if delta_count > u64::MAX - self.report_count {
            return None;
        }
        let min_time = if self.report_count == 0 {
            delta_min_time
        } else if delta_count > 0 && delta_min_time < self.min_time {
            delta_min_time
        } else {
            self.min_time
        };
        let max_time = if self.report_count == 0 {
            delta_max_time
        } else if delta_count > 0 && delta_max_time > self.max_time {
            delta_max_time
        } else {
            self.max_time
        };
        Some(
            DapAggregateShare {
                report_count: self.report_count + delta_count,
                min_time,
                max_time,
                checksum: xor_checksum(&self.checksum, delta_checksum),
                data,
            },
        )
    }

    /// This share after an increment is added to it.
    pub fn merge(&self, delta: &DapAggregateShare) -> (r: Option<DapAggregateShare>)
        ensures
            match r {
                Some(share) => merged(self@, delta@) == Some(share@),
                None => merged(self@, delta@).is_none(),
            },
    {
        match sum_data(&self.data, &delta.data) {
            None => None,
            Some(sum) => self.absorb(
                delta.report_count,
                delta.min_time,
                delta.max_time,
                &delta.checksum,
                sum,
            ),
        }
    }
}

} // verus!
