use dap_aggregator::share::{
    copy_bytes, sum_data, xor_checksum, DapAggregateShare, VdafAggregateShare,
};

fn field64(values: &[u64]) -> Vec<u8> {
    values.iter().flat_map(|v| v.to_le_bytes()).collect()
}

fn share(count: u64, min: u64, max: u64, mark: u8, data: Option<VdafAggregateShare>) -> DapAggregateShare {
    DapAggregateShare { report_count: count, min_time: min, max_time: max, checksum: [mark; 32], data }
}

fn bytes_of(data: &Option<VdafAggregateShare>) -> Vec<u8> {
    match data {
        Some(VdafAggregateShare::Field64(b)) => b.clone(),
        Some(VdafAggregateShare::Field128(b)) => b.clone(),
        None => panic!("no payload"),
    }
}

#[test]
fn merge_adds_counts_payloads_and_checksums() {
    let own = share(2, 100, 200, 0x0f, Some(VdafAggregateShare::Field64(field64(&[5, 7]))));
    let delta = share(3, 50, 150, 0xf0, Some(VdafAggregateShare::Field64(field64(&[1, 2]))));
    let sum = own.merge(&delta).unwrap();
    assert_eq!(sum.report_count, 5);
    assert_eq!(sum.min_time, 50);
    assert_eq!(sum.max_time, 200);
    assert_eq!(sum.checksum, [0xff; 32]);
    assert_eq!(bytes_of(&sum.data), field64(&[6, 9]));
}

#[test]
fn merge_into_an_empty_share_takes_the_increment() {
    let delta = share(3, 50, 150, 0xf0, Some(VdafAggregateShare::Field64(field64(&[1, 2]))));
    let sum = DapAggregateShare::empty().merge(&delta).unwrap();
    assert_eq!(sum.report_count, 3);
    assert_eq!(sum.min_time, 50);
    assert_eq!(sum.max_time, 150);
    assert_eq!(sum.checksum, [0xf0; 32]);
    assert_eq!(bytes_of(&sum.data), field64(&[1, 2]));
}

#[test]
fn merge_of_an_empty_increment_keeps_the_range() {
    let own = share(2, 100, 200, 1, Some(VdafAggregateShare::Field64(field64(&[5]))));
    let sum = own.merge(&DapAggregateShare::empty()).unwrap();
    assert_eq!(sum.report_count, 2);
    assert_eq!(sum.min_time, 100);
    assert_eq!(sum.max_time, 200);
    assert_eq!(sum.checksum, [1; 32]);
    assert_eq!(bytes_of(&sum.data), field64(&[5]));
}

#[test]
fn merge_wraps_in_the_field() {
    // The 64-bit field has the modulus 2^64 - 2^32 + 1.
    let modulus: u64 = 0xffff_ffff_0000_0001;
    let own = share(1, 0, 0, 0, Some(VdafAggregateShare::Field64(field64(&[modulus - 1]))));
    let delta = share(1, 0, 0, 0, Some(VdafAggregateShare::Field64(field64(&[3]))));
    assert_eq!(bytes_of(&own.merge(&delta).unwrap().data), field64(&[2]));
}

#[test]
fn merge_over_the_wider_field() {
    let a: Vec<u8> = 5u128.to_le_bytes().to_vec();
    let b: Vec<u8> = 9u128.to_le_bytes().to_vec();
    let own = share(1, 0, 0, 0, Some(VdafAggregateShare::Field128(a)));
    let delta = share(1, 0, 0, 0, Some(VdafAggregateShare::Field128(b)));
    assert_eq!(bytes_of(&own.merge(&delta).unwrap().data), 14u128.to_le_bytes().to_vec());
}

#[test]
fn merge_refuses_what_cannot_be_added() {
    let own = share(1, 0, 0, 0, Some(VdafAggregateShare::Field64(field64(&[1, 2]))));
    let shorter = share(1, 0, 0, 0, Some(VdafAggregateShare::Field64(field64(&[1]))));
    assert!(own.merge(&shorter).is_none());
    let other_field = share(1, 0, 0, 0, Some(VdafAggregateShare::Field128(vec![0; 32])));
    assert!(own.merge(&other_field).is_none());
    let ragged = share(1, 0, 0, 0, Some(VdafAggregateShare::Field64(vec![1, 2, 3])));
    assert!(own.merge(&ragged).is_none());
    let too_large = share(1, 0, 0, 0, Some(VdafAggregateShare::Field64(vec![0xff; 16])));
    assert!(own.merge(&too_large).is_none());
    let full = share(u64::MAX, 0, 0, 0, None);
    assert!(full.merge(&share(1, 0, 0, 0, None)).is_none());
    assert_eq!(full.merge(&share(0, 0, 0, 0, None)).unwrap().report_count, u64::MAX);
}

#[test]
fn absorb_takes_the_payload_as_given() {
    let own = share(1, 10, 20, 3, None);
    let out = own
        .absorb(2, 5, 30, &[5; 32], Some(VdafAggregateShare::Field64(vec![9; 8])))
        .unwrap();
    assert_eq!(out.report_count, 3);
    assert_eq!(out.min_time, 5);
    assert_eq!(out.max_time, 30);
    assert_eq!(out.checksum, [6; 32]);
    assert_eq!(bytes_of(&out.data), vec![9; 8]);
    assert!(share(u64::MAX, 0, 0, 0, None).absorb(1, 0, 0, &[0; 32], None).is_none());
}

#[test]
fn sum_data_by_case() {
    let a = Some(VdafAggregateShare::Field64(field64(&[4])));
    let b = Some(VdafAggregateShare::Field64(field64(&[6])));
    assert!(sum_data(&None, &None).unwrap().is_none());
    assert_eq!(bytes_of(&sum_data(&a, &None).unwrap()), field64(&[4]));
    assert_eq!(bytes_of(&sum_data(&None, &b).unwrap()), field64(&[6]));
    assert_eq!(bytes_of(&sum_data(&a, &b).unwrap()), field64(&[10]));
}

#[test]
fn small_helpers() {
    assert_eq!(xor_checksum(&[0xaa; 32], &[0x0f; 32]), [0xa5; 32]);
    assert_eq!(copy_bytes(&vec![1, 2, 3]), vec![1, 2, 3]);
    let original = share(4, 1, 2, 7, Some(VdafAggregateShare::Field128(vec![1; 16])));
    let copy = original.duplicate();
    assert_eq!(copy.report_count, 4);
    assert_eq!(copy.checksum, [7; 32]);
    assert_eq!(bytes_of(&copy.data), vec![1; 16]);
}
