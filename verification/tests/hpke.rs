use dap_aggregator::config::HpkeConfig;

fn config(public_key: Vec<u8>) -> HpkeConfig {
    HpkeConfig { id: 23, kem_id: 0x0020, kdf_id: 0x0001, aead_id: 0x0102, public_key }
}

#[test]
fn encode_writes_the_wire_form() {
    assert_eq!(
        config(vec![0xaa, 0xbb]).encode(),
        Some(vec![23, 0x00, 0x20, 0x00, 0x01, 0x01, 0x02, 0x00, 0x02, 0xaa, 0xbb])
    );
    assert_eq!(config(vec![]).encode(), Some(vec![23, 0, 0x20, 0, 1, 1, 2, 0, 0]));
    assert_eq!(config(vec![0; 0xffff]).encode().unwrap().len(), 0xffff + 9);
    assert_eq!(config(vec![0; 0x10000]).encode(), None);
}

#[test]
fn decode_reads_the_wire_form() {
    let decoded = HpkeConfig::decode(&[23, 0x00, 0x20, 0x00, 0x01, 0x01, 0x02, 0x00, 0x02, 0xaa, 0xbb]).unwrap();
    assert_eq!(decoded.id, 23);
    assert_eq!(decoded.kem_id, 0x20);
    assert_eq!(decoded.kdf_id, 1);
    assert_eq!(decoded.aead_id, 0x0102);
    assert_eq!(decoded.public_key, vec![0xaa, 0xbb]);
}

#[test]
fn decode_refuses_short_and_long_texts() {
    assert!(HpkeConfig::decode(&[]).is_none());
    assert!(HpkeConfig::decode(&[23, 0, 0x20, 0, 1, 1, 2, 0]).is_none());
    assert!(HpkeConfig::decode(&[23, 0, 0x20, 0, 1, 1, 2, 0, 2, 0xaa]).is_none());
    assert!(HpkeConfig::decode(&[23, 0, 0x20, 0, 1, 1, 2, 0, 1, 0xaa, 0xbb]).is_none());
    assert!(HpkeConfig::decode(&[23, 0, 0x20, 0, 1, 1, 2, 0, 0]).is_some());
}

#[test]
fn hpke_decode_undoes_encode() {
    for len in [0usize, 1, 32, 255, 256, 1000] {
        let original = config((0..len).map(|i| i as u8).collect());
        let decoded = HpkeConfig::decode(&original.encode().unwrap()).unwrap();
        assert_eq!(decoded.id, original.id);
        assert_eq!(decoded.kem_id, original.kem_id);
        assert_eq!(decoded.kdf_id, original.kdf_id);
        assert_eq!(decoded.aead_id, original.aead_id);
        assert_eq!(decoded.public_key, original.public_key);
    }
}

#[test]
fn list_of_one_is_prefixed_by_its_length() {
    assert_eq!(
        config(vec![0xaa]).encode_as_list(),
        Some(vec![0, 10, 23, 0x00, 0x20, 0x00, 0x01, 0x01, 0x02, 0x00, 0x01, 0xaa])
    );
    assert!(config(vec![0; 0xffff - 9]).encode_as_list().is_some());
    assert!(config(vec![0; 0xffff - 8]).encode_as_list().is_none());
    let copy = config(vec![1, 2]).duplicate();
    assert_eq!(copy.public_key, vec![1, 2]);
    assert_eq!(copy.id, 23);
}
