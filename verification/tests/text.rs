use dap_aggregator::text::{
    decode_hex_key, parse_decimal, parse_u64, render_padded_u64, render_u64,
};

#[test]
fn parse_u64_reads_plain_digits() {
    assert_eq!(parse_u64(b"0"), Some(0));
    assert_eq!(parse_u64(b"32"), Some(32));
    assert_eq!(parse_u64(b"007"), Some(7));
    assert_eq!(parse_u64(b"+15"), Some(15));
    assert_eq!(parse_u64(b"18446744073709551615"), Some(u64::MAX));
}

#[test]
fn parse_u64_refuses_what_is_no_number() {
    assert_eq!(parse_u64(b""), None);
    assert_eq!(parse_u64(b"+"), None);
    assert_eq!(parse_u64(b"-1"), None);
    assert_eq!(parse_u64(b"12a"), None);
    assert_eq!(parse_u64(b" 12"), None);
    assert_eq!(parse_u64(b"1_000"), None);
    assert_eq!(parse_u64(b"18446744073709551616"), None);
    assert_eq!(parse_u64(b"99999999999999999999999"), None);
}

#[test]
fn parse_u64_agrees_with_std() {
    for text in ["0", "1", "+1", "++1", "", "+", "00", "4294967296", "18446744073709551615",
        "18446744073709551616", "x", "1x", "-0"] {
        assert_eq!(parse_u64(text.as_bytes()), text.parse::<u64>().ok(), "{}", text);
    }
}

#[test]
fn decode_hex_key_reads_sixteen_bytes() {
    let key = decode_hex_key::<16>(b"000102030405060708090a0B0c0D0e0F");
    assert_eq!(key, Some([0, 1, 2, 3, 4, 5, 6, 7, 8, 9, 10, 11, 12, 13, 14, 15]));
}

#[test]
fn decode_hex_key_refuses_wrong_length_and_digits() {
    assert_eq!(decode_hex_key::<16>(b"0001"), None);
    assert_eq!(decode_hex_key::<2>(b"000"), None);
    assert_eq!(decode_hex_key::<2>(b"00zz"), None);
    assert_eq!(decode_hex_key::<2>(b"ff10"), Some([255, 16]));
    assert_eq!(decode_hex_key::<0>(b""), Some([]));
}

#[test]
fn render_u64_writes_plain_digits() {
    assert_eq!(render_u64(0), b"0".to_vec());
    assert_eq!(render_u64(7), b"7".to_vec());
    assert_eq!(render_u64(1_209_600), b"1209600".to_vec());
    assert_eq!(render_u64(u64::MAX), b"18446744073709551615".to_vec());
    assert_eq!(render_padded_u64(1_209_600, 20), b"00000000000001209600".to_vec());
    assert_eq!(render_padded_u64(u64::MAX, 20), b"18446744073709551615".to_vec());
    assert_eq!(render_padded_u64(123, 2), b"123".to_vec());
    assert_eq!(render_padded_u64(0, 0), b"0".to_vec());
}

#[test]
fn parse_reads_back_what_render_wrote() {
    for n in [0u64, 1, 9, 10, 99, 100, 65_535, 4_294_967_296, u64::MAX - 1, u64::MAX] {
        assert_eq!(parse_u64(&render_u64(n)), Some(n));
    }
}

#[test]
fn parse_decimal_respects_its_bound() {
    assert_eq!(parse_decimal(b"255", 255), Some(255));
    assert_eq!(parse_decimal(b"256", 255), None);
    assert_eq!(parse_decimal(b"0", 0), Some(0));
    assert_eq!(parse_decimal(b"1", 0), None);
    assert_eq!(
        parse_decimal(b"340282366920938463463374607431768211455", u128::MAX),
        Some(u128::MAX)
    );
    assert_eq!(parse_decimal(b"340282366920938463463374607431768211456", u128::MAX), None);
}
