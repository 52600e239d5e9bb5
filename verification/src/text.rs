//! Reading numbers and hexadecimal keys out of configuration text.

use vstd::prelude::*;

verus! {

/// Whether `c` is an ASCII decimal digit.
pub open spec fn is_decimal_digit(c: u8) -> bool {
    48 <= c <= 57
}

/// The number written by a run of decimal digits, most significant first.
pub open spec fn decimal_value(digits: Seq<u8>) -> nat
    decreases digits.len(),
{
    if digits.len() == 0 {
        0
    } else {
        decimal_value(digits.drop_last()) * 10 + (digits.last() - 48) as nat
    }
}

/// The digits of a number as written: the text without one leading `+`.
pub open spec fn unsigned_digits(text: Seq<u8>) -> Seq<u8> {
    if text.len() > 0 && text[0] == 43 {
        text.subrange(1, text.len() as int)
    } else {
        text
    }
}

/// What a text denotes as a number no greater than `max`: an optional `+`,
/// then one or more decimal digits and nothing else, with a value within
/// the bound.
pub open spec fn parsed_decimal(text: Seq<u8>, max: u128) -> Option<u128> {
    let digits = unsigned_digits(text);
    if digits.len() > 0 && (forall|i: int| 0 <= i < digits.len() ==> is_decimal_digit(digits[i]))
        && decimal_value(digits) <= max {
        Some(decimal_value(digits) as u128)
    } else {
        None
    }
}

/// What a text denotes as an unsigned 64-bit number.
pub open spec fn parsed_u64(text: Seq<u8>) -> Option<u64> {
    match parsed_decimal(text, u64::MAX as u128) {
        Some(n) => Some(n as u64),
        None => None,
    }
}

/// A longer run of digits never denotes a smaller number.
pub proof fn lemma_decimal_value_monotonic(digits: Seq<u8>, k: int)
    requires
        0 <= k <= digits.len(),
        forall|i: int| 0 <= i < digits.len() ==> is_decimal_digit(digits[i]),
    ensures
        decimal_value(digits.subrange(0, k)) <= decimal_value(digits),
    decreases digits.len() - k,
{
    if k == digits.len() {
        assert(digits.subrange(0, k) =~= digits);
    } else {
        lemma_decimal_value_monotonic(digits, k + 1);
        let longer = digits.subrange(0, k + 1);
        assert(longer.drop_last() =~= digits.subrange(0, k));
    }
}

/// Parses an unsigned decimal number that is no greater than `max`.
pub fn parse_decimal(text: &[u8], max: u128) -> (r: Option<u128>)
    ensures
        r == parsed_decimal(text@, max),
{
    let n = text.len();
    let start: usize = if n > 0 && text[0] == 43 {
        1
    } else {
        0
    };
    let ghost digits = unsigned_digits(text@);
    if start == n {
        return None;
    }
    let mut value: u128 = 0;
    let mut i: usize = start;
    while i < n
        invariant
            start <= i <= n,
            n == text@.len(),
            digits == unsigned_digits(text@),
            digits =~= text@.subrange(start as int, n as int),
            forall|k: int| 0 <= k < i - start ==> is_decimal_digit(digits[k]),
            value == decimal_value(digits.subrange(0, i - start)),
            value <= max,
        decreases n - i,
    {
        let c = text[i];
        let ghost prefix = digits.subrange(0, i - start + 1);
        proof {
            assert(digits[i - start] == c);
            assert(prefix.drop_last() =~= digits.subrange(0, i - start));
            assert(prefix.last() == c);
        }
        if c < 48 || c > 57 {
            assert(!is_decimal_digit(digits[i - start]));
            return None;
        }
        let d: u128 = (c - 48) as u128;
        if d > max || value > (max - d) / 10 {
            proof {
                assert(decimal_value(prefix) > max);
                if forall|k: int| 0 <= k < digits.len() ==> is_decimal_digit(digits[k]) {
                    lemma_decimal_value_monotonic(digits, i - start + 1);
                }
            }
            return None;
        }
        value = value * 10 + d;
        i += 1;
    }
    proof {
        assert(digits.subrange(0, n - start) =~= digits);
    }
    Some(value)
}

/// Parses an unsigned 64-bit decimal number.
pub fn parse_u64(text: &[u8]) -> (r: Option<u64>)
    ensures
        r == parsed_u64(text@),
{
    match parse_decimal(text, u64::MAX as u128) {
        Some(n) => Some(n as u64),
        None => None,
    }
}

/// The digits of a number, most significant first, without leading zeros.
pub open spec fn decimal_text(n: nat) -> Seq<u8>
    decreases n,
{
    if n < 10 {
        seq![(48 + n) as u8]
    } else {
        decimal_text(n / 10).push((48 + n % 10) as u8)
    }
}

/// Writes a number in decimal.
pub fn render_u64(n: u64) -> (r: Vec<u8>)
    ensures
        r@ == decimal_text(n as nat),
    decreases n,
{
    if n < 10 {
        let mut out: Vec<u8> = Vec::new();
        out.push(48 + n as u8);
        assert(out@ =~= decimal_text(n as nat));
        out
    } else {
        let mut out = render_u64(n / 10);
        out.push(48 + (n % 10) as u8);
        out
    }
}

/// A number in decimal, with zeros in front up to a width.
pub open spec fn padded_decimal_text(n: nat, width: nat) -> Seq<u8> {
    let digits = decimal_text(n);
    if digits.len() < width {
        Seq::new((width - digits.len()) as nat, |i: int| 48u8) + digits
    } else {
        digits
    }
}

/// Writes a number in decimal, with zeros in front up to a width.
pub fn render_padded_u64(n: u64, width: usize) -> (r: Vec<u8>)
    ensures
        r@ == padded_decimal_text(n as nat, width as nat),
{
    let digits = render_u64(n);
    let mut out: Vec<u8> = Vec::new();
    let zeros: usize = if digits.len() < width {
        width - digits.len()
    } else {
        0
    };
    let mut i: usize = 0;
    while i < zeros
        invariant
            i <= zeros,
            out@ =~= Seq::new(i as nat, |k: int| 48u8),
        decreases zeros - i,
    {
        out.push(48);
        i += 1;
    }
    let mut j: usize = 0;
    while j < digits.len()
        invariant
            j <= digits@.len(),
            out@ =~= Seq::new(zeros as nat, |k: int| 48u8) + digits@.subrange(0, j as int),
        decreases digits@.len() - j,
    {
        out.push(digits[j]);
        j += 1;
    }
    assert(digits@.subrange(0, j as int) =~= digits@);
    assert(out@ =~= padded_decimal_text(n as nat, width as nat));
    out
}

/// The digits of a number are digits, and denote the number.
pub proof fn lemma_decimal_text(n: nat)
    ensures
        decimal_text(n).len() > 0,
        forall|i: int| 0 <= i < decimal_text(n).len() ==> is_decimal_digit(decimal_text(n)[i]),
        decimal_value(decimal_text(n)) == n,
    decreases n,
{
    if n < 10 {
        let text = decimal_text(n);
        assert(text.drop_last() =~= Seq::<u8>::empty());
        assert(decimal_value(text.drop_last()) == 0);
    } else {
        lemma_decimal_text(n / 10);
        let text = decimal_text(n);
        assert(text.drop_last() =~= decimal_text(n / 10));
    }
}

/// Reading undoes writing: the digits of a number that fits in 64 bits are
/// read as that number.
pub proof fn lemma_parse_render(n: u64)
    ensures
        parsed_u64(decimal_text(n as nat)) == Some(n),
{
    lemma_decimal_text(n as nat);
    let text = decimal_text(n as nat);
    assert(is_decimal_digit(text[0]));
    assert(unsigned_digits(text) == text);
}

/// The value of one hexadecimal digit, in either case.
pub open spec fn hex_digit(c: u8) -> Option<u8> {
    if 48 <= c <= 57 {
        Some((c - 48) as u8)
    } else if 65 <= c <= 70 {
        Some((c - 55) as u8)
    } else if 97 <= c <= 102 {
        Some((c - 87) as u8)
    } else {
        None
    }
}

/// Whether a text is an even number of hexadecimal digits.
pub open spec fn hex_well_formed(text: Seq<u8>) -> bool {
    text.len() % 2 == 0 && forall|i: int| 0 <= i < text.len() ==> hex_digit(text[i]).is_some()
}

/// The bytes that a well-formed hexadecimal text denotes: one per pair of
/// digits, the first digit of a pair being the high half.
pub open spec fn hex_bytes(text: Seq<u8>) -> Seq<u8> {
    Seq::new(
        text.len() / 2,
        |i: int| (hex_digit(text[2 * i]).unwrap() * 16 + hex_digit(text[2 * i + 1]).unwrap()) as u8,
    )
}

/// What a hexadecimal text decodes to, if it is well formed.
pub open spec fn hex_decoded(text: Seq<u8>) -> Option<Seq<u8>> {
    if hex_well_formed(text) {
        Some(hex_bytes(text))
    } else {
        None
    }
}

/// Calls `hex::decode`. Trusted: the call succeeds exactly on an even number
/// of hexadecimal digits of either case, and then yields one byte per pair,
/// high digit first; the reason for a failure is dropped.
#[verifier::external_body]
pub(crate) fn hex_decode(text: &[u8]) -> (r: Option<Vec<u8>>)
    ensures
        r.is_some() == hex_well_formed(text@),
        r.is_some() ==> r.unwrap()@ == hex_bytes(text@),
{
    hex::decode(text).ok()
}

/// Decodes a hexadecimal key of exactly `N` bytes.
pub fn decode_hex_key<const N: usize>(text: &[u8]) -> (r: Option<[u8; N]>)
    ensures
        r.is_some() == (hex_well_formed(text@) && text@.len() == 2 * N),
        r.is_some() ==> r.unwrap()@ == hex_bytes(text@),
{
    match hex_decode(text) {
        None => None,
        Some(bytes) => {
            if bytes.len() != N {
                return None;
            }
            let mut key: [u8; N] = [0u8; N];
            let mut i: usize = 0;
            while i < N
                invariant
                    bytes@.len() == N,
                    i <= N,
                    forall|k: int| 0 <= k < i ==> key@[k] == bytes@[k],
                decreases N - i,
            {
                key[i] = bytes[i];
                i += 1;
            }
            assert(key@ =~= bytes@);
            Some(key)
        },
    }
}

/// The lower-case hexadecimal digit for a value below sixteen.
pub open spec fn hex_symbol(v: int) -> u8 {
    if v < 10 {
        (48 + v) as u8
    } else {
        (87 + v) as u8
    }
}

/// The hexadecimal text of a byte string: two lower-case digits per byte,
/// the high half first.
pub open spec fn hex_text(bytes: Seq<u8>) -> Seq<u8> {
    Seq::new(
        2 * bytes.len(),
        |i: int|
            if i % 2 == 0 {
                hex_symbol(bytes[i / 2] as int / 16)
            } else {
                hex_symbol(bytes[i / 2] as int % 16)
            },
    )
}

/// Calls `hex::encode`. Trusted: the text holds two lower-case hexadecimal
/// digits per byte, the high half first.
#[verifier::external_body]
pub(crate) fn hex_encode(bytes: &[u8]) -> (r: Vec<u8>)
    ensures
        r@ == hex_text(bytes@),
{
    hex::encode(bytes).into_bytes()
}

/// Decoding undoes encoding: the hexadecimal text of a byte string is well
/// formed and denotes the byte string.
pub proof fn lemma_hex_decode_encode(bytes: Seq<u8>)
    ensures
        hex_decoded(hex_text(bytes)) == Some(bytes),
{
    let text = hex_text(bytes);
    assert forall|i: int| 0 <= i < text.len() implies hex_digit(text[i]).is_some() by {}
    assert(hex_well_formed(text));
    assert forall|i: int| 0 <= i < bytes.len() implies hex_bytes(text)[i] == bytes[i] by {
        assert(text[2 * i] == hex_symbol(bytes[i] as int / 16));
        assert(text[2 * i + 1] == hex_symbol(bytes[i] as int % 16));
    }
    assert(hex_bytes(text) =~= bytes);
}

} // verus!
