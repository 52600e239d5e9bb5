//! URL-safe base64 without padding, the form in which identifiers travel
//! in paths and commands.

use vstd::prelude::*;

verus! {

/// The six bits that a symbol of the alphabet stands for.
pub open spec fn sextet_of(c: u8) -> Option<u8> {
    if 65 <= c <= 90 {
        Some((c - 65) as u8)
    } else if 97 <= c <= 122 {
        Some((c - 71) as u8)
    } else if 48 <= c <= 57 {
        Some((c + 4) as u8)
    } else if c == 45 {
        Some(62u8)
    } else if c == 95 {
        Some(63u8)
    } else {
        None
    }
}

/// The symbol of the alphabet that stands for six bits.
pub open spec fn symbol_of(v: int) -> u8 {
    if v < 26 {
        (v + 65) as u8
    } else if v < 52 {
        (v + 71) as u8
    } else if v < 62 {
        (v - 4) as u8
    } else if v == 62 {
        45u8
    } else {
        95u8
    }
}

/// The value of the symbol at a place of a text; 0 where it is none.
pub open spec fn value_at(text: Seq<u8>, k: int) -> int {
    if 0 <= k < text.len() && sextet_of(text[k]).is_some() {
        sextet_of(text[k]).unwrap() as int
    } else {
        0
    }
}

/// The number of bytes that a text of `n` symbols denotes.
pub open spec fn decoded_len(n: int) -> int {
    n / 4 * 3 + if n % 4 == 2 {
        1
    } else if n % 4 == 3 {
        2int
    } else {
        0
    }
}

/// Whether a text denotes bytes: every symbol is of the alphabet, the
/// length is not one more than a multiple of four, and the bits of the last
/// symbol that belong to no byte are zero.
pub open spec fn well_formed(text: Seq<u8>) -> bool {
    &&& text.len() % 4 != 1
    &&& forall|i: int| 0 <= i < text.len() ==> sextet_of(#[trigger] text[i]).is_some()
    &&& text.len() % 4 == 2 ==> value_at(text, text.len() - 1) % 16 == 0
    &&& text.len() % 4 == 3 ==> value_at(text, text.len() - 1) % 4 == 0
}

/// The byte at place `j` of what a text denotes: eight bits out of the two
/// symbols that hold them.
pub open spec fn decoded_byte(text: Seq<u8>, j: int) -> u8 {
    let g = j / 3 * 4;
    if j % 3 == 0 {
        (value_at(text, g) * 4 + value_at(text, g + 1) / 16) as u8
    } else if j % 3 == 1 {
        (value_at(text, g + 1) % 16 * 16 + value_at(text, g + 2) / 4) as u8
    } else {
        (value_at(text, g + 2) % 4 * 64 + value_at(text, g + 3)) as u8
    }
}

/// The bytes that a text denotes, if it denotes any.
pub open spec fn decoded(text: Seq<u8>) -> Option<Seq<u8>> {
    if well_formed(text) {
        Some(Seq::new(decoded_len(text.len() as int) as nat, |j: int| decoded_byte(text, j)))
    } else {
        None
    }
}

/// The byte at a place of a byte string; 0 behind its end.
pub open spec fn byte_at(bytes: Seq<u8>, k: int) -> int {
    if 0 <= k < bytes.len() {
        bytes[k] as int
    } else {
        0
    }
}

/// The number of symbols that denote `n` bytes.
pub open spec fn encoded_len(n: int) -> int {
    (n * 4 + 2) / 3
}

/// The symbol at place `k` of the text that denotes a byte string.
pub open spec fn encoded_symbol(bytes: Seq<u8>, k: int) -> u8 {
    let g = k / 4 * 3;
    if k % 4 == 0 {
        symbol_of(byte_at(bytes, g) / 4)
    } else if k % 4 == 1 {
        symbol_of(byte_at(bytes, g) % 4 * 16 + byte_at(bytes, g + 1) / 16)
    } else if k % 4 == 2 {
        symbol_of(byte_at(bytes, g + 1) % 16 * 4 + byte_at(bytes, g + 2) / 64)
    } else {
        symbol_of(byte_at(bytes, g + 2) % 64)
    }
}

/// The text that denotes a byte string.
pub open spec fn encoded(bytes: Seq<u8>) -> Seq<u8> {
    Seq::new(encoded_len(bytes.len() as int) as nat, |k: int| encoded_symbol(bytes, k))
}

/// Reads one symbol.
fn sextet(c: u8) -> (r: Option<u8>)
    ensures
        r == sextet_of(c),
        r.is_some() ==> r.unwrap() < 64,
{
    if 65 <= c && c <= 90 {
        Some(c - 65)
    } else if 97 <= c && c <= 122 {
        Some(c - 71)
    } else if 48 <= c && c <= 57 {
        Some(c + 4)
    } else if c == 45 {
        Some(62)
    } else if c == 95 {
        Some(63)
    } else {
        None
    }
}

/// Writes one symbol.
fn symbol(v: u8) -> (r: u8)
    requires
        v < 64,
    ensures
        r == symbol_of(v as int),
        sextet_of(r) == Some(v),
{
    if v < 26 {
        v + 65
    } else if v < 52 {
        v + 71
    } else if v < 62 {
        v - 4
    } else if v == 62 {
        45
    } else {
        95
    }
}

/// The value of the symbol at a place of a text whose symbols are all of
/// the alphabet.
fn value(text: &[u8], k: usize) -> (r: u8)
    requires
        k < text@.len(),
        sextet_of(text@[k as int]).is_some(),
    ensures
        r == value_at(text@, k as int),
        r < 64,
{
    match sextet(text[k]) {
        Some(v) => v,
        None => 0,
    }
}

/// Decodes URL-safe base64 without padding.
pub fn decode(text: &[u8]) -> (r: Option<Vec<u8>>)
    ensures
        match r {
            Some(bytes) => decoded(text@) == Some(bytes@),
            None => decoded(text@).is_none(),
        },
{
    let n = text.len();
    if n % 4 == 1 {
        return None;
    }
    let mut i: usize = 0;
    while i < n
        invariant
            i <= n,
            n == text@.len(),
            forall|k: int| 0 <= k < i ==> sextet_of(#[trigger] text@[k]).is_some(),
        decreases n - i,
    {
        if sextet(text[i]).is_none() {
            return None;
        }
        i += 1;
    }
    if n % 4 == 2 && value(text, n - 1) % 16 != 0 {
        return None;
    }
    if n % 4 == 3 && value(text, n - 1) % 4 != 0 {
        return None;
    }
    assert(well_formed(text@));
    let len: usize = n / 4 * 3 + if n % 4 == 2 {
        1
    } else if n % 4 == 3 {
        2
    } else {
        0
    };
    let mut out: Vec<u8> = Vec::new();
    let mut j: usize = 0;
    while j < len
        invariant
            j <= len,
            n == text@.len(),
            len == decoded_len(n as int),
            forall|k: int| 0 <= k < n ==> sextet_of(#[trigger] text@[k]).is_some(),
            out@.len() == j,
            forall|k: int| 0 <= k < j ==> out@[k] == decoded_byte(text@, k),
        decreases len - j,
    {
        let g: usize = j / 3 * 4;
        let byte: u8 = if j % 3 == 0 {
            value(text, g) * 4 + value(text, g + 1) / 16
        } else if j % 3 == 1 {
            value(text, g + 1) % 16 * 16 + value(text, g + 2) / 4
        } else {
            value(text, g + 2) % 4 * 64 + value(text, g + 3)
        };
        out.push(byte);
        j += 1;
    }
    assert(out@ =~= decoded(text@).unwrap());
    Some(out)
}

/// The byte at a place of a byte string; 0 behind its end.
fn byte(bytes: &[u8], k: usize) -> (r: u8)
    ensures
        r == byte_at(bytes@, k as int),
{
    if k < bytes.len() {
        bytes[k]
    } else {
        0
    }
}

/// Encodes as URL-safe base64 without padding.
pub fn encode(bytes: &[u8]) -> (r: Vec<u8>)
    requires
        bytes@.len() <= 0x3fff_ffff,
    ensures
        r@ == encoded(bytes@),
{
    let n = bytes.len();
    let len: usize = (n * 4 + 2) / 3;
    let mut out: Vec<u8> = Vec::new();
    let mut k: usize = 0;
    while k < len
        invariant
            k <= len,
            n == bytes@.len(),
            n <= 0x3fff_ffff,
            len == encoded_len(n as int),
            out@.len() == k,
            forall|i: int| 0 <= i < k ==> out@[i] == encoded_symbol(bytes@, i),
        decreases len - k,
    {
        let g: usize = k / 4 * 3;
        let v: u8 = if k % 4 == 0 {
            byte(bytes, g) / 4
        } else if k % 4 == 1 {
            byte(bytes, g) % 4 * 16 + byte(bytes, g + 1) / 16
        } else if k % 4 == 2 {
            byte(bytes, g + 1) % 16 * 4 + byte(bytes, g + 2) / 64
        } else {
            byte(bytes, g + 2) % 64
        };
        out.push(symbol(v));
        k += 1;
    }
    assert(out@ =~= encoded(bytes@));
    out
}

/// The six bits that stand behind the symbol for six bits are those six.
pub proof fn lemma_symbol_value(v: int)
    requires
        0 <= v < 64,
    ensures
        sextet_of(symbol_of(v)) == Some(v as u8),
{
}

/// The six bits at a place of the text that denotes a byte string.
pub open spec fn encoded_value(bytes: Seq<u8>, k: int) -> int {
    let g = k / 4 * 3;
    if k % 4 == 0 {
        byte_at(bytes, g) / 4
    } else if k % 4 == 1 {
        byte_at(bytes, g) % 4 * 16 + byte_at(bytes, g + 1) / 16
    } else if k % 4 == 2 {
        byte_at(bytes, g + 1) % 16 * 4 + byte_at(bytes, g + 2) / 64
    } else {
        byte_at(bytes, g + 2) % 64
    }
}

/// Every symbol of the text that denotes a byte string is of the alphabet,
/// and stands for the six bits that were put there.
pub proof fn lemma_encoded_value(bytes: Seq<u8>, k: int)
    requires
        0 <= k < encoded_len(bytes.len() as int),
    ensures
        sextet_of(encoded(bytes)[k]).is_some(),
        value_at(encoded(bytes), k) == encoded_value(bytes, k),
        0 <= encoded_value(bytes, k) < 64,
{
    assert(encoded(bytes)[k] == encoded_symbol(bytes, k));
    assert(0 <= encoded_value(bytes, k) < 64);
    lemma_symbol_value(encoded_value(bytes, k));
    assert(encoded_symbol(bytes, k) == symbol_of(encoded_value(bytes, k)));
}

/// Eight bits that are split over two symbols come together again.
pub proof fn lemma_bits_rejoin(a: int, b: int, c: int)
    requires
        0 <= a < 256,
        0 <= b < 256,
        0 <= c < 256,
    ensures
        (a / 4) * 4 + (a % 4 * 16 + b / 16) / 16 == a,
        (a % 4 * 16 + b / 16) % 16 * 16 + (b % 16 * 4 + c / 64) / 4 == b,
        (b % 16 * 4 + c / 64) % 4 * 64 + c % 64 == c,
{
}

/// The byte at a place of what the text of a byte string denotes is the
/// byte at that place of the byte string.
pub proof fn lemma_decoded_byte(bytes: Seq<u8>, j: int)
    requires
        0 <= j < bytes.len(),
    ensures
        decoded_byte(encoded(bytes), j) == bytes[j],
{
    let text = encoded(bytes);
    let g = j / 3 * 4;
    let n = bytes.len() as int;
    assert(g + 1 < encoded_len(n));
    lemma_encoded_value(bytes, g);
    lemma_encoded_value(bytes, g + 1);
    if j % 3 == 0 {
        lemma_bits_rejoin(byte_at(bytes, j), byte_at(bytes, j + 1), byte_at(bytes, j + 2));
    } else if j % 3 == 1 {
        assert(g + 2 < encoded_len(n));
        lemma_encoded_value(bytes, g + 2);
        lemma_bits_rejoin(byte_at(bytes, j - 1), byte_at(bytes, j), byte_at(bytes, j + 1));
    } else {
        assert(g + 3 < encoded_len(n));
        lemma_encoded_value(bytes, g + 2);
        lemma_encoded_value(bytes, g + 3);
        lemma_bits_rejoin(byte_at(bytes, j - 2), byte_at(bytes, j - 1), byte_at(bytes, j));
    }
}

/// The text that denotes a byte string is well formed.
pub proof fn lemma_encoded_well_formed(bytes: Seq<u8>)
    ensures
        well_formed(encoded(bytes)),
        decoded_len(encoded(bytes).len() as int) == bytes.len(),
{
    let text = encoded(bytes);
    let n = bytes.len() as int;
    assert(text.len() == encoded_len(n));
    assert forall|i: int| 0 <= i < text.len() implies sextet_of(#[trigger] text[i]).is_some() by {
        lemma_encoded_value(bytes, i);
    }
    if text.len() > 0 {
        lemma_encoded_value(bytes, text.len() - 1);
    }
}

/// Decoding undoes encoding: the text that denotes a byte string is well
/// formed and denotes that byte string.
pub proof fn lemma_decode_encode(bytes: Seq<u8>)
    ensures
        decoded(encoded(bytes)) == Some(bytes),
{
    lemma_encoded_well_formed(bytes);
    let back = decoded(encoded(bytes)).unwrap();
    assert forall|j: int| 0 <= j < bytes.len() implies back[j] == bytes[j] by {
        lemma_decoded_byte(bytes, j);
    }
    assert(back =~= bytes);
}

/// Decodes URL-safe base64 without padding that denotes exactly `N` bytes.
pub fn decode_array<const N: usize>(text: &[u8]) -> (r: Option<[u8; N]>)
    ensures
        r.is_some() == (decoded(text@).is_some() && decoded(text@).unwrap().len() == N),
        r.is_some() ==> r.unwrap()@ == decoded(text@).unwrap(),
{
    match decode(text) {
        None => None,
        Some(bytes) => {
            if bytes.len() != N {
                return None;
            }
            let mut out: [u8; N] = [0u8; N];
            let mut i: usize = 0;
            while i < N
                invariant
                    bytes@.len() == N,
                    i <= N,
                    forall|k: int| 0 <= k < i ==> out@[k] == bytes@[k],
                decreases N - i,
            {
                out[i] = bytes[i];
                i += 1;
            }
            assert(out@ =~= bytes@);
            Some(out)
        },
    }
}

} // verus!
