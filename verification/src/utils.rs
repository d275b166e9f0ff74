//! The shared fixed-length byte-array machinery: hexadecimal encoding
//! and decoding with exact specifications, the hex round-trip laws, and
//! the small byte-vector helpers that every newtype wrapper delegates to.
use vstd::prelude::*;
use vstd::slice::slice_index_get;

use crate::types::{CryptoError, HexError};

verus! {

/// An ASCII byte that is a valid hexadecimal digit: `0-9`, `A-F` or `a-f`.
pub open spec fn is_hex_digit(c: u8) -> bool {
    (48 <= c && c <= 57) || (65 <= c && c <= 70) || (97 <= c && c <= 102)
}

/// The numeric value of a hexadecimal digit byte (case-insensitive).
pub open spec fn hex_val(c: u8) -> u8 {
    if 48 <= c && c <= 57 {
        (c - 48) as u8
    } else if 65 <= c && c <= 70 {
        (c - 55) as u8
    } else {
        (c - 87) as u8
    }
}

/// Every byte of `s` is a valid hexadecimal digit.
pub open spec fn all_hex_digits(s: Seq<u8>) -> bool {
    forall|i: int| 0 <= i < s.len() ==> is_hex_digit(s[i])
}

/// The bytes that an even-length sequence of hexadecimal digit bytes
/// denotes: byte `i` is read from the digit pair at positions `2i`,
/// `2i + 1`, high nibble first.
pub open spec fn hex_decode_spec(s: Seq<u8>) -> Seq<u8> {
    Seq::new((s.len() / 2) as nat, |i: int| (hex_val(s[2 * i]) * 16 + hex_val(s[2 * i + 1])) as u8)
}

/// The ASCII digit byte for a nibble `n < 16`, in the requested case.
pub open spec fn nibble_char(n: u8, upper: bool) -> u8 {
    if n < 10 {
        (n + 48) as u8
    } else if upper {
        (n + 55) as u8
    } else {
        (n + 87) as u8
    }
}

/// The hexadecimal encoding of a byte sequence: two digit bytes per
/// input byte, high nibble first, no prefix.
pub open spec fn hex_encode_spec(b: Seq<u8>, upper: bool) -> Seq<u8> {
    Seq::new(
        (2 * b.len()) as nat,
        |i: int|
            if i % 2 == 0 {
                nibble_char(b[i / 2] / 16, upper)
            } else {
                nibble_char(b[i / 2] % 16, upper)
            },
    )
}

/// `s` with a leading `0x` removed, if it has one; `s` itself otherwise.
pub open spec fn strip_0x(s: Seq<u8>) -> Seq<u8> {
    if s.len() >= 2 && s[0] == 48 && s[1] == 120 {
        s.subrange(2, s.len() as int)
    } else {
        s
    }
}

/// The characters that a sequence of ASCII bytes spells.
pub open spec fn chars_of(b: Seq<u8>) -> Seq<char> {
    b.map(|i: int, c: u8| c as char)
}

/// Whether `c` is a valid hexadecimal digit, as executable code.
pub fn hex_digit_exec(c: u8) -> (r: bool)
    ensures
        r == is_hex_digit(c),
{
    (48 <= c && c <= 57) || (65 <= c && c <= 70) || (97 <= c && c <= 102)
}

/// The value of a hexadecimal digit byte, as executable code.
pub fn hex_val_exec(c: u8) -> (r: u8)
    requires
        is_hex_digit(c),
    ensures
        r == hex_val(c),
        r < 16,
{
    if 48 <= c && c <= 57 {
        c - 48
    } else if 65 <= c && c <= 70 {
        c - 55
    } else {
        c - 87
    }
}

/// The ASCII digit byte of a nibble, as executable code.
pub fn nibble_char_exec(n: u8, upper: bool) -> (r: u8)
    requires
        n < 16,
    ensures
        r == nibble_char(n, upper),
{
    if n < 10 {
        n + 48
    } else if upper {
        n + 55
    } else {
        n + 87
    }
}

/// Decode a hexadecimal byte string, with or without a leading `0x`,
/// case-insensitively, into exactly `n` bytes. Wrong decoded length and
/// malformed digits are the two rejections, length checked first.
pub fn hex_decode_exact(s: &[u8], n: usize) -> (r: Result<Vec<u8>, CryptoError>)
    ensures
        r is Ok <==> (strip_0x(s@).len() == 2 * n && all_hex_digits(strip_0x(s@))),
        r matches Ok(v) ==> v@ == hex_decode_spec(strip_0x(s@)) && v@.len() == n,
        strip_0x(s@).len() != 2 * n ==> r == Err::<Vec<u8>, CryptoError>(
            CryptoError::HexErr(HexError::InvalidLength),
        ),
        strip_0x(s@).len() == 2 * n && !all_hex_digits(strip_0x(s@)) ==> r == Err::<Vec<u8>, CryptoError>(
            CryptoError::HexErr(HexError::InvalidChar),
        ),
{
    let ghost t = strip_0x(s@);
    let start: usize = if s.len() >= 2 && *slice_index_get(s, 0) == 48 && *slice_index_get(s, 1)
        == 120 {
        2
    } else {
        0
    };
    proof {
        assert(t =~= s@.subrange(start as int, s@.len() as int));
    }
    let total = s.len();
    let len = total - start;
    if len % 2 != 0 || len / 2 != n {
        proof {
            assert(t.len() != 2 * n);
        }
        return Err(CryptoError::HexErr(HexError::InvalidLength));
    }
    assert(len == 2 * n);
    assert(t.len() == 2 * n);
    let mut out: Vec<u8> = Vec::new();
    let mut i: usize = 0;
    while i < n
        invariant
            i <= n,
            out@.len() == i,
            start <= 2,
            total == s@.len(),
            total == start + 2 * n,
            t == s@.subrange(start as int, s@.len() as int),
            t == strip_0x(s@),
            t.len() == 2 * n,
            forall|j: int| 0 <= j < 2 * i ==> is_hex_digit(t[j]),
            forall|j: int|
                0 <= j < i ==> out@[j] == (hex_val(t[2 * j]) * 16 + hex_val(t[2 * j + 1])) as u8,
        decreases n - i,
    {
        let c1 = *slice_index_get(s, start + 2 * i);
        let c2 = *slice_index_get(s, start + 2 * i + 1);
        assert(c1 == t[2 * i] && c2 == t[2 * i + 1]);
        if !hex_digit_exec(c1) || !hex_digit_exec(c2) {
            proof {
                assert(!all_hex_digits(t));
            }
            return Err(CryptoError::HexErr(HexError::InvalidChar));
        }
        out.push(hex_val_exec(c1) * 16 + hex_val_exec(c2));
        i = i + 1;
    }
    proof {
        assert(out@ =~= hex_decode_spec(t));
    }
    Ok(out)
}

/// Encode bytes as hexadecimal digits, two per byte, no prefix, in the
/// requested case.
pub fn hex_encode_bytes(b: &[u8], upper: bool) -> (r: Vec<u8>)
    ensures
        r@ == hex_encode_spec(b@, upper),
{
    let mut out: Vec<u8> = Vec::new();
    let mut i: usize = 0;
    while i < b.len()
        invariant
            i <= b@.len(),
            out@.len() == 2 * i,
            forall|j: int| 0 <= j < 2 * i ==> out@[j] == hex_encode_spec(b@, upper)[j],
        decreases b@.len() - i,
    {
        let byte = *slice_index_get(b, i);
        out.push(nibble_char_exec(byte / 16, upper));
        out.push(nibble_char_exec(byte % 16, upper));
        proof {
            assert(out@[2 * i as int] == hex_encode_spec(b@, upper)[2 * i as int]);
            assert(out@[2 * i as int + 1] == hex_encode_spec(b@, upper)[2 * i as int + 1]);
        }
        i = i + 1;
    }
    proof {
        assert(out@ =~= hex_encode_spec(b@, upper));
    }
    out
}

/// Relies on `String::from_utf8`: bytes below 128 are one-byte UTF-8
/// sequences, so the resulting string spells exactly those characters.
#[verifier::external_body]
pub fn ascii_to_string(b: Vec<u8>) -> (r: String)
    requires
        forall|i: int| 0 <= i < b@.len() ==> b@[i] < 128,
    ensures
        r@ == chars_of(b@),
{
    String::from_utf8(b).unwrap_or_default()
}

/// Byte-wise equality of two byte slices.
pub fn bytes_eq(a: &[u8], b: &[u8]) -> (r: bool)
    ensures
        r == (a@ == b@),
{
    if a.len() != b.len() {
        assert(a@ != b@);
        return false;
    }
    let mut i: usize = 0;
    while i < a.len()
        invariant
            i <= a@.len(),
            a@.len() == b@.len(),
            forall|j: int| 0 <= j < i ==> a@[j] == b@[j],
        decreases a@.len() - i,
    {
        if *slice_index_get(a, i) != *slice_index_get(b, i) {
            assert(a@[i as int] != b@[i as int]);
            return false;
        }
        i = i + 1;
    }
    proof {
        assert(a@ =~= b@);
    }
    true
}

/// Append every byte of `src` to `dst`, in order.
pub fn append_bytes(dst: &mut Vec<u8>, src: &[u8])
    ensures
        final(dst)@ == old(dst)@ + src@,
{
    let mut i: usize = 0;
    while i < src.len()
        invariant
            i <= src@.len(),
            dst@ == old(dst)@ + src@.subrange(0, i as int),
        decreases src@.len() - i,
    {
        dst.push(*slice_index_get(src, i));
        proof {
            assert(old(dst)@ + src@.subrange(0, i as int + 1) =~= (old(dst)@ + src@.subrange(
                0,
                i as int,
            )).push(src@[i as int]));
        }
        i = i + 1;
    }
    proof {
        assert(src@.subrange(0, src@.len() as int) =~= src@);
    }
}

/// A vector of `n` zero bytes: the explicit all-zero placeholder value.
pub fn zero_vec(n: usize) -> (r: Vec<u8>)
    ensures
        r@.len() == n,
        forall|i: int| 0 <= i < n ==> r@[i] == 0u8,
{
    let mut v: Vec<u8> = Vec::new();
    let mut i: usize = 0;
    while i < n
        invariant
            i <= n,
            v@.len() == i,
            forall|j: int| 0 <= j < i ==> v@[j] == 0u8,
        decreases n - i,
    {
        v.push(0u8);
        i = i + 1;
    }
    v
}

/// A nibble's digit byte is itself a hexadecimal digit, reads back as
/// the same nibble, and is plain ASCII.
pub proof fn lemma_nibble_char(n: u8, upper: bool)
    requires
        n < 16,
    ensures
        is_hex_digit(nibble_char(n, upper)),
        hex_val(nibble_char(n, upper)) == n,
        nibble_char(n, upper) < 128,
{
}

/// Every byte of a hexadecimal encoding is plain ASCII.
pub proof fn lemma_hex_encode_ascii(b: Seq<u8>, upper: bool)
    ensures
        forall|i: int|
            0 <= i < hex_encode_spec(b, upper).len() ==> hex_encode_spec(b, upper)[i] < 128,
{
    assert forall|i: int| 0 <= i < hex_encode_spec(b, upper).len() implies hex_encode_spec(
        b,
        upper,
    )[i] < 128 by {
        if i % 2 == 0 {
            lemma_nibble_char(b[i / 2] / 16, upper);
        } else {
            lemma_nibble_char(b[i / 2] % 16, upper);
        }
    }
}

/// Law: hexadecimal round trip. Encoding any byte sequence, in either
/// case, yields twice as many digit bytes, all valid hexadecimal, with
/// no `0x` prefix to strip; and decoding them restores the original
/// bytes exactly.
pub proof fn lemma_hex_round_trip(b: Seq<u8>, upper: bool)
    ensures
        hex_encode_spec(b, upper).len() == 2 * b.len(),
        all_hex_digits(hex_encode_spec(b, upper)),
        strip_0x(hex_encode_spec(b, upper)) == hex_encode_spec(b, upper),
        hex_decode_spec(strip_0x(hex_encode_spec(b, upper))) == b,
        hex_decode_spec(hex_encode_spec(b, upper)) == b,
{
    let enc = hex_encode_spec(b, upper);
    assert forall|i: int| 0 <= i < enc.len() implies is_hex_digit(enc[i]) by {
        if i % 2 == 0 {
            lemma_nibble_char(b[i / 2] / 16, upper);
        } else {
            lemma_nibble_char(b[i / 2] % 16, upper);
        }
    }
    if enc.len() >= 2 {
        lemma_nibble_char(b[0] % 16, upper);
        assert(is_hex_digit(enc[1]));
        assert(enc[1] != 120);
    }
    assert forall|i: int| 0 <= i < b.len() implies hex_decode_spec(enc)[i] == b[i] by {
        lemma_nibble_char(b[i] / 16, upper);
        lemma_nibble_char(b[i] % 16, upper);
        assert(enc[2 * i] == nibble_char(b[i] / 16, upper));
        assert(enc[2 * i + 1] == nibble_char(b[i] % 16, upper));
    }
    assert(hex_decode_spec(enc) =~= b);
}

/// Law: hexadecimal round trip with a `0x` prefix. Prefixing the
/// encoding with `0x` (bytes 48, 120) strips back to the bare digits,
/// and decoding them restores the original bytes exactly.
pub proof fn lemma_hex_round_trip_prefixed(b: Seq<u8>, upper: bool)
    ensures
        strip_0x(seq![48u8, 120u8] + hex_encode_spec(b, upper)) == hex_encode_spec(b, upper),
        hex_decode_spec(strip_0x(seq![48u8, 120u8] + hex_encode_spec(b, upper))) == b,
{
    let pre = seq![48u8, 120u8] + hex_encode_spec(b, upper);
    assert(pre[0] == 48 && pre[1] == 120);
    assert(pre.subrange(2, pre.len() as int) =~= hex_encode_spec(b, upper));
    lemma_hex_round_trip(b, upper);
}

} // verus!
