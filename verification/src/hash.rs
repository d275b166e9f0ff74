//! Keccak-256 hashing: the typed 32-byte digest wrapper, the
//! single-input `hash` function and the multi-fragment `hash_many`
//! variant, which digests the tight concatenation of its fragments.
use vstd::prelude::*;
use vstd::slice::{slice_index_get, slice_to_vec};

use crate::types::{CryptoError, HexError};
use crate::utils::{
    all_hex_digits, append_bytes, ascii_to_string, bytes_eq, chars_of, hex_decode_exact,
    hex_decode_spec, hex_encode_bytes, hex_encode_spec, lemma_hex_encode_ascii, strip_0x, zero_vec,
};

verus! {

/// What the Keccak-256 permutation returns for a byte sequence. The
/// digest is a pure function of the input alone; its definition is the
/// outside engine's and is left unstated here.
pub uninterp spec fn keccak_of(data: Seq<u8>) -> Seq<u8>;

/// The tight concatenation of a sequence of byte fragments, with no
/// separators or padding between them.
pub open spec fn concat_of(parts: Seq<Seq<u8>>) -> Seq<u8>
    decreases parts.len(),
{
    if parts.len() == 0 {
        Seq::empty()
    } else {
        concat_of(parts.drop_last()) + parts.last()
    }
}

/// Relies on tiny_keccak's `keccak256`: the Keccak-256 digest of the
/// input bytes, always 32 bytes long, a deterministic function of the
/// input alone.
#[verifier::external_body]
pub(crate) fn keccak256_raw(data: &[u8]) -> (r: Vec<u8>)
    ensures
        r@ == keccak_of(data@),
        r@.len() == 32,
{
    tiny_keccak::keccak256(data).to_vec()
}

/// Wrapper-type representing the output of a Keccak-256 hash.
#[derive(Debug)]
pub struct Hash {
    bytes: Vec<u8>,
}

impl View for Hash {
    type V = Seq<u8>;

    closed spec fn view(&self) -> Seq<u8> {
        self.bytes@
    }
}

impl Hash {
    /// A well-formed digest holds exactly 32 bytes.
    pub open spec fn wf(&self) -> bool {
        self@.len() == 32
    }

    /// Wrap raw fixed-size digest bytes; infallible and total.
    pub fn from_bytes(b: &[u8; 32]) -> (r: Self)
        ensures
            r@ == b@,
            r.wf(),
    {
        Hash { bytes: slice_to_vec(b.as_slice()) }
    }

    /// The digest as a byte slice; zero-copy, always succeeds.
    pub fn as_bytes(&self) -> (r: &[u8])
        ensures
            r@ == self@,
    {
        self.bytes.as_slice()
    }

    /// Parse a digest from hexadecimal, with or without a `0x` prefix,
    /// case-insensitively; the digits must decode to exactly 32 bytes.
    pub fn from_hex(s: &[u8]) -> (r: Result<Self, CryptoError>)
        ensures
            r is Ok <==> (strip_0x(s@).len() == 64 && all_hex_digits(strip_0x(s@))),
            r matches Ok(h) ==> h@ == hex_decode_spec(strip_0x(s@)) && h.wf(),
            strip_0x(s@).len() != 64 ==> r == Err::<Hash, CryptoError>(
                CryptoError::HexErr(HexError::InvalidLength),
            ),
            strip_0x(s@).len() == 64 && !all_hex_digits(strip_0x(s@)) ==> r == Err::<
                Hash,
                CryptoError,
            >(CryptoError::HexErr(HexError::InvalidChar)),
    {
        match hex_decode_exact(s, 32) {
            Ok(bytes) => Ok(Hash { bytes }),
            Err(e) => Err(e),
        }
    }

    /// Lowercase hexadecimal encoding, no prefix, 64 digits.
    pub fn to_hex(&self) -> (r: String)
        ensures
            r@ == chars_of(hex_encode_spec(self@, false)),
    {
        proof {
            lemma_hex_encode_ascii(self@, false);
        }
        ascii_to_string(hex_encode_bytes(self.bytes.as_slice(), false))
    }

    /// Uppercase hexadecimal encoding, no prefix, 64 digits.
    pub fn to_hex_upper(&self) -> (r: String)
        ensures
            r@ == chars_of(hex_encode_spec(self@, true)),
    {
        proof {
            lemma_hex_encode_ascii(self@, true);
        }
        ascii_to_string(hex_encode_bytes(self.bytes.as_slice(), true))
    }
}

impl Clone for Hash {
    /// An exact copy: the clone holds the same bytes.
    fn clone(&self) -> (r: Self)
        ensures
            r@ == self@,
    {
        Hash { bytes: slice_to_vec(self.bytes.as_slice()) }
    }
}

impl PartialEq for Hash {
    fn eq(&self, other: &Hash) -> (r: bool) {
        bytes_eq(self.bytes.as_slice(), other.bytes.as_slice())
    }
}

impl Eq for Hash {

}

impl vstd::std_specs::cmp::PartialEqSpecImpl for Hash {
    open spec fn obeys_eq_spec() -> bool {
        true
    }

    open spec fn eq_spec(&self, other: &Hash) -> bool {
        self@ == other@
    }
}

impl Default for Hash {
    /// The explicit all-zero placeholder digest.
    fn default() -> (r: Self)
        ensures
            r.wf(),
            forall|i: int| 0 <= i < 32 ==> r@[i] == 0u8,
    {
        Hash { bytes: zero_vec(32) }
    }
}

/// Generate the Keccak-256 hash of a piece of data. For multiple
/// discontiguous fragments, use `hash_many` instead.
pub fn hash(data: &[u8]) -> (r: Hash)
    ensures
        r@ == keccak_of(data@),
        r.wf(),
{
    Hash { bytes: keccak256_raw(data) }
}

/// Generate the Keccak-256 hash of a sequence of byte fragments.
/// Byte-representations are tightly packed: the digest equals `hash`
/// of the fragments' concatenation, with nothing inserted between.
pub fn hash_many(data: &[Vec<u8>]) -> (r: Hash)
    ensures
        r@ == keccak_of(concat_of(data.deep_view())),
        r.wf(),
{
    let mut all: Vec<u8> = Vec::new();
    let mut i: usize = 0;
    while i < data.len()
        invariant
            i <= data@.len(),
            all@ == concat_of(data.deep_view().take(i as int)),
        decreases data@.len() - i,
    {
        let part: &Vec<u8> = slice_index_get(data, i);
        append_bytes(&mut all, part.as_slice());
        proof {
            let dv = data.deep_view();
            assert(dv.take(i as int + 1).drop_last() =~= dv.take(i as int));
            assert(dv.take(i as int + 1).last() == data@[i as int]@);
        }
        i = i + 1;
    }
    proof {
        assert(data.deep_view().take(data@.len() as int) =~= data.deep_view());
    }
    Hash { bytes: keccak256_raw(all.as_slice()) }
}

} // verus!
