//! Elliptic-curve cryptography on the secp256k1 curve: the key,
//! signature and address newtypes, key generation, recoverable-signature
//! signing, public-key recovery and address derivation.
use vstd::prelude::*;
use vstd::slice::{slice_index_get, slice_subrange, slice_to_vec};

use crate::engine::{
    check_scalar, compact_ok, entropy_32, public_from_secret, recover_digest, recover_of,
    scalar_ok, sign_digest, sign_of, uncompressed_of,
};
use crate::hash::{keccak256_raw, keccak_of};
use crate::types::{CryptoError, HexError};
use crate::utils::{
    all_hex_digits, ascii_to_string, bytes_eq, chars_of, hex_decode_exact, hex_decode_spec,
    hex_encode_bytes, hex_encode_spec, lemma_hex_encode_ascii, strip_0x, zero_vec,
};

verus! {

/// The recovered key's 65-byte uncompressed serialization for a
/// 32-byte digest and a 65-byte stored signature `r‖s‖v`, when the
/// engine's point recovery succeeds.
pub open spec fn recovered_key(msg: Seq<u8>, sig: Seq<u8>) -> Option<Seq<u8>> {
    recover_of(msg, sig.subrange(0, 64), sig[64])
}

/// Exactly when recovery succeeds for a digest and a stored signature:
/// the recovery id (byte 64) is accepted, the compact bytes parse, and
/// the engine's point recovery succeeds.
pub open spec fn recovery_succeeds(msg: Seq<u8>, sig: Seq<u8>) -> bool {
    sig[64] < 4 && compact_ok(sig.subrange(0, 64)) && recovered_key(msg, sig) is Some
}

/// An account address: the low-order 20 bytes of the Keccak-256 digest
/// of a public key.
#[derive(Debug, Hash)]
pub struct Address {
    bytes: Vec<u8>,
}

impl View for Address {
    type V = Seq<u8>;

    closed spec fn view(&self) -> Seq<u8> {
        self.bytes@
    }
}

impl Address {
    /// A well-formed address holds exactly 20 bytes.
    pub open spec fn wf(&self) -> bool {
        self@.len() == 20
    }

    /// Wrap raw fixed-size address bytes; infallible and total.
    pub fn from_bytes(b: &[u8; 20]) -> (r: Self)
        ensures
            r@ == b@,
            r.wf(),
    {
        Address { bytes: slice_to_vec(b.as_slice()) }
    }

    /// The address as a byte slice; zero-copy, always succeeds.
    pub fn as_bytes(&self) -> (r: &[u8])
        ensures
            r@ == self@,
    {
        self.bytes.as_slice()
    }

    /// Derive the address of a public key: bytes 12 to 32 of the
    /// Keccak-256 digest of the key's 64 bytes. The 12-byte offset is a
    /// fixed convention of the consuming virtual machine.
    pub fn from_public(key: &Public) -> (r: Self)
        ensures
            r@ == keccak_of(key@).subrange(12, 32),
            r.wf(),
    {
        let digest = keccak256_raw(key.as_bytes());
        Address { bytes: slice_to_vec(slice_subrange(digest.as_slice(), 12, 32)) }
    }

    /// Parse an address from hexadecimal, with or without a `0x`
    /// prefix, case-insensitively; the digits must decode to exactly 20
    /// bytes.
    pub fn from_hex(s: &[u8]) -> (r: Result<Self, CryptoError>)
        ensures
            r is Ok <==> (strip_0x(s@).len() == 40 && all_hex_digits(strip_0x(s@))),
            r matches Ok(a) ==> a@ == hex_decode_spec(strip_0x(s@)) && a.wf(),
            strip_0x(s@).len() != 40 ==> r == Err::<Address, CryptoError>(
                CryptoError::HexErr(HexError::InvalidLength),
            ),
            strip_0x(s@).len() == 40 && !all_hex_digits(strip_0x(s@)) ==> r == Err::<
                Address,
                CryptoError,
            >(CryptoError::HexErr(HexError::InvalidChar)),
    {
        match hex_decode_exact(s, 20) {
            Ok(bytes) => Ok(Address { bytes }),
            Err(e) => Err(e),
        }
    }

    /// Lowercase hexadecimal encoding, no prefix, 40 digits.
    pub fn to_hex(&self) -> (r: String)
        ensures
            r@ == chars_of(hex_encode_spec(self@, false)),
    {
        proof {
            lemma_hex_encode_ascii(self@, false);
        }
        ascii_to_string(hex_encode_bytes(self.bytes.as_slice(), false))
    }

    /// Uppercase hexadecimal encoding, no prefix, 40 digits.
    pub fn to_hex_upper(&self) -> (r: String)
        ensures
            r@ == chars_of(hex_encode_spec(self@, true)),
    {
        proof {
            lemma_hex_encode_ascii(self@, true);
        }
        ascii_to_string(hex_encode_bytes(self.bytes.as_slice(), true))
    }
}

impl Clone for Address {
    /// An exact copy: the clone holds the same bytes.
    fn clone(&self) -> (r: Self)
        ensures
            r@ == self@,
    {
        Address { bytes: slice_to_vec(self.bytes.as_slice()) }
    }
}

impl PartialEq for Address {
    fn eq(&self, other: &Address) -> (r: bool) {
        bytes_eq(self.bytes.as_slice(), other.bytes.as_slice())
    }
}

impl Eq for Address {

}

impl vstd::std_specs::cmp::PartialEqSpecImpl for Address {
    open spec fn obeys_eq_spec() -> bool {
        true
    }

    open spec fn eq_spec(&self, other: &Address) -> bool {
        self@ == other@
    }
}

impl Default for Address {
    /// The explicit all-zero placeholder address.
    fn default() -> (r: Self)
        ensures
            r.wf(),
            forall|i: int| 0 <= i < 20 ==> r@[i] == 0u8,
    {
        Address { bytes: zero_vec(20) }
    }
}

/// A recoverable signature, 65 bytes in storage order `r‖s‖v`: the two
/// 32-byte components followed by the one-byte recovery id.
#[derive(Debug)]
pub struct Signature {
    bytes: Vec<u8>,
}

impl View for Signature {
    type V = Seq<u8>;

    closed spec fn view(&self) -> Seq<u8> {
        self.bytes@
    }
}

impl Signature {
    /// A well-formed signature holds exactly 65 bytes.
    pub open spec fn wf(&self) -> bool {
        self@.len() == 65
    }

    /// Wrap raw fixed-size signature bytes; infallible and total. The
    /// recovery id byte is not validated here: `recover` rejects an id
    /// outside the engine's accepted range.
    pub fn from_bytes(b: &[u8; 65]) -> (r: Self)
        ensures
            r@ == b@,
            r.wf(),
    {
        Signature { bytes: slice_to_vec(b.as_slice()) }
    }

    /// The signature as a byte slice; zero-copy, always succeeds.
    pub fn as_bytes(&self) -> (r: &[u8])
        ensures
            r@ == self@,
    {
        self.bytes.as_slice()
    }

    /// Assemble storage order from the two parts the engine hands out:
    /// the 64 compact bytes `r‖s`, then the recovery id as the final
    /// byte, with nothing reordered, padded or dropped.
    pub fn from_parts(rs: &[u8], v: u8) -> (r: Self)
        requires
            rs@.len() == 64,
        ensures
            r@ == rs@.push(v),
            r@.subrange(0, 64) == rs@,
            r@[64] == v,
            r.wf(),
    {
        let mut bytes = slice_to_vec(rs);
        bytes.push(v);
        proof {
            assert(rs@.push(v).subrange(0, 64) =~= rs@);
        }
        Signature { bytes }
    }

    /// Split the signature into its `(v, r, s)` component
    /// representation. Signatures are stored as `r‖s‖v`; the consuming
    /// virtual machine's recovery primitive takes its component
    /// arguments in `(v, r, s)` order, so that convention is followed
    /// here. This reordering is a deliberate, documented contract.
    pub fn split(&self) -> (c: (u8, &[u8], &[u8]))
        requires
            self.wf(),
        ensures
            c.0 == self@[64],
            c.1@ == self@.subrange(0, 32),
            c.2@ == self@.subrange(32, 64),
    {
        (self.get_v(), self.get_r(), self.get_s())
    }

    /// Extract the `v` (recovery id) component: byte 64.
    pub fn get_v(&self) -> (v: u8)
        requires
            self.wf(),
        ensures
            v == self@[64],
    {
        *slice_index_get(self.bytes.as_slice(), 64)
    }

    /// Extract the `r` component: bytes 0 to 32.
    pub fn get_r(&self) -> (r: &[u8])
        requires
            self.wf(),
        ensures
            r@ == self@.subrange(0, 32),
    {
        slice_subrange(self.bytes.as_slice(), 0, 32)
    }

    /// Extract the `s` component: bytes 32 to 64.
    pub fn get_s(&self) -> (s: &[u8])
        requires
            self.wf(),
        ensures
            s@ == self@.subrange(32, 64),
    {
        slice_subrange(self.bytes.as_slice(), 32, 64)
    }

    /// Parse a signature from hexadecimal, with or without a `0x`
    /// prefix, case-insensitively; the digits must decode to exactly 65
    /// bytes.
    pub fn from_hex(s: &[u8]) -> (r: Result<Self, CryptoError>)
        ensures
            r is Ok <==> (strip_0x(s@).len() == 130 && all_hex_digits(strip_0x(s@))),
            r matches Ok(sig) ==> sig@ == hex_decode_spec(strip_0x(s@)) && sig.wf(),
            strip_0x(s@).len() != 130 ==> r == Err::<Signature, CryptoError>(
                CryptoError::HexErr(HexError::InvalidLength),
            ),
            strip_0x(s@).len() == 130 && !all_hex_digits(strip_0x(s@)) ==> r == Err::<
                Signature,
                CryptoError,
            >(CryptoError::HexErr(HexError::InvalidChar)),
    {
        match hex_decode_exact(s, 65) {
            Ok(bytes) => Ok(Signature { bytes }),
            Err(e) => Err(e),
        }
    }

    /// Lowercase hexadecimal encoding, no prefix, 130 digits.
    pub fn to_hex(&self) -> (r: String)
        ensures
            r@ == chars_of(hex_encode_spec(self@, false)),
    {
        proof {
            lemma_hex_encode_ascii(self@, false);
        }
        ascii_to_string(hex_encode_bytes(self.bytes.as_slice(), false))
    }

    /// Uppercase hexadecimal encoding, no prefix, 130 digits.
    pub fn to_hex_upper(&self) -> (r: String)
        ensures
            r@ == chars_of(hex_encode_spec(self@, true)),
    {
        proof {
            lemma_hex_encode_ascii(self@, true);
        }
        ascii_to_string(hex_encode_bytes(self.bytes.as_slice(), true))
    }
}

impl Clone for Signature {
    /// An exact copy: the clone holds the same bytes.
    fn clone(&self) -> (r: Self)
        ensures
            r@ == self@,
    {
        Signature { bytes: slice_to_vec(self.bytes.as_slice()) }
    }
}

impl PartialEq for Signature {
    fn eq(&self, other: &Signature) -> (r: bool) {
        bytes_eq(self.bytes.as_slice(), other.bytes.as_slice())
    }
}

impl Eq for Signature {

}

impl vstd::std_specs::cmp::PartialEqSpecImpl for Signature {
    open spec fn obeys_eq_spec() -> bool {
        true
    }

    open spec fn eq_spec(&self, other: &Signature) -> bool {
        self@ == other@
    }
}

impl Default for Signature {
    /// The explicit all-zero placeholder signature.
    fn default() -> (r: Self)
        ensures
            r.wf(),
            forall|i: int| 0 <= i < 65 ==> r@[i] == 0u8,
    {
        Signature { bytes: zero_vec(65) }
    }
}

/// A public key on the secp256k1 curve: the uncompressed point's 64
/// coordinate bytes `x‖y`, with the 1-byte format prefix stripped.
#[derive(Debug)]
pub struct Public {
    bytes: Vec<u8>,
}

impl View for Public {
    type V = Seq<u8>;

    closed spec fn view(&self) -> Seq<u8> {
        self.bytes@
    }
}

impl Public {
    /// A well-formed public key holds exactly 64 bytes.
    pub open spec fn wf(&self) -> bool {
        self@.len() == 64
    }

    /// Wrap raw fixed-size public-key bytes; infallible and total. The
    /// bytes are not re-validated as a curve point: a key built by the
    /// engine is valid by construction.
    pub fn from_bytes(b: &[u8; 64]) -> (r: Self)
        ensures
            r@ == b@,
            r.wf(),
    {
        Public { bytes: slice_to_vec(b.as_slice()) }
    }

    /// The public key as a byte slice; zero-copy, always succeeds.
    pub fn as_bytes(&self) -> (r: &[u8])
        ensures
            r@ == self@,
    {
        self.bytes.as_slice()
    }

    /// Strip the 1-byte point-format prefix from a 65-byte uncompressed
    /// serialization and retain the 64 coordinate bytes verbatim.
    pub fn from_uncompressed(ser: &[u8]) -> (r: Self)
        requires
            ser@.len() == 65,
        ensures
            r@ == ser@.subrange(1, 65),
            r.wf(),
    {
        Public { bytes: slice_to_vec(slice_subrange(ser, 1, 65)) }
    }

    /// Parse a public key from hexadecimal, with or without a `0x`
    /// prefix, case-insensitively; the digits must decode to exactly 64
    /// bytes.
    pub fn from_hex(s: &[u8]) -> (r: Result<Self, CryptoError>)
        ensures
            r is Ok <==> (strip_0x(s@).len() == 128 && all_hex_digits(strip_0x(s@))),
            r matches Ok(p) ==> p@ == hex_decode_spec(strip_0x(s@)) && p.wf(),
            strip_0x(s@).len() != 128 ==> r == Err::<Public, CryptoError>(
                CryptoError::HexErr(HexError::InvalidLength),
            ),
            strip_0x(s@).len() == 128 && !all_hex_digits(strip_0x(s@)) ==> r == Err::<
                Public,
                CryptoError,
            >(CryptoError::HexErr(HexError::InvalidChar)),
    {
        match hex_decode_exact(s, 64) {
            Ok(bytes) => Ok(Public { bytes }),
            Err(e) => Err(e),
        }
    }

    /// Lowercase hexadecimal encoding, no prefix, 128 digits.
    pub fn to_hex(&self) -> (r: String)
        ensures
            r@ == chars_of(hex_encode_spec(self@, false)),
    {
        proof {
            lemma_hex_encode_ascii(self@, false);
        }
        ascii_to_string(hex_encode_bytes(self.bytes.as_slice(), false))
    }

    /// Uppercase hexadecimal encoding, no prefix, 128 digits.
    pub fn to_hex_upper(&self) -> (r: String)
        ensures
            r@ == chars_of(hex_encode_spec(self@, true)),
    {
        proof {
            lemma_hex_encode_ascii(self@, true);
        }
        ascii_to_string(hex_encode_bytes(self.bytes.as_slice(), true))
    }
}

impl Clone for Public {
    /// An exact copy: the clone holds the same bytes.
    fn clone(&self) -> (r: Self)
        ensures
            r@ == self@,
    {
        Public { bytes: slice_to_vec(self.bytes.as_slice()) }
    }
}

impl PartialEq for Public {
    fn eq(&self, other: &Public) -> (r: bool) {
        bytes_eq(self.bytes.as_slice(), other.bytes.as_slice())
    }
}

impl Eq for Public {

}

impl vstd::std_specs::cmp::PartialEqSpecImpl for Public {
    open spec fn obeys_eq_spec() -> bool {
        true
    }

    open spec fn eq_spec(&self, other: &Public) -> bool {
        self@ == other@
    }
}

impl Default for Public {
    /// The explicit all-zero placeholder public key.
    fn default() -> (r: Self)
        ensures
            r.wf(),
            forall|i: int| 0 <= i < 64 ==> r@[i] == 0u8,
    {
        Public { bytes: zero_vec(64) }
    }
}

/// A private key on the secp256k1 curve: a 32-byte scalar. Validity
/// (nonzero, below the curve order) is enforced by the engine at
/// signing time, not by this wrapper.
#[derive(Debug)]
pub struct Private {
    bytes: Vec<u8>,
}

impl View for Private {
    type V = Seq<u8>;

    closed spec fn view(&self) -> Seq<u8> {
        self.bytes@
    }
}

impl Private {
    /// A well-formed private key holds exactly 32 bytes.
    pub open spec fn wf(&self) -> bool {
        self@.len() == 32
    }

    /// Wrap raw fixed-size scalar bytes; infallible and total.
    pub fn from_bytes(b: &[u8; 32]) -> (r: Self)
        ensures
            r@ == b@,
            r.wf(),
    {
        Private { bytes: slice_to_vec(b.as_slice()) }
    }

    /// The scalar as a byte slice; zero-copy, always succeeds.
    pub fn as_bytes(&self) -> (r: &[u8])
        ensures
            r@ == self@,
    {
        self.bytes.as_slice()
    }

    /// Sign a 32-byte message digest. Succeeds exactly when the scalar
    /// passes the engine's check (nonzero and below the curve order).
    /// The result is the engine's deterministic signature for this key
    /// and digest, stored as `r‖s‖v` with a recovery id below 4:
    /// repeated calls on the same inputs return byte-identical
    /// signatures.
    pub fn sign(&self, msg: &[u8; 32]) -> (r: Result<Signature, CryptoError>)
        requires
            self.wf(),
        ensures
            r is Ok <==> scalar_ok(self@),
            r matches Ok(sig) ==> sig.wf() && sig@ == sign_of(self@, msg@) && sig@[64] < 4,
            r matches Err(e) ==> e is SigErr,
    {
        match check_scalar(self.bytes.as_slice()) {
            Err(e) => Err(CryptoError::SigErr(e)),
            Ok(()) => {
                let (rs, v) = sign_digest(self.bytes.as_slice(), msg);
                Ok(Signature::from_parts(rs.as_slice(), v))
            },
        }
    }

    /// Parse a private key from hexadecimal, with or without a `0x`
    /// prefix, case-insensitively; the digits must decode to exactly 32
    /// bytes.
    pub fn from_hex(s: &[u8]) -> (r: Result<Self, CryptoError>)
        ensures
            r is Ok <==> (strip_0x(s@).len() == 64 && all_hex_digits(strip_0x(s@))),
            r matches Ok(p) ==> p@ == hex_decode_spec(strip_0x(s@)) && p.wf(),
            strip_0x(s@).len() != 64 ==> r == Err::<Private, CryptoError>(
                CryptoError::HexErr(HexError::InvalidLength),
            ),
            strip_0x(s@).len() == 64 && !all_hex_digits(strip_0x(s@)) ==> r == Err::<
                Private,
                CryptoError,
            >(CryptoError::HexErr(HexError::InvalidChar)),
    {
        match hex_decode_exact(s, 32) {
            Ok(bytes) => Ok(Private { bytes }),
            Err(e) => Err(e),
        }
    }

    /// Lowercase hexadecimal encoding, no prefix, 64 digits.
    pub fn to_hex(&self) -> (r: String)
        ensures
            r@ == chars_of(hex_encode_spec(self@, false)),
    {
        proof {
            lemma_hex_encode_ascii(self@, false);
        }
        ascii_to_string(hex_encode_bytes(self.bytes.as_slice(), false))
    }

    /// Uppercase hexadecimal encoding, no prefix, 64 digits.
    pub fn to_hex_upper(&self) -> (r: String)
        ensures
            r@ == chars_of(hex_encode_spec(self@, true)),
    {
        proof {
            lemma_hex_encode_ascii(self@, true);
        }
        ascii_to_string(hex_encode_bytes(self.bytes.as_slice(), true))
    }
}

impl Clone for Private {
    /// An exact copy: the clone holds the same bytes.
    fn clone(&self) -> (r: Self)
        ensures
            r@ == self@,
    {
        Private { bytes: slice_to_vec(self.bytes.as_slice()) }
    }
}

impl PartialEq for Private {
    fn eq(&self, other: &Private) -> (r: bool) {
        bytes_eq(self.bytes.as_slice(), other.bytes.as_slice())
    }
}

impl Eq for Private {

}

impl vstd::std_specs::cmp::PartialEqSpecImpl for Private {
    open spec fn obeys_eq_spec() -> bool {
        true
    }

    open spec fn eq_spec(&self, other: &Private) -> bool {
        self@ == other@
    }
}

impl Default for Private {
    /// The explicit all-zero placeholder value. Note that the zero
    /// scalar is not a usable signing key: the engine rejects it.
    fn default() -> (r: Self)
        ensures
            r.wf(),
            forall|i: int| 0 <= i < 32 ==> r@[i] == 0u8,
    {
        Private { bytes: zero_vec(32) }
    }
}

/// One key-generation attempt: draw 32 bytes from the operating
/// system's entropy source and build the pair from them. The I/O kind
/// reports an entropy failure; the engine kind reports a drawn value
/// that is not a valid scalar, which the caller may redraw.
fn keygen_attempt() -> (r: Result<(Public, Private), CryptoError>)
    ensures
        r matches Ok(pair) ==> ({
            &&& pair.1.wf() && scalar_ok(pair.1@)
            &&& pair.0.wf()
            &&& pair.0@ == uncompressed_of(pair.1@).subrange(1, 65)
        }),
        r matches Err(e) ==> e is IoErr || e is SigErr,
{
    let drawn = match entropy_32() {
        Ok(b) => b,
        Err(e) => {
            return Err(CryptoError::IoErr(e));
        },
    };
    match check_scalar(drawn.as_slice()) {
        Ok(()) => {
            let ser = public_from_secret(drawn.as_slice());
            Ok((Public::from_uncompressed(ser.as_slice()), Private { bytes: drawn }))
        },
        Err(e) => Err(CryptoError::SigErr(e)),
    }
}

/// Generate a random public/private keypair: 32 fresh bytes from the
/// operating system's entropy source become the secret scalar, and the
/// public key is the engine's derivation from it, format prefix
/// stripped. Fails with the I/O kind when the entropy source fails,
/// never silently; a drawn value that is not a valid scalar is redrawn
/// a bounded number of times, as the engine itself would. The returned
/// private key always passes the engine's scalar check, so signing
/// with it succeeds.
pub fn keygen() -> (r: Result<(Public, Private), CryptoError>)
    ensures
        r matches Ok(pair) ==> ({
            &&& pair.1.wf() && scalar_ok(pair.1@)
            &&& pair.0.wf()
            &&& pair.0@ == uncompressed_of(pair.1@).subrange(1, 65)
        }),
        r matches Err(e) ==> e is IoErr || e is SigErr,
{
    let mut tries: usize = 0;
    while tries < 127
        invariant
            tries <= 127,
        decreases 127 - tries,
    {
        match keygen_attempt() {
            Ok(pair) => {
                return Ok(pair);
            },
            Err(CryptoError::IoErr(e)) => {
                return Err(CryptoError::IoErr(e));
            },
            Err(_) => {},
        }
        tries = tries + 1;
    }
    keygen_attempt()
}

/// Recover the public key associated with a message digest and
/// signature: succeeds exactly when the recovery id (byte 64) is below
/// 4, bytes 0 to 64 parse as a compact signature, and the engine's
/// point recovery succeeds; the result is then the recovered key's
/// serialization with its format prefix stripped. Recovery is a
/// deterministic function of the digest and signature bytes; ids are
/// never clamped.
pub fn recover(msg: &[u8; 32], sig: &Signature) -> (r: Result<Public, CryptoError>)
    requires
        sig.wf(),
    ensures
        r is Ok <==> recovery_succeeds(msg@, sig@),
        r matches Ok(p) ==> p.wf() && p@ == recovered_key(msg@, sig@).unwrap().subrange(1, 65),
        r matches Err(e) ==> e is SigErr,
{
    let v = sig.get_v();
    let rs = slice_subrange(sig.as_bytes(), 0, 64);
    match recover_digest(msg, rs, v) {
        Ok(ser) => Ok(Public::from_uncompressed(ser.as_slice())),
        Err(e) => Err(CryptoError::SigErr(e)),
    }
}

/// Recover the address associated with a message digest and signature:
/// the address derived from the recovered public key. Defined purely
/// as the composition of `recover` and `Address::from_public`: it
/// succeeds exactly when `recover` does, and then returns exactly the
/// derived address of what `recover` returns.
pub fn ecrecover(msg: &[u8; 32], sig: &Signature) -> (r: Result<Address, CryptoError>)
    requires
        sig.wf(),
    ensures
        r is Ok <==> recovery_succeeds(msg@, sig@),
        r matches Ok(a) ==> a.wf() && a@ == keccak_of(
            recovered_key(msg@, sig@).unwrap().subrange(1, 65),
        ).subrange(12, 32),
        r matches Err(e) ==> e is SigErr,
{
    match recover(msg, sig) {
        Ok(public) => Ok(Address::from_public(&public)),
        Err(e) => Err(e),
    }
}

} // verus!
