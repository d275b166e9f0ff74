//! The trusted boundary to the outside elliptic-curve engine and the
//! entropy source. Every wrapper here goes from plain byte values to
//! plain byte values, and its contract pins the result through a named
//! engine function (`uncompressed_of`, `sign_of`, `recover_of`): each
//! outside result is a deterministic function of its arguments alone.
//! The engine's process-wide context is its own lazily-initialized,
//! read-only global; its first use may draw entropy to randomize
//! itself, and that internal draw aborts rather than returns on an
//! entropy failure.
use vstd::prelude::*;

verus! {

/// Declares `secp256k1::Error`, the error type of the elliptic-curve
/// engine, so that library values can carry it. It is opaque here: the
/// contracts state only when one is returned, never which variant.
#[verifier::external_type_specification]
#[verifier::external_body]
pub struct ExSecpError(secp256k1::Error);

/// Declares `std::io::Error` so that an entropy-source failure can be
/// carried by the library's error type. Opaque.
#[verifier::external_type_specification]
#[verifier::external_body]
pub struct ExIoError(std::io::Error);

/// Whether 32 bytes form a valid secret scalar for the curve: nonzero
/// and below the curve order. This is what the engine's scalar check
/// accepts, a function of the bytes alone; its definition is the
/// engine's and is left unstated here.
pub uninterp spec fn scalar_ok(b: Seq<u8>) -> bool;

/// Whether 64 compact signature bytes `r‖s` parse as a valid signature
/// for the engine: neither component overflows the curve order. A
/// function of the bytes alone; its definition is the engine's and is
/// left unstated here.
pub uninterp spec fn compact_ok(rs: Seq<u8>) -> bool;

/// The 65-byte uncompressed serialization (format marker, then `x‖y`)
/// of the public key that the engine derives from a valid secret
/// scalar. A function of the scalar bytes alone; its definition is the
/// engine's and is left unstated here.
pub uninterp spec fn uncompressed_of(sk: Seq<u8>) -> Seq<u8>;

/// The 65 bytes `r‖s‖v` — compact serialization then recovery id —
/// that the engine's deterministic (RFC6979-nonce) recoverable signing
/// produces for a valid scalar and a 32-byte digest. A function of the
/// two arguments alone; its definition is the engine's and is left
/// unstated here.
pub uninterp spec fn sign_of(sk: Seq<u8>, msg: Seq<u8>) -> Seq<u8>;

/// What the engine's public-key recovery returns for a 32-byte digest,
/// 64 compact signature bytes and a recovery id below 4: `None` when
/// the point recovery mathematically fails, otherwise the recovered
/// key's 65-byte uncompressed serialization. A function of the three
/// arguments alone; its definition is the engine's and is left
/// unstated here.
pub uninterp spec fn recover_of(msg: Seq<u8>, rs: Seq<u8>, v: u8) -> Option<Seq<u8>>;

/// Relies on `OsRng::try_fill_bytes`: 32 bytes from the operating
/// system's entropy source, or an error when the source fails. Nothing
/// is promised of the random bytes themselves.
#[verifier::external_body]
pub(crate) fn entropy_32() -> (r: Result<Vec<u8>, std::io::Error>)
    ensures
        r matches Ok(b) ==> b@.len() == 32,
{
    let mut buf = [0u8; 32];
    match rand::RngCore::try_fill_bytes(&mut rand::rngs::OsRng, &mut buf) {
        Ok(()) => Ok(buf.to_vec()),
        Err(e) => Err(std::io::Error::new(std::io::ErrorKind::Other, e)),
    }
}

/// Relies on `SecretKey::from_slice`: it accepts exactly the 32-byte
/// inputs that pass the engine's scalar check, and hands back the
/// engine's own error otherwise.
#[verifier::external_body]
pub(crate) fn check_scalar(b: &[u8]) -> (r: Result<(), secp256k1::Error>)
    ensures
        r is Ok <==> (b@.len() == 32 && scalar_ok(b@)),
{
    match secp256k1::SecretKey::from_slice(b) {
        Ok(_) => Ok(()),
        Err(e) => Err(e),
    }
}

/// Relies on `SecretKey::from_slice`, `PublicKey::from_secret_key`
/// (global context) and `PublicKey::serialize_uncompressed`: the
/// 65-byte uncompressed serialization of the scalar's public key,
/// starting with the standard format marker 4. The unwrap cannot fire:
/// the precondition repeats `from_slice`'s acceptance condition.
#[verifier::external_body]
pub(crate) fn public_from_secret(sk: &[u8]) -> (r: Vec<u8>)
    requires
        sk@.len() == 32,
        scalar_ok(sk@),
    ensures
        r@ == uncompressed_of(sk@),
        r@.len() == 65,
        r@[0] == 4,
{
    let key = secp256k1::SecretKey::from_slice(sk).unwrap();
    let pk = secp256k1::PublicKey::from_secret_key(secp256k1::SECP256K1, &key);
    pk.serialize_uncompressed().to_vec()
}

/// Relies on `SecretKey::from_slice`, `Message::from_digest`,
/// `Secp256k1::sign_ecdsa_recoverable` (global context, RFC6979 nonce,
/// infallible for a valid key) and
/// `RecoverableSignature::serialize_compact`: the 64 compact bytes
/// `r‖s` and the recovery id, always below 4. The unwrap cannot fire:
/// the precondition repeats `from_slice`'s acceptance condition.
#[verifier::external_body]
pub(crate) fn sign_digest(sk: &[u8], msg: &[u8; 32]) -> (r: (Vec<u8>, u8))
    requires
        sk@.len() == 32,
        scalar_ok(sk@),
    ensures
        r.0@.len() == 64,
        r.1 < 4,
        sign_of(sk@, msg@) == r.0@.push(r.1),
{
    let key = secp256k1::SecretKey::from_slice(sk).unwrap();
    let m = secp256k1::Message::from_digest(*msg);
    let sig = secp256k1::SECP256K1.sign_ecdsa_recoverable(&m, &key);
    let (id, data) = sig.serialize_compact();
    (data.to_vec(), id.to_i32() as u8)
}

/// Relies on `RecoveryId::from_i32` (accepts exactly 0 to 3),
/// `RecoverableSignature::from_compact` (succeeds exactly when the 64
/// bytes parse), `RecoverableSignature::recover` (global context) and
/// `PublicKey::serialize_uncompressed`: succeeds exactly when the id
/// is accepted, the compact bytes parse and the point recovery
/// succeeds, and then returns the recovered key's serialization.
#[verifier::external_body]
pub(crate) fn recover_digest(msg: &[u8; 32], rs: &[u8], v: u8) -> (r: Result<
    Vec<u8>,
    secp256k1::Error,
>)
    requires
        rs@.len() == 64,
    ensures
        r is Ok <==> (v < 4 && compact_ok(rs@) && recover_of(msg@, rs@, v) is Some),
        r matches Ok(p) ==> recover_of(msg@, rs@, v) == Some(p@) && p@.len() == 65,
{
    let rid = secp256k1::ecdsa::RecoveryId::from_i32(v as i32)?;
    let sig = secp256k1::ecdsa::RecoverableSignature::from_compact(rs, rid)?;
    let key = sig.recover(&secp256k1::Message::from_digest(*msg))?;
    Ok(key.serialize_uncompressed().to_vec())
}

} // verus!
