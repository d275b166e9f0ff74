//! Tests of the elliptic-curve operations: sign/recover inverse,
//! address determinism, component ordering, tamper sensitivity, and
//! the engine-error paths.
use eth_crypto::ecc::{ecrecover, keygen, recover, Address, Private, Public, Signature};
use eth_crypto::hash::hash;
use eth_crypto::types::{CryptoError, HexError};

#[test]
fn signing() {
    for _ in 0..7 {
        let (public, secret) = keygen().unwrap();
        let msg = hash("hello world".as_bytes());
        let mut m = [0u8; 32];
        m.copy_from_slice(msg.as_bytes());
        let sig = secret.sign(&m).unwrap();
        let rec = recover(&m, &sig).unwrap();
        assert_eq!(public, rec);
    }
}

#[test]
fn addressing() {
    for _ in 0..7 {
        let (public, secret) = keygen().unwrap();
        let msg = hash("hello world".as_bytes());
        let mut m = [0u8; 32];
        m.copy_from_slice(msg.as_bytes());
        let sig = secret.sign(&m).unwrap();
        let rec = ecrecover(&m, &sig).unwrap();
        assert_eq!(Address::from_public(&public), rec);
    }
}

#[test]
fn sign_recover_inverse_many() {
    for i in 0..120 {
        let (public, secret) = keygen().unwrap();
        let msg = hash(format!("message number {}", i).as_bytes());
        let mut m = [0u8; 32];
        m.copy_from_slice(msg.as_bytes());
        let sig = secret.sign(&m).unwrap();
        let rec = recover(&m, &sig).unwrap();
        assert_eq!(public, rec);
    }
}

#[test]
fn address_is_deterministic() {
    let (public, secret) = keygen().unwrap();
    let once = Address::from_public(&public);
    let twice = Address::from_public(&public);
    assert_eq!(once, twice);
    let msg = hash("another message".as_bytes());
    let mut m = [0u8; 32];
    m.copy_from_slice(msg.as_bytes());
    let sig = secret.sign(&m).unwrap();
    assert_eq!(ecrecover(&m, &sig).unwrap(), once);
}

#[test]
fn sign_is_deterministic() {
    let (_, secret) = keygen().unwrap();
    let msg = hash("the same digest twice".as_bytes());
    let mut m = [0u8; 32];
    m.copy_from_slice(msg.as_bytes());
    let first = secret.sign(&m).unwrap();
    let second = secret.sign(&m).unwrap();
    assert_eq!(first, second);
    assert_eq!(first.as_bytes(), second.as_bytes());
}

#[test]
fn assemble_and_strip_steps() {
    let mut rs = [0u8; 64];
    let mut i: usize = 0;
    while i < 64 {
        rs[i] = (64 - i) as u8;
        i += 1;
    }
    let sig = Signature::from_parts(&rs, 1);
    let mut whole = rs.to_vec();
    whole.push(1);
    assert_eq!(sig.as_bytes(), whole.as_slice());
    let mut ser = [7u8; 65];
    ser[0] = 4;
    let public = Public::from_uncompressed(&ser);
    assert_eq!(public.as_bytes(), &ser[1..65]);
}

#[test]
fn address_formula() {
    let (public, _) = keygen().unwrap();
    let digest = hash(public.as_bytes());
    let addr = Address::from_public(&public);
    assert_eq!(addr.as_bytes(), &digest.as_bytes()[12..32]);
}

#[test]
fn signature_storage_layout() {
    let (_, secret) = keygen().unwrap();
    let msg = hash("layout".as_bytes());
    let mut m = [0u8; 32];
    m.copy_from_slice(msg.as_bytes());
    let sig = secret.sign(&m).unwrap();
    let (v, r, s) = sig.split();
    assert!(v < 4);
    let mut reassembled = Vec::new();
    reassembled.extend_from_slice(r);
    reassembled.extend_from_slice(s);
    reassembled.push(v);
    assert_eq!(reassembled.as_slice(), sig.as_bytes());
}

#[test]
fn split_component_ordering() {
    let mut raw = [0u8; 65];
    let mut i: usize = 0;
    while i < 65 {
        raw[i] = i as u8;
        i += 1;
    }
    raw[64] = 3;
    let sig = Signature::from_bytes(&raw);
    let (v, r, s) = sig.split();
    assert_eq!(v, raw[64]);
    assert_eq!(r, &raw[0..32]);
    assert_eq!(s, &raw[32..64]);
    assert_eq!(sig.get_v(), 3);
    assert_eq!(sig.get_r(), &raw[0..32]);
    assert_eq!(sig.get_s(), &raw[32..64]);
}

#[test]
fn tampered_message_never_recovers_same_key() {
    let (public, secret) = keygen().unwrap();
    let msg = hash("tamper with the message".as_bytes());
    let mut m = [0u8; 32];
    m.copy_from_slice(msg.as_bytes());
    let sig = secret.sign(&m).unwrap();
    for byte in 0..32 {
        for bit in 0..8 {
            let mut tampered = m;
            tampered[byte] ^= 1u8 << bit;
            match recover(&tampered, &sig) {
                Ok(rec) => assert_ne!(rec, public),
                Err(e) => assert!(matches!(e, CryptoError::SigErr(_))),
            }
        }
    }
}

#[test]
fn tampered_signature_never_recovers_same_key() {
    let (public, secret) = keygen().unwrap();
    let msg = hash("tamper with the signature".as_bytes());
    let mut m = [0u8; 32];
    m.copy_from_slice(msg.as_bytes());
    let sig = secret.sign(&m).unwrap();
    let mut raw = [0u8; 65];
    raw.copy_from_slice(sig.as_bytes());
    for byte in 0..64 {
        for bit in 0..8 {
            let mut tampered = raw;
            tampered[byte] ^= 1u8 << bit;
            let bad = Signature::from_bytes(&tampered);
            match recover(&m, &bad) {
                Ok(rec) => assert_ne!(rec, public),
                Err(e) => assert!(matches!(e, CryptoError::SigErr(_))),
            }
        }
    }
}

#[test]
fn zero_scalar_cannot_sign() {
    let zero = Private::default();
    let msg = hash("unsignable".as_bytes());
    let mut m = [0u8; 32];
    m.copy_from_slice(msg.as_bytes());
    let r = zero.sign(&m);
    assert!(matches!(r, Err(CryptoError::SigErr(_))));
}

#[test]
fn out_of_range_recovery_id_is_rejected() {
    let (_, secret) = keygen().unwrap();
    let msg = hash("bad recovery id".as_bytes());
    let mut m = [0u8; 32];
    m.copy_from_slice(msg.as_bytes());
    let sig = secret.sign(&m).unwrap();
    let mut raw = [0u8; 65];
    raw.copy_from_slice(sig.as_bytes());
    raw[64] = 7;
    let bad = Signature::from_bytes(&raw);
    assert!(matches!(recover(&m, &bad), Err(CryptoError::SigErr(_))));
    assert!(matches!(ecrecover(&m, &bad), Err(CryptoError::SigErr(_))));
}

#[test]
fn error_descriptions() {
    let misc = CryptoError::Misc("custom diagnostic");
    assert_eq!(misc.describe(), "custom diagnostic");
    let hex = CryptoError::HexErr(HexError::InvalidLength);
    assert_eq!(hex.describe(), "Hex Error");
    let io = CryptoError::IoErr(std::io::Error::new(
        std::io::ErrorKind::UnexpectedEof,
        "entropy source closed",
    ));
    assert_eq!(io.describe(), "Io Error");
    let zero = Private::default();
    let msg = hash("describe".as_bytes());
    let mut m = [0u8; 32];
    m.copy_from_slice(msg.as_bytes());
    match zero.sign(&m) {
        Err(e) => assert_eq!(e.describe(), "Signature error"),
        Ok(_) => unreachable!(),
    }
}

#[test]
fn type_hex_round_trips() {
    let (public, secret) = keygen().unwrap();
    let addr = Address::from_public(&public);
    let p2 = Public::from_hex(public.to_hex().as_bytes()).unwrap();
    assert_eq!(p2, public);
    let p3 = Public::from_hex(format!("0x{}", public.to_hex_upper()).as_bytes()).unwrap();
    assert_eq!(p3, public);
    let s2 = Private::from_hex(secret.to_hex().as_bytes()).unwrap();
    assert_eq!(s2, secret);
    let a2 = Address::from_hex(addr.to_hex_upper().as_bytes()).unwrap();
    assert_eq!(a2, addr);
    let msg = hash("round trip".as_bytes());
    let mut m = [0u8; 32];
    m.copy_from_slice(msg.as_bytes());
    let sig = secret.sign(&m).unwrap();
    let sig2 = Signature::from_hex(format!("0x{}", sig.to_hex()).as_bytes()).unwrap();
    assert_eq!(sig2, sig);
}

#[test]
fn wrong_length_hex_is_rejected_per_type() {
    let forty_one = "a".repeat(41);
    assert!(matches!(
        Address::from_hex(forty_one.as_bytes()),
        Err(CryptoError::HexErr(HexError::InvalidLength))
    ));
    assert!(matches!(
        Public::from_hex("0xabcd".as_bytes()),
        Err(CryptoError::HexErr(HexError::InvalidLength))
    ));
    assert!(matches!(
        Private::from_hex("".as_bytes()),
        Err(CryptoError::HexErr(HexError::InvalidLength))
    ));
    let bad_char = "g".repeat(130);
    assert!(matches!(
        Signature::from_hex(bad_char.as_bytes()),
        Err(CryptoError::HexErr(HexError::InvalidChar))
    ));
}

#[test]
fn defaults_are_all_zero() {
    assert_eq!(Address::default().as_bytes(), &[0u8; 20]);
    assert_eq!(Public::default().as_bytes(), &[0u8; 64]);
    assert_eq!(Private::default().as_bytes(), &[0u8; 32]);
    assert_eq!(Signature::default().as_bytes(), &[0u8; 65]);
}

#[test]
fn byte_constructors_round_trip() {
    let mut raw = [0u8; 20];
    raw[0] = 0xde;
    raw[19] = 0xad;
    let addr = Address::from_bytes(&raw);
    assert_eq!(addr.as_bytes(), &raw);
    let copy = addr.clone();
    assert_eq!(copy, addr);
    let other = Address::default();
    assert_ne!(other, addr);
}
