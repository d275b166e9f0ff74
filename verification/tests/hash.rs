//! Tests of the Keccak-256 digest wrapper: single-input and
//! multi-fragment hashing agree, known digests, and hex round trips.
use eth_crypto::hash::{hash, hash_many};

#[test]
fn keccak256() {
    let singular = hash("hello world".as_bytes());
    let multiple = hash_many(&[
        "hello".as_bytes().to_vec(),
        " ".as_bytes().to_vec(),
        "world".as_bytes().to_vec(),
    ]);
    assert_eq!(singular, multiple);
}

#[test]
fn keccak_known_digests() {
    let empty = hash(&[]);
    assert_eq!(
        empty.to_hex(),
        "c5d2460186f7233c927e7db2dcc703c0e500b653ca82273b7bfad8045d85a470"
    );
    let hw = hash("hello world".as_bytes());
    assert_eq!(
        hw.to_hex(),
        "47173285a8d7341e5e972fc677286384f802f8ef42a5ec5f03bbfa254cb01fad"
    );
}

#[test]
fn hash_many_with_empty_fragments() {
    let no_fragments = hash_many(&[]);
    assert_eq!(no_fragments, hash(&[]));
    let padded = hash_many(&[
        Vec::new(),
        "abc".as_bytes().to_vec(),
        Vec::new(),
    ]);
    assert_eq!(padded, hash("abc".as_bytes()));
}

#[test]
fn hash_hex_round_trip() {
    let h = hash("abc".as_bytes());
    let lower = eth_crypto::hash::Hash::from_hex(h.to_hex().as_bytes()).unwrap();
    assert_eq!(lower, h);
    let upper = eth_crypto::hash::Hash::from_hex(h.to_hex_upper().as_bytes()).unwrap();
    assert_eq!(upper, h);
    let prefixed = eth_crypto::hash::Hash::from_hex(format!("0x{}", h.to_hex()).as_bytes()).unwrap();
    assert_eq!(prefixed, h);
}

#[test]
fn hash_bytes_accessors() {
    let h = hash("abc".as_bytes());
    let mut raw = [0u8; 32];
    raw.copy_from_slice(h.as_bytes());
    let again = eth_crypto::hash::Hash::from_bytes(&raw);
    assert_eq!(again, h);
    let zero = eth_crypto::hash::Hash::default();
    assert_eq!(zero.as_bytes(), &[0u8; 32]);
    assert_ne!(zero, h);
    let copy = h.clone();
    assert_eq!(copy, h);
}
