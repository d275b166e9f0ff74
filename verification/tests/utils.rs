//! Tests of the shared byte-array framework: hexadecimal decoding and
//! encoding, round trips, and the two hex rejections.
use eth_crypto::types::{CryptoError, HexError};
use eth_crypto::utils::{bytes_eq, hex_decode_exact, hex_encode_bytes, zero_vec};

#[test]
fn fromhex_succeed() {
    let t4 = hex_decode_exact("0xffaaffaa".as_bytes(), 4).unwrap();
    assert_eq!(t4.as_slice(), &[0xff, 0xaa, 0xff, 0xaa]);
    let t4p = hex_decode_exact("abcdef12".as_bytes(), 4).unwrap();
    assert_eq!(t4p.as_slice(), &[0xab, 0xcd, 0xef, 0x12]);
}

#[test]
#[should_panic]
fn fromhex_fail() {
    let _ = hex_decode_exact("0xabcdef".as_bytes(), 4).unwrap();
}

#[test]
fn fromhex_wrong_length_is_length_error() {
    let r = hex_decode_exact("0xabcdef".as_bytes(), 4);
    assert!(matches!(r, Err(CryptoError::HexErr(HexError::InvalidLength))));
    let empty = hex_decode_exact("".as_bytes(), 4);
    assert!(matches!(empty, Err(CryptoError::HexErr(HexError::InvalidLength))));
}

#[test]
fn fromhex_bad_digit_is_char_error() {
    let r = hex_decode_exact("0xzzaaffaa".as_bytes(), 4);
    assert!(matches!(r, Err(CryptoError::HexErr(HexError::InvalidChar))));
}

#[test]
fn fromhex_empty_type_accepts_empty_string() {
    let r = hex_decode_exact("".as_bytes(), 0).unwrap();
    assert!(r.is_empty());
}

#[test]
fn hexencode_exact_values() {
    let lower = hex_encode_bytes(&[0xab, 0x01, 0xff], false);
    assert_eq!(lower.as_slice(), "ab01ff".as_bytes());
    let upper = hex_encode_bytes(&[0xab, 0x01, 0xff], true);
    assert_eq!(upper.as_slice(), "AB01FF".as_bytes());
}

#[test]
fn hex_round_trip_all_cases() {
    let original: Vec<u8> = vec![0x00, 0x12, 0xab, 0xcd, 0xef, 0xff];
    let lower = hex_encode_bytes(original.as_slice(), false);
    let upper = hex_encode_bytes(original.as_slice(), true);
    assert_eq!(hex_decode_exact(lower.as_slice(), 6).unwrap(), original);
    assert_eq!(hex_decode_exact(upper.as_slice(), 6).unwrap(), original);
    let mut prefixed = "0x".as_bytes().to_vec();
    prefixed.extend_from_slice(lower.as_slice());
    assert_eq!(hex_decode_exact(prefixed.as_slice(), 6).unwrap(), original);
    let mut prefixed_upper = "0x".as_bytes().to_vec();
    prefixed_upper.extend_from_slice(upper.as_slice());
    assert_eq!(hex_decode_exact(prefixed_upper.as_slice(), 6).unwrap(), original);
}

#[test]
fn byteseq_helpers() {
    assert!(bytes_eq(&[1, 2, 3], &[1, 2, 3]));
    assert!(!bytes_eq(&[1, 2, 3], &[1, 2, 4]));
    assert!(!bytes_eq(&[1, 2], &[1, 2, 3]));
    let z = zero_vec(5);
    assert_eq!(z.as_slice(), &[0, 0, 0, 0, 0]);
}
