//! A small cryptographic identity layer for an account-based blockchain
//! model: key generation, recoverable-signature signing, public-key
//! recovery and address derivation on the secp256k1 curve, together with
//! the fixed-length byte-array newtypes (hex round-tripping included)
//! that every cryptographic value is represented as.
pub mod ecc;
pub mod engine;
pub mod hash;
pub mod types;
pub mod utils;
