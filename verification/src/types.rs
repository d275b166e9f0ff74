//! The error taxonomy shared by the whole library: engine errors, hex
//! parse errors, entropy-source errors and a generic escape hatch.
use vstd::prelude::*;

verus! {

/// How a hexadecimal string failed to parse.
#[derive(Clone, Copy, Debug, PartialEq, Eq)]
pub enum HexError {
    /// A character outside `0-9`, `A-F`, `a-f` was met.
    InvalidChar,
    /// The digits decode to a byte count other than the target type's
    /// fixed length.
    InvalidLength,
}

/// Custom error type for this library.
#[derive(Debug)]
pub enum CryptoError {
    /// Error raised by the elliptic-curve engine: invalid scalar,
    /// invalid signature bytes, invalid recovery id, or a recovery that
    /// mathematically fails.
    SigErr(secp256k1::Error),
    /// Error raised during parsing from a hexadecimal string.
    HexErr(HexError),
    /// Error raised acquiring a system resource such as secure randomness.
    IoErr(std::io::Error),
    /// Generic error carrying a static diagnostic message.
    Misc(&'static str),
}

impl CryptoError {
    /// A short static description of the error's kind; for the generic
    /// kind, the diagnostic message itself.
    pub fn describe(&self) -> (r: &'static str)
        ensures
            self is SigErr ==> r@ == "Signature error"@,
            self is HexErr ==> r@ == "Hex Error"@,
            self is IoErr ==> r@ == "Io Error"@,
            self matches CryptoError::Misc(m) ==> r == m,
    {
        match self {
            CryptoError::SigErr(_) => "Signature error",
            CryptoError::HexErr(_) => "Hex Error",
            CryptoError::IoErr(_) => "Io Error",
            CryptoError::Misc(m) => m,
        }
    }
}

} // verus!
