//! The error type shared by every parser and decryptor of the library.

use vstd::prelude::*;
use crate::crypto::{KeyIndex, KeyIndexParseError};
use crate::string::{decimal, spec_decimal};
use vstd::string::StringExecFns;

verus! {

/// `ctr::cipher::StreamCipherError`: what the stream cipher reports when
/// it cannot apply its keystream. Carried through, never inspected.
#[verifier::external_type_specification]
#[verifier::external_body]
pub struct ExStreamCipherError(ctr::cipher::StreamCipherError);

/// `hex::FromHexError`: why a hexadecimal string could not be decoded.
/// Carried through, never inspected.
#[verifier::external_type_specification]
#[verifier::external_body]
pub struct ExFromHexError(hex::FromHexError);

/// Everything that can go wrong while validating or unwrapping a container.
#[non_exhaustive]
#[derive(Debug)]
pub enum CytrynaError {
    /// The magic bytes or the signature tag are not the expected ones.
    InvalidMagic,
    /// A region that the header declares absent was asked for.
    MissingRegion,
    /// The header does not declare its own exact size.
    InvalidHeaderSize,
    /// A stored hash differs from the hash of the data it covers.
    InvalidHash,
    /// A signature does not verify.
    SignatureCorrupted,
    /// A region lies where it cannot lie.
    InvalidRegionPosition,
    /// The header has a version that is not understood.
    UnsupportedHeaderVersion,
    /// The key store has no key under this identifier.
    MissingKey(KeyIndex),
    /// No key store has been published yet.
    NoKeyBag,
    /// A field holds a number that its enumeration has no variant for.
    EnumValueOutOfRange(&'static str),
    /// The byte string is shorter than the structure read from it.
    SliceTooSmall,
    /// Something has a length other than the one it must have.
    InvalidLength { what: &'static str, actual: usize, expected: usize },
    /// A key identifier could not be parsed.
    KeyIndexFail(KeyIndexParseError),
    /// The stream cipher refused to work.
    StreamCrypt(ctr::cipher::StreamCipherError),
    /// A hexadecimal string could not be decoded.
    HexError(hex::FromHexError),
    /// The buffer is not aligned as the structure requires.
    BadAlign,
    /// The request needs a feature that the library does not provide.
    NotImplemented(&'static str),
}

/// What the library's fallible functions return.
pub type CytrynaResult<T> = Result<T, CytrynaError>;


impl CytrynaError {
    /// What went wrong, in words.
    pub open spec fn spec_message(&self) -> Seq<char> {
        match self {
            CytrynaError::InvalidMagic => "Invalid magic bytes"@,
            CytrynaError::MissingRegion => "Missing region"@,
            CytrynaError::InvalidHeaderSize => "Invalid size of header"@,
            CytrynaError::InvalidHash => "Invalid hash"@,
            CytrynaError::SignatureCorrupted => "Signature corrupted/forged"@,
            CytrynaError::InvalidRegionPosition => "Invalid region position"@,
            CytrynaError::UnsupportedHeaderVersion => "Unsupported version of header"@,
            CytrynaError::MissingKey(idx) => "Missing "@ + idx.spec_to_string() + " key"@,
            CytrynaError::NoKeyBag => "Uninitialized keybag"@,
            CytrynaError::EnumValueOutOfRange(name) => "Value out of range for "@ + name@
                + " enum"@,
            CytrynaError::SliceTooSmall => "Byte slice passed is too small"@,
            CytrynaError::InvalidLength { what, actual, expected } => "Invalid length of "@ + what@
                + ": "@ + spec_decimal(*actual as nat) + " (expected "@ + spec_decimal(
                *expected as nat,
            ) + ")"@,
            CytrynaError::KeyIndexFail(_) => "Failed to parse keyindex"@,
            CytrynaError::StreamCrypt(_) => "Failed to stream-encrypt/decrypt data"@,
            CytrynaError::HexError(_) => "Failed to decode hex string"@,
            CytrynaError::BadAlign => "Incorrect alignment"@,
            CytrynaError::NotImplemented(what) => "Not implemented: "@ + what@,
        }
    }

    /// What went wrong, in words.
    pub fn message(&self) -> (r: String)
        ensures
            r@ == self.spec_message(),
    {
        match self {
            CytrynaError::InvalidMagic => String::from_str("Invalid magic bytes"),
            CytrynaError::MissingRegion => String::from_str("Missing region"),
            CytrynaError::InvalidHeaderSize => String::from_str("Invalid size of header"),
            CytrynaError::InvalidHash => String::from_str("Invalid hash"),
            CytrynaError::SignatureCorrupted => String::from_str("Signature corrupted/forged"),
            CytrynaError::InvalidRegionPosition => String::from_str("Invalid region position"),
            CytrynaError::UnsupportedHeaderVersion => String::from_str(
                "Unsupported version of header",
            ),
            CytrynaError::MissingKey(idx) => {
                let mut m = String::from_str("Missing ");
                m.append(idx.to_string().as_str());
                m.append(" key");
                m
            },
            CytrynaError::NoKeyBag => String::from_str("Uninitialized keybag"),
            CytrynaError::EnumValueOutOfRange(name) => {
                let mut m = String::from_str("Value out of range for ");
                m.append(name);
                m.append(" enum");
                m
            },
            CytrynaError::SliceTooSmall => String::from_str("Byte slice passed is too small"),
            CytrynaError::InvalidLength { what, actual, expected } => {
                let mut m = String::from_str("Invalid length of ");
                m.append(what);
                m.append(": ");
                m.append(decimal(*actual).as_str());
                m.append(" (expected ");
                m.append(decimal(*expected).as_str());
                m.append(")");
                m
            },
            CytrynaError::KeyIndexFail(_) => String::from_str("Failed to parse keyindex"),
            CytrynaError::StreamCrypt(_) => String::from_str(
                "Failed to stream-encrypt/decrypt data",
            ),
            CytrynaError::HexError(_) => String::from_str("Failed to decode hex string"),
            CytrynaError::BadAlign => String::from_str("Incorrect alignment"),
            CytrynaError::NotImplemented(what) => {
                let mut m = String::from_str("Not implemented: ");
                m.append(what);
                m
            },
        }
    }
}

} // verus!
