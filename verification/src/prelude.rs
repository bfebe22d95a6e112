//! Error types shared across the crate, and the check every string bound
//! for the native toolkit must pass.
//!
//! The native toolkit takes C strings, so a wrapper call that forwards a
//! string fails when the string holds an interior nul byte; everything else
//! it reports through the error kinds below.

use vstd::prelude::*;
use vstd::string::StringSliceAdditionalSpecFns;

verus! {

/// Error kinds enum
#[derive(Debug, Copy, Clone, PartialEq, Eq, Structural)]
pub enum FltkErrorKind {
    /// Failed to run the requested operation
    FailedOperation,
    /// Resource (file, image) was not found
    ResourceNotFound,
    /// Image format error when opening an image of an unsupported format
    ImageFormatError,
}

/// Error types returned by the wrapper layer
#[derive(Debug, PartialEq, Eq)]
pub enum FltkError {
    /// Internal error
    Internal(FltkErrorKind),
    /// Unknown error
    Unknown(String),
    /// A string bound for the native toolkit held an interior nul byte
    NullError,
    /// Error while writing a file
    IoError(String),
}

/// Whether a byte sequence holds a nul byte, which the conversion to a
/// native C string rejects.
pub open spec fn contains_nul(bytes: Seq<u8>) -> bool {
    exists|i: int| 0 <= i < bytes.len() && #[trigger] bytes[i] == 0
}

/// Checks whether the UTF-8 bytes of `s` hold a nul byte; such a string can
/// never be handed to the native toolkit.
pub fn str_contains_nul(s: &str) -> (r: bool)
    ensures
        r == contains_nul(s.spec_bytes()),
{
    let bytes = s.as_bytes();
    let n = bytes.len();
    let mut i: usize = 0;
    let mut found = false;
    while i < n
        invariant
            n == bytes@.len(),
            i <= n,
            bytes@ == s.spec_bytes(),
            found == exists|k: int| 0 <= k < i && #[trigger] bytes@[k] == 0,
        decreases n - i,
    {
        if bytes[i] == 0 {
            found = true;
        }
        i = i + 1;
    }
    found
}

} // verus!
