//! The ways in which decoding can fail.
use vstd::prelude::*;

verus! {

/// Why a header, a record or an index could not be decoded.
#[derive(Debug, Clone, Copy, PartialEq, Eq, Structural)]
pub enum DecodeError {
    /// The bytes end before a field or a declared array is complete.
    Truncated,
    /// The header does not start with the magic number 9994.
    MagicMismatch,
    /// The header names a version other than 1000.
    VersionMismatch,
    /// A MultiPatch part carries a patch-type code outside 0..=5.
    InvalidPatchType,
    /// The index file's length is not the header plus a whole number of entries.
    MalformedIndex,
    /// The file is shorter than its 100-byte header.
    InvalidSize,
}

} // verus!
