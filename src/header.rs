//! The 100-byte header shared by the main file and the index file.
use vstd::prelude::*;

use crate::bytes::{be_i32_at, has_bytes, le_i32_at, read_i32_be, read_i32_le};
use crate::error::DecodeError;
use crate::shape::{box_z_at, BoundingBoxZ};

verus! {

/// The magic number that opens every main and index file, stored big-endian.
pub const SHP_MAGIC_NUMBER: i32 = 9994;

/// The one supported format version, stored little-endian.
pub const SHP_VERSION: i32 = 1000;

/// The size of a file header in bytes.
pub const HEADER_SIZE: usize = 100;

/// The header of a main or index file.
#[derive(Debug, Clone, Copy, PartialEq, Eq, Structural)]
pub struct FileHeader {
    /// The length of the whole file in 16-bit words, header included.
    pub file_length: i32,
    /// The shape-type code that every record of the file has, unless it is a null shape.
    pub shape_type: i32,
    /// The extent of all the data in the file.
    pub bounding_box: BoundingBoxZ,
}

/// A file as the readers see it: its decoded header and all of its bytes.
pub struct FileModel {
    pub header: FileHeader,
    pub data: Seq<u8>,
}

/// What decoding a header from the start of `b` gives. The fields are checked in the order in
/// which they are stored: the magic number (bytes 0..4, big-endian), 20 unused bytes, the file
/// length (24..28, big-endian), the version (28..32, little-endian), the shape type (32..36,
/// little-endian) and the bounding volume (36..100).
pub open spec fn header_at(b: Seq<u8>) -> Result<FileHeader, DecodeError> {
    if !has_bytes(b, 0, 4) {
        Err(DecodeError::Truncated)
    } else if be_i32_at(b, 0) != SHP_MAGIC_NUMBER {
        Err(DecodeError::MagicMismatch)
    } else if !has_bytes(b, 0, 32) {
        Err(DecodeError::Truncated)
    } else if le_i32_at(b, 28) != SHP_VERSION {
        Err(DecodeError::VersionMismatch)
    } else if !has_bytes(b, 0, 100) {
        Err(DecodeError::Truncated)
    } else {
        Ok(
            FileHeader {
                file_length: be_i32_at(b, 24),
                shape_type: le_i32_at(b, 32),
                bounding_box: box_z_at(b, 36),
            },
        )
    }
}

impl FileHeader {
    /// A header with every field zero.
    pub fn new() -> (r: Self)
        ensures
            r.file_length == 0,
            r.shape_type == 0,
            r.bounding_box == BoundingBoxZ::spec_zero(),
    {
        FileHeader { file_length: 0, shape_type: 0, bounding_box: BoundingBoxZ::new() }
    }

    /// Decodes the header at the start of `data`.
    pub fn parse(data: &[u8]) -> (r: Result<Self, DecodeError>)
        ensures
            r == header_at(data@),
    {
        let magic = match read_i32_be(data, 0) {
            Ok(v) => v,
            Err(e) => return Err(e),
        };
        if magic != SHP_MAGIC_NUMBER {
            return Err(DecodeError::MagicMismatch);
        }
        let mut result = Self::new();
        result.file_length = match read_i32_be(data, 24) {
            Ok(v) => v,
            Err(e) => return Err(e),
        };
        let version = match read_i32_le(data, 28) {
            Ok(v) => v,
            Err(e) => return Err(e),
        };
        if version != SHP_VERSION {
            return Err(DecodeError::VersionMismatch);
        }
        result.shape_type = match read_i32_le(data, 32) {
            Ok(v) => v,
            Err(e) => return Err(e),
        };
        result.bounding_box = match BoundingBoxZ::parse(data, 36) {
            Ok(b) => b,
            Err(e) => return Err(e),
        };
        Ok(result)
    }
}

/// A header is refused when its magic number is not 9994, and, with the right magic number,
/// when its version is not 1000.
pub proof fn lemma_header_checks(b: Seq<u8>)
    requires
        b.len() >= HEADER_SIZE,
    ensures
        be_i32_at(b, 0) != SHP_MAGIC_NUMBER ==> header_at(b) == Err::<FileHeader, DecodeError>(
            DecodeError::MagicMismatch,
        ),
        be_i32_at(b, 0) == SHP_MAGIC_NUMBER && le_i32_at(b, 28) != SHP_VERSION ==> header_at(b)
            == Err::<FileHeader, DecodeError>(DecodeError::VersionMismatch),
        be_i32_at(b, 0) == SHP_MAGIC_NUMBER && le_i32_at(b, 28) == SHP_VERSION ==> header_at(
            b,
        ) is Ok,
{
}

} // verus!
