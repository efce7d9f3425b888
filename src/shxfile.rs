//! The index file: after the header, one 8-byte entry per record of the main file, in the
//! main file's order.
use vstd::prelude::*;

use crate::bytes::{be_i32, be_i32_at, has_bytes};
use crate::error::DecodeError;
use crate::header::{header_at, FileHeader, FileModel, HEADER_SIZE};

verus! {

/// The size of an index entry in bytes.
pub const INDEX_ENTRY_SIZE: u64 = 8;

/// An index entry: where a record of the main file starts and how long its contents are.
#[derive(Debug, Clone, Copy, PartialEq, Eq, Structural)]
pub struct ShxRecord {
    /// Offset of the record from the start of the main file, in 16-bit words.
    pub offset: i32,
    /// Length of the record's contents, in 16-bit words.
    pub length: i32,
}

/// The index entry stored at `b[p..p + 8]`: offset, then length, both big-endian.
pub open spec fn index_record_at(b: Seq<u8>, p: int) -> ShxRecord {
    ShxRecord { offset: be_i32_at(b, p), length: be_i32_at(b, p + 4) }
}

impl ShxRecord {
    /// An entry with offset and length zero.
    pub fn new() -> (r: Self)
        ensures
            r == (ShxRecord { offset: 0, length: 0 }),
    {
        ShxRecord { offset: 0, length: 0 }
    }

    /// Decodes the 8-byte entry at `data[pos..]`.
    pub fn parse(data: &[u8], pos: usize) -> (r: Result<Self, DecodeError>)
        ensures
            r == (if has_bytes(data@, pos as int, 8) {
                Ok(index_record_at(data@, pos as int))
            } else {
                Err(DecodeError::Truncated)
            }),
    {
        if pos > data.len() || data.len() - pos < 8 {
            return Err(DecodeError::Truncated);
        }
        let mut result = Self::new();
        result.offset = be_i32(data, pos);
        result.length = be_i32(data, pos + 4);
        Ok(result)
    }
}

/// Whether a file length (in words) is a header followed by a whole number of entries.
pub open spec fn index_length_valid(file_length: i32) -> bool {
    2 * file_length >= HEADER_SIZE && (2 * file_length - HEADER_SIZE) % 8 == 0
}

/// The number of entries in an index file of the given length in words.
pub open spec fn index_record_count(file_length: i32) -> int {
    (2 * file_length - HEADER_SIZE) / 8
}

/// The byte offset of the entry of the record with 1-based ordinal `id`.
pub open spec fn index_entry_pos(id: int) -> int {
    HEADER_SIZE + (id - 1) * 8
}

/// What opening an index file with the bytes `b` gives: its header, or why it cannot be read.
pub open spec fn index_file_at(b: Seq<u8>) -> Result<FileHeader, DecodeError> {
    if b.len() < HEADER_SIZE {
        Err(DecodeError::InvalidSize)
    } else {
        match header_at(b) {
            Ok(h) => if index_length_valid(h.file_length) {
                Ok(h)
            } else {
                Err(DecodeError::MalformedIndex)
            },
            Err(e) => Err(e),
        }
    }
}

/// The entry of the record with 1-based ordinal `id`, or `None` where there is no such record
/// or the file ends before its entry does.
pub open spec fn index_lookup(f: FileModel, id: int) -> Option<ShxRecord> {
    if 1 <= id <= index_record_count(f.header.file_length) && has_bytes(
        f.data,
        index_entry_pos(id),
        8,
    ) {
        Some(index_record_at(f.data, index_entry_pos(id)))
    } else {
        None
    }
}

/// An opened index file.
pub struct ShxFile {
    header: FileHeader,
    data: Vec<u8>,
}

impl View for ShxFile {
    type V = FileModel;

    closed spec fn view(&self) -> FileModel {
        FileModel { header: self.header, data: self.data@ }
    }
}

impl ShxFile {
    #[verifier::type_invariant]
    spec fn well_formed(&self) -> bool {
        header_at(self.data@) == Ok::<FileHeader, DecodeError>(self.header) && index_length_valid(self.header.file_length)
    }

    /// Opens an index file from its bytes.
    pub fn parse_file(data: Vec<u8>) -> (r: Result<Self, DecodeError>)
        ensures
            match r {
                Ok(f) => index_file_at(data@) == Ok::<FileHeader, DecodeError>(f@.header) && f@.data == data@,
                Err(e) => index_file_at(data@) == Err::<FileHeader, DecodeError>(e),
            },
    {
        if data.len() < HEADER_SIZE {
            return Err(DecodeError::InvalidSize);
        }
        let header = match FileHeader::parse(data.as_slice()) {
            Ok(h) => h,
            Err(e) => return Err(e),
        };
        if header.file_length < 50 || (header.file_length - 50) % 4 != 0 {
            return Err(DecodeError::MalformedIndex);
        }
        Ok(ShxFile { header, data })
    }

    /// The header of the file.
    pub fn header(&self) -> (r: FileHeader)
        ensures
            r == self@.header,
    {
        self.header
    }

    /// The number of entries, and so of records in the main file.
    pub fn num_records(&self) -> (r: u64)
        ensures
            r == index_record_count(self@.header.file_length),
    {
        proof {
            use_type_invariant(self);
        }
        ((self.header.file_length as u64) * 2 - 100) / INDEX_ENTRY_SIZE
    }

    /// The entry of the record with 1-based ordinal `id`: the 8 bytes at
    /// `100 + (id - 1) * 8`. An ordinal outside `1..=num_records()`, or an entry that the file
    /// ends before, gives `None`.
    pub fn record(&self, id: u64) -> (r: Option<ShxRecord>)
        ensures
            r == index_lookup(self@, id as int),
    {
        let record_count = self.num_records();
        if id < 1 || id > record_count {
            return None;
        }
        let record_pos = HEADER_SIZE as u64 + (id - 1) * INDEX_ENTRY_SIZE;
        if record_pos > self.data.len() as u64 {
            return None;
        }
        match ShxRecord::parse(self.data.as_slice(), record_pos as usize) {
            Ok(v) => Some(v),
            Err(_) => None,
        }
    }
}

/// Lookup by ordinal at the two ends of an index of `n` entries whose file holds all of them:
/// ordinal 1 reads the entry at byte 100 and ordinal `n` the entry at byte `100 + (n - 1) * 8`,
/// while ordinals 0 and `n + 1` find nothing.
pub proof fn lemma_index_lookup_bounds(f: FileModel)
    requires
        index_file_at(f.data) == Ok::<FileHeader, DecodeError>(f.header),
        f.data.len() >= 2 * f.header.file_length,
    ensures
        index_lookup(f, 0) is None,
        index_lookup(f, index_record_count(f.header.file_length) + 1) is None,
        index_record_count(f.header.file_length) >= 1 ==> index_lookup(f, 1) == Some(
            index_record_at(f.data, 100),
        ),
        index_record_count(f.header.file_length) >= 1 ==> index_lookup(
            f,
            index_record_count(f.header.file_length),
        ) == Some(index_record_at(f.data, 100 + (index_record_count(f.header.file_length) - 1) * 8)),
{
}

} // verus!
