//! The main file: after the header, a sequence of records, each an 8-byte record header and a
//! shape body. Records are read in sequence, or one at a time through the index file.
use vstd::prelude::*;

use crate::bytes::{be_i32_at, has_bytes, lemma_slice_len_fits, read_i32_be};
use crate::error::DecodeError;
use crate::header::{header_at, FileHeader, FileModel, HEADER_SIZE};
use crate::shape::{lemma_shape_len, shape_at, Shape, ShapeModel};
use crate::shxfile::{index_lookup, ShxFile};

verus! {

/// One record of the main file.
#[derive(Debug, Clone, PartialEq)]
pub struct Record {
    /// The 1-based ordinal of the record, as the file states it.
    pub record_number: i32,
    /// The length of the record's contents in 16-bit words, as the file states it.
    pub content_length: i32,
    /// The geometry.
    pub shape: Shape,
}

/// The mathematical value of a `Record`.
pub struct RecordModel {
    pub record_number: i32,
    pub content_length: i32,
    pub shape: ShapeModel,
}

impl View for Record {
    type V = RecordModel;

    open spec fn view(&self) -> RecordModel {
        RecordModel {
            record_number: self.record_number,
            content_length: self.content_length,
            shape: self.shape@,
        }
    }
}

/// What the record at `b[p..]` decodes to, with the number of bytes it takes: the record number
/// and the content length (big-endian), then the shape body.
pub open spec fn record_at(b: Seq<u8>, p: int) -> Result<(RecordModel, int), DecodeError> {
    if !has_bytes(b, p, 8) {
        Err(DecodeError::Truncated)
    } else {
        match shape_at(b, p + 8) {
            Ok((s, n)) => Ok(
                (
                    RecordModel {
                        record_number: be_i32_at(b, p),
                        content_length: be_i32_at(b, p + 4),
                        shape: s,
                    },
                    n + 8,
                ),
            ),
            Err(e) => Err(e),
        }
    }
}

/// The model of a record decoding result.
pub open spec fn parsed_record(r: Result<(Record, usize), DecodeError>) -> Result<
    (RecordModel, int),
    DecodeError,
> {
    match r {
        Ok((v, n)) => Ok((v@, n as int)),
        Err(e) => Err(e),
    }
}

/// A decoded record takes at least twelve bytes, and lies within the buffer.
pub proof fn lemma_record_len(b: Seq<u8>, p: int)
    ensures
        match record_at(b, p) {
            Ok((_, n)) => 12 <= n && has_bytes(b, p, n),
            Err(_) => true,
        },
{
    lemma_shape_len(b, p + 8);
}

/// `a` followed by the records of `r`, or the error of `r`.
pub open spec fn prepend(a: Seq<RecordModel>, r: Result<Seq<RecordModel>, DecodeError>) -> Result<
    Seq<RecordModel>,
    DecodeError,
> {
    match r {
        Ok(rest) => Ok(a + rest),
        Err(e) => Err(e),
    }
}

/// The records read in sequence from `b[pos]` on, until the bytes read reach `end`. A record
/// that cannot be decoded ends the walk with its error.
pub open spec fn records_from(b: Seq<u8>, pos: int, end: int) -> Result<
    Seq<RecordModel>,
    DecodeError,
>
    decreases end - pos,
{
    if pos >= end {
        Ok(Seq::empty())
    } else {
        match record_at(b, pos) {
            Err(e) => Err(e),
            Ok((r, n)) => if pos + n >= end {
                Ok(seq![r])
            } else {
                proof {
                    lemma_record_len(b, pos);
                }
                prepend(seq![r], records_from(b, pos + n, end))
            },
        }
    }
}

/// One step of the walk: after the records `done`, the walk from `pos` goes on past the record
/// it finds there.
proof fn lemma_records_step(b: Seq<u8>, pos: int, end: int, done: Seq<RecordModel>)
    requires
        pos < end,
        record_at(b, pos) is Ok,
    ensures
        prepend(done, records_from(b, pos, end)) == prepend(
            done.push((record_at(b, pos)->Ok_0).0),
            records_from(b, pos + (record_at(b, pos)->Ok_0).1, end),
        ),
{
    let (r, n) = record_at(b, pos)->Ok_0;
    lemma_record_len(b, pos);
    let rest = records_from(b, pos + n, end);
    if pos + n >= end {
        assert(rest == Ok::<Seq<RecordModel>, DecodeError>(Seq::empty()));
        assert(done + seq![r] =~= done.push(r) + Seq::<RecordModel>::empty());
    } else {
        match rest {
            Ok(tail) => {
                assert(done + (seq![r] + tail) =~= done.push(r) + tail);
            },
            Err(_) => {},
        }
    }
}

/// The offsets at which the walk of `records_from(b, pos, end)` finds its records.
pub open spec fn record_starts(b: Seq<u8>, pos: int, end: int) -> Seq<int>
    decreases end - pos,
{
    if pos >= end {
        Seq::empty()
    } else {
        match record_at(b, pos) {
            Err(_) => Seq::empty(),
            Ok((_, n)) => if pos + n >= end {
                seq![pos]
            } else {
                proof {
                    lemma_record_len(b, pos);
                }
                seq![pos] + record_starts(b, pos + n, end)
            },
        }
    }
}

/// The records of a main file read in sequence: from the end of the header until the bytes
/// read reach the file length that the header states.
pub open spec fn file_records(f: FileModel) -> Result<Seq<RecordModel>, DecodeError> {
    records_from(f.data, HEADER_SIZE as int, 2 * f.header.file_length)
}

/// The offsets of the records of `file_records(f)`.
pub open spec fn file_record_starts(f: FileModel) -> Seq<int> {
    record_starts(f.data, HEADER_SIZE as int, 2 * f.header.file_length)
}

/// The record with 1-based ordinal `id`, found through the index `shx` in the main file `shp`,
/// or `None` where the index has no entry for it or no record can be decoded where it points.
pub open spec fn record_by_id(shp: FileModel, shx: FileModel, id: int) -> Option<RecordModel> {
    match index_lookup(shx, id) {
        None => None,
        Some(entry) => if entry.offset < 0 {
            None
        } else {
            match record_at(shp.data, 2 * entry.offset) {
                Ok((r, _)) => Some(r),
                Err(_) => None,
            }
        },
    }
}

/// What opening a main file with the bytes `b` gives: its header, or why it cannot be read.
pub open spec fn main_file_at(b: Seq<u8>) -> Result<FileHeader, DecodeError> {
    if b.len() < HEADER_SIZE {
        Err(DecodeError::InvalidSize)
    } else {
        header_at(b)
    }
}

/// The models of a sequence of records.
pub open spec fn records_model(v: Seq<Record>) -> Seq<RecordModel> {
    v.map_values(|r: Record| r@)
}

impl Record {
    /// A record numbered 0, of content length 0, holding the null shape.
    pub fn new() -> (r: Record)
        ensures
            r@ == (RecordModel { record_number: 0, content_length: 0, shape: ShapeModel::NullShape }),
    {
        Record { record_number: 0, content_length: 0, shape: Shape::NullShape }
    }

    /// Decodes the record at `data[pos..]`, returning it with the number of bytes it takes.
    /// The record header's two fields are kept as stated; neither is checked against the shape.
    pub fn parse(data: &[u8], pos: usize) -> (r: Result<(Record, usize), DecodeError>)
        ensures
            parsed_record(r) == record_at(data@, pos as int),
    {
        proof {
            lemma_slice_len_fits(data);
        }
        let mut result = Record::new();
        result.record_number = match read_i32_be(data, pos) {
            Ok(v) => v,
            Err(e) => return Err(e),
        };
        result.content_length = match read_i32_be(data, pos + 4) {
            Ok(v) => v,
            Err(e) => return Err(e),
        };
        let (shape, shape_length) = match Shape::parse(data, pos + 8) {
            Ok(v) => v,
            Err(e) => return Err(e),
        };
        result.shape = shape;
        proof {
            lemma_shape_len(data@, pos + 8);
        }
        Ok((result, shape_length + 8))
    }
}

/// An opened main file.
pub struct ShpFile {
    header: FileHeader,
    data: Vec<u8>,
}

impl View for ShpFile {
    type V = FileModel;

    closed spec fn view(&self) -> FileModel {
        FileModel { header: self.header, data: self.data@ }
    }
}

impl ShpFile {
    /// Opens a main file from its bytes: it must hold at least the 100-byte header, and the
    /// header must decode.
    pub fn parse_file(data: Vec<u8>) -> (r: Result<Self, DecodeError>)
        ensures
            match r {
                Ok(f) => main_file_at(data@) == Ok::<FileHeader, DecodeError>(f@.header) && f@.data
                    == data@,
                Err(e) => main_file_at(data@) == Err::<FileHeader, DecodeError>(e),
            },
    {
        if data.len() < HEADER_SIZE {
            return Err(DecodeError::InvalidSize);
        }
        let header = match FileHeader::parse(data.as_slice()) {
            Ok(h) => h,
            Err(e) => return Err(e),
        };
        Ok(ShpFile { header, data })
    }

    /// The header of the file.
    pub fn header(&self) -> (r: FileHeader)
        ensures
            r == self@.header,
    {
        self.header
    }

    /// The record with 1-based ordinal `id`: its entry in the index gives its offset in words,
    /// and the record is decoded at twice that offset. Every failure on the way (no such
    /// ordinal, an entry beyond the index's end, an offset beyond this file's end, a record that
    /// does not decode) gives `None`.
    pub fn record(&self, shx_file: &ShxFile, id: u64) -> (r: Option<Record>)
        ensures
            match r {
                Some(v) => record_by_id(self@, shx_file@, id as int) == Some(v@),
                None => record_by_id(self@, shx_file@, id as int) is None,
            },
    {
        let rec = match shx_file.record(id) {
            Some(r) => r,
            None => return None,
        };
        if rec.offset < 0 {
            return None;
        }
        let byte_pos = rec.offset as u64 * 2;
        if byte_pos > self.data.len() as u64 {
            return None;
        }
        match Record::parse(self.data.as_slice(), byte_pos as usize) {
            Ok((v, _)) => Some(v),
            Err(_) => None,
        }
    }

    /// All the records of the file, read in sequence from the end of the header until the bytes
    /// read reach the file length that the header states. A record that cannot be decoded, a
    /// partial one at the end included, makes the whole walk fail with its error.
    pub fn records(&self) -> (r: Result<Vec<Record>, DecodeError>)
        ensures
            match r {
                Ok(v) => file_records(self@) == Ok::<Seq<RecordModel>, DecodeError>(
                    records_model(v@),
                ),
                Err(e) => file_records(self@) == Err::<Seq<RecordModel>, DecodeError>(e),
            },
    {
        let data = self.data.as_slice();
        proof {
            lemma_slice_len_fits(data);
        }
        let ghost end: int = 2 * self.header.file_length;
        let end_bytes: u64 = if self.header.file_length > 0 {
            self.header.file_length as u64 * 2
        } else {
            0
        };
        let mut pos: usize = HEADER_SIZE;
        let mut result: Vec<Record> = Vec::new();
        while (pos as u64) < end_bytes
            invariant
                data@ == self@.data,
                end == 2 * self@.header.file_length,
                end_bytes == (if end > 0 {
                    end
                } else {
                    0
                }),
                HEADER_SIZE <= pos <= usize::MAX,
                data@.len() <= usize::MAX,
                file_records(self@) == prepend(records_model(result@), records_from(data@, pos as int, end)),
            decreases data@.len() - pos,
        {
            let (record, n) = match Record::parse(data, pos) {
                Ok(v) => v,
                Err(e) => {
                    return Err(e);
                },
            };
            proof {
                lemma_record_len(data@, pos as int);
                lemma_records_step(data@, pos as int, end, records_model(result@));
                assert(records_model(result@.push(record)) =~= records_model(result@).push(
                    record@,
                ));
            }
            result.push(record);
            pos = pos + n;
        }
        proof {
            assert(records_model(result@) + Seq::<RecordModel>::empty() =~= records_model(result@));
        }
        Ok(result)
    }
}

/// Whether the index `shx` lists the records of the main file `shp`: one entry per record, in
/// order, each giving in words the offset at which the sequential walk finds its record.
pub open spec fn index_matches(shp: FileModel, shx: FileModel) -> bool {
    let starts = file_record_starts(shp);
    &&& file_records(shp) is Ok
    &&& forall|k: int|
        1 <= k <= starts.len() ==> match #[trigger] index_lookup(shx, k) {
            Some(entry) => 2 * entry.offset == starts[k - 1],
            None => false,
        }
}

/// The walk from `pos` finds one record at each of its start offsets.
proof fn lemma_records_at_starts(b: Seq<u8>, pos: int, end: int)
    requires
        records_from(b, pos, end) is Ok,
    ensures
        record_starts(b, pos, end).len() == records_from(b, pos, end)->Ok_0.len(),
        forall|i: int|
            0 <= i < record_starts(b, pos, end).len() ==> {
                &&& pos <= #[trigger] record_starts(b, pos, end)[i]
                &&& record_at(b, record_starts(b, pos, end)[i]) is Ok
                &&& (record_at(b, record_starts(b, pos, end)[i])->Ok_0).0 == records_from(
                    b,
                    pos,
                    end,
                )->Ok_0[i]
            },
    decreases end - pos,
{
    if pos < end {
        lemma_record_len(b, pos);
        let n = (record_at(b, pos)->Ok_0).1;
        if pos + n < end {
            lemma_records_at_starts(b, pos + n, end);
        }
    }
}

/// Random access agrees with the sequential walk: where the index lists the records of the main
/// file, the record read through the index at ordinal `k` is the `k`-th record of the walk.
pub proof fn lemma_random_access_matches_sequential(shp: FileModel, shx: FileModel, k: int)
    requires
        index_matches(shp, shx),
        1 <= k <= file_records(shp)->Ok_0.len(),
    ensures
        record_by_id(shp, shx, k) == Some(file_records(shp)->Ok_0[k - 1]),
{
    lemma_records_at_starts(shp.data, HEADER_SIZE as int, 2 * shp.header.file_length);
    assert(index_lookup(shx, k) is Some);
}

} // verus!
