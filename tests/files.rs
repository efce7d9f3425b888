use byteorder::{BigEndian, LittleEndian, WriteBytesExt};
use shapefile_utils::attributes::attribute_row;
use shapefile_utils::bytes::{read_i32_be, read_i32_le};
use shapefile_utils::error::DecodeError;
use shapefile_utils::header::FileHeader;
use shapefile_utils::shape::{PatchType, Point, Shape};
use shapefile_utils::shpfile::{Record, ShpFile};
use shapefile_utils::shxfile::{ShxFile, ShxRecord};

fn header(magic: i32, file_length: i32, version: i32, shape_type: i32) -> Vec<u8> {
    let mut h: Vec<u8> = vec![];
    h.write_i32::<BigEndian>(magic).unwrap();
    h.extend_from_slice(&[0u8; 20]);
    h.write_i32::<BigEndian>(file_length).unwrap();
    h.write_i32::<LittleEndian>(version).unwrap();
    h.write_i32::<LittleEndian>(shape_type).unwrap();
    for v in [-1.5f64, -2.5, 1.5, 2.5, 0.0, 10.0, 0.0, 0.0] {
        h.write_f64::<LittleEndian>(v).unwrap();
    }
    h
}

fn point_body(x: f64, y: f64) -> Vec<u8> {
    let mut b: Vec<u8> = vec![];
    b.write_i32::<LittleEndian>(1).unwrap();
    b.write_f64::<LittleEndian>(x).unwrap();
    b.write_f64::<LittleEndian>(y).unwrap();
    b
}

fn null_body() -> Vec<u8> {
    let mut b: Vec<u8> = vec![];
    b.write_i32::<LittleEndian>(0).unwrap();
    b
}

fn multipoint_body() -> Vec<u8> {
    let mut b: Vec<u8> = vec![];
    b.write_i32::<LittleEndian>(8).unwrap();
    for v in [0.0f64, 0.0, 3.0, 4.0] {
        b.write_f64::<LittleEndian>(v).unwrap();
    }
    b.write_i32::<LittleEndian>(2).unwrap();
    for v in [0.0f64, 0.0, 3.0, 4.0] {
        b.write_f64::<LittleEndian>(v).unwrap();
    }
    b
}

fn record(number: i32, body: &Vec<u8>) -> Vec<u8> {
    let mut r: Vec<u8> = vec![];
    r.write_i32::<BigEndian>(number).unwrap();
    r.write_i32::<BigEndian>((body.len() / 2) as i32).unwrap();
    r.extend_from_slice(body);
    r
}

/// A main file of three records (a point, a null shape, a multi point) and its index.
fn sample_files() -> (Vec<u8>, Vec<u8>) {
    let records = vec![
        record(1, &point_body(1.0, 2.0)),
        record(2, &null_body()),
        record(3, &multipoint_body()),
    ];
    let body_len: usize = records.iter().map(|r| r.len()).sum();
    let mut shp = header(9994, ((100 + body_len) / 2) as i32, 1000, 1);
    let mut shx = header(9994, ((100 + 8 * records.len()) / 2) as i32, 1000, 1);
    for r in &records {
        shx.write_i32::<BigEndian>((shp.len() / 2) as i32).unwrap();
        shx.write_i32::<BigEndian>(((r.len() - 8) / 2) as i32).unwrap();
        shp.extend_from_slice(r);
    }
    (shp, shx)
}

#[test]
fn byte_readers_decode_both_orders() {
    let bytes: Vec<u8> = vec![0, 0, 0x27, 0x0A, 0xE8, 0x03, 0, 0, 0xFF, 0xFF, 0xFF, 0xFF];
    assert_eq!(read_i32_be(&bytes, 0), Ok(9994));
    assert_eq!(read_i32_le(&bytes, 4), Ok(1000));
    assert_eq!(read_i32_le(&bytes, 8), Ok(-1));
    assert_eq!(read_i32_be(&bytes, 9), Err(DecodeError::Truncated));
    let mut f: Vec<u8> = vec![7];
    f.write_f64::<LittleEndian>(-0.125).unwrap();
    f.write_f64::<LittleEndian>(3.5).unwrap();
    let p = Point::parse(&f, 1).unwrap();
    assert_eq!((f64::from_bits(p.x), f64::from_bits(p.y)), (-0.125, 3.5));
    assert_eq!(Point::parse(&f, 2), Err(DecodeError::Truncated));
}

#[test]
fn header_fields_decode() {
    let h = FileHeader::parse(&header(9994, 1234, 1000, 5)).unwrap();
    assert_eq!(h.file_length, 1234);
    assert_eq!(h.shape_type, 5);
    assert_eq!(f64::from_bits(h.bounding_box.x_min), -1.5);
    assert_eq!(f64::from_bits(h.bounding_box.y_max), 2.5);
    assert_eq!(f64::from_bits(h.bounding_box.z_max), 10.0);
}

#[test]
fn header_with_wrong_magic_fails_to_open() {
    let bytes = header(9995, 50, 1000, 1);
    assert_eq!(FileHeader::parse(&bytes), Err(DecodeError::MagicMismatch));
    assert_eq!(ShpFile::parse_file(bytes.clone()).err(), Some(DecodeError::MagicMismatch));
    assert_eq!(ShxFile::parse_file(bytes).err(), Some(DecodeError::MagicMismatch));
}

#[test]
fn header_with_wrong_version_fails_to_open() {
    let bytes = header(9994, 50, 1001, 1);
    assert_eq!(FileHeader::parse(&bytes), Err(DecodeError::VersionMismatch));
    assert_eq!(ShpFile::parse_file(bytes.clone()).err(), Some(DecodeError::VersionMismatch));
    assert_eq!(ShxFile::parse_file(bytes).err(), Some(DecodeError::VersionMismatch));
}

#[test]
fn short_files_fail_to_open() {
    let mut bytes = header(9994, 50, 1000, 1);
    bytes.truncate(99);
    assert_eq!(FileHeader::parse(&bytes), Err(DecodeError::Truncated));
    assert_eq!(ShpFile::parse_file(bytes.clone()).err(), Some(DecodeError::InvalidSize));
    assert_eq!(ShxFile::parse_file(bytes).err(), Some(DecodeError::InvalidSize));
    assert_eq!(FileHeader::parse(&[0, 0, 0x27]), Err(DecodeError::Truncated));
}

#[test]
fn index_with_partial_entry_is_malformed() {
    let mut bytes = header(9994, 52, 1000, 1);
    bytes.extend_from_slice(&[0u8; 4]);
    assert_eq!(ShxFile::parse_file(bytes).err(), Some(DecodeError::MalformedIndex));
    let bytes = header(9994, 49, 1000, 1);
    assert_eq!(ShxFile::parse_file(bytes).err(), Some(DecodeError::MalformedIndex));
}

#[test]
fn index_lookup_resolves_ordinals() {
    let (_, shx) = sample_files();
    let index = ShxFile::parse_file(shx.clone()).unwrap();
    assert_eq!(index.num_records(), 3);
    assert_eq!(index.record(0), None);
    assert_eq!(index.record(4), None);
    assert_eq!(index.record(1), Some(ShxRecord::parse(&shx, 100).unwrap()));
    assert_eq!(index.record(3), Some(ShxRecord::parse(&shx, 100 + 2 * 8).unwrap()));
    assert_eq!(index.record(1), Some(ShxRecord { offset: 50, length: 10 }));
    assert_eq!(index.record(2), Some(ShxRecord { offset: 64, length: 2 }));
    assert_eq!(index.record(3), Some(ShxRecord { offset: 70, length: 36 }));
}

#[test]
fn empty_index_has_no_records() {
    let index = ShxFile::parse_file(header(9994, 50, 1000, 1)).unwrap();
    assert_eq!(index.num_records(), 0);
    assert_eq!(index.record(1), None);
}

#[test]
fn index_entry_beyond_end_of_data_is_not_found() {
    let (_, mut shx) = sample_files();
    shx.truncate(120);
    let index = ShxFile::parse_file(shx).unwrap();
    assert_eq!(index.num_records(), 3);
    assert_eq!(index.record(2), Some(ShxRecord { offset: 64, length: 2 }));
    assert_eq!(index.record(3), None);
}

#[test]
fn sequential_read_decodes_all_records() {
    let (shp, _) = sample_files();
    let main = ShpFile::parse_file(shp).unwrap();
    let records = main.records().unwrap();
    assert_eq!(records.len(), 3);
    assert_eq!(records[0].record_number, 1);
    assert_eq!(records[0].content_length, 10);
    if let Shape::Point { point } = &records[0].shape {
        assert_eq!(f64::from_bits(point.x), 1.0);
        assert_eq!(f64::from_bits(point.y), 2.0);
    } else {
        panic!()
    }
    assert_eq!(records[1].shape, Shape::NullShape);
    if let Shape::MultiPoint { points, .. } = &records[2].shape {
        assert_eq!(points.len(), 2);
        assert_eq!(f64::from_bits(points[1].y), 4.0);
    } else {
        panic!()
    }
}

#[test]
fn random_access_matches_sequential_read() {
    let (shp, shx) = sample_files();
    let main = ShpFile::parse_file(shp).unwrap();
    let index = ShxFile::parse_file(shx).unwrap();
    let records = main.records().unwrap();
    for k in 1..=index.num_records() {
        assert_eq!(main.record(&index, k), Some(records[(k - 1) as usize].clone()));
    }
    assert_eq!(main.record(&index, 0), None);
    assert_eq!(main.record(&index, 4), None);
}

#[test]
fn random_access_past_end_of_main_file_is_not_found() {
    let (shp, shx) = sample_files();
    let main = ShpFile::parse_file(shp[..150].to_vec()).unwrap();
    let index = ShxFile::parse_file(shx).unwrap();
    assert!(main.record(&index, 1).is_some());
    assert!(main.record(&index, 3).is_none());
}

#[test]
fn partial_trailing_record_fails_sequential_read() {
    let (mut shp, _) = sample_files();
    shp.truncate(shp.len() - 1);
    let main = ShpFile::parse_file(shp).unwrap();
    assert_eq!(main.records(), Err(DecodeError::Truncated));
}

#[test]
fn header_only_main_file_has_no_records() {
    let main = ShpFile::parse_file(header(9994, 50, 1000, 1)).unwrap();
    assert_eq!(main.records(), Ok(vec![]));
    assert_eq!(main.header().file_length, 50);
}

#[test]
fn record_parse_keeps_header_fields() {
    let bytes = record(7, &null_body());
    let (r, n) = Record::parse(&bytes, 0).unwrap();
    assert_eq!(n, 12);
    assert_eq!(r.record_number, 7);
    assert_eq!(r.content_length, 2);
    assert_eq!(r.shape, Shape::NullShape);
    assert_eq!(Record::parse(&bytes[..6], 0), Err(DecodeError::Truncated));
}

#[test]
fn multipoint_scenario_decodes_fields_and_length() {
    let mut input: Vec<u8> = vec![];
    input.write_i32::<LittleEndian>(8).unwrap();
    for v in [-0.25f64, -0.125, 0.25, 0.125] {
        input.write_f64::<LittleEndian>(v).unwrap();
    }
    input.write_i32::<LittleEndian>(3).unwrap();
    for v in [1.0f64, 1.0, 2.0, 2.0, 5.0, 5.0] {
        input.write_f64::<LittleEndian>(v).unwrap();
    }
    let (shape, n) = Shape::parse(&input, 0).unwrap();
    assert_eq!(n, 4 + 32 + 4 + 48);
    if let Shape::MultiPoint { bounding_box, points } = shape {
        assert_eq!(f64::from_bits(bounding_box.x_min), -0.25);
        assert_eq!(f64::from_bits(bounding_box.y_min), -0.125);
        assert_eq!(f64::from_bits(bounding_box.x_max), 0.25);
        assert_eq!(f64::from_bits(bounding_box.y_max), 0.125);
        let xs: Vec<f64> = points.iter().map(|p| f64::from_bits(p.x)).collect();
        assert_eq!(xs, vec![1.0, 2.0, 5.0]);
    } else {
        panic!()
    }
}

#[test]
fn decoded_counts_match_declared_counts() {
    let mut input: Vec<u8> = vec![];
    input.write_i32::<LittleEndian>(25).unwrap();
    input.extend_from_slice(&[0u8; 32]);
    input.write_i32::<LittleEndian>(2).unwrap();
    input.write_i32::<LittleEndian>(3).unwrap();
    for p in [0i32, 1] {
        input.write_i32::<LittleEndian>(p).unwrap();
    }
    input.extend_from_slice(&[0u8; 48 + 16 + 24]);
    let (shape, n) = Shape::parse(&input, 0).unwrap();
    assert_eq!(n, 4 + 32 + 8 + 8 + 48 + 16 + 24);
    if let Shape::PolygonM { parts, points, m, .. } = shape {
        assert_eq!(parts, vec![0, 1]);
        assert_eq!(points.len(), 3);
        assert_eq!(m.len(), 3);
    } else {
        panic!()
    }
}

#[test]
fn unknown_tag_decodes_as_null_shape() {
    let mut input: Vec<u8> = vec![];
    input.write_i32::<LittleEndian>(99).unwrap();
    input.extend_from_slice(&[1u8; 16]);
    assert_eq!(Shape::parse(&input, 0), Ok((Shape::NullShape, 4)));
    assert_eq!(Shape::parse(&input, 18), Err(DecodeError::Truncated));
}

#[test]
fn truncated_shapes_fail() {
    let body = point_body(1.0, 2.0);
    assert_eq!(Shape::parse(&body[..19], 0), Err(DecodeError::Truncated));
    let body = multipoint_body();
    assert_eq!(Shape::parse(&body[..body.len() - 1], 0), Err(DecodeError::Truncated));
    assert!(Shape::parse(&body, 0).is_ok());
}

#[test]
fn negative_count_is_truncation() {
    let mut input: Vec<u8> = vec![];
    input.write_i32::<LittleEndian>(8).unwrap();
    input.extend_from_slice(&[0u8; 32]);
    input.write_i32::<LittleEndian>(-1).unwrap();
    input.extend_from_slice(&[0u8; 64]);
    assert_eq!(Shape::parse(&input, 0), Err(DecodeError::Truncated));
}

fn multipatch(codes: [i32; 2]) -> Vec<u8> {
    let mut input: Vec<u8> = vec![];
    input.write_i32::<LittleEndian>(31).unwrap();
    input.extend_from_slice(&[0u8; 32]);
    input.write_i32::<LittleEndian>(2).unwrap();
    input.write_i32::<LittleEndian>(1).unwrap();
    input.write_i32::<LittleEndian>(0).unwrap();
    input.write_i32::<LittleEndian>(0).unwrap();
    for c in codes {
        input.write_i32::<LittleEndian>(c).unwrap();
    }
    input.extend_from_slice(&[0u8; 16 + 24 + 24]);
    input
}

#[test]
fn multipatch_patch_types_decode() {
    let (shape, n) = Shape::parse(&multipatch([5, 2]), 0).unwrap();
    assert_eq!(n, 4 + 32 + 8 + 8 + 8 + 16 + 24 + 24);
    if let Shape::MultiPatch { part_types, z, m, .. } = shape {
        assert_eq!(part_types, vec![PatchType::Ring, PatchType::OuterRing]);
        assert_eq!(z.len(), 1);
        assert_eq!(m.len(), 1);
    } else {
        panic!()
    }
}

#[test]
fn unrecognised_patch_type_is_an_error() {
    assert_eq!(Shape::parse(&multipatch([1, 6]), 0), Err(DecodeError::InvalidPatchType));
    assert_eq!(Shape::parse(&multipatch([-1, 0]), 0), Err(DecodeError::InvalidPatchType));
}

#[test]
fn attribute_rows_count_from_zero() {
    assert_eq!(attribute_row(0), None);
    assert_eq!(attribute_row(1), Some(0));
    assert_eq!(attribute_row(298773), Some(298772));
    assert_eq!(attribute_row(1u64 << 32), Some(u32::MAX));
    assert_eq!(attribute_row((1u64 << 32) + 1), None);
}
