use byteorder::{LittleEndian, WriteBytesExt};
use shapefile_utils::shape::Shape;

#[test]
fn shpfile_test_parse_nullshape() {
    let mut input: Vec<u8> = vec![];
    let _ = input.write_i32::<LittleEndian>(0);
    let (shape, _) = Shape::parse(&input, 0).unwrap();
    match shape {
        Shape::NullShape => {}
        _ => panic!(),
    }
}

#[test]
fn shpfile_test_parse_point() {
    let mut input: Vec<u8> = vec![];
    let _ = input.write_i32::<LittleEndian>(1);
    let _ = input.write_f64::<LittleEndian>(0.25f64);
    let _ = input.write_f64::<LittleEndian>(0.5f64);
    let (shape, _) = Shape::parse(&input, 0).unwrap();
    match shape {
        Shape::Point { point: p } => {
            if f64::from_bits(p.x) != 0.25f64 || f64::from_bits(p.y) != 0.5f64 {
                panic!()
            }
        }
        _ => panic!(),
    }
}

#[test]
fn shpfile_test_parse_multipoint() {
    let mut input: Vec<u8> = vec![];
    // Shape type
    let _ = input.write_i32::<LittleEndian>(8);
    // Bounding Box
    let _ = input.write_f64::<LittleEndian>(-0.25f64);
    let _ = input.write_f64::<LittleEndian>(-0.125f64);
    let _ = input.write_f64::<LittleEndian>(0.25f64);
    let _ = input.write_f64::<LittleEndian>(0.125f64);
    // Number of points
    let _ = input.write_i32::<LittleEndian>(3);
    // Three distinct points
    let _ = input.write_f64::<LittleEndian>(1f64);
    let _ = input.write_f64::<LittleEndian>(1f64);
    let _ = input.write_f64::<LittleEndian>(2f64);
    let _ = input.write_f64::<LittleEndian>(2f64);
    let _ = input.write_f64::<LittleEndian>(5f64);
    let _ = input.write_f64::<LittleEndian>(5f64);
    let (shape, _) = Shape::parse(&input, 0).unwrap();
    match shape {
        Shape::MultiPoint { bounding_box: b, points: p } => {
            if f64::from_bits(b.x_min) != -0.25f64
                || f64::from_bits(b.y_min) != -0.125f64
                || f64::from_bits(b.x_max) != 0.25f64
                || f64::from_bits(b.y_max) != 0.125f64
            {
                panic!()
            }
            let x = |i: usize| f64::from_bits(p[i].x);
            let y = |i: usize| f64::from_bits(p[i].y);
            if x(0) != 1f64 || y(0) != 1f64 || x(1) != 2f64 || y(1) != 2f64 || x(2) != 5f64 || y(2) != 5f64 {
                panic!()
            }
        }
        _ => panic!(),
    }
}

#[test]
fn shpfile_test_parse_polygon_polyline() {
    let mut input: Vec<u8> = vec![];
    // Shape type
    let _ = input.write_i32::<LittleEndian>(3);
    // Bounding Box
    let _ = input.write_f64::<LittleEndian>(-0.25f64);
    let _ = input.write_f64::<LittleEndian>(-0.125f64);
    let _ = input.write_f64::<LittleEndian>(0.25f64);
    let _ = input.write_f64::<LittleEndian>(0.125f64);
    // Number of parts
    let _ = input.write_i32::<LittleEndian>(2);
    // Number of points
    let _ = input.write_i32::<LittleEndian>(4);
    // Two distinct parts
    let _ = input.write_i32::<LittleEndian>(0);
    let _ = input.write_i32::<LittleEndian>(2);
    // Four distinct points
    let _ = input.write_f64::<LittleEndian>(1f64);
    let _ = input.write_f64::<LittleEndian>(1f64);
    let _ = input.write_f64::<LittleEndian>(2f64);
    let _ = input.write_f64::<LittleEndian>(2f64);
    let _ = input.write_f64::<LittleEndian>(5f64);
    let _ = input.write_f64::<LittleEndian>(5f64);
    let _ = input.write_f64::<LittleEndian>(6f64);
    let _ = input.write_f64::<LittleEndian>(6f64);

    // Then see whether the data gets parsed correctly
    let (polyline, _) = Shape::parse(&input, 0).unwrap();
    match &polyline {
        Shape::PolyLine { bounding_box: b, parts: n, points: p } => {
            if f64::from_bits(b.x_min) != -0.25f64
                || f64::from_bits(b.y_min) != -0.125f64
                || f64::from_bits(b.x_max) != 0.25f64
                || f64::from_bits(b.y_max) != 0.125f64
            {
                panic!()
            }
            let x = |i: usize| f64::from_bits(p[i].x);
            let y = |i: usize| f64::from_bits(p[i].y);
            if x(0) != 1f64
                || y(0) != 1f64
                || x(1) != 2f64
                || y(1) != 2f64
                || x(2) != 5f64
                || y(2) != 5f64
                || x(3) != 6f64
                || y(3) != 6f64
            {
                panic!()
            }
            if n[0] != 0 || n[1] != 2 {
                panic!()
            }
        }
        _ => panic!(),
    }

    // Put 5 as shape type instead of three (structure is the same)
    let mut temp: Vec<u8> = vec![];
    let _ = temp.write_i32::<LittleEndian>(5);
    temp.extend_from_slice(&input[4..]);
    let input = temp;

    // Parse that and see whether the two are equal by fields
    let (polygon, _) = Shape::parse(&input, 0).unwrap();

    if let Shape::PolyLine { bounding_box: lb, parts: ln, points: lp } = polyline {
        if let Shape::Polygon { bounding_box: gb, parts: gn, points: gp } = polygon {
            if gb != lb || gn != ln || gp != lp {
                panic!()
            }
        } else {
            panic!()
        }
    } else {
        panic!()
    }
}
