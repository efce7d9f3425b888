//! Geometry types and the decoder of one shape record body.
//!
//! Every coordinate, range bound and measure is an IEEE 754 double in the file. The types here
//! keep the 64-bit pattern of each double as it was stored (`f64::from_bits` recovers the value),
//! so decoding is exact and two decoded values are equal exactly when their bytes were.
use vstd::prelude::*;

use crate::bytes::{
    has_bytes, le_i32, le_i32_at, le_u64, le_u64_at, lemma_slice_len_fits, read_i32_le,
};
use crate::error::DecodeError;

verus! {

/// Shape-type code of the null shape.
pub const STY_NULL_SHAPE: i32 = 0;
/// Shape-type code of a point.
pub const STY_POINT: i32 = 1;
/// Shape-type code of a poly line.
pub const STY_POLY_LINE: i32 = 3;
/// Shape-type code of a polygon.
pub const STY_POLYGON: i32 = 5;
/// Shape-type code of a multi point.
pub const STY_MULTI_POINT: i32 = 8;
/// Shape-type code of a point with altitude and measure.
pub const STY_POINT_Z: i32 = 11;
/// Shape-type code of a poly line with altitudes and measures.
pub const STY_POLY_LINE_Z: i32 = 13;
/// Shape-type code of a polygon with altitudes and measures.
pub const STY_POLYGON_Z: i32 = 15;
/// Shape-type code of a multi point with altitudes and measures.
pub const STY_MULTI_POINT_Z: i32 = 18;
/// Shape-type code of a point with a measure.
pub const STY_POINT_M: i32 = 21;
/// Shape-type code of a poly line with measures.
pub const STY_POLY_LINE_M: i32 = 23;
/// Shape-type code of a polygon with measures.
pub const STY_POLYGON_M: i32 = 25;
/// Shape-type code of a multi point with measures.
pub const STY_MULTI_POINT_M: i32 = 28;
/// Shape-type code of a multi patch.
pub const STY_MULTI_PATCH: i32 = 31;

/// Patch-type code of a triangle strip.
pub const PTY_TRIANGLE_STRIP: i32 = 0;
/// Patch-type code of a triangle fan.
pub const PTY_TRIANGLE_FAN: i32 = 1;
/// Patch-type code of an outer ring.
pub const PTY_OUTER_RING: i32 = 2;
/// Patch-type code of an inner ring.
pub const PTY_INNER_RING: i32 = 3;
/// Patch-type code of a first ring.
pub const PTY_FIRST_RING: i32 = 4;
/// Patch-type code of a ring.
pub const PTY_RING: i32 = 5;

/// A bounding box limited to the X and Y axes.
#[derive(Debug, Clone, Copy, PartialEq, Eq, Structural)]
pub struct BoundingBox {
    /// The minimum x, as the bits of a double.
    pub x_min: u64,
    /// The minimum y, as the bits of a double.
    pub y_min: u64,
    /// The maximum x, as the bits of a double.
    pub x_max: u64,
    /// The maximum y, as the bits of a double.
    pub y_max: u64,
}

/// A bounding volume over the X, Y, Z (altitude) and M (measure) axes, found in file headers.
#[derive(Debug, Clone, Copy, PartialEq, Eq, Structural)]
pub struct BoundingBoxZ {
    pub x_min: u64,
    pub y_min: u64,
    pub x_max: u64,
    pub y_max: u64,
    pub z_min: u64,
    pub z_max: u64,
    pub m_min: u64,
    pub m_max: u64,
}

/// A point on the XY plane.
#[derive(Debug, Clone, Copy, PartialEq, Eq, Structural)]
pub struct Point {
    /// The x coordinate, as the bits of a double.
    pub x: u64,
    /// The y coordinate, as the bits of a double.
    pub y: u64,
}

/// A range from a minimum to a maximum value.
#[derive(Debug, Clone, Copy, PartialEq, Eq)]
pub struct Range<T> {
    pub min: T,
    pub max: T,
}

/// Minimum and maximum on the measure axis, as the bits of doubles.
pub type MRange = Range<u64>;

/// Minimum and maximum on the altitude axis, as the bits of doubles.
pub type ZRange = Range<u64>;

/// A point with a measure.
#[derive(Debug, Clone, Copy, PartialEq, Eq, Structural)]
pub struct PointM {
    pub x: u64,
    pub y: u64,
    /// The associated scalar measure.
    pub m: u64,
}

/// A point with an altitude and a measure.
#[derive(Debug, Clone, Copy, PartialEq, Eq, Structural)]
pub struct PointZ {
    pub x: u64,
    pub y: u64,
    /// The altitude.
    pub z: u64,
    /// The associated scalar measure.
    pub m: u64,
}

/// How the vertices of one part of a MultiPatch form a surface.
#[derive(Debug, Clone, Copy, PartialEq, Eq, Structural)]
pub enum PatchType {
    /// Every vertex after the first two spans a triangle with its two predecessors.
    TriangleStrip,
    /// Every vertex after the first two spans a triangle with its predecessor and the first one.
    TriangleFan,
    /// The outer ring of a polygon.
    OuterRing,
    /// A hole of a polygon.
    InnerRing,
    /// The first ring of a polygon of an unspecified type.
    FirstRing,
    /// A ring of a polygon of an unspecified type.
    Ring,
}

/// A shape: the geometry of one record.
///
/// `parts` holds the index in `points` at which each part starts; `z` and `m` hold one value
/// per point.
#[derive(Debug, Clone, PartialEq)]
pub enum Shape {
    /// The null shape: no geometry.
    NullShape,
    /// A single point.
    Point { point: Point },
    /// An ordered set of vertices in one or more parts, each a connected sequence of vertices.
    PolyLine { bounding_box: BoundingBox, parts: Vec<i32>, points: Vec<Point> },
    /// One or more rings, each a closed loop of vertices; the rings are its parts.
    Polygon { bounding_box: BoundingBox, parts: Vec<i32>, points: Vec<Point> },
    /// A set of points.
    MultiPoint { bounding_box: BoundingBox, points: Vec<Point> },
    /// A point with an altitude and a measure.
    PointZ { point: PointZ },
    /// A poly line with an altitude and a measure per point.
    PolyLineZ {
        bounding_box: BoundingBox,
        parts: Vec<i32>,
        points: Vec<Point>,
        z_range: ZRange,
        z: Vec<u64>,
        m_range: MRange,
        m: Vec<u64>,
    },
    /// A polygon with an altitude and a measure per point.
    PolygonZ {
        bounding_box: BoundingBox,
        parts: Vec<i32>,
        points: Vec<Point>,
        z_range: ZRange,
        z: Vec<u64>,
        m_range: MRange,
        m: Vec<u64>,
    },
    /// A multi point with an altitude and a measure per point.
    MultiPointZ {
        bounding_box: BoundingBox,
        points: Vec<Point>,
        z_range: ZRange,
        z: Vec<u64>,
        m_range: MRange,
        m: Vec<u64>,
    },
    /// A point with a measure.
    PointM { point: PointM },
    /// A poly line with a measure per point.
    PolyLineM {
        bounding_box: BoundingBox,
        parts: Vec<i32>,
        points: Vec<Point>,
        m_range: MRange,
        m: Vec<u64>,
    },
    /// A polygon with a measure per point.
    PolygonM {
        bounding_box: BoundingBox,
        parts: Vec<i32>,
        points: Vec<Point>,
        m_range: MRange,
        m: Vec<u64>,
    },
    /// A multi point with a measure per point.
    MultiPointM { bounding_box: BoundingBox, points: Vec<Point>, m_range: MRange, m: Vec<u64> },
    /// Surface patches, one per part, each of a patch type, with an altitude and a measure per
    /// point.
    MultiPatch {
        bounding_box: BoundingBox,
        parts: Vec<i32>,
        part_types: Vec<PatchType>,
        points: Vec<Point>,
        z_range: ZRange,
        z: Vec<u64>,
        m_range: MRange,
        m: Vec<u64>,
    },
}

/// The mathematical value of a `Shape`: the same variants, with sequences for vectors.
pub enum ShapeModel {
    NullShape,
    Point { point: Point },
    PolyLine { bounding_box: BoundingBox, parts: Seq<i32>, points: Seq<Point> },
    Polygon { bounding_box: BoundingBox, parts: Seq<i32>, points: Seq<Point> },
    MultiPoint { bounding_box: BoundingBox, points: Seq<Point> },
    PointZ { point: PointZ },
    PolyLineZ {
        bounding_box: BoundingBox,
        parts: Seq<i32>,
        points: Seq<Point>,
        z_range: ZRange,
        z: Seq<u64>,
        m_range: MRange,
        m: Seq<u64>,
    },
    PolygonZ {
        bounding_box: BoundingBox,
        parts: Seq<i32>,
        points: Seq<Point>,
        z_range: ZRange,
        z: Seq<u64>,
        m_range: MRange,
        m: Seq<u64>,
    },
    MultiPointZ {
        bounding_box: BoundingBox,
        points: Seq<Point>,
        z_range: ZRange,
        z: Seq<u64>,
        m_range: MRange,
        m: Seq<u64>,
    },
    PointM { point: PointM },
    PolyLineM {
        bounding_box: BoundingBox,
        parts: Seq<i32>,
        points: Seq<Point>,
        m_range: MRange,
        m: Seq<u64>,
    },
    PolygonM {
        bounding_box: BoundingBox,
        parts: Seq<i32>,
        points: Seq<Point>,
        m_range: MRange,
        m: Seq<u64>,
    },
    MultiPointM { bounding_box: BoundingBox, points: Seq<Point>, m_range: MRange, m: Seq<u64> },
    MultiPatch {
        bounding_box: BoundingBox,
        parts: Seq<i32>,
        part_types: Seq<PatchType>,
        points: Seq<Point>,
        z_range: ZRange,
        z: Seq<u64>,
        m_range: MRange,
        m: Seq<u64>,
    },
}

impl View for Shape {
    type V = ShapeModel;

    open spec fn view(&self) -> ShapeModel {
        match self {
            Shape::NullShape => ShapeModel::NullShape,
            Shape::Point { point } => ShapeModel::Point { point: *point },
            Shape::PolyLine { bounding_box, parts, points } => ShapeModel::PolyLine {
                bounding_box: *bounding_box,
                parts: parts@,
                points: points@,
            },
            Shape::Polygon { bounding_box, parts, points } => ShapeModel::Polygon {
                bounding_box: *bounding_box,
                parts: parts@,
                points: points@,
            },
            Shape::MultiPoint { bounding_box, points } => ShapeModel::MultiPoint {
                bounding_box: *bounding_box,
                points: points@,
            },
            Shape::PointZ { point } => ShapeModel::PointZ { point: *point },
            Shape::PolyLineZ { bounding_box, parts, points, z_range, z, m_range, m } =>
                ShapeModel::PolyLineZ {
                bounding_box: *bounding_box,
                parts: parts@,
                points: points@,
                z_range: *z_range,
                z: z@,
                m_range: *m_range,
                m: m@,
            },
            Shape::PolygonZ { bounding_box, parts, points, z_range, z, m_range, m } =>
                ShapeModel::PolygonZ {
                bounding_box: *bounding_box,
                parts: parts@,
                points: points@,
                z_range: *z_range,
                z: z@,
                m_range: *m_range,
                m: m@,
            },
            Shape::MultiPointZ { bounding_box, points, z_range, z, m_range, m } =>
                ShapeModel::MultiPointZ {
                bounding_box: *bounding_box,
                points: points@,
                z_range: *z_range,
                z: z@,
                m_range: *m_range,
                m: m@,
            },
            Shape::PointM { point } => ShapeModel::PointM { point: *point },
            Shape::PolyLineM { bounding_box, parts, points, m_range, m } => ShapeModel::PolyLineM {
                bounding_box: *bounding_box,
                parts: parts@,
                points: points@,
                m_range: *m_range,
                m: m@,
            },
            Shape::PolygonM { bounding_box, parts, points, m_range, m } => ShapeModel::PolygonM {
                bounding_box: *bounding_box,
                parts: parts@,
                points: points@,
                m_range: *m_range,
                m: m@,
            },
            Shape::MultiPointM { bounding_box, points, m_range, m } => ShapeModel::MultiPointM {
                bounding_box: *bounding_box,
                points: points@,
                m_range: *m_range,
                m: m@,
            },
            Shape::MultiPatch {
                bounding_box,
                parts,
                part_types,
                points,
                z_range,
                z,
                m_range,
                m,
            } => ShapeModel::MultiPatch {
                bounding_box: *bounding_box,
                parts: parts@,
                part_types: part_types@,
                points: points@,
                z_range: *z_range,
                z: z@,
                m_range: *m_range,
                m: m@,
            },
        }
    }
}


/// The point stored at `b[i..i + 16]`: x, then y.
pub open spec fn point_at(b: Seq<u8>, i: int) -> Point {
    Point { x: le_u64_at(b, i), y: le_u64_at(b, i + 8) }
}

/// The bounding box stored at `b[i..i + 32]`.
pub open spec fn box_at(b: Seq<u8>, i: int) -> BoundingBox {
    BoundingBox {
        x_min: le_u64_at(b, i),
        y_min: le_u64_at(b, i + 8),
        x_max: le_u64_at(b, i + 16),
        y_max: le_u64_at(b, i + 24),
    }
}

/// The bounding volume stored at `b[i..i + 64]`.
pub open spec fn box_z_at(b: Seq<u8>, i: int) -> BoundingBoxZ {
    BoundingBoxZ {
        x_min: le_u64_at(b, i),
        y_min: le_u64_at(b, i + 8),
        x_max: le_u64_at(b, i + 16),
        y_max: le_u64_at(b, i + 24),
        z_min: le_u64_at(b, i + 32),
        z_max: le_u64_at(b, i + 40),
        m_min: le_u64_at(b, i + 48),
        m_max: le_u64_at(b, i + 56),
    }
}

/// The range stored at `b[i..i + 16]`: minimum, then maximum.
pub open spec fn range_at(b: Seq<u8>, i: int) -> Range<u64> {
    Range { min: le_u64_at(b, i), max: le_u64_at(b, i + 8) }
}

/// The `n` little-endian `i32`s stored from `b[i]` on.
pub open spec fn i32s_at(b: Seq<u8>, i: int, n: int) -> Seq<i32> {
    Seq::new(n as nat, |k: int| le_i32_at(b, i + 4 * k))
}

/// The bit patterns of the `n` little-endian doubles stored from `b[i]` on.
pub open spec fn f64_bits_at(b: Seq<u8>, i: int, n: int) -> Seq<u64> {
    Seq::new(n as nat, |k: int| le_u64_at(b, i + 8 * k))
}

/// The `n` points stored from `b[i]` on.
pub open spec fn points_at(b: Seq<u8>, i: int, n: int) -> Seq<Point> {
    Seq::new(n as nat, |k: int| point_at(b, i + 16 * k))
}

/// The patch type that a code stands for, if any.
pub open spec fn patch_type_of(code: i32) -> Option<PatchType> {
    if code == PTY_TRIANGLE_STRIP {
        Some(PatchType::TriangleStrip)
    } else if code == PTY_TRIANGLE_FAN {
        Some(PatchType::TriangleFan)
    } else if code == PTY_OUTER_RING {
        Some(PatchType::OuterRing)
    } else if code == PTY_INNER_RING {
        Some(PatchType::InnerRing)
    } else if code == PTY_FIRST_RING {
        Some(PatchType::FirstRing)
    } else if code == PTY_RING {
        Some(PatchType::Ring)
    } else {
        None
    }
}

/// Whether every code stands for a patch type.
pub open spec fn patch_codes_valid(codes: Seq<i32>) -> bool {
    forall|k: int| 0 <= k < codes.len() ==> (#[trigger] patch_type_of(codes[k])) is Some
}

/// The patch types that valid codes stand for.
pub open spec fn patch_types_of(codes: Seq<i32>) -> Seq<PatchType> {
    Seq::new(codes.len(), |k: int| patch_type_of(codes[k])->0)
}

/// Whether shapes of type `t` carry a bounding box, parts and points.
pub open spec fn has_parts(t: i32) -> bool {
    t == STY_POLY_LINE || t == STY_POLYGON || t == STY_POLY_LINE_Z || t == STY_POLYGON_Z
        || t == STY_POLY_LINE_M || t == STY_POLYGON_M || t == STY_MULTI_PATCH
}

/// Whether shapes of type `t` carry a bounding box and points, without parts.
pub open spec fn is_multi_point(t: i32) -> bool {
    t == STY_MULTI_POINT || t == STY_MULTI_POINT_Z || t == STY_MULTI_POINT_M
}

/// Whether shapes of type `t` carry an altitude block, which an M block always follows.
pub open spec fn has_z_block(t: i32) -> bool {
    t == STY_POLY_LINE_Z || t == STY_POLYGON_Z || t == STY_MULTI_POINT_Z || t == STY_MULTI_PATCH
}

/// Whether shapes of type `t` carry an M block and no altitude block.
pub open spec fn has_m_block_only(t: i32) -> bool {
    t == STY_POLY_LINE_M || t == STY_POLYGON_M || t == STY_MULTI_POINT_M
}

/// The bytes that the altitude and measure blocks take after `n` points of a shape of type `t`:
/// each block is a range and one double per point.
pub open spec fn measure_blocks_len(t: i32, n: int) -> int {
    if has_z_block(t) {
        2 * (16 + 8 * n)
    } else if has_m_block_only(t) {
        16 + 8 * n
    } else {
        0
    }
}

/// The range that stands where a shape carries none.
pub open spec fn zero_range() -> Range<u64> {
    Range { min: 0, max: 0 }
}

/// The shape of type `t` made of the given fields; the fields that `t` does not carry are
/// left out. A type without a bounding box gives the null shape.
pub open spec fn assemble(
    t: i32,
    bounding_box: BoundingBox,
    parts: Seq<i32>,
    part_types: Seq<PatchType>,
    points: Seq<Point>,
    z_range: Range<u64>,
    z: Seq<u64>,
    m_range: Range<u64>,
    m: Seq<u64>,
) -> ShapeModel {
    if t == STY_POLY_LINE {
        ShapeModel::PolyLine { bounding_box, parts, points }
    } else if t == STY_POLY_LINE_M {
        ShapeModel::PolyLineM { bounding_box, parts, points, m_range, m }
    } else if t == STY_POLY_LINE_Z {
        ShapeModel::PolyLineZ { bounding_box, parts, points, z_range, z, m_range, m }
    } else if t == STY_POLYGON {
        ShapeModel::Polygon { bounding_box, parts, points }
    } else if t == STY_POLYGON_M {
        ShapeModel::PolygonM { bounding_box, parts, points, m_range, m }
    } else if t == STY_POLYGON_Z {
        ShapeModel::PolygonZ { bounding_box, parts, points, z_range, z, m_range, m }
    } else if t == STY_MULTI_POINT {
        ShapeModel::MultiPoint { bounding_box, points }
    } else if t == STY_MULTI_POINT_M {
        ShapeModel::MultiPointM { bounding_box, points, m_range, m }
    } else if t == STY_MULTI_POINT_Z {
        ShapeModel::MultiPointZ { bounding_box, points, z_range, z, m_range, m }
    } else if t == STY_MULTI_PATCH {
        ShapeModel::MultiPatch { bounding_box, parts, part_types, points, z_range, z, m_range, m }
    } else {
        ShapeModel::NullShape
    }
}

/// A point-type shape (`t` is Point, PointM or PointZ) whose coordinates start at `b[q]`,
/// with the number of bytes the coordinates take.
pub open spec fn single_point_at(b: Seq<u8>, q: int, t: i32) -> Result<
    (ShapeModel, int),
    DecodeError,
> {
    let n: int = if t == STY_POINT {
        2
    } else if t == STY_POINT_M {
        3
    } else {
        4
    };
    if !has_bytes(b, q, 8 * n) {
        Err(DecodeError::Truncated)
    } else if t == STY_POINT {
        Ok((ShapeModel::Point { point: point_at(b, q) }, 16))
    } else if t == STY_POINT_M {
        Ok(
            (
                ShapeModel::PointM {
                    point: PointM {
                        x: le_u64_at(b, q),
                        y: le_u64_at(b, q + 8),
                        m: le_u64_at(b, q + 16),
                    },
                },
                24,
            ),
        )
    } else {
        Ok(
            (
                ShapeModel::PointZ {
                    point: PointZ {
                        x: le_u64_at(b, q),
                        y: le_u64_at(b, q + 8),
                        z: le_u64_at(b, q + 16),
                        m: le_u64_at(b, q + 24),
                    },
                },
                32,
            ),
        )
    }
}

/// The rest of a shape of type `t` that starts at `b[p]`, once its bounding box, parts and part
/// types are known: `n` points from `b[q]` on, then the blocks that `t` carries.
pub open spec fn with_points_at(
    b: Seq<u8>,
    p: int,
    t: i32,
    bounding_box: BoundingBox,
    parts: Seq<i32>,
    part_types: Seq<PatchType>,
    q: int,
    n: int,
) -> Result<(ShapeModel, int), DecodeError> {
    let end = q + 16 * n + measure_blocks_len(t, n);
    let z_pos = q + 16 * n;
    let m_pos = if has_z_block(t) {
        z_pos + 16 + 8 * n
    } else {
        z_pos
    };
    let has_m = has_z_block(t) || has_m_block_only(t);
    if !(0 <= n && has_bytes(b, q, end - q)) {
        Err(DecodeError::Truncated)
    } else {
        let shape = assemble(
            t,
            bounding_box,
            parts,
            part_types,
            points_at(b, q, n),
            if has_z_block(t) {
                range_at(b, z_pos)
            } else {
                zero_range()
            },
            if has_z_block(t) {
                f64_bits_at(b, z_pos + 16, n)
            } else {
                Seq::empty()
            },
            if has_m {
                range_at(b, m_pos)
            } else {
                zero_range()
            },
            if has_m {
                f64_bits_at(b, m_pos + 16, n)
            } else {
                Seq::empty()
            },
        );
        Ok((shape, end - p))
    }
}

/// A shape with parts (`has_parts(t)`) that starts at `b[p]`: bounding box, part count, point
/// count, part starts, for a MultiPatch the patch-type codes, then points and blocks.
pub open spec fn parts_shape_at(b: Seq<u8>, p: int, t: i32) -> Result<
    (ShapeModel, int),
    DecodeError,
> {
    if !has_bytes(b, p + 4, 40) {
        Err(DecodeError::Truncated)
    } else {
        let num_parts = le_i32_at(b, p + 36) as int;
        let num_points = le_i32_at(b, p + 40) as int;
        let codes_pos = p + 44 + 4 * num_parts;
        let q = if t == STY_MULTI_PATCH {
            codes_pos + 4 * num_parts
        } else {
            codes_pos
        };
        let codes = i32s_at(b, codes_pos, num_parts);
        if !(0 <= num_parts && has_bytes(b, p + 44, q - (p + 44))) {
            Err(DecodeError::Truncated)
        } else if t == STY_MULTI_PATCH && !patch_codes_valid(codes) {
            Err(DecodeError::InvalidPatchType)
        } else {
            with_points_at(
                b,
                p,
                t,
                box_at(b, p + 4),
                i32s_at(b, p + 44, num_parts),
                if t == STY_MULTI_PATCH {
                    patch_types_of(codes)
                } else {
                    Seq::empty()
                },
                q,
                num_points,
            )
        }
    }
}

/// A multi point (`is_multi_point(t)`) that starts at `b[p]`: bounding box, point count, then
/// points and blocks.
pub open spec fn multi_point_at(b: Seq<u8>, p: int, t: i32) -> Result<
    (ShapeModel, int),
    DecodeError,
> {
    if !has_bytes(b, p + 4, 36) {
        Err(DecodeError::Truncated)
    } else {
        with_points_at(
            b,
            p,
            t,
            box_at(b, p + 4),
            Seq::empty(),
            Seq::empty(),
            p + 40,
            le_i32_at(b, p + 36) as int,
        )
    }
}

/// What the shape body at `b[p..]` decodes to: the shape, and the number of bytes it takes,
/// the four of its type tag included. A tag of no known shape type gives the null shape.
#[verifier::opaque]
pub open spec fn shape_at(b: Seq<u8>, p: int) -> Result<(ShapeModel, int), DecodeError> {
    if !has_bytes(b, p, 4) {
        Err(DecodeError::Truncated)
    } else {
        let t = le_i32_at(b, p);
        if t == STY_POINT || t == STY_POINT_M || t == STY_POINT_Z {
            match single_point_at(b, p + 4, t) {
                Ok((s, n)) => Ok((s, n + 4)),
                Err(e) => Err(e),
            }
        } else if has_parts(t) {
            parts_shape_at(b, p, t)
        } else if is_multi_point(t) {
            multi_point_at(b, p, t)
        } else {
            Ok((ShapeModel::NullShape, 4))
        }
    }
}

/// The model of a decoding result.
pub open spec fn parsed_model(r: Result<(Shape, usize), DecodeError>) -> Result<
    (ShapeModel, int),
    DecodeError,
> {
    match r {
        Ok((s, n)) => Ok((s@, n as int)),
        Err(e) => Err(e),
    }
}


impl BoundingBox {
    /// A bounding box with all four bounds zero.
    pub fn new() -> (r: Self)
        ensures
            r == (BoundingBox { x_min: 0, y_min: 0, x_max: 0, y_max: 0 }),
    {
        BoundingBox { x_min: 0, y_min: 0, x_max: 0, y_max: 0 }
    }

    /// Decodes the 32 bytes at `data[pos..]`: x_min, y_min, x_max, y_max.
    pub fn parse(data: &[u8], pos: usize) -> (r: Result<Self, DecodeError>)
        ensures
            r == (if has_bytes(data@, pos as int, 32) {
                Ok(box_at(data@, pos as int))
            } else {
                Err(DecodeError::Truncated)
            }),
    {
        if pos > data.len() || data.len() - pos < 32 {
            return Err(DecodeError::Truncated);
        }
        let mut result = Self::new();
        result.x_min = le_u64(data, pos);
        result.y_min = le_u64(data, pos + 8);
        result.x_max = le_u64(data, pos + 16);
        result.y_max = le_u64(data, pos + 24);
        Ok(result)
    }
}

impl BoundingBoxZ {
    /// The bounding volume with all eight bounds zero.
    pub open spec fn spec_zero() -> Self {
        BoundingBoxZ {
            x_min: 0,
            y_min: 0,
            x_max: 0,
            y_max: 0,
            z_min: 0,
            z_max: 0,
            m_min: 0,
            m_max: 0,
        }
    }

    /// A bounding volume with all eight bounds zero.
    pub fn new() -> (r: Self)
        ensures
            r == Self::spec_zero(),
    {
        BoundingBoxZ {
            x_min: 0,
            y_min: 0,
            x_max: 0,
            y_max: 0,
            z_min: 0,
            z_max: 0,
            m_min: 0,
            m_max: 0,
        }
    }

    /// Decodes the 64 bytes at `data[pos..]`: the X, Y, Z and M bounds, minimum before maximum.
    pub fn parse(data: &[u8], pos: usize) -> (r: Result<Self, DecodeError>)
        ensures
            r == (if has_bytes(data@, pos as int, 64) {
                Ok(box_z_at(data@, pos as int))
            } else {
                Err(DecodeError::Truncated)
            }),
    {
        if pos > data.len() || data.len() - pos < 64 {
            return Err(DecodeError::Truncated);
        }
        let mut result = Self::new();
        result.x_min = le_u64(data, pos);
        result.y_min = le_u64(data, pos + 8);
        result.x_max = le_u64(data, pos + 16);
        result.y_max = le_u64(data, pos + 24);
        result.z_min = le_u64(data, pos + 32);
        result.z_max = le_u64(data, pos + 40);
        result.m_min = le_u64(data, pos + 48);
        result.m_max = le_u64(data, pos + 56);
        Ok(result)
    }
}

impl Point {
    /// The point (0, 0).
    pub fn new() -> (r: Self)
        ensures
            r == (Point { x: 0, y: 0 }),
    {
        Point { x: 0, y: 0 }
    }

    /// Decodes the 16 bytes at `data[pos..]`: x, then y.
    pub fn parse(data: &[u8], pos: usize) -> (r: Result<Self, DecodeError>)
        ensures
            r == (if has_bytes(data@, pos as int, 16) {
                Ok(point_at(data@, pos as int))
            } else {
                Err(DecodeError::Truncated)
            }),
    {
        if pos > data.len() || data.len() - pos < 16 {
            return Err(DecodeError::Truncated);
        }
        let mut result = Self::new();
        result.x = le_u64(data, pos);
        result.y = le_u64(data, pos + 8);
        Ok(result)
    }
}

impl Shape {
    /// The null shape.
    pub fn new() -> (r: Self)
        ensures
            r@ == ShapeModel::NullShape,
    {
        Shape::NullShape
    }

    /// Decodes `n` little-endian `i32`s from `data[pos..]`.
    fn parse_i32_array(data: &[u8], pos: usize, n: usize) -> (r: Result<Vec<i32>, DecodeError>)
        ensures
            match r {
                Ok(v) => has_bytes(data@, pos as int, 4 * n) && v@ == i32s_at(
                    data@,
                    pos as int,
                    n as int,
                ),
                Err(e) => !has_bytes(data@, pos as int, 4 * n) && e == DecodeError::Truncated,
            },
    {
        if pos > data.len() || (data.len() - pos) / 4 < n {
            return Err(DecodeError::Truncated);
        }
        let mut result: Vec<i32> = Vec::new();
        let mut i: usize = 0;
        while i < n
            invariant
                pos + 4 * n <= data@.len() <= usize::MAX,
                i <= n,
                result@ == i32s_at(data@, pos as int, i as int),
            decreases n - i,
        {
            assert(4 * i + 4 <= 4 * n) by (nonlinear_arith)
                requires
                    i < n,
            ;
            let v = le_i32(data, pos + 4 * i);
            result.push(v);
            assert(result@ =~= i32s_at(data@, pos as int, i + 1));
            i += 1;
        }
        Ok(result)
    }

    /// Decodes `n` points from `data[pos..]`.
    fn parse_point_array(data: &[u8], pos: usize, n: usize) -> (r: Result<Vec<Point>, DecodeError>)
        ensures
            match r {
                Ok(v) => has_bytes(data@, pos as int, 16 * n) && v@ == points_at(
                    data@,
                    pos as int,
                    n as int,
                ),
                Err(e) => !has_bytes(data@, pos as int, 16 * n) && e == DecodeError::Truncated,
            },
    {
        if pos > data.len() || (data.len() - pos) / 16 < n {
            return Err(DecodeError::Truncated);
        }
        let mut result: Vec<Point> = Vec::new();
        let mut i: usize = 0;
        while i < n
            invariant
                pos + 16 * n <= data@.len() <= usize::MAX,
                i <= n,
                result@ == points_at(data@, pos as int, i as int),
            decreases n - i,
        {
            assert(16 * i + 16 <= 16 * n) by (nonlinear_arith)
                requires
                    i < n,
            ;
            let at = pos + 16 * i;
            let point = Point { x: le_u64(data, at), y: le_u64(data, at + 8) };
            result.push(point);
            assert(result@ =~= points_at(data@, pos as int, i + 1));
            i += 1;
        }
        Ok(result)
    }

    /// Decodes the bit patterns of `n` little-endian doubles from `data[pos..]`.
    fn parse_f64_array(data: &[u8], pos: usize, n: usize) -> (r: Result<Vec<u64>, DecodeError>)
        ensures
            match r {
                Ok(v) => has_bytes(data@, pos as int, 8 * n) && v@ == f64_bits_at(
                    data@,
                    pos as int,
                    n as int,
                ),
                Err(e) => !has_bytes(data@, pos as int, 8 * n) && e == DecodeError::Truncated,
            },
    {
        if pos > data.len() || (data.len() - pos) / 8 < n {
            return Err(DecodeError::Truncated);
        }
        let mut result: Vec<u64> = Vec::new();
        let mut i: usize = 0;
        while i < n
            invariant
                pos + 8 * n <= data@.len() <= usize::MAX,
                i <= n,
                result@ == f64_bits_at(data@, pos as int, i as int),
            decreases n - i,
        {
            assert(8 * i + 8 <= 8 * n) by (nonlinear_arith)
                requires
                    i < n,
            ;
            let v = le_u64(data, pos + 8 * i);
            result.push(v);
            assert(result@ =~= f64_bits_at(data@, pos as int, i + 1));
            i += 1;
        }
        Ok(result)
    }

    /// The patch type that a code stands for, if any.
    fn get_patch_type_from_id(id: i32) -> (r: Option<PatchType>)
        ensures
            r == patch_type_of(id),
    {
        if id == PTY_TRIANGLE_STRIP {
            Some(PatchType::TriangleStrip)
        } else if id == PTY_TRIANGLE_FAN {
            Some(PatchType::TriangleFan)
        } else if id == PTY_OUTER_RING {
            Some(PatchType::OuterRing)
        } else if id == PTY_INNER_RING {
            Some(PatchType::InnerRing)
        } else if id == PTY_FIRST_RING {
            Some(PatchType::FirstRing)
        } else if id == PTY_RING {
            Some(PatchType::Ring)
        } else {
            None
        }
    }

    /// The patch types that the codes stand for, or `None` if one of them stands for none.
    fn parse_patch_types(codes: &Vec<i32>) -> (r: Option<Vec<PatchType>>)
        ensures
            match r {
                Some(v) => patch_codes_valid(codes@) && v@ == patch_types_of(codes@),
                None => !patch_codes_valid(codes@),
            },
    {
        let mut result: Vec<PatchType> = Vec::new();
        let mut i: usize = 0;
        while i < codes.len()
            invariant
                i <= codes@.len(),
                result@.len() == i,
                forall|k: int| 0 <= k < i ==> patch_type_of(codes@[k]) == Some(#[trigger] result@[k]),
            decreases codes@.len() - i,
        {
            match Self::get_patch_type_from_id(codes[i]) {
                Some(t) => result.push(t),
                None => return None,
            }
            i += 1;
        }
        assert(patch_codes_valid(codes@)) by {
            assert forall|k: int| 0 <= k < codes@.len() implies (#[trigger] patch_type_of(
                codes@[k],
            )) is Some by {
                assert(patch_type_of(codes@[k]) == Some(result@[k]));
            }
        }
        assert(result@ =~= patch_types_of(codes@));
        Some(result)
    }

    /// Decodes a range, then `n` doubles, from `data[pos..]`.
    fn parse_f64_range_and_array(data: &[u8], pos: usize, n: usize) -> (r: Result<
        (Range<u64>, Vec<u64>),
        DecodeError,
    >)
        ensures
            match r {
                Ok((range, v)) => {
                    &&& has_bytes(data@, pos as int, 16 + 8 * n)
                    &&& range == range_at(data@, pos as int)
                    &&& v@ == f64_bits_at(data@, pos + 16, n as int)
                },
                Err(e) => !has_bytes(data@, pos as int, 16 + 8 * n) && e == DecodeError::Truncated,
            },
    {
        if pos > data.len() || data.len() - pos < 16 {
            return Err(DecodeError::Truncated);
        }
        let range = Range { min: le_u64(data, pos), max: le_u64(data, pos + 8) };
        let arr = match Self::parse_f64_array(data, pos + 16, n) {
            Ok(a) => a,
            Err(e) => return Err(e),
        };
        Ok((range, arr))
    }

    /// Decodes the coordinates of a point-type shape from `data[pos..]`, with the number of
    /// bytes they take.
    fn parse_point_type(data: &[u8], pos: usize, shape_type: i32) -> (r: Result<
        (Self, usize),
        DecodeError,
    >)
        requires
            shape_type == STY_POINT || shape_type == STY_POINT_M || shape_type == STY_POINT_Z,
        ensures
            parsed_model(r) == single_point_at(data@, pos as int, shape_type),
    {
        if shape_type == STY_POINT {
            let v = match Self::parse_f64_array(data, pos, 2) {
                Ok(v) => v,
                Err(e) => return Err(e),
            };
            Ok((Shape::Point { point: Point { x: v[0], y: v[1] } }, 16))
        } else if shape_type == STY_POINT_M {
            let v = match Self::parse_f64_array(data, pos, 3) {
                Ok(v) => v,
                Err(e) => return Err(e),
            };
            Ok((Shape::PointM { point: PointM { x: v[0], y: v[1], m: v[2] } }, 24))
        } else {
            let v = match Self::parse_f64_array(data, pos, 4) {
                Ok(v) => v,
                Err(e) => return Err(e),
            };
            Ok((Shape::PointZ { point: PointZ { x: v[0], y: v[1], z: v[2], m: v[3] } }, 32))
        }
    }

    /// Decodes what follows the part arrays of a shape of type `shape_type` that starts at
    /// `data[pos]`: `num_points` points from `data[q..]` on, then the altitude and measure
    /// blocks that the type carries.
    fn parse_points_and_measures(
        data: &[u8],
        pos: usize,
        shape_type: i32,
        base: ShapeBaseData,
        q: usize,
        num_points: i32,
    ) -> (r: Result<(Self, usize), DecodeError>)
        requires
            pos <= q <= data@.len(),
            base.z_range == zero_range(),
            base.z@ == Seq::<u64>::empty(),
            base.m_range == zero_range(),
            base.m@ == Seq::<u64>::empty(),
        ensures
            parsed_model(r) == with_points_at(
                data@,
                pos as int,
                shape_type,
                base.bounding_box,
                base.parts@,
                base.part_types@,
                q as int,
                num_points as int,
            ),
    {
        proof {
            lemma_slice_len_fits(data);
        }
        if num_points < 0 {
            return Err(DecodeError::Truncated);
        }
        let n = num_points as usize;
        let mut fields = base;
        fields.points = match Self::parse_point_array(data, q, n) {
            Ok(v) => v,
            Err(e) => return Err(e),
        };
        let mut cur = q + 16 * n;
        if shape_type == STY_POLY_LINE_Z || shape_type == STY_POLYGON_Z || shape_type
            == STY_MULTI_POINT_Z || shape_type == STY_MULTI_PATCH {
            let (z_range, z) = match Self::parse_f64_range_and_array(data, cur, n) {
                Ok(block) => block,
                Err(e) => return Err(e),
            };
            cur = cur + 16 + 8 * n;
            let (m_range, m) = match Self::parse_f64_range_and_array(data, cur, n) {
                Ok(block) => block,
                Err(e) => return Err(e),
            };
            cur = cur + 16 + 8 * n;
            fields.z_range = z_range;
            fields.z = z;
            fields.m_range = m_range;
            fields.m = m;
        } else if shape_type == STY_POLY_LINE_M || shape_type == STY_POLYGON_M || shape_type
            == STY_MULTI_POINT_M {
            let (m_range, m) = match Self::parse_f64_range_and_array(data, cur, n) {
                Ok(block) => block,
                Err(e) => return Err(e),
            };
            cur = cur + 16 + 8 * n;
            fields.m_range = m_range;
            fields.m = m;
        }
        Ok((Self::shape_from_base_data(shape_type, fields), cur - pos))
    }

    /// Decodes a shape with parts whose type tag stands at `data[pos]`.
    fn parse_parts_shape(data: &[u8], pos: usize, shape_type: i32) -> (r: Result<
        (Self, usize),
        DecodeError,
    >)
        requires
            has_parts(shape_type),
            has_bytes(data@, pos as int, 4),
        ensures
            parsed_model(r) == parts_shape_at(data@, pos as int, shape_type),
    {
        proof {
            lemma_slice_len_fits(data);
        }
        let mut base = ShapeBaseData::new();
        base.bounding_box = match BoundingBox::parse(data, pos + 4) {
            Ok(b) => b,
            Err(e) => return Err(e),
        };
        let num_parts = match read_i32_le(data, pos + 36) {
            Ok(v) => v,
            Err(e) => return Err(e),
        };
        let num_points = match read_i32_le(data, pos + 40) {
            Ok(v) => v,
            Err(e) => return Err(e),
        };
        if num_parts < 0 {
            return Err(DecodeError::Truncated);
        }
        let np = num_parts as usize;
        base.parts = match Self::parse_i32_array(data, pos + 44, np) {
            Ok(v) => v,
            Err(e) => return Err(e),
        };
        let mut cur = pos + 44 + 4 * np;
        if shape_type == STY_MULTI_PATCH {
            let codes = match Self::parse_i32_array(data, cur, np) {
                Ok(v) => v,
                Err(e) => return Err(e),
            };
            cur = cur + 4 * np;
            base.part_types = match Self::parse_patch_types(&codes) {
                Some(v) => v,
                None => return Err(DecodeError::InvalidPatchType),
            };
        }
        Self::parse_points_and_measures(data, pos, shape_type, base, cur, num_points)
    }

    /// Decodes a multi point whose type tag stands at `data[pos]`.
    fn parse_multi_point_shape(data: &[u8], pos: usize, shape_type: i32) -> (r: Result<
        (Self, usize),
        DecodeError,
    >)
        requires
            is_multi_point(shape_type),
            has_bytes(data@, pos as int, 4),
        ensures
            parsed_model(r) == multi_point_at(data@, pos as int, shape_type),
    {
        proof {
            lemma_slice_len_fits(data);
        }
        let mut base = ShapeBaseData::new();
        base.bounding_box = match BoundingBox::parse(data, pos + 4) {
            Ok(b) => b,
            Err(e) => return Err(e),
        };
        let num_points = match read_i32_le(data, pos + 36) {
            Ok(v) => v,
            Err(e) => return Err(e),
        };
        Self::parse_points_and_measures(data, pos, shape_type, base, pos + 40, num_points)
    }

    /// Decodes one shape body whose type tag stands at `data[pos]`, returning the shape and the
    /// number of bytes it takes, tag included. A tag of no known shape type decodes as the null
    /// shape of four bytes.
    pub fn parse(data: &[u8], pos: usize) -> (r: Result<(Self, usize), DecodeError>)
        ensures
            parsed_model(r) == shape_at(data@, pos as int),
    {
        proof {
            lemma_slice_len_fits(data);
            reveal(shape_at);
        }
        let shape_type = match read_i32_le(data, pos) {
            Ok(t) => t,
            Err(e) => return Err(e),
        };
        if shape_type == STY_POINT || shape_type == STY_POINT_M || shape_type == STY_POINT_Z {
            match Self::parse_point_type(data, pos + 4, shape_type) {
                Ok((shape, size)) => Ok((shape, size + 4)),
                Err(e) => Err(e),
            }
        } else if shape_type == STY_POLY_LINE || shape_type == STY_POLYGON || shape_type
            == STY_POLY_LINE_Z || shape_type == STY_POLYGON_Z || shape_type == STY_POLY_LINE_M
            || shape_type == STY_POLYGON_M || shape_type == STY_MULTI_PATCH {
            Self::parse_parts_shape(data, pos, shape_type)
        } else if shape_type == STY_MULTI_POINT || shape_type == STY_MULTI_POINT_Z || shape_type
            == STY_MULTI_POINT_M {
            Self::parse_multi_point_shape(data, pos, shape_type)
        } else {
            Ok((Shape::NullShape, 4))
        }
    }

    /// The shape of type `shape_type` made of the decoded fields.
    fn shape_from_base_data(shape_type: i32, base: ShapeBaseData) -> (r: Self)
        ensures
            r@ == assemble(
                shape_type,
                base.bounding_box,
                base.parts@,
                base.part_types@,
                base.points@,
                base.z_range,
                base.z@,
                base.m_range,
                base.m@,
            ),
    {
        let ShapeBaseData { bounding_box, parts, part_types, points, z_range, z, m_range, m } =
            base;
        if shape_type == STY_POLY_LINE {
            Shape::PolyLine { bounding_box, parts, points }
        } else if shape_type == STY_POLY_LINE_M {
            Shape::PolyLineM { bounding_box, parts, points, m_range, m }
        } else if shape_type == STY_POLY_LINE_Z {
            Shape::PolyLineZ { bounding_box, parts, points, z_range, z, m_range, m }
        } else if shape_type == STY_POLYGON {
            Shape::Polygon { bounding_box, parts, points }
        } else if shape_type == STY_POLYGON_M {
            Shape::PolygonM { bounding_box, parts, points, m_range, m }
        } else if shape_type == STY_POLYGON_Z {
            Shape::PolygonZ { bounding_box, parts, points, z_range, z, m_range, m }
        } else if shape_type == STY_MULTI_POINT {
            Shape::MultiPoint { bounding_box, points }
        } else if shape_type == STY_MULTI_POINT_M {
            Shape::MultiPointM { bounding_box, points, m_range, m }
        } else if shape_type == STY_MULTI_POINT_Z {
            Shape::MultiPointZ { bounding_box, points, z_range, z, m_range, m }
        } else if shape_type == STY_MULTI_PATCH {
            Shape::MultiPatch { bounding_box, parts, part_types, points, z_range, z, m_range, m }
        } else {
            Shape::NullShape
        }
    }
}

/// The fields of a shape with a bounding box, gathered while decoding it.
struct ShapeBaseData {
    bounding_box: BoundingBox,
    parts: Vec<i32>,
    part_types: Vec<PatchType>,
    points: Vec<Point>,
    z_range: Range<u64>,
    z: Vec<u64>,
    m_range: Range<u64>,
    m: Vec<u64>,
}

impl ShapeBaseData {
    /// No fields decoded yet: a zero bounding box, zero ranges and empty vectors.
    fn new() -> (r: ShapeBaseData)
        ensures
            r.bounding_box == (BoundingBox { x_min: 0, y_min: 0, x_max: 0, y_max: 0 }),
            r.parts@ == Seq::<i32>::empty(),
            r.part_types@ == Seq::<PatchType>::empty(),
            r.points@ == Seq::<Point>::empty(),
            r.z_range == zero_range(),
            r.z@ == Seq::<u64>::empty(),
            r.m_range == zero_range(),
            r.m@ == Seq::<u64>::empty(),
    {
        ShapeBaseData {
            bounding_box: BoundingBox::new(),
            parts: Vec::new(),
            part_types: Vec::new(),
            points: Vec::new(),
            z_range: Range { min: 0, max: 0 },
            z: Vec::new(),
            m_range: Range { min: 0, max: 0 },
            m: Vec::new(),
        }
    }
}

/// A decoded shape takes at least its four-byte tag, and lies within the buffer.
pub proof fn lemma_shape_len(b: Seq<u8>, p: int)
    ensures
        match shape_at(b, p) {
            Ok((_, n)) => 4 <= n && has_bytes(b, p, n),
            Err(_) => true,
        },
{
    reveal(shape_at);
}

impl ShapeModel {
    /// The part starts of the shape; empty for a shape without parts.
    pub open spec fn parts(self) -> Seq<i32> {
        match self {
            ShapeModel::PolyLine { parts, .. } => parts,
            ShapeModel::Polygon { parts, .. } => parts,
            ShapeModel::PolyLineZ { parts, .. } => parts,
            ShapeModel::PolygonZ { parts, .. } => parts,
            ShapeModel::PolyLineM { parts, .. } => parts,
            ShapeModel::PolygonM { parts, .. } => parts,
            ShapeModel::MultiPatch { parts, .. } => parts,
            _ => Seq::empty(),
        }
    }

    /// The patch types of a MultiPatch; empty for any other shape.
    pub open spec fn part_types(self) -> Seq<PatchType> {
        match self {
            ShapeModel::MultiPatch { part_types, .. } => part_types,
            _ => Seq::empty(),
        }
    }

    /// The points of a shape with a bounding box; empty for any other shape.
    pub open spec fn points(self) -> Seq<Point> {
        match self {
            ShapeModel::PolyLine { points, .. } => points,
            ShapeModel::Polygon { points, .. } => points,
            ShapeModel::MultiPoint { points, .. } => points,
            ShapeModel::PolyLineZ { points, .. } => points,
            ShapeModel::PolygonZ { points, .. } => points,
            ShapeModel::MultiPointZ { points, .. } => points,
            ShapeModel::PolyLineM { points, .. } => points,
            ShapeModel::PolygonM { points, .. } => points,
            ShapeModel::MultiPointM { points, .. } => points,
            ShapeModel::MultiPatch { points, .. } => points,
            _ => Seq::empty(),
        }
    }

    /// The altitudes of a shape with an altitude array; empty for any other shape.
    pub open spec fn z(self) -> Seq<u64> {
        match self {
            ShapeModel::PolyLineZ { z, .. } => z,
            ShapeModel::PolygonZ { z, .. } => z,
            ShapeModel::MultiPointZ { z, .. } => z,
            ShapeModel::MultiPatch { z, .. } => z,
            _ => Seq::empty(),
        }
    }

    /// The measures of a shape with a measure array; empty for any other shape.
    pub open spec fn m(self) -> Seq<u64> {
        match self {
            ShapeModel::PolyLineZ { m, .. } => m,
            ShapeModel::PolygonZ { m, .. } => m,
            ShapeModel::MultiPointZ { m, .. } => m,
            ShapeModel::PolyLineM { m, .. } => m,
            ShapeModel::PolygonM { m, .. } => m,
            ShapeModel::MultiPointM { m, .. } => m,
            ShapeModel::MultiPatch { m, .. } => m,
            _ => Seq::empty(),
        }
    }
}

/// The number of bytes a decoded shape takes is fixed by its tag and its counts: 4 for the null
/// shape and for a tag of no known type, 20 for a Point, 28 for a PointM, 36 for a PointZ; for a
/// shape with parts, 44 bytes of tag, box and counts, 4 per part start (8 for a MultiPatch,
/// which adds a patch type per part), 16 per point and the altitude and measure blocks; for a
/// multi point, 40 bytes of tag, box and count, 16 per point and the blocks.
pub proof fn lemma_decoded_length(b: Seq<u8>, p: int)
    requires
        shape_at(b, p) is Ok,
    ensures
        ({
            let t = le_i32_at(b, p);
            let (s, n) = shape_at(b, p)->Ok_0;
            let num_parts = le_i32_at(b, p + 36) as int;
            let num_points = le_i32_at(b, p + 40) as int;
            &&& t == STY_POINT ==> n == 20
            &&& t == STY_POINT_M ==> n == 28
            &&& t == STY_POINT_Z ==> n == 36
            &&& has_parts(t) && t != STY_MULTI_PATCH ==> n == 44 + 4 * num_parts + 16 * num_points
                + measure_blocks_len(t, num_points)
            &&& t == STY_MULTI_PATCH ==> n == 44 + 8 * num_parts + 16 * num_points
                + measure_blocks_len(t, num_points)
            &&& is_multi_point(t) ==> n == 40 + 16 * le_i32_at(b, p + 36) + measure_blocks_len(
                t,
                le_i32_at(b, p + 36) as int,
            )
            &&& !(t == STY_POINT || t == STY_POINT_M || t == STY_POINT_Z || has_parts(t)
                || is_multi_point(t)) ==> n == 4 && s == ShapeModel::NullShape
        }),
{
    reveal(shape_at);
}

/// Decoding keeps the declared counts: a shape with parts has as many part starts as its part
/// count and as many points as its point count, a MultiPatch as many patch types as parts, a
/// multi point as many points as its point count, and every altitude or measure array holds one
/// value per point.
pub proof fn lemma_decoded_counts(b: Seq<u8>, p: int)
    requires
        shape_at(b, p) is Ok,
    ensures
        ({
            let t = le_i32_at(b, p);
            let s = (shape_at(b, p)->Ok_0).0;
            &&& has_parts(t) ==> s.parts().len() == le_i32_at(b, p + 36) && s.points().len()
                == le_i32_at(b, p + 40)
            &&& t == STY_MULTI_PATCH ==> s.part_types().len() == s.parts().len()
            &&& is_multi_point(t) ==> s.points().len() == le_i32_at(b, p + 36)
            &&& has_z_block(t) ==> s.z().len() == s.points().len()
            &&& has_z_block(t) || has_m_block_only(t) ==> s.m().len() == s.points().len()
        }),
{
    reveal(shape_at);
}

} // verus!
