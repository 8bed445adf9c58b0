//! Geoarrow data types and the `GeoArrowType` codes that describe them.
//!
//! Native geometry types follow geoarrow-c's encoding,
//! `(coord_type - 1) * 10000 + (dimensions - 1) * 1000 + geometry_type`,
//! with geometry type 7 for geometry collections, which geoarrow-c lacks.
//! `geoarrow.geometry` takes 991 and 10991, next to BOX at 990, with the
//! dimensions slot left at XY: it mixes dimensions per row.
use vstd::prelude::*;

use crate::types::{GeoArrowCoordType, GeoArrowDimensions, GeoArrowType};

verus! {

/// The dimensions of the coordinates of a geoarrow geometry type.
#[derive(Clone, Copy, Debug, PartialEq, Eq, Structural)]
pub enum Dimension {
    XY,
    XYZ,
    XYM,
    XYZM,
}

/// The memory layout of the coordinates of a geoarrow geometry type.
#[derive(Clone, Copy, Debug, PartialEq, Eq, Structural)]
pub enum CoordType {
    Separated,
    Interleaved,
}

/// A geoarrow data type, as geoarrow-rs classifies an Arrow field: what
/// the type code is computed from.
#[derive(Clone, Copy, Debug, PartialEq, Eq, Structural)]
pub enum GeoArrowDataType {
    Point(Dimension, CoordType),
    LineString(Dimension, CoordType),
    Polygon(Dimension, CoordType),
    MultiPoint(Dimension, CoordType),
    MultiLineString(Dimension, CoordType),
    MultiPolygon(Dimension, CoordType),
    GeometryCollection(Dimension, CoordType),
    /// `geoarrow.box`: always a struct of doubles, so it has no coordinate layout.
    Rect(Dimension),
    /// `geoarrow.geometry`: mixes dimensions per row.
    Geometry(CoordType),
    Wkb,
    LargeWkb,
    WkbView,
    Wkt,
    LargeWkt,
    WktView,
}

impl Dimension {
    /// The thousands digit this dimension takes in a type code.
    pub open spec fn slot(self) -> int {
        match self {
            Dimension::XY => 0,
            Dimension::XYZ => 1,
            Dimension::XYM => 2,
            Dimension::XYZM => 3,
        }
    }

    /// The geoarrow-c constant for this dimension.
    pub open spec fn spec_geoarrow(self) -> GeoArrowDimensions {
        match self {
            Dimension::XY => GeoArrowDimensions::GEOARROW_DIMENSIONS_XY,
            Dimension::XYZ => GeoArrowDimensions::GEOARROW_DIMENSIONS_XYZ,
            Dimension::XYM => GeoArrowDimensions::GEOARROW_DIMENSIONS_XYM,
            Dimension::XYZM => GeoArrowDimensions::GEOARROW_DIMENSIONS_XYZM,
        }
    }
}

impl CoordType {
    /// The ten-thousands digit this layout takes in a type code.
    pub open spec fn slot(self) -> int {
        match self {
            CoordType::Separated => 0,
            CoordType::Interleaved => 1,
        }
    }

    /// The geoarrow-c constant for this layout.
    pub open spec fn spec_geoarrow(self) -> GeoArrowCoordType {
        match self {
            CoordType::Separated => GeoArrowCoordType::GEOARROW_COORD_TYPE_SEPARATE,
            CoordType::Interleaved => GeoArrowCoordType::GEOARROW_COORD_TYPE_INTERLEAVED,
        }
    }
}

/// The code of a native geometry type: layout, dimensions and geometry type
/// in three decimal slots.
pub open spec fn native_code(coords: CoordType, dimension: Dimension, geometry: int) -> int {
    coords.slot() * 10000 + dimension.slot() * 1000 + geometry
}

/// A native code keeps its three slots apart: for a geometry type number
/// below 1000, the layout, the dimensions and the number can be read back
/// from the code, so distinct inputs give distinct codes.
pub proof fn lemma_native_code_slots(coords: CoordType, dimension: Dimension, geometry: int)
    requires
        0 <= geometry < 1000,
    ensures
        0 <= native_code(coords, dimension, geometry) <= 13999,
        native_code(coords, dimension, geometry) % 1000 == geometry,
        (native_code(coords, dimension, geometry) / 1000) % 10 == dimension.slot(),
        native_code(coords, dimension, geometry) / 10000 == coords.slot(),
{
}

/// The `BOX` code, with the dimensions in the thousands slot.
pub open spec fn box_code() -> int {
    990
}

/// The `geoarrow.geometry` code, with the dimensions slot left at XY.
pub open spec fn geometry_code() -> int {
    991
}

impl GeoArrowDataType {
    /// The geoarrow-c geometry type number of a native geometry type:
    /// 1 for points up to 7 for geometry collections; 0 for the others.
    pub open spec fn geometry_number(self) -> int {
        match self {
            GeoArrowDataType::Point(..) => 1,
            GeoArrowDataType::LineString(..) => 2,
            GeoArrowDataType::Polygon(..) => 3,
            GeoArrowDataType::MultiPoint(..) => 4,
            GeoArrowDataType::MultiLineString(..) => 5,
            GeoArrowDataType::MultiPolygon(..) => 6,
            GeoArrowDataType::GeometryCollection(..) => 7,
            _ => 0,
        }
    }

    /// The `GeoArrowType` value that describes this type.
    pub open spec fn spec_code(self) -> int {
        match self {
            GeoArrowDataType::Wkb => 100001,
            GeoArrowDataType::LargeWkb => 100002,
            GeoArrowDataType::Wkt => 100003,
            GeoArrowDataType::LargeWkt => 100004,
            GeoArrowDataType::WkbView => 100005,
            GeoArrowDataType::WktView => 100006,
            GeoArrowDataType::Rect(d) => d.slot() * 1000 + box_code(),
            GeoArrowDataType::Geometry(c) => c.slot() * 10000 + geometry_code(),
            GeoArrowDataType::Point(d, c) => native_code(c, d, 1),
            GeoArrowDataType::LineString(d, c) => native_code(c, d, 2),
            GeoArrowDataType::Polygon(d, c) => native_code(c, d, 3),
            GeoArrowDataType::MultiPoint(d, c) => native_code(c, d, 4),
            GeoArrowDataType::MultiLineString(d, c) => native_code(c, d, 5),
            GeoArrowDataType::MultiPolygon(d, c) => native_code(c, d, 6),
            GeoArrowDataType::GeometryCollection(d, c) => native_code(c, d, 7),
        }
    }

    /// The geoarrow-c constant that names this type.
    pub open spec fn spec_geoarrow_type(self) -> GeoArrowType {
        match self {
            GeoArrowDataType::Point(d, c) => match (d, c) {
                (Dimension::XY, CoordType::Separated) => GeoArrowType::GEOARROW_TYPE_POINT,
                (Dimension::XYZ, CoordType::Separated) => GeoArrowType::GEOARROW_TYPE_POINT_Z,
                (Dimension::XYM, CoordType::Separated) => GeoArrowType::GEOARROW_TYPE_POINT_M,
                (Dimension::XYZM, CoordType::Separated) => GeoArrowType::GEOARROW_TYPE_POINT_ZM,
                (Dimension::XY, CoordType::Interleaved) => GeoArrowType::GEOARROW_TYPE_INTERLEAVED_POINT,
                (Dimension::XYZ, CoordType::Interleaved) => GeoArrowType::GEOARROW_TYPE_INTERLEAVED_POINT_Z,
                (Dimension::XYM, CoordType::Interleaved) => GeoArrowType::GEOARROW_TYPE_INTERLEAVED_POINT_M,
                (Dimension::XYZM, CoordType::Interleaved) => GeoArrowType::GEOARROW_TYPE_INTERLEAVED_POINT_ZM,
            },
            GeoArrowDataType::LineString(d, c) => match (d, c) {
                (Dimension::XY, CoordType::Separated) => GeoArrowType::GEOARROW_TYPE_LINESTRING,
                (Dimension::XYZ, CoordType::Separated) => GeoArrowType::GEOARROW_TYPE_LINESTRING_Z,
                (Dimension::XYM, CoordType::Separated) => GeoArrowType::GEOARROW_TYPE_LINESTRING_M,
                (Dimension::XYZM, CoordType::Separated) => GeoArrowType::GEOARROW_TYPE_LINESTRING_ZM,
                (Dimension::XY, CoordType::Interleaved) => GeoArrowType::GEOARROW_TYPE_INTERLEAVED_LINESTRING,
                (Dimension::XYZ, CoordType::Interleaved) => GeoArrowType::GEOARROW_TYPE_INTERLEAVED_LINESTRING_Z,
                (Dimension::XYM, CoordType::Interleaved) => GeoArrowType::GEOARROW_TYPE_INTERLEAVED_LINESTRING_M,
                (Dimension::XYZM, CoordType::Interleaved) => GeoArrowType::GEOARROW_TYPE_INTERLEAVED_LINESTRING_ZM,
            },
            GeoArrowDataType::Polygon(d, c) => match (d, c) {
                (Dimension::XY, CoordType::Separated) => GeoArrowType::GEOARROW_TYPE_POLYGON,
                (Dimension::XYZ, CoordType::Separated) => GeoArrowType::GEOARROW_TYPE_POLYGON_Z,
                (Dimension::XYM, CoordType::Separated) => GeoArrowType::GEOARROW_TYPE_POLYGON_M,
                (Dimension::XYZM, CoordType::Separated) => GeoArrowType::GEOARROW_TYPE_POLYGON_ZM,
                (Dimension::XY, CoordType::Interleaved) => GeoArrowType::GEOARROW_TYPE_INTERLEAVED_POLYGON,
                (Dimension::XYZ, CoordType::Interleaved) => GeoArrowType::GEOARROW_TYPE_INTERLEAVED_POLYGON_Z,
                (Dimension::XYM, CoordType::Interleaved) => GeoArrowType::GEOARROW_TYPE_INTERLEAVED_POLYGON_M,
                (Dimension::XYZM, CoordType::Interleaved) => GeoArrowType::GEOARROW_TYPE_INTERLEAVED_POLYGON_ZM,
            },
            GeoArrowDataType::MultiPoint(d, c) => match (d, c) {
                (Dimension::XY, CoordType::Separated) => GeoArrowType::GEOARROW_TYPE_MULTIPOINT,
                (Dimension::XYZ, CoordType::Separated) => GeoArrowType::GEOARROW_TYPE_MULTIPOINT_Z,
                (Dimension::XYM, CoordType::Separated) => GeoArrowType::GEOARROW_TYPE_MULTIPOINT_M,
                (Dimension::XYZM, CoordType::Separated) => GeoArrowType::GEOARROW_TYPE_MULTIPOINT_ZM,
                (Dimension::XY, CoordType::Interleaved) => GeoArrowType::GEOARROW_TYPE_INTERLEAVED_MULTIPOINT,
                (Dimension::XYZ, CoordType::Interleaved) => GeoArrowType::GEOARROW_TYPE_INTERLEAVED_MULTIPOINT_Z,
                (Dimension::XYM, CoordType::Interleaved) => GeoArrowType::GEOARROW_TYPE_INTERLEAVED_MULTIPOINT_M,
                (Dimension::XYZM, CoordType::Interleaved) => GeoArrowType::GEOARROW_TYPE_INTERLEAVED_MULTIPOINT_ZM,
            },
            GeoArrowDataType::MultiLineString(d, c) => match (d, c) {
                (Dimension::XY, CoordType::Separated) => GeoArrowType::GEOARROW_TYPE_MULTILINESTRING,
                (Dimension::XYZ, CoordType::Separated) => GeoArrowType::GEOARROW_TYPE_MULTILINESTRING_Z,
                (Dimension::XYM, CoordType::Separated) => GeoArrowType::GEOARROW_TYPE_MULTILINESTRING_M,
                (Dimension::XYZM, CoordType::Separated) => GeoArrowType::GEOARROW_TYPE_MULTILINESTRING_ZM,
                (Dimension::XY, CoordType::Interleaved) => GeoArrowType::GEOARROW_TYPE_INTERLEAVED_MULTILINESTRING,
                (Dimension::XYZ, CoordType::Interleaved) => GeoArrowType::GEOARROW_TYPE_INTERLEAVED_MULTILINESTRING_Z,
                (Dimension::XYM, CoordType::Interleaved) => GeoArrowType::GEOARROW_TYPE_INTERLEAVED_MULTILINESTRING_M,
                (Dimension::XYZM, CoordType::Interleaved) => GeoArrowType::GEOARROW_TYPE_INTERLEAVED_MULTILINESTRING_ZM,
            },
            GeoArrowDataType::MultiPolygon(d, c) => match (d, c) {
                (Dimension::XY, CoordType::Separated) => GeoArrowType::GEOARROW_TYPE_MULTIPOLYGON,
                (Dimension::XYZ, CoordType::Separated) => GeoArrowType::GEOARROW_TYPE_MULTIPOLYGON_Z,
                (Dimension::XYM, CoordType::Separated) => GeoArrowType::GEOARROW_TYPE_MULTIPOLYGON_M,
                (Dimension::XYZM, CoordType::Separated) => GeoArrowType::GEOARROW_TYPE_MULTIPOLYGON_ZM,
                (Dimension::XY, CoordType::Interleaved) => GeoArrowType::GEOARROW_TYPE_INTERLEAVED_MULTIPOLYGON,
                (Dimension::XYZ, CoordType::Interleaved) => GeoArrowType::GEOARROW_TYPE_INTERLEAVED_MULTIPOLYGON_Z,
                (Dimension::XYM, CoordType::Interleaved) => GeoArrowType::GEOARROW_TYPE_INTERLEAVED_MULTIPOLYGON_M,
                (Dimension::XYZM, CoordType::Interleaved) => GeoArrowType::GEOARROW_TYPE_INTERLEAVED_MULTIPOLYGON_ZM,
            },
            GeoArrowDataType::GeometryCollection(d, c) => match (d, c) {
                (Dimension::XY, CoordType::Separated) => GeoArrowType::GEOARROW_TYPE_GEOMETRYCOLLECTION,
                (Dimension::XYZ, CoordType::Separated) => GeoArrowType::GEOARROW_TYPE_GEOMETRYCOLLECTION_Z,
                (Dimension::XYM, CoordType::Separated) => GeoArrowType::GEOARROW_TYPE_GEOMETRYCOLLECTION_M,
                (Dimension::XYZM, CoordType::Separated) => GeoArrowType::GEOARROW_TYPE_GEOMETRYCOLLECTION_ZM,
                (Dimension::XY, CoordType::Interleaved) => GeoArrowType::GEOARROW_TYPE_INTERLEAVED_GEOMETRYCOLLECTION,
                (Dimension::XYZ, CoordType::Interleaved) => GeoArrowType::GEOARROW_TYPE_INTERLEAVED_GEOMETRYCOLLECTION_Z,
                (Dimension::XYM, CoordType::Interleaved) => GeoArrowType::GEOARROW_TYPE_INTERLEAVED_GEOMETRYCOLLECTION_M,
                (Dimension::XYZM, CoordType::Interleaved) => GeoArrowType::GEOARROW_TYPE_INTERLEAVED_GEOMETRYCOLLECTION_ZM,
            },
            GeoArrowDataType::Rect(d) => match d {
                Dimension::XY => GeoArrowType::GEOARROW_TYPE_BOX,
                Dimension::XYZ => GeoArrowType::GEOARROW_TYPE_BOX_Z,
                Dimension::XYM => GeoArrowType::GEOARROW_TYPE_BOX_M,
                Dimension::XYZM => GeoArrowType::GEOARROW_TYPE_BOX_ZM,
            },
            GeoArrowDataType::Geometry(c) => match c {
                CoordType::Separated => GeoArrowType::GEOARROW_TYPE_GEOMETRY,
                CoordType::Interleaved => GeoArrowType::GEOARROW_TYPE_INTERLEAVED_GEOMETRY,
            },
            GeoArrowDataType::Wkb => GeoArrowType::GEOARROW_TYPE_WKB,
            GeoArrowDataType::LargeWkb => GeoArrowType::GEOARROW_TYPE_LARGE_WKB,
            GeoArrowDataType::WkbView => GeoArrowType::GEOARROW_TYPE_WKB_VIEW,
            GeoArrowDataType::Wkt => GeoArrowType::GEOARROW_TYPE_WKT,
            GeoArrowDataType::LargeWkt => GeoArrowType::GEOARROW_TYPE_LARGE_WKT,
            GeoArrowDataType::WktView => GeoArrowType::GEOARROW_TYPE_WKT_VIEW,
        }
    }
}

fn dimension_code(dimension: Dimension) -> (r: i32)
    ensures
        r == dimension.slot(),
{
    match dimension {
        Dimension::XY => 0,
        Dimension::XYZ => 1,
        Dimension::XYM => 2,
        Dimension::XYZM => 3,
    }
}

fn coord_code(coords: CoordType) -> (r: i32)
    ensures
        r == coords.slot(),
{
    match coords {
        CoordType::Separated => 0,
        CoordType::Interleaved => 1,
    }
}

fn native(coords: CoordType, dimension: Dimension, geometry: i32) -> (r: i32)
    requires
        geometry <= i32::MAX - 13000,
    ensures
        r == native_code(coords, dimension, geometry as int),
{
    coord_code(coords) * 10000 + dimension_code(dimension) * 1000 + geometry
}

/// Encode a geoarrow data type as its `GeoArrowType` value.
pub fn type_code(data_type: &GeoArrowDataType) -> (r: i32)
    ensures
        r == data_type.spec_code(),
{
    match data_type {
        GeoArrowDataType::Wkb => 100001,
        GeoArrowDataType::LargeWkb => 100002,
        GeoArrowDataType::Wkt => 100003,
        GeoArrowDataType::LargeWkt => 100004,
        GeoArrowDataType::WkbView => 100005,
        GeoArrowDataType::WktView => 100006,
        GeoArrowDataType::Rect(d) => dimension_code(*d) * 1000 + 990,
        GeoArrowDataType::Geometry(c) => coord_code(*c) * 10000 + 991,
        GeoArrowDataType::Point(d, c) => native(*c, *d, 1),
        GeoArrowDataType::LineString(d, c) => native(*c, *d, 2),
        GeoArrowDataType::Polygon(d, c) => native(*c, *d, 3),
        GeoArrowDataType::MultiPoint(d, c) => native(*c, *d, 4),
        GeoArrowDataType::MultiLineString(d, c) => native(*c, *d, 5),
        GeoArrowDataType::MultiPolygon(d, c) => native(*c, *d, 6),
        GeoArrowDataType::GeometryCollection(d, c) => native(*c, *d, 7),
    }
}

/// The declared `GeoArrowType` constant that describes a geoarrow data type.
pub fn geoarrow_type(data_type: &GeoArrowDataType) -> (r: GeoArrowType)
    ensures
        r == data_type.spec_geoarrow_type(),
        r.spec_value() == data_type.spec_code(),
{
    let code = type_code(data_type);
    proof {
        lemma_code_names_a_declared_constant(*data_type);
    }
    match GeoArrowType::from_value(code) {
        Some(t) => {
            proof {
                GeoArrowType::lemma_value_injective(t, data_type.spec_geoarrow_type());
            }
            t
        },
        None => {
            proof {
                assert(data_type.spec_geoarrow_type().spec_value() == code);
            }
            GeoArrowType::GEOARROW_TYPE_UNINITIALIZED
        },
    }
}

/// Every code `type_code` computes is the value of a declared
/// `GeoArrowType` constant, so writing it through a `GeoArrowType` pointer
/// stays in range.
pub proof fn lemma_code_names_a_declared_constant(data_type: GeoArrowDataType)
    ensures
        data_type.spec_geoarrow_type().spec_value() == data_type.spec_code(),
{
    match data_type {
        GeoArrowDataType::Point(d, c) => lemma_native_constant(data_type, d, c),
        GeoArrowDataType::LineString(d, c) => lemma_native_constant(data_type, d, c),
        GeoArrowDataType::Polygon(d, c) => lemma_native_constant(data_type, d, c),
        GeoArrowDataType::MultiPoint(d, c) => lemma_native_constant(data_type, d, c),
        GeoArrowDataType::MultiLineString(d, c) => lemma_native_constant(data_type, d, c),
        GeoArrowDataType::MultiPolygon(d, c) => lemma_native_constant(data_type, d, c),
        GeoArrowDataType::GeometryCollection(d, c) => lemma_native_constant(data_type, d, c),
        _ => {},
    }
}

/// The constant of a native geometry type holds its code, for each
/// dimension and layout.
proof fn lemma_native_constant(data_type: GeoArrowDataType, d: Dimension, c: CoordType)
    requires
        1 <= data_type.geometry_number() <= 7,
        data_type matches GeoArrowDataType::Point(d0, c0) ==> d0 == d && c0 == c,
        data_type matches GeoArrowDataType::LineString(d0, c0) ==> d0 == d && c0 == c,
        data_type matches GeoArrowDataType::Polygon(d0, c0) ==> d0 == d && c0 == c,
        data_type matches GeoArrowDataType::MultiPoint(d0, c0) ==> d0 == d && c0 == c,
        data_type matches GeoArrowDataType::MultiLineString(d0, c0) ==> d0 == d && c0 == c,
        data_type matches GeoArrowDataType::MultiPolygon(d0, c0) ==> d0 == d && c0 == c,
        data_type matches GeoArrowDataType::GeometryCollection(d0, c0) ==> d0 == d && c0 == c,
    ensures
        data_type.spec_geoarrow_type().spec_value() == data_type.spec_code(),
{
    match d {
        Dimension::XY => match c {
            CoordType::Separated => {},
            CoordType::Interleaved => {},
        },
        Dimension::XYZ => match c {
            CoordType::Separated => {},
            CoordType::Interleaved => {},
        },
        Dimension::XYM => match c {
            CoordType::Separated => {},
            CoordType::Interleaved => {},
        },
        Dimension::XYZM => match c {
            CoordType::Separated => {},
            CoordType::Interleaved => {},
        },
    }
}

/// Distinct geoarrow data types get distinct codes.
pub proof fn lemma_code_injective(a: GeoArrowDataType, b: GeoArrowDataType)
    requires
        a.spec_code() == b.spec_code(),
    ensures
        a == b,
{
    lemma_code_names_a_declared_constant(a);
    lemma_code_names_a_declared_constant(b);
    GeoArrowType::lemma_value_injective(a.spec_geoarrow_type(), b.spec_geoarrow_type());
    lemma_constant_determines_type(a, b);
}

proof fn lemma_constant_determines_type(a: GeoArrowDataType, b: GeoArrowDataType)
    requires
        a.spec_geoarrow_type() == b.spec_geoarrow_type(),
    ensures
        a == b,
{
    match a {
        GeoArrowDataType::Point(d, c) => {
            match d {
                Dimension::XY => {},
                Dimension::XYZ => {},
                Dimension::XYM => {},
                Dimension::XYZM => {},
            }
            match c {
                CoordType::Separated => {},
                CoordType::Interleaved => {},
            }
        },
        GeoArrowDataType::LineString(d, c) => {
            match d {
                Dimension::XY => {},
                Dimension::XYZ => {},
                Dimension::XYM => {},
                Dimension::XYZM => {},
            }
            match c {
                CoordType::Separated => {},
                CoordType::Interleaved => {},
            }
        },
        GeoArrowDataType::Polygon(d, c) => {
            match d {
                Dimension::XY => {},
                Dimension::XYZ => {},
                Dimension::XYM => {},
                Dimension::XYZM => {},
            }
            match c {
                CoordType::Separated => {},
                CoordType::Interleaved => {},
            }
        },
        GeoArrowDataType::MultiPoint(d, c) => {
            match d {
                Dimension::XY => {},
                Dimension::XYZ => {},
                Dimension::XYM => {},
                Dimension::XYZM => {},
            }
            match c {
                CoordType::Separated => {},
                CoordType::Interleaved => {},
            }
        },
        GeoArrowDataType::MultiLineString(d, c) => {
            match d {
                Dimension::XY => {},
                Dimension::XYZ => {},
                Dimension::XYM => {},
                Dimension::XYZM => {},
            }
            match c {
                CoordType::Separated => {},
                CoordType::Interleaved => {},
            }
        },
        GeoArrowDataType::MultiPolygon(d, c) => {
            match d {
                Dimension::XY => {},
                Dimension::XYZ => {},
                Dimension::XYM => {},
                Dimension::XYZM => {},
            }
            match c {
                CoordType::Separated => {},
                CoordType::Interleaved => {},
            }
        },
        GeoArrowDataType::GeometryCollection(d, c) => {
            match d {
                Dimension::XY => {},
                Dimension::XYZ => {},
                Dimension::XYM => {},
                Dimension::XYZM => {},
            }
            match c {
                CoordType::Separated => {},
                CoordType::Interleaved => {},
            }
        },
        GeoArrowDataType::Rect(d) => {
            match d {
                Dimension::XY => {},
                Dimension::XYZ => {},
                Dimension::XYM => {},
                Dimension::XYZM => {},
            }
        },
        GeoArrowDataType::Geometry(c) => {
            match c {
                CoordType::Separated => {},
                CoordType::Interleaved => {},
            }
        },
        _ => {},
    }
}

/// Native geometry types follow geoarrow-c's encoding,
/// `(coord_type - 1) * 10000 + (dimensions - 1) * 1000 + geometry_type`,
/// with geometry type 7 for geometry collections; boxes take 990 plus the
/// dimensions in the thousands slot, and `geoarrow.geometry` takes 991 plus
/// the layout in the ten-thousands slot.
pub proof fn lemma_geoarrow_c_encoding(data_type: GeoArrowDataType)
    ensures
        match data_type {
            GeoArrowDataType::Rect(d) => data_type.spec_code() == (d.spec_geoarrow().spec_value() - 1)
                * 1000 + 990,
            GeoArrowDataType::Geometry(c) => data_type.spec_code() == (c.spec_geoarrow().spec_value()
                - 1) * 10000 + 991,
            GeoArrowDataType::Point(d, c) => data_type.spec_code() == (c.spec_geoarrow().spec_value()
                - 1) * 10000 + (d.spec_geoarrow().spec_value() - 1) * 1000 + 1,
            GeoArrowDataType::LineString(d, c) => data_type.spec_code() == (c.spec_geoarrow().spec_value()
                - 1) * 10000 + (d.spec_geoarrow().spec_value() - 1) * 1000 + 2,
            GeoArrowDataType::Polygon(d, c) => data_type.spec_code() == (c.spec_geoarrow().spec_value()
                - 1) * 10000 + (d.spec_geoarrow().spec_value() - 1) * 1000 + 3,
            GeoArrowDataType::MultiPoint(d, c) => data_type.spec_code() == (c.spec_geoarrow().spec_value()
                - 1) * 10000 + (d.spec_geoarrow().spec_value() - 1) * 1000 + 4,
            GeoArrowDataType::MultiLineString(d, c) => data_type.spec_code() == (c.spec_geoarrow().spec_value()
                - 1) * 10000 + (d.spec_geoarrow().spec_value() - 1) * 1000 + 5,
            GeoArrowDataType::MultiPolygon(d, c) => data_type.spec_code() == (c.spec_geoarrow().spec_value()
                - 1) * 10000 + (d.spec_geoarrow().spec_value() - 1) * 1000 + 6,
            GeoArrowDataType::GeometryCollection(d, c) => data_type.spec_code() == (c.spec_geoarrow().spec_value()
                - 1) * 10000 + (d.spec_geoarrow().spec_value() - 1) * 1000 + 7,
            GeoArrowDataType::Wkb => data_type.spec_code() == 100001,
            GeoArrowDataType::LargeWkb => data_type.spec_code() == 100002,
            GeoArrowDataType::Wkt => data_type.spec_code() == 100003,
            GeoArrowDataType::LargeWkt => data_type.spec_code() == 100004,
            GeoArrowDataType::WkbView => data_type.spec_code() == 100005,
            GeoArrowDataType::WktView => data_type.spec_code() == 100006,
        },
{
    match data_type {
        GeoArrowDataType::Rect(d) => lemma_slots_follow_constants(d, CoordType::Separated),
        GeoArrowDataType::Geometry(c) => lemma_slots_follow_constants(Dimension::XY, c),
        GeoArrowDataType::Point(d, c) => lemma_slots_follow_constants(d, c),
        GeoArrowDataType::LineString(d, c) => lemma_slots_follow_constants(d, c),
        GeoArrowDataType::Polygon(d, c) => lemma_slots_follow_constants(d, c),
        GeoArrowDataType::MultiPoint(d, c) => lemma_slots_follow_constants(d, c),
        GeoArrowDataType::MultiLineString(d, c) => lemma_slots_follow_constants(d, c),
        GeoArrowDataType::MultiPolygon(d, c) => lemma_slots_follow_constants(d, c),
        GeoArrowDataType::GeometryCollection(d, c) => lemma_slots_follow_constants(d, c),
        _ => {},
    }
}

proof fn lemma_slots_follow_constants(d: Dimension, c: CoordType)
    ensures
        d.slot() == d.spec_geoarrow().spec_value() - 1,
        c.slot() == c.spec_geoarrow().spec_value() - 1,
{
    match d {
        Dimension::XY => {},
        Dimension::XYZ => {},
        Dimension::XYM => {},
        Dimension::XYZM => {},
    }
    match c {
        CoordType::Separated => {},
        CoordType::Interleaved => {},
    }
}

/// The geoarrow-c constants that name the dimensions and the layouts.
pub proof fn lemma_dimension_and_layout_constants()
    ensures
        Dimension::XY.spec_geoarrow() == GeoArrowDimensions::GEOARROW_DIMENSIONS_XY,
        Dimension::XYZ.spec_geoarrow() == GeoArrowDimensions::GEOARROW_DIMENSIONS_XYZ,
        Dimension::XYM.spec_geoarrow() == GeoArrowDimensions::GEOARROW_DIMENSIONS_XYM,
        Dimension::XYZM.spec_geoarrow() == GeoArrowDimensions::GEOARROW_DIMENSIONS_XYZM,
        CoordType::Separated.spec_geoarrow() == GeoArrowCoordType::GEOARROW_COORD_TYPE_SEPARATE,
        CoordType::Interleaved.spec_geoarrow() == GeoArrowCoordType::GEOARROW_COORD_TYPE_INTERLEAVED,
{
}

proof fn lemma_constant_names_point()
    ensures
        GeoArrowDataType::Point(Dimension::XY, CoordType::Separated).spec_geoarrow_type()
            == GeoArrowType::GEOARROW_TYPE_POINT,
        GeoArrowDataType::Point(Dimension::XYZ, CoordType::Separated).spec_geoarrow_type()
            == GeoArrowType::GEOARROW_TYPE_POINT_Z,
        GeoArrowDataType::Point(Dimension::XYM, CoordType::Separated).spec_geoarrow_type()
            == GeoArrowType::GEOARROW_TYPE_POINT_M,
        GeoArrowDataType::Point(Dimension::XYZM, CoordType::Separated).spec_geoarrow_type()
            == GeoArrowType::GEOARROW_TYPE_POINT_ZM,
        GeoArrowDataType::Point(Dimension::XY, CoordType::Interleaved).spec_geoarrow_type()
            == GeoArrowType::GEOARROW_TYPE_INTERLEAVED_POINT,
        GeoArrowDataType::Point(Dimension::XYZ, CoordType::Interleaved).spec_geoarrow_type()
            == GeoArrowType::GEOARROW_TYPE_INTERLEAVED_POINT_Z,
        GeoArrowDataType::Point(Dimension::XYM, CoordType::Interleaved).spec_geoarrow_type()
            == GeoArrowType::GEOARROW_TYPE_INTERLEAVED_POINT_M,
        GeoArrowDataType::Point(Dimension::XYZM, CoordType::Interleaved).spec_geoarrow_type()
            == GeoArrowType::GEOARROW_TYPE_INTERLEAVED_POINT_ZM,
{
}

proof fn lemma_constant_names_line_string()
    ensures
        GeoArrowDataType::LineString(Dimension::XY, CoordType::Separated).spec_geoarrow_type()
            == GeoArrowType::GEOARROW_TYPE_LINESTRING,
        GeoArrowDataType::LineString(Dimension::XYZ, CoordType::Separated).spec_geoarrow_type()
            == GeoArrowType::GEOARROW_TYPE_LINESTRING_Z,
        GeoArrowDataType::LineString(Dimension::XYM, CoordType::Separated).spec_geoarrow_type()
            == GeoArrowType::GEOARROW_TYPE_LINESTRING_M,
        GeoArrowDataType::LineString(Dimension::XYZM, CoordType::Separated).spec_geoarrow_type()
            == GeoArrowType::GEOARROW_TYPE_LINESTRING_ZM,
        GeoArrowDataType::LineString(Dimension::XY, CoordType::Interleaved).spec_geoarrow_type()
            == GeoArrowType::GEOARROW_TYPE_INTERLEAVED_LINESTRING,
        GeoArrowDataType::LineString(Dimension::XYZ, CoordType::Interleaved).spec_geoarrow_type()
            == GeoArrowType::GEOARROW_TYPE_INTERLEAVED_LINESTRING_Z,
        GeoArrowDataType::LineString(Dimension::XYM, CoordType::Interleaved).spec_geoarrow_type()
            == GeoArrowType::GEOARROW_TYPE_INTERLEAVED_LINESTRING_M,
        GeoArrowDataType::LineString(Dimension::XYZM, CoordType::Interleaved).spec_geoarrow_type()
            == GeoArrowType::GEOARROW_TYPE_INTERLEAVED_LINESTRING_ZM,
{
}

proof fn lemma_constant_names_polygon()
    ensures
        GeoArrowDataType::Polygon(Dimension::XY, CoordType::Separated).spec_geoarrow_type()
            == GeoArrowType::GEOARROW_TYPE_POLYGON,
        GeoArrowDataType::Polygon(Dimension::XYZ, CoordType::Separated).spec_geoarrow_type()
            == GeoArrowType::GEOARROW_TYPE_POLYGON_Z,
        GeoArrowDataType::Polygon(Dimension::XYM, CoordType::Separated).spec_geoarrow_type()
            == GeoArrowType::GEOARROW_TYPE_POLYGON_M,
        GeoArrowDataType::Polygon(Dimension::XYZM, CoordType::Separated).spec_geoarrow_type()
            == GeoArrowType::GEOARROW_TYPE_POLYGON_ZM,
        GeoArrowDataType::Polygon(Dimension::XY, CoordType::Interleaved).spec_geoarrow_type()
            == GeoArrowType::GEOARROW_TYPE_INTERLEAVED_POLYGON,
        GeoArrowDataType::Polygon(Dimension::XYZ, CoordType::Interleaved).spec_geoarrow_type()
            == GeoArrowType::GEOARROW_TYPE_INTERLEAVED_POLYGON_Z,
        GeoArrowDataType::Polygon(Dimension::XYM, CoordType::Interleaved).spec_geoarrow_type()
            == GeoArrowType::GEOARROW_TYPE_INTERLEAVED_POLYGON_M,
        GeoArrowDataType::Polygon(Dimension::XYZM, CoordType::Interleaved).spec_geoarrow_type()
            == GeoArrowType::GEOARROW_TYPE_INTERLEAVED_POLYGON_ZM,
{
}

proof fn lemma_constant_names_multi_point()
    ensures
        GeoArrowDataType::MultiPoint(Dimension::XY, CoordType::Separated).spec_geoarrow_type()
            == GeoArrowType::GEOARROW_TYPE_MULTIPOINT,
        GeoArrowDataType::MultiPoint(Dimension::XYZ, CoordType::Separated).spec_geoarrow_type()
            == GeoArrowType::GEOARROW_TYPE_MULTIPOINT_Z,
        GeoArrowDataType::MultiPoint(Dimension::XYM, CoordType::Separated).spec_geoarrow_type()
            == GeoArrowType::GEOARROW_TYPE_MULTIPOINT_M,
        GeoArrowDataType::MultiPoint(Dimension::XYZM, CoordType::Separated).spec_geoarrow_type()
            == GeoArrowType::GEOARROW_TYPE_MULTIPOINT_ZM,
        GeoArrowDataType::MultiPoint(Dimension::XY, CoordType::Interleaved).spec_geoarrow_type()
            == GeoArrowType::GEOARROW_TYPE_INTERLEAVED_MULTIPOINT,
        GeoArrowDataType::MultiPoint(Dimension::XYZ, CoordType::Interleaved).spec_geoarrow_type()
            == GeoArrowType::GEOARROW_TYPE_INTERLEAVED_MULTIPOINT_Z,
        GeoArrowDataType::MultiPoint(Dimension::XYM, CoordType::Interleaved).spec_geoarrow_type()
            == GeoArrowType::GEOARROW_TYPE_INTERLEAVED_MULTIPOINT_M,
        GeoArrowDataType::MultiPoint(Dimension::XYZM, CoordType::Interleaved).spec_geoarrow_type()
            == GeoArrowType::GEOARROW_TYPE_INTERLEAVED_MULTIPOINT_ZM,
{
}

proof fn lemma_constant_names_multi_line_string()
    ensures
        GeoArrowDataType::MultiLineString(Dimension::XY, CoordType::Separated).spec_geoarrow_type()
            == GeoArrowType::GEOARROW_TYPE_MULTILINESTRING,
        GeoArrowDataType::MultiLineString(Dimension::XYZ, CoordType::Separated).spec_geoarrow_type()
            == GeoArrowType::GEOARROW_TYPE_MULTILINESTRING_Z,
        GeoArrowDataType::MultiLineString(Dimension::XYM, CoordType::Separated).spec_geoarrow_type()
            == GeoArrowType::GEOARROW_TYPE_MULTILINESTRING_M,
        GeoArrowDataType::MultiLineString(Dimension::XYZM, CoordType::Separated).spec_geoarrow_type()
            == GeoArrowType::GEOARROW_TYPE_MULTILINESTRING_ZM,
        GeoArrowDataType::MultiLineString(Dimension::XY, CoordType::Interleaved).spec_geoarrow_type()
            == GeoArrowType::GEOARROW_TYPE_INTERLEAVED_MULTILINESTRING,
        GeoArrowDataType::MultiLineString(Dimension::XYZ, CoordType::Interleaved).spec_geoarrow_type()
            == GeoArrowType::GEOARROW_TYPE_INTERLEAVED_MULTILINESTRING_Z,
        GeoArrowDataType::MultiLineString(Dimension::XYM, CoordType::Interleaved).spec_geoarrow_type()
            == GeoArrowType::GEOARROW_TYPE_INTERLEAVED_MULTILINESTRING_M,
        GeoArrowDataType::MultiLineString(Dimension::XYZM, CoordType::Interleaved).spec_geoarrow_type()
            == GeoArrowType::GEOARROW_TYPE_INTERLEAVED_MULTILINESTRING_ZM,
{
}

proof fn lemma_constant_names_multi_polygon()
    ensures
        GeoArrowDataType::MultiPolygon(Dimension::XY, CoordType::Separated).spec_geoarrow_type()
            == GeoArrowType::GEOARROW_TYPE_MULTIPOLYGON,
        GeoArrowDataType::MultiPolygon(Dimension::XYZ, CoordType::Separated).spec_geoarrow_type()
            == GeoArrowType::GEOARROW_TYPE_MULTIPOLYGON_Z,
        GeoArrowDataType::MultiPolygon(Dimension::XYM, CoordType::Separated).spec_geoarrow_type()
            == GeoArrowType::GEOARROW_TYPE_MULTIPOLYGON_M,
        GeoArrowDataType::MultiPolygon(Dimension::XYZM, CoordType::Separated).spec_geoarrow_type()
            == GeoArrowType::GEOARROW_TYPE_MULTIPOLYGON_ZM,
        GeoArrowDataType::MultiPolygon(Dimension::XY, CoordType::Interleaved).spec_geoarrow_type()
            == GeoArrowType::GEOARROW_TYPE_INTERLEAVED_MULTIPOLYGON,
        GeoArrowDataType::MultiPolygon(Dimension::XYZ, CoordType::Interleaved).spec_geoarrow_type()
            == GeoArrowType::GEOARROW_TYPE_INTERLEAVED_MULTIPOLYGON_Z,
        GeoArrowDataType::MultiPolygon(Dimension::XYM, CoordType::Interleaved).spec_geoarrow_type()
            == GeoArrowType::GEOARROW_TYPE_INTERLEAVED_MULTIPOLYGON_M,
        GeoArrowDataType::MultiPolygon(Dimension::XYZM, CoordType::Interleaved).spec_geoarrow_type()
            == GeoArrowType::GEOARROW_TYPE_INTERLEAVED_MULTIPOLYGON_ZM,
{
}

proof fn lemma_constant_names_geometry_collection()
    ensures
        GeoArrowDataType::GeometryCollection(Dimension::XY, CoordType::Separated).spec_geoarrow_type()
            == GeoArrowType::GEOARROW_TYPE_GEOMETRYCOLLECTION,
        GeoArrowDataType::GeometryCollection(Dimension::XYZ, CoordType::Separated).spec_geoarrow_type()
            == GeoArrowType::GEOARROW_TYPE_GEOMETRYCOLLECTION_Z,
        GeoArrowDataType::GeometryCollection(Dimension::XYM, CoordType::Separated).spec_geoarrow_type()
            == GeoArrowType::GEOARROW_TYPE_GEOMETRYCOLLECTION_M,
        GeoArrowDataType::GeometryCollection(Dimension::XYZM, CoordType::Separated).spec_geoarrow_type()
            == GeoArrowType::GEOARROW_TYPE_GEOMETRYCOLLECTION_ZM,
        GeoArrowDataType::GeometryCollection(Dimension::XY, CoordType::Interleaved).spec_geoarrow_type()
            == GeoArrowType::GEOARROW_TYPE_INTERLEAVED_GEOMETRYCOLLECTION,
        GeoArrowDataType::GeometryCollection(Dimension::XYZ, CoordType::Interleaved).spec_geoarrow_type()
            == GeoArrowType::GEOARROW_TYPE_INTERLEAVED_GEOMETRYCOLLECTION_Z,
        GeoArrowDataType::GeometryCollection(Dimension::XYM, CoordType::Interleaved).spec_geoarrow_type()
            == GeoArrowType::GEOARROW_TYPE_INTERLEAVED_GEOMETRYCOLLECTION_M,
        GeoArrowDataType::GeometryCollection(Dimension::XYZM, CoordType::Interleaved).spec_geoarrow_type()
            == GeoArrowType::GEOARROW_TYPE_INTERLEAVED_GEOMETRYCOLLECTION_ZM,
{
}

proof fn lemma_constant_names_other()
    ensures
        GeoArrowDataType::Rect(Dimension::XY).spec_geoarrow_type() == GeoArrowType::GEOARROW_TYPE_BOX,
        GeoArrowDataType::Rect(Dimension::XYZ).spec_geoarrow_type() == GeoArrowType::GEOARROW_TYPE_BOX_Z,
        GeoArrowDataType::Rect(Dimension::XYM).spec_geoarrow_type() == GeoArrowType::GEOARROW_TYPE_BOX_M,
        GeoArrowDataType::Rect(Dimension::XYZM).spec_geoarrow_type() == GeoArrowType::GEOARROW_TYPE_BOX_ZM,
        GeoArrowDataType::Geometry(CoordType::Separated).spec_geoarrow_type()
            == GeoArrowType::GEOARROW_TYPE_GEOMETRY,
        GeoArrowDataType::Geometry(CoordType::Interleaved).spec_geoarrow_type()
            == GeoArrowType::GEOARROW_TYPE_INTERLEAVED_GEOMETRY,
        GeoArrowDataType::Wkb.spec_geoarrow_type() == GeoArrowType::GEOARROW_TYPE_WKB,
        GeoArrowDataType::LargeWkb.spec_geoarrow_type() == GeoArrowType::GEOARROW_TYPE_LARGE_WKB,
        GeoArrowDataType::WkbView.spec_geoarrow_type() == GeoArrowType::GEOARROW_TYPE_WKB_VIEW,
        GeoArrowDataType::Wkt.spec_geoarrow_type() == GeoArrowType::GEOARROW_TYPE_WKT,
        GeoArrowDataType::LargeWkt.spec_geoarrow_type() == GeoArrowType::GEOARROW_TYPE_LARGE_WKT,
        GeoArrowDataType::WktView.spec_geoarrow_type() == GeoArrowType::GEOARROW_TYPE_WKT_VIEW,
{
}

/// The constant named for each data type: its geometry, its dimensions and
/// its layout, as geoarrow-c spells them.
pub proof fn lemma_constant_names()
    ensures
        GeoArrowDataType::Point(Dimension::XY, CoordType::Separated).spec_geoarrow_type()
            == GeoArrowType::GEOARROW_TYPE_POINT,
        GeoArrowDataType::Point(Dimension::XYZ, CoordType::Separated).spec_geoarrow_type()
            == GeoArrowType::GEOARROW_TYPE_POINT_Z,
        GeoArrowDataType::Point(Dimension::XYM, CoordType::Separated).spec_geoarrow_type()
            == GeoArrowType::GEOARROW_TYPE_POINT_M,
        GeoArrowDataType::Point(Dimension::XYZM, CoordType::Separated).spec_geoarrow_type()
            == GeoArrowType::GEOARROW_TYPE_POINT_ZM,
        GeoArrowDataType::Point(Dimension::XY, CoordType::Interleaved).spec_geoarrow_type()
            == GeoArrowType::GEOARROW_TYPE_INTERLEAVED_POINT,
        GeoArrowDataType::Point(Dimension::XYZ, CoordType::Interleaved).spec_geoarrow_type()
            == GeoArrowType::GEOARROW_TYPE_INTERLEAVED_POINT_Z,
        GeoArrowDataType::Point(Dimension::XYM, CoordType::Interleaved).spec_geoarrow_type()
            == GeoArrowType::GEOARROW_TYPE_INTERLEAVED_POINT_M,
        GeoArrowDataType::Point(Dimension::XYZM, CoordType::Interleaved).spec_geoarrow_type()
            == GeoArrowType::GEOARROW_TYPE_INTERLEAVED_POINT_ZM,
        GeoArrowDataType::LineString(Dimension::XY, CoordType::Separated).spec_geoarrow_type()
            == GeoArrowType::GEOARROW_TYPE_LINESTRING,
        GeoArrowDataType::LineString(Dimension::XYZ, CoordType::Separated).spec_geoarrow_type()
            == GeoArrowType::GEOARROW_TYPE_LINESTRING_Z,
        GeoArrowDataType::LineString(Dimension::XYM, CoordType::Separated).spec_geoarrow_type()
            == GeoArrowType::GEOARROW_TYPE_LINESTRING_M,
        GeoArrowDataType::LineString(Dimension::XYZM, CoordType::Separated).spec_geoarrow_type()
            == GeoArrowType::GEOARROW_TYPE_LINESTRING_ZM,
        GeoArrowDataType::LineString(Dimension::XY, CoordType::Interleaved).spec_geoarrow_type()
            == GeoArrowType::GEOARROW_TYPE_INTERLEAVED_LINESTRING,
        GeoArrowDataType::LineString(Dimension::XYZ, CoordType::Interleaved).spec_geoarrow_type()
            == GeoArrowType::GEOARROW_TYPE_INTERLEAVED_LINESTRING_Z,
        GeoArrowDataType::LineString(Dimension::XYM, CoordType::Interleaved).spec_geoarrow_type()
            == GeoArrowType::GEOARROW_TYPE_INTERLEAVED_LINESTRING_M,
        GeoArrowDataType::LineString(Dimension::XYZM, CoordType::Interleaved).spec_geoarrow_type()
            == GeoArrowType::GEOARROW_TYPE_INTERLEAVED_LINESTRING_ZM,
        GeoArrowDataType::Polygon(Dimension::XY, CoordType::Separated).spec_geoarrow_type()
            == GeoArrowType::GEOARROW_TYPE_POLYGON,
        GeoArrowDataType::Polygon(Dimension::XYZ, CoordType::Separated).spec_geoarrow_type()
            == GeoArrowType::GEOARROW_TYPE_POLYGON_Z,
        GeoArrowDataType::Polygon(Dimension::XYM, CoordType::Separated).spec_geoarrow_type()
            == GeoArrowType::GEOARROW_TYPE_POLYGON_M,
        GeoArrowDataType::Polygon(Dimension::XYZM, CoordType::Separated).spec_geoarrow_type()
            == GeoArrowType::GEOARROW_TYPE_POLYGON_ZM,
        GeoArrowDataType::Polygon(Dimension::XY, CoordType::Interleaved).spec_geoarrow_type()
            == GeoArrowType::GEOARROW_TYPE_INTERLEAVED_POLYGON,
        GeoArrowDataType::Polygon(Dimension::XYZ, CoordType::Interleaved).spec_geoarrow_type()
            == GeoArrowType::GEOARROW_TYPE_INTERLEAVED_POLYGON_Z,
        GeoArrowDataType::Polygon(Dimension::XYM, CoordType::Interleaved).spec_geoarrow_type()
            == GeoArrowType::GEOARROW_TYPE_INTERLEAVED_POLYGON_M,
        GeoArrowDataType::Polygon(Dimension::XYZM, CoordType::Interleaved).spec_geoarrow_type()
            == GeoArrowType::GEOARROW_TYPE_INTERLEAVED_POLYGON_ZM,
        GeoArrowDataType::MultiPoint(Dimension::XY, CoordType::Separated).spec_geoarrow_type()
            == GeoArrowType::GEOARROW_TYPE_MULTIPOINT,
        GeoArrowDataType::MultiPoint(Dimension::XYZ, CoordType::Separated).spec_geoarrow_type()
            == GeoArrowType::GEOARROW_TYPE_MULTIPOINT_Z,
        GeoArrowDataType::MultiPoint(Dimension::XYM, CoordType::Separated).spec_geoarrow_type()
            == GeoArrowType::GEOARROW_TYPE_MULTIPOINT_M,
        GeoArrowDataType::MultiPoint(Dimension::XYZM, CoordType::Separated).spec_geoarrow_type()
            == GeoArrowType::GEOARROW_TYPE_MULTIPOINT_ZM,
        GeoArrowDataType::MultiPoint(Dimension::XY, CoordType::Interleaved).spec_geoarrow_type()
            == GeoArrowType::GEOARROW_TYPE_INTERLEAVED_MULTIPOINT,
        GeoArrowDataType::MultiPoint(Dimension::XYZ, CoordType::Interleaved).spec_geoarrow_type()
            == GeoArrowType::GEOARROW_TYPE_INTERLEAVED_MULTIPOINT_Z,
        GeoArrowDataType::MultiPoint(Dimension::XYM, CoordType::Interleaved).spec_geoarrow_type()
            == GeoArrowType::GEOARROW_TYPE_INTERLEAVED_MULTIPOINT_M,
        GeoArrowDataType::MultiPoint(Dimension::XYZM, CoordType::Interleaved).spec_geoarrow_type()
            == GeoArrowType::GEOARROW_TYPE_INTERLEAVED_MULTIPOINT_ZM,
        GeoArrowDataType::MultiLineString(Dimension::XY, CoordType::Separated).spec_geoarrow_type()
            == GeoArrowType::GEOARROW_TYPE_MULTILINESTRING,
        GeoArrowDataType::MultiLineString(Dimension::XYZ, CoordType::Separated).spec_geoarrow_type()
            == GeoArrowType::GEOARROW_TYPE_MULTILINESTRING_Z,
        GeoArrowDataType::MultiLineString(Dimension::XYM, CoordType::Separated).spec_geoarrow_type()
            == GeoArrowType::GEOARROW_TYPE_MULTILINESTRING_M,
        GeoArrowDataType::MultiLineString(Dimension::XYZM, CoordType::Separated).spec_geoarrow_type()
            == GeoArrowType::GEOARROW_TYPE_MULTILINESTRING_ZM,
        GeoArrowDataType::MultiLineString(Dimension::XY, CoordType::Interleaved).spec_geoarrow_type()
            == GeoArrowType::GEOARROW_TYPE_INTERLEAVED_MULTILINESTRING,
        GeoArrowDataType::MultiLineString(Dimension::XYZ, CoordType::Interleaved).spec_geoarrow_type()
            == GeoArrowType::GEOARROW_TYPE_INTERLEAVED_MULTILINESTRING_Z,
        GeoArrowDataType::MultiLineString(Dimension::XYM, CoordType::Interleaved).spec_geoarrow_type()
            == GeoArrowType::GEOARROW_TYPE_INTERLEAVED_MULTILINESTRING_M,
        GeoArrowDataType::MultiLineString(Dimension::XYZM, CoordType::Interleaved).spec_geoarrow_type()
            == GeoArrowType::GEOARROW_TYPE_INTERLEAVED_MULTILINESTRING_ZM,
        GeoArrowDataType::MultiPolygon(Dimension::XY, CoordType::Separated).spec_geoarrow_type()
            == GeoArrowType::GEOARROW_TYPE_MULTIPOLYGON,
        GeoArrowDataType::MultiPolygon(Dimension::XYZ, CoordType::Separated).spec_geoarrow_type()
            == GeoArrowType::GEOARROW_TYPE_MULTIPOLYGON_Z,
        GeoArrowDataType::MultiPolygon(Dimension::XYM, CoordType::Separated).spec_geoarrow_type()
            == GeoArrowType::GEOARROW_TYPE_MULTIPOLYGON_M,
        GeoArrowDataType::MultiPolygon(Dimension::XYZM, CoordType::Separated).spec_geoarrow_type()
            == GeoArrowType::GEOARROW_TYPE_MULTIPOLYGON_ZM,
        GeoArrowDataType::MultiPolygon(Dimension::XY, CoordType::Interleaved).spec_geoarrow_type()
            == GeoArrowType::GEOARROW_TYPE_INTERLEAVED_MULTIPOLYGON,
        GeoArrowDataType::MultiPolygon(Dimension::XYZ, CoordType::Interleaved).spec_geoarrow_type()
            == GeoArrowType::GEOARROW_TYPE_INTERLEAVED_MULTIPOLYGON_Z,
        GeoArrowDataType::MultiPolygon(Dimension::XYM, CoordType::Interleaved).spec_geoarrow_type()
            == GeoArrowType::GEOARROW_TYPE_INTERLEAVED_MULTIPOLYGON_M,
        GeoArrowDataType::MultiPolygon(Dimension::XYZM, CoordType::Interleaved).spec_geoarrow_type()
            == GeoArrowType::GEOARROW_TYPE_INTERLEAVED_MULTIPOLYGON_ZM,
        GeoArrowDataType::GeometryCollection(Dimension::XY, CoordType::Separated).spec_geoarrow_type()
            == GeoArrowType::GEOARROW_TYPE_GEOMETRYCOLLECTION,
        GeoArrowDataType::GeometryCollection(Dimension::XYZ, CoordType::Separated).spec_geoarrow_type()
            == GeoArrowType::GEOARROW_TYPE_GEOMETRYCOLLECTION_Z,
        GeoArrowDataType::GeometryCollection(Dimension::XYM, CoordType::Separated).spec_geoarrow_type()
            == GeoArrowType::GEOARROW_TYPE_GEOMETRYCOLLECTION_M,
        GeoArrowDataType::GeometryCollection(Dimension::XYZM, CoordType::Separated).spec_geoarrow_type()
            == GeoArrowType::GEOARROW_TYPE_GEOMETRYCOLLECTION_ZM,
        GeoArrowDataType::GeometryCollection(Dimension::XY, CoordType::Interleaved).spec_geoarrow_type()
            == GeoArrowType::GEOARROW_TYPE_INTERLEAVED_GEOMETRYCOLLECTION,
        GeoArrowDataType::GeometryCollection(Dimension::XYZ, CoordType::Interleaved).spec_geoarrow_type()
            == GeoArrowType::GEOARROW_TYPE_INTERLEAVED_GEOMETRYCOLLECTION_Z,
        GeoArrowDataType::GeometryCollection(Dimension::XYM, CoordType::Interleaved).spec_geoarrow_type()
            == GeoArrowType::GEOARROW_TYPE_INTERLEAVED_GEOMETRYCOLLECTION_M,
        GeoArrowDataType::GeometryCollection(Dimension::XYZM, CoordType::Interleaved).spec_geoarrow_type()
            == GeoArrowType::GEOARROW_TYPE_INTERLEAVED_GEOMETRYCOLLECTION_ZM,
        GeoArrowDataType::Rect(Dimension::XY).spec_geoarrow_type() == GeoArrowType::GEOARROW_TYPE_BOX,
        GeoArrowDataType::Rect(Dimension::XYZ).spec_geoarrow_type() == GeoArrowType::GEOARROW_TYPE_BOX_Z,
        GeoArrowDataType::Rect(Dimension::XYM).spec_geoarrow_type() == GeoArrowType::GEOARROW_TYPE_BOX_M,
        GeoArrowDataType::Rect(Dimension::XYZM).spec_geoarrow_type() == GeoArrowType::GEOARROW_TYPE_BOX_ZM,
        GeoArrowDataType::Geometry(CoordType::Separated).spec_geoarrow_type()
            == GeoArrowType::GEOARROW_TYPE_GEOMETRY,
        GeoArrowDataType::Geometry(CoordType::Interleaved).spec_geoarrow_type()
            == GeoArrowType::GEOARROW_TYPE_INTERLEAVED_GEOMETRY,
        GeoArrowDataType::Wkb.spec_geoarrow_type() == GeoArrowType::GEOARROW_TYPE_WKB,
        GeoArrowDataType::LargeWkb.spec_geoarrow_type() == GeoArrowType::GEOARROW_TYPE_LARGE_WKB,
        GeoArrowDataType::WkbView.spec_geoarrow_type() == GeoArrowType::GEOARROW_TYPE_WKB_VIEW,
        GeoArrowDataType::Wkt.spec_geoarrow_type() == GeoArrowType::GEOARROW_TYPE_WKT,
        GeoArrowDataType::LargeWkt.spec_geoarrow_type() == GeoArrowType::GEOARROW_TYPE_LARGE_WKT,
        GeoArrowDataType::WktView.spec_geoarrow_type() == GeoArrowType::GEOARROW_TYPE_WKT_VIEW,
{
    lemma_constant_names_point();
    lemma_constant_names_line_string();
    lemma_constant_names_polygon();
    lemma_constant_names_multi_point();
    lemma_constant_names_multi_line_string();
    lemma_constant_names_multi_polygon();
    lemma_constant_names_geometry_collection();
    lemma_constant_names_other();
}

} // verus!
