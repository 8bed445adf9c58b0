//! The geoarrow-c type vocabulary.
//!
//! Names and values follow geoarrow-c's `geoarrow_type.h`, so one set of
//! constants works with both libraries. Callers pass these as plain
//! `int32_t`; `from_value` takes such a value back to its constant, or to
//! `None` for a value that names none.
use vstd::prelude::*;

verus! {

/// Number of dimensions of a geometry, as geoarrow-c numbers them.
#[allow(non_camel_case_types)]
#[derive(Clone, Copy, Debug, PartialEq, Eq, Structural)]
pub enum GeoArrowDimensions {
    GEOARROW_DIMENSIONS_UNKNOWN,
    GEOARROW_DIMENSIONS_XY,
    GEOARROW_DIMENSIONS_XYZ,
    GEOARROW_DIMENSIONS_XYM,
    GEOARROW_DIMENSIONS_XYZM,
}

impl GeoArrowDimensions {
    /// The values geoarrow-c's `geoarrow_type.h` gives these constants, one by one.
    pub proof fn lemma_geoarrow_c_values()
        ensures
            GeoArrowDimensions::GEOARROW_DIMENSIONS_UNKNOWN.spec_value() == 0,
            GeoArrowDimensions::GEOARROW_DIMENSIONS_XY.spec_value() == 1,
            GeoArrowDimensions::GEOARROW_DIMENSIONS_XYZ.spec_value() == 2,
            GeoArrowDimensions::GEOARROW_DIMENSIONS_XYM.spec_value() == 3,
            GeoArrowDimensions::GEOARROW_DIMENSIONS_XYZM.spec_value() == 4,
    {
    }

    /// Distinct constants have distinct values.
    pub proof fn lemma_value_injective(a: GeoArrowDimensions, b: GeoArrowDimensions)
        requires
            a.spec_value() == b.spec_value(),
        ensures
            a == b,
    {
    }

    /// The `int32_t` value that geoarrow-c gives this constant.
    pub open spec fn spec_value(self) -> i32 {
        match self {
            GeoArrowDimensions::GEOARROW_DIMENSIONS_UNKNOWN => 0,
            GeoArrowDimensions::GEOARROW_DIMENSIONS_XY => 1,
            GeoArrowDimensions::GEOARROW_DIMENSIONS_XYZ => 2,
            GeoArrowDimensions::GEOARROW_DIMENSIONS_XYM => 3,
            GeoArrowDimensions::GEOARROW_DIMENSIONS_XYZM => 4,
        }
    }

    /// The `int32_t` value that geoarrow-c gives this constant.
    pub fn value(&self) -> (r: i32)
        ensures
            r == self.spec_value(),
    {
        match self {
            GeoArrowDimensions::GEOARROW_DIMENSIONS_UNKNOWN => 0,
            GeoArrowDimensions::GEOARROW_DIMENSIONS_XY => 1,
            GeoArrowDimensions::GEOARROW_DIMENSIONS_XYZ => 2,
            GeoArrowDimensions::GEOARROW_DIMENSIONS_XYM => 3,
            GeoArrowDimensions::GEOARROW_DIMENSIONS_XYZM => 4,
        }
    }

    /// The constant that `value` names, or `None` for a value that is not declared.
    pub fn from_value(value: i32) -> (r: Option<GeoArrowDimensions>)
        ensures
            r matches Some(t) ==> t.spec_value() == value,
            r is None ==> forall|t: GeoArrowDimensions| t.spec_value() != value,
    {
        match value {
            0 => Some(GeoArrowDimensions::GEOARROW_DIMENSIONS_UNKNOWN),
            1 => Some(GeoArrowDimensions::GEOARROW_DIMENSIONS_XY),
            2 => Some(GeoArrowDimensions::GEOARROW_DIMENSIONS_XYZ),
            3 => Some(GeoArrowDimensions::GEOARROW_DIMENSIONS_XYM),
            4 => Some(GeoArrowDimensions::GEOARROW_DIMENSIONS_XYZM),
            _ => None,
        }
    }
}

/// Memory layout of coordinates, as geoarrow-c numbers them.
#[allow(non_camel_case_types)]
#[derive(Clone, Copy, Debug, PartialEq, Eq, Structural)]
pub enum GeoArrowCoordType {
    GEOARROW_COORD_TYPE_UNKNOWN,
    GEOARROW_COORD_TYPE_SEPARATE,
    GEOARROW_COORD_TYPE_INTERLEAVED,
}

impl GeoArrowCoordType {
    /// The values geoarrow-c's `geoarrow_type.h` gives these constants, one by one.
    pub proof fn lemma_geoarrow_c_values()
        ensures
            GeoArrowCoordType::GEOARROW_COORD_TYPE_UNKNOWN.spec_value() == 0,
            GeoArrowCoordType::GEOARROW_COORD_TYPE_SEPARATE.spec_value() == 1,
            GeoArrowCoordType::GEOARROW_COORD_TYPE_INTERLEAVED.spec_value() == 2,
    {
    }

    /// Distinct constants have distinct values.
    pub proof fn lemma_value_injective(a: GeoArrowCoordType, b: GeoArrowCoordType)
        requires
            a.spec_value() == b.spec_value(),
        ensures
            a == b,
    {
    }

    /// The `int32_t` value that geoarrow-c gives this constant.
    pub open spec fn spec_value(self) -> i32 {
        match self {
            GeoArrowCoordType::GEOARROW_COORD_TYPE_UNKNOWN => 0,
            GeoArrowCoordType::GEOARROW_COORD_TYPE_SEPARATE => 1,
            GeoArrowCoordType::GEOARROW_COORD_TYPE_INTERLEAVED => 2,
        }
    }

    /// The `int32_t` value that geoarrow-c gives this constant.
    pub fn value(&self) -> (r: i32)
        ensures
            r == self.spec_value(),
    {
        match self {
            GeoArrowCoordType::GEOARROW_COORD_TYPE_UNKNOWN => 0,
            GeoArrowCoordType::GEOARROW_COORD_TYPE_SEPARATE => 1,
            GeoArrowCoordType::GEOARROW_COORD_TYPE_INTERLEAVED => 2,
        }
    }

    /// The constant that `value` names, or `None` for a value that is not declared.
    pub fn from_value(value: i32) -> (r: Option<GeoArrowCoordType>)
        ensures
            r matches Some(t) ==> t.spec_value() == value,
            r is None ==> forall|t: GeoArrowCoordType| t.spec_value() != value,
    {
        match value {
            0 => Some(GeoArrowCoordType::GEOARROW_COORD_TYPE_UNKNOWN),
            1 => Some(GeoArrowCoordType::GEOARROW_COORD_TYPE_SEPARATE),
            2 => Some(GeoArrowCoordType::GEOARROW_COORD_TYPE_INTERLEAVED),
            _ => None,
        }
    }
}

/// Interpolation between the vertices of an edge, as geoarrow-c numbers them.
#[allow(non_camel_case_types)]
#[derive(Clone, Copy, Debug, PartialEq, Eq, Structural)]
pub enum GeoArrowEdgeType {
    GEOARROW_EDGE_TYPE_PLANAR,
    GEOARROW_EDGE_TYPE_SPHERICAL,
    GEOARROW_EDGE_TYPE_VINCENTY,
    GEOARROW_EDGE_TYPE_THOMAS,
    GEOARROW_EDGE_TYPE_ANDOYER,
    GEOARROW_EDGE_TYPE_KARNEY,
}

impl GeoArrowEdgeType {
    /// The values geoarrow-c's `geoarrow_type.h` gives these constants, one by one.
    pub proof fn lemma_geoarrow_c_values()
        ensures
            GeoArrowEdgeType::GEOARROW_EDGE_TYPE_PLANAR.spec_value() == 0,
            GeoArrowEdgeType::GEOARROW_EDGE_TYPE_SPHERICAL.spec_value() == 1,
            GeoArrowEdgeType::GEOARROW_EDGE_TYPE_VINCENTY.spec_value() == 2,
            GeoArrowEdgeType::GEOARROW_EDGE_TYPE_THOMAS.spec_value() == 3,
            GeoArrowEdgeType::GEOARROW_EDGE_TYPE_ANDOYER.spec_value() == 4,
            GeoArrowEdgeType::GEOARROW_EDGE_TYPE_KARNEY.spec_value() == 5,
    {
    }

    /// Distinct constants have distinct values.
    pub proof fn lemma_value_injective(a: GeoArrowEdgeType, b: GeoArrowEdgeType)
        requires
            a.spec_value() == b.spec_value(),
        ensures
            a == b,
    {
    }

    /// The `int32_t` value that geoarrow-c gives this constant.
    pub open spec fn spec_value(self) -> i32 {
        match self {
            GeoArrowEdgeType::GEOARROW_EDGE_TYPE_PLANAR => 0,
            GeoArrowEdgeType::GEOARROW_EDGE_TYPE_SPHERICAL => 1,
            GeoArrowEdgeType::GEOARROW_EDGE_TYPE_VINCENTY => 2,
            GeoArrowEdgeType::GEOARROW_EDGE_TYPE_THOMAS => 3,
            GeoArrowEdgeType::GEOARROW_EDGE_TYPE_ANDOYER => 4,
            GeoArrowEdgeType::GEOARROW_EDGE_TYPE_KARNEY => 5,
        }
    }

    /// The `int32_t` value that geoarrow-c gives this constant.
    pub fn value(&self) -> (r: i32)
        ensures
            r == self.spec_value(),
    {
        match self {
            GeoArrowEdgeType::GEOARROW_EDGE_TYPE_PLANAR => 0,
            GeoArrowEdgeType::GEOARROW_EDGE_TYPE_SPHERICAL => 1,
            GeoArrowEdgeType::GEOARROW_EDGE_TYPE_VINCENTY => 2,
            GeoArrowEdgeType::GEOARROW_EDGE_TYPE_THOMAS => 3,
            GeoArrowEdgeType::GEOARROW_EDGE_TYPE_ANDOYER => 4,
            GeoArrowEdgeType::GEOARROW_EDGE_TYPE_KARNEY => 5,
        }
    }

    /// The constant that `value` names, or `None` for a value that is not declared.
    pub fn from_value(value: i32) -> (r: Option<GeoArrowEdgeType>)
        ensures
            r matches Some(t) ==> t.spec_value() == value,
            r is None ==> forall|t: GeoArrowEdgeType| t.spec_value() != value,
    {
        match value {
            0 => Some(GeoArrowEdgeType::GEOARROW_EDGE_TYPE_PLANAR),
            1 => Some(GeoArrowEdgeType::GEOARROW_EDGE_TYPE_SPHERICAL),
            2 => Some(GeoArrowEdgeType::GEOARROW_EDGE_TYPE_VINCENTY),
            3 => Some(GeoArrowEdgeType::GEOARROW_EDGE_TYPE_THOMAS),
            4 => Some(GeoArrowEdgeType::GEOARROW_EDGE_TYPE_ANDOYER),
            5 => Some(GeoArrowEdgeType::GEOARROW_EDGE_TYPE_KARNEY),
            _ => None,
        }
    }
}

/// A geoarrow-c type code: geometry type, dimensions and coordinate layout in one value.
#[allow(non_camel_case_types)]
#[derive(Clone, Copy, Debug, PartialEq, Eq, Structural)]
pub enum GeoArrowType {
    GEOARROW_TYPE_UNINITIALIZED,
    GEOARROW_TYPE_WKB,
    GEOARROW_TYPE_LARGE_WKB,
    GEOARROW_TYPE_WKT,
    GEOARROW_TYPE_LARGE_WKT,
    GEOARROW_TYPE_WKB_VIEW,
    GEOARROW_TYPE_WKT_VIEW,
    GEOARROW_TYPE_BOX,
    GEOARROW_TYPE_BOX_Z,
    GEOARROW_TYPE_BOX_M,
    GEOARROW_TYPE_BOX_ZM,
    GEOARROW_TYPE_GEOMETRY,
    GEOARROW_TYPE_INTERLEAVED_GEOMETRY,
    GEOARROW_TYPE_POINT,
    GEOARROW_TYPE_LINESTRING,
    GEOARROW_TYPE_POLYGON,
    GEOARROW_TYPE_MULTIPOINT,
    GEOARROW_TYPE_MULTILINESTRING,
    GEOARROW_TYPE_MULTIPOLYGON,
    GEOARROW_TYPE_GEOMETRYCOLLECTION,
    GEOARROW_TYPE_POINT_Z,
    GEOARROW_TYPE_LINESTRING_Z,
    GEOARROW_TYPE_POLYGON_Z,
    GEOARROW_TYPE_MULTIPOINT_Z,
    GEOARROW_TYPE_MULTILINESTRING_Z,
    GEOARROW_TYPE_MULTIPOLYGON_Z,
    GEOARROW_TYPE_GEOMETRYCOLLECTION_Z,
    GEOARROW_TYPE_POINT_M,
    GEOARROW_TYPE_LINESTRING_M,
    GEOARROW_TYPE_POLYGON_M,
    GEOARROW_TYPE_MULTIPOINT_M,
    GEOARROW_TYPE_MULTILINESTRING_M,
    GEOARROW_TYPE_MULTIPOLYGON_M,
    GEOARROW_TYPE_GEOMETRYCOLLECTION_M,
    GEOARROW_TYPE_POINT_ZM,
    GEOARROW_TYPE_LINESTRING_ZM,
    GEOARROW_TYPE_POLYGON_ZM,
    GEOARROW_TYPE_MULTIPOINT_ZM,
    GEOARROW_TYPE_MULTILINESTRING_ZM,
    GEOARROW_TYPE_MULTIPOLYGON_ZM,
    GEOARROW_TYPE_GEOMETRYCOLLECTION_ZM,
    GEOARROW_TYPE_INTERLEAVED_POINT,
    GEOARROW_TYPE_INTERLEAVED_LINESTRING,
    GEOARROW_TYPE_INTERLEAVED_POLYGON,
    GEOARROW_TYPE_INTERLEAVED_MULTIPOINT,
    GEOARROW_TYPE_INTERLEAVED_MULTILINESTRING,
    GEOARROW_TYPE_INTERLEAVED_MULTIPOLYGON,
    GEOARROW_TYPE_INTERLEAVED_GEOMETRYCOLLECTION,
    GEOARROW_TYPE_INTERLEAVED_POINT_Z,
    GEOARROW_TYPE_INTERLEAVED_LINESTRING_Z,
    GEOARROW_TYPE_INTERLEAVED_POLYGON_Z,
    GEOARROW_TYPE_INTERLEAVED_MULTIPOINT_Z,
    GEOARROW_TYPE_INTERLEAVED_MULTILINESTRING_Z,
    GEOARROW_TYPE_INTERLEAVED_MULTIPOLYGON_Z,
    GEOARROW_TYPE_INTERLEAVED_GEOMETRYCOLLECTION_Z,
    GEOARROW_TYPE_INTERLEAVED_POINT_M,
    GEOARROW_TYPE_INTERLEAVED_LINESTRING_M,
    GEOARROW_TYPE_INTERLEAVED_POLYGON_M,
    GEOARROW_TYPE_INTERLEAVED_MULTIPOINT_M,
    GEOARROW_TYPE_INTERLEAVED_MULTILINESTRING_M,
    GEOARROW_TYPE_INTERLEAVED_MULTIPOLYGON_M,
    GEOARROW_TYPE_INTERLEAVED_GEOMETRYCOLLECTION_M,
    GEOARROW_TYPE_INTERLEAVED_POINT_ZM,
    GEOARROW_TYPE_INTERLEAVED_LINESTRING_ZM,
    GEOARROW_TYPE_INTERLEAVED_POLYGON_ZM,
    GEOARROW_TYPE_INTERLEAVED_MULTIPOINT_ZM,
    GEOARROW_TYPE_INTERLEAVED_MULTILINESTRING_ZM,
    GEOARROW_TYPE_INTERLEAVED_MULTIPOLYGON_ZM,
    GEOARROW_TYPE_INTERLEAVED_GEOMETRYCOLLECTION_ZM,
}

impl GeoArrowType {
    /// The values geoarrow-c's `geoarrow_type.h` gives these constants, one by one.
    pub proof fn lemma_geoarrow_c_values()
        ensures
            GeoArrowType::GEOARROW_TYPE_UNINITIALIZED.spec_value() == 0,
            GeoArrowType::GEOARROW_TYPE_WKB.spec_value() == 100001,
            GeoArrowType::GEOARROW_TYPE_LARGE_WKB.spec_value() == 100002,
            GeoArrowType::GEOARROW_TYPE_WKT.spec_value() == 100003,
            GeoArrowType::GEOARROW_TYPE_LARGE_WKT.spec_value() == 100004,
            GeoArrowType::GEOARROW_TYPE_WKB_VIEW.spec_value() == 100005,
            GeoArrowType::GEOARROW_TYPE_WKT_VIEW.spec_value() == 100006,
            GeoArrowType::GEOARROW_TYPE_BOX.spec_value() == 990,
            GeoArrowType::GEOARROW_TYPE_BOX_Z.spec_value() == 1990,
            GeoArrowType::GEOARROW_TYPE_BOX_M.spec_value() == 2990,
            GeoArrowType::GEOARROW_TYPE_BOX_ZM.spec_value() == 3990,
            GeoArrowType::GEOARROW_TYPE_GEOMETRY.spec_value() == 991,
            GeoArrowType::GEOARROW_TYPE_INTERLEAVED_GEOMETRY.spec_value() == 10991,
            GeoArrowType::GEOARROW_TYPE_POINT.spec_value() == 1,
            GeoArrowType::GEOARROW_TYPE_LINESTRING.spec_value() == 2,
            GeoArrowType::GEOARROW_TYPE_POLYGON.spec_value() == 3,
            GeoArrowType::GEOARROW_TYPE_MULTIPOINT.spec_value() == 4,
            GeoArrowType::GEOARROW_TYPE_MULTILINESTRING.spec_value() == 5,
            GeoArrowType::GEOARROW_TYPE_MULTIPOLYGON.spec_value() == 6,
            GeoArrowType::GEOARROW_TYPE_GEOMETRYCOLLECTION.spec_value() == 7,
            GeoArrowType::GEOARROW_TYPE_POINT_Z.spec_value() == 1001,
            GeoArrowType::GEOARROW_TYPE_LINESTRING_Z.spec_value() == 1002,
            GeoArrowType::GEOARROW_TYPE_POLYGON_Z.spec_value() == 1003,
            GeoArrowType::GEOARROW_TYPE_MULTIPOINT_Z.spec_value() == 1004,
            GeoArrowType::GEOARROW_TYPE_MULTILINESTRING_Z.spec_value() == 1005,
            GeoArrowType::GEOARROW_TYPE_MULTIPOLYGON_Z.spec_value() == 1006,
            GeoArrowType::GEOARROW_TYPE_GEOMETRYCOLLECTION_Z.spec_value() == 1007,
            GeoArrowType::GEOARROW_TYPE_POINT_M.spec_value() == 2001,
            GeoArrowType::GEOARROW_TYPE_LINESTRING_M.spec_value() == 2002,
            GeoArrowType::GEOARROW_TYPE_POLYGON_M.spec_value() == 2003,
            GeoArrowType::GEOARROW_TYPE_MULTIPOINT_M.spec_value() == 2004,
            GeoArrowType::GEOARROW_TYPE_MULTILINESTRING_M.spec_value() == 2005,
            GeoArrowType::GEOARROW_TYPE_MULTIPOLYGON_M.spec_value() == 2006,
            GeoArrowType::GEOARROW_TYPE_GEOMETRYCOLLECTION_M.spec_value() == 2007,
            GeoArrowType::GEOARROW_TYPE_POINT_ZM.spec_value() == 3001,
            GeoArrowType::GEOARROW_TYPE_LINESTRING_ZM.spec_value() == 3002,
            GeoArrowType::GEOARROW_TYPE_POLYGON_ZM.spec_value() == 3003,
            GeoArrowType::GEOARROW_TYPE_MULTIPOINT_ZM.spec_value() == 3004,
            GeoArrowType::GEOARROW_TYPE_MULTILINESTRING_ZM.spec_value() == 3005,
            GeoArrowType::GEOARROW_TYPE_MULTIPOLYGON_ZM.spec_value() == 3006,
            GeoArrowType::GEOARROW_TYPE_GEOMETRYCOLLECTION_ZM.spec_value() == 3007,
            GeoArrowType::GEOARROW_TYPE_INTERLEAVED_POINT.spec_value() == 10001,
            GeoArrowType::GEOARROW_TYPE_INTERLEAVED_LINESTRING.spec_value() == 10002,
            GeoArrowType::GEOARROW_TYPE_INTERLEAVED_POLYGON.spec_value() == 10003,
            GeoArrowType::GEOARROW_TYPE_INTERLEAVED_MULTIPOINT.spec_value() == 10004,
            GeoArrowType::GEOARROW_TYPE_INTERLEAVED_MULTILINESTRING.spec_value() == 10005,
            GeoArrowType::GEOARROW_TYPE_INTERLEAVED_MULTIPOLYGON.spec_value() == 10006,
            GeoArrowType::GEOARROW_TYPE_INTERLEAVED_GEOMETRYCOLLECTION.spec_value() == 10007,
            GeoArrowType::GEOARROW_TYPE_INTERLEAVED_POINT_Z.spec_value() == 11001,
            GeoArrowType::GEOARROW_TYPE_INTERLEAVED_LINESTRING_Z.spec_value() == 11002,
            GeoArrowType::GEOARROW_TYPE_INTERLEAVED_POLYGON_Z.spec_value() == 11003,
            GeoArrowType::GEOARROW_TYPE_INTERLEAVED_MULTIPOINT_Z.spec_value() == 11004,
            GeoArrowType::GEOARROW_TYPE_INTERLEAVED_MULTILINESTRING_Z.spec_value() == 11005,
            GeoArrowType::GEOARROW_TYPE_INTERLEAVED_MULTIPOLYGON_Z.spec_value() == 11006,
            GeoArrowType::GEOARROW_TYPE_INTERLEAVED_GEOMETRYCOLLECTION_Z.spec_value() == 11007,
            GeoArrowType::GEOARROW_TYPE_INTERLEAVED_POINT_M.spec_value() == 12001,
            GeoArrowType::GEOARROW_TYPE_INTERLEAVED_LINESTRING_M.spec_value() == 12002,
            GeoArrowType::GEOARROW_TYPE_INTERLEAVED_POLYGON_M.spec_value() == 12003,
            GeoArrowType::GEOARROW_TYPE_INTERLEAVED_MULTIPOINT_M.spec_value() == 12004,
            GeoArrowType::GEOARROW_TYPE_INTERLEAVED_MULTILINESTRING_M.spec_value() == 12005,
            GeoArrowType::GEOARROW_TYPE_INTERLEAVED_MULTIPOLYGON_M.spec_value() == 12006,
            GeoArrowType::GEOARROW_TYPE_INTERLEAVED_GEOMETRYCOLLECTION_M.spec_value() == 12007,
            GeoArrowType::GEOARROW_TYPE_INTERLEAVED_POINT_ZM.spec_value() == 13001,
            GeoArrowType::GEOARROW_TYPE_INTERLEAVED_LINESTRING_ZM.spec_value() == 13002,
            GeoArrowType::GEOARROW_TYPE_INTERLEAVED_POLYGON_ZM.spec_value() == 13003,
            GeoArrowType::GEOARROW_TYPE_INTERLEAVED_MULTIPOINT_ZM.spec_value() == 13004,
            GeoArrowType::GEOARROW_TYPE_INTERLEAVED_MULTILINESTRING_ZM.spec_value() == 13005,
            GeoArrowType::GEOARROW_TYPE_INTERLEAVED_MULTIPOLYGON_ZM.spec_value() == 13006,
            GeoArrowType::GEOARROW_TYPE_INTERLEAVED_GEOMETRYCOLLECTION_ZM.spec_value() == 13007,
    {
    }

    /// Distinct constants have distinct values.
    pub proof fn lemma_value_injective(a: GeoArrowType, b: GeoArrowType)
        requires
            a.spec_value() == b.spec_value(),
        ensures
            a == b,
    {
    }

    /// The `int32_t` value that geoarrow-c gives this constant.
    pub open spec fn spec_value(self) -> i32 {
        match self {
            GeoArrowType::GEOARROW_TYPE_UNINITIALIZED => 0,
            GeoArrowType::GEOARROW_TYPE_WKB => 100001,
            GeoArrowType::GEOARROW_TYPE_LARGE_WKB => 100002,
            GeoArrowType::GEOARROW_TYPE_WKT => 100003,
            GeoArrowType::GEOARROW_TYPE_LARGE_WKT => 100004,
            GeoArrowType::GEOARROW_TYPE_WKB_VIEW => 100005,
            GeoArrowType::GEOARROW_TYPE_WKT_VIEW => 100006,
            GeoArrowType::GEOARROW_TYPE_BOX => 990,
            GeoArrowType::GEOARROW_TYPE_BOX_Z => 1990,
            GeoArrowType::GEOARROW_TYPE_BOX_M => 2990,
            GeoArrowType::GEOARROW_TYPE_BOX_ZM => 3990,
            GeoArrowType::GEOARROW_TYPE_GEOMETRY => 991,
            GeoArrowType::GEOARROW_TYPE_INTERLEAVED_GEOMETRY => 10991,
            GeoArrowType::GEOARROW_TYPE_POINT => 1,
            GeoArrowType::GEOARROW_TYPE_LINESTRING => 2,
            GeoArrowType::GEOARROW_TYPE_POLYGON => 3,
            GeoArrowType::GEOARROW_TYPE_MULTIPOINT => 4,
            GeoArrowType::GEOARROW_TYPE_MULTILINESTRING => 5,
            GeoArrowType::GEOARROW_TYPE_MULTIPOLYGON => 6,
            GeoArrowType::GEOARROW_TYPE_GEOMETRYCOLLECTION => 7,
            GeoArrowType::GEOARROW_TYPE_POINT_Z => 1001,
            GeoArrowType::GEOARROW_TYPE_LINESTRING_Z => 1002,
            GeoArrowType::GEOARROW_TYPE_POLYGON_Z => 1003,
            GeoArrowType::GEOARROW_TYPE_MULTIPOINT_Z => 1004,
            GeoArrowType::GEOARROW_TYPE_MULTILINESTRING_Z => 1005,
            GeoArrowType::GEOARROW_TYPE_MULTIPOLYGON_Z => 1006,
            GeoArrowType::GEOARROW_TYPE_GEOMETRYCOLLECTION_Z => 1007,
            GeoArrowType::GEOARROW_TYPE_POINT_M => 2001,
            GeoArrowType::GEOARROW_TYPE_LINESTRING_M => 2002,
            GeoArrowType::GEOARROW_TYPE_POLYGON_M => 2003,
            GeoArrowType::GEOARROW_TYPE_MULTIPOINT_M => 2004,
            GeoArrowType::GEOARROW_TYPE_MULTILINESTRING_M => 2005,
            GeoArrowType::GEOARROW_TYPE_MULTIPOLYGON_M => 2006,
            GeoArrowType::GEOARROW_TYPE_GEOMETRYCOLLECTION_M => 2007,
            GeoArrowType::GEOARROW_TYPE_POINT_ZM => 3001,
            GeoArrowType::GEOARROW_TYPE_LINESTRING_ZM => 3002,
            GeoArrowType::GEOARROW_TYPE_POLYGON_ZM => 3003,
            GeoArrowType::GEOARROW_TYPE_MULTIPOINT_ZM => 3004,
            GeoArrowType::GEOARROW_TYPE_MULTILINESTRING_ZM => 3005,
            GeoArrowType::GEOARROW_TYPE_MULTIPOLYGON_ZM => 3006,
            GeoArrowType::GEOARROW_TYPE_GEOMETRYCOLLECTION_ZM => 3007,
            GeoArrowType::GEOARROW_TYPE_INTERLEAVED_POINT => 10001,
            GeoArrowType::GEOARROW_TYPE_INTERLEAVED_LINESTRING => 10002,
            GeoArrowType::GEOARROW_TYPE_INTERLEAVED_POLYGON => 10003,
            GeoArrowType::GEOARROW_TYPE_INTERLEAVED_MULTIPOINT => 10004,
            GeoArrowType::GEOARROW_TYPE_INTERLEAVED_MULTILINESTRING => 10005,
            GeoArrowType::GEOARROW_TYPE_INTERLEAVED_MULTIPOLYGON => 10006,
            GeoArrowType::GEOARROW_TYPE_INTERLEAVED_GEOMETRYCOLLECTION => 10007,
            GeoArrowType::GEOARROW_TYPE_INTERLEAVED_POINT_Z => 11001,
            GeoArrowType::GEOARROW_TYPE_INTERLEAVED_LINESTRING_Z => 11002,
            GeoArrowType::GEOARROW_TYPE_INTERLEAVED_POLYGON_Z => 11003,
            GeoArrowType::GEOARROW_TYPE_INTERLEAVED_MULTIPOINT_Z => 11004,
            GeoArrowType::GEOARROW_TYPE_INTERLEAVED_MULTILINESTRING_Z => 11005,
            GeoArrowType::GEOARROW_TYPE_INTERLEAVED_MULTIPOLYGON_Z => 11006,
            GeoArrowType::GEOARROW_TYPE_INTERLEAVED_GEOMETRYCOLLECTION_Z => 11007,
            GeoArrowType::GEOARROW_TYPE_INTERLEAVED_POINT_M => 12001,
            GeoArrowType::GEOARROW_TYPE_INTERLEAVED_LINESTRING_M => 12002,
            GeoArrowType::GEOARROW_TYPE_INTERLEAVED_POLYGON_M => 12003,
            GeoArrowType::GEOARROW_TYPE_INTERLEAVED_MULTIPOINT_M => 12004,
            GeoArrowType::GEOARROW_TYPE_INTERLEAVED_MULTILINESTRING_M => 12005,
            GeoArrowType::GEOARROW_TYPE_INTERLEAVED_MULTIPOLYGON_M => 12006,
            GeoArrowType::GEOARROW_TYPE_INTERLEAVED_GEOMETRYCOLLECTION_M => 12007,
            GeoArrowType::GEOARROW_TYPE_INTERLEAVED_POINT_ZM => 13001,
            GeoArrowType::GEOARROW_TYPE_INTERLEAVED_LINESTRING_ZM => 13002,
            GeoArrowType::GEOARROW_TYPE_INTERLEAVED_POLYGON_ZM => 13003,
            GeoArrowType::GEOARROW_TYPE_INTERLEAVED_MULTIPOINT_ZM => 13004,
            GeoArrowType::GEOARROW_TYPE_INTERLEAVED_MULTILINESTRING_ZM => 13005,
            GeoArrowType::GEOARROW_TYPE_INTERLEAVED_MULTIPOLYGON_ZM => 13006,
            GeoArrowType::GEOARROW_TYPE_INTERLEAVED_GEOMETRYCOLLECTION_ZM => 13007,
        }
    }

    /// The `int32_t` value that geoarrow-c gives this constant.
    pub fn value(&self) -> (r: i32)
        ensures
            r == self.spec_value(),
    {
        match self {
            GeoArrowType::GEOARROW_TYPE_UNINITIALIZED => 0,
            GeoArrowType::GEOARROW_TYPE_WKB => 100001,
            GeoArrowType::GEOARROW_TYPE_LARGE_WKB => 100002,
            GeoArrowType::GEOARROW_TYPE_WKT => 100003,
            GeoArrowType::GEOARROW_TYPE_LARGE_WKT => 100004,
            GeoArrowType::GEOARROW_TYPE_WKB_VIEW => 100005,
            GeoArrowType::GEOARROW_TYPE_WKT_VIEW => 100006,
            GeoArrowType::GEOARROW_TYPE_BOX => 990,
            GeoArrowType::GEOARROW_TYPE_BOX_Z => 1990,
            GeoArrowType::GEOARROW_TYPE_BOX_M => 2990,
            GeoArrowType::GEOARROW_TYPE_BOX_ZM => 3990,
            GeoArrowType::GEOARROW_TYPE_GEOMETRY => 991,
            GeoArrowType::GEOARROW_TYPE_INTERLEAVED_GEOMETRY => 10991,
            GeoArrowType::GEOARROW_TYPE_POINT => 1,
            GeoArrowType::GEOARROW_TYPE_LINESTRING => 2,
            GeoArrowType::GEOARROW_TYPE_POLYGON => 3,
            GeoArrowType::GEOARROW_TYPE_MULTIPOINT => 4,
            GeoArrowType::GEOARROW_TYPE_MULTILINESTRING => 5,
            GeoArrowType::GEOARROW_TYPE_MULTIPOLYGON => 6,
            GeoArrowType::GEOARROW_TYPE_GEOMETRYCOLLECTION => 7,
            GeoArrowType::GEOARROW_TYPE_POINT_Z => 1001,
            GeoArrowType::GEOARROW_TYPE_LINESTRING_Z => 1002,
            GeoArrowType::GEOARROW_TYPE_POLYGON_Z => 1003,
            GeoArrowType::GEOARROW_TYPE_MULTIPOINT_Z => 1004,
            GeoArrowType::GEOARROW_TYPE_MULTILINESTRING_Z => 1005,
            GeoArrowType::GEOARROW_TYPE_MULTIPOLYGON_Z => 1006,
            GeoArrowType::GEOARROW_TYPE_GEOMETRYCOLLECTION_Z => 1007,
            GeoArrowType::GEOARROW_TYPE_POINT_M => 2001,
            GeoArrowType::GEOARROW_TYPE_LINESTRING_M => 2002,
            GeoArrowType::GEOARROW_TYPE_POLYGON_M => 2003,
            GeoArrowType::GEOARROW_TYPE_MULTIPOINT_M => 2004,
            GeoArrowType::GEOARROW_TYPE_MULTILINESTRING_M => 2005,
            GeoArrowType::GEOARROW_TYPE_MULTIPOLYGON_M => 2006,
            GeoArrowType::GEOARROW_TYPE_GEOMETRYCOLLECTION_M => 2007,
            GeoArrowType::GEOARROW_TYPE_POINT_ZM => 3001,
            GeoArrowType::GEOARROW_TYPE_LINESTRING_ZM => 3002,
            GeoArrowType::GEOARROW_TYPE_POLYGON_ZM => 3003,
            GeoArrowType::GEOARROW_TYPE_MULTIPOINT_ZM => 3004,
            GeoArrowType::GEOARROW_TYPE_MULTILINESTRING_ZM => 3005,
            GeoArrowType::GEOARROW_TYPE_MULTIPOLYGON_ZM => 3006,
            GeoArrowType::GEOARROW_TYPE_GEOMETRYCOLLECTION_ZM => 3007,
            GeoArrowType::GEOARROW_TYPE_INTERLEAVED_POINT => 10001,
            GeoArrowType::GEOARROW_TYPE_INTERLEAVED_LINESTRING => 10002,
            GeoArrowType::GEOARROW_TYPE_INTERLEAVED_POLYGON => 10003,
            GeoArrowType::GEOARROW_TYPE_INTERLEAVED_MULTIPOINT => 10004,
            GeoArrowType::GEOARROW_TYPE_INTERLEAVED_MULTILINESTRING => 10005,
            GeoArrowType::GEOARROW_TYPE_INTERLEAVED_MULTIPOLYGON => 10006,
            GeoArrowType::GEOARROW_TYPE_INTERLEAVED_GEOMETRYCOLLECTION => 10007,
            GeoArrowType::GEOARROW_TYPE_INTERLEAVED_POINT_Z => 11001,
            GeoArrowType::GEOARROW_TYPE_INTERLEAVED_LINESTRING_Z => 11002,
            GeoArrowType::GEOARROW_TYPE_INTERLEAVED_POLYGON_Z => 11003,
            GeoArrowType::GEOARROW_TYPE_INTERLEAVED_MULTIPOINT_Z => 11004,
            GeoArrowType::GEOARROW_TYPE_INTERLEAVED_MULTILINESTRING_Z => 11005,
            GeoArrowType::GEOARROW_TYPE_INTERLEAVED_MULTIPOLYGON_Z => 11006,
            GeoArrowType::GEOARROW_TYPE_INTERLEAVED_GEOMETRYCOLLECTION_Z => 11007,
            GeoArrowType::GEOARROW_TYPE_INTERLEAVED_POINT_M => 12001,
            GeoArrowType::GEOARROW_TYPE_INTERLEAVED_LINESTRING_M => 12002,
            GeoArrowType::GEOARROW_TYPE_INTERLEAVED_POLYGON_M => 12003,
            GeoArrowType::GEOARROW_TYPE_INTERLEAVED_MULTIPOINT_M => 12004,
            GeoArrowType::GEOARROW_TYPE_INTERLEAVED_MULTILINESTRING_M => 12005,
            GeoArrowType::GEOARROW_TYPE_INTERLEAVED_MULTIPOLYGON_M => 12006,
            GeoArrowType::GEOARROW_TYPE_INTERLEAVED_GEOMETRYCOLLECTION_M => 12007,
            GeoArrowType::GEOARROW_TYPE_INTERLEAVED_POINT_ZM => 13001,
            GeoArrowType::GEOARROW_TYPE_INTERLEAVED_LINESTRING_ZM => 13002,
            GeoArrowType::GEOARROW_TYPE_INTERLEAVED_POLYGON_ZM => 13003,
            GeoArrowType::GEOARROW_TYPE_INTERLEAVED_MULTIPOINT_ZM => 13004,
            GeoArrowType::GEOARROW_TYPE_INTERLEAVED_MULTILINESTRING_ZM => 13005,
            GeoArrowType::GEOARROW_TYPE_INTERLEAVED_MULTIPOLYGON_ZM => 13006,
            GeoArrowType::GEOARROW_TYPE_INTERLEAVED_GEOMETRYCOLLECTION_ZM => 13007,
        }
    }

    /// The constant that `value` names, or `None` for a value that is not declared.
    pub fn from_value(value: i32) -> (r: Option<GeoArrowType>)
        ensures
            r matches Some(t) ==> t.spec_value() == value,
            r is None ==> forall|t: GeoArrowType| t.spec_value() != value,
    {
        match value {
            0 => Some(GeoArrowType::GEOARROW_TYPE_UNINITIALIZED),
            100001 => Some(GeoArrowType::GEOARROW_TYPE_WKB),
            100002 => Some(GeoArrowType::GEOARROW_TYPE_LARGE_WKB),
            100003 => Some(GeoArrowType::GEOARROW_TYPE_WKT),
            100004 => Some(GeoArrowType::GEOARROW_TYPE_LARGE_WKT),
            100005 => Some(GeoArrowType::GEOARROW_TYPE_WKB_VIEW),
            100006 => Some(GeoArrowType::GEOARROW_TYPE_WKT_VIEW),
            990 => Some(GeoArrowType::GEOARROW_TYPE_BOX),
            1990 => Some(GeoArrowType::GEOARROW_TYPE_BOX_Z),
            2990 => Some(GeoArrowType::GEOARROW_TYPE_BOX_M),
            3990 => Some(GeoArrowType::GEOARROW_TYPE_BOX_ZM),
            991 => Some(GeoArrowType::GEOARROW_TYPE_GEOMETRY),
            10991 => Some(GeoArrowType::GEOARROW_TYPE_INTERLEAVED_GEOMETRY),
            1 => Some(GeoArrowType::GEOARROW_TYPE_POINT),
            2 => Some(GeoArrowType::GEOARROW_TYPE_LINESTRING),
            3 => Some(GeoArrowType::GEOARROW_TYPE_POLYGON),
            4 => Some(GeoArrowType::GEOARROW_TYPE_MULTIPOINT),
            5 => Some(GeoArrowType::GEOARROW_TYPE_MULTILINESTRING),
            6 => Some(GeoArrowType::GEOARROW_TYPE_MULTIPOLYGON),
            7 => Some(GeoArrowType::GEOARROW_TYPE_GEOMETRYCOLLECTION),
            1001 => Some(GeoArrowType::GEOARROW_TYPE_POINT_Z),
            1002 => Some(GeoArrowType::GEOARROW_TYPE_LINESTRING_Z),
            1003 => Some(GeoArrowType::GEOARROW_TYPE_POLYGON_Z),
            1004 => Some(GeoArrowType::GEOARROW_TYPE_MULTIPOINT_Z),
            1005 => Some(GeoArrowType::GEOARROW_TYPE_MULTILINESTRING_Z),
            1006 => Some(GeoArrowType::GEOARROW_TYPE_MULTIPOLYGON_Z),
            1007 => Some(GeoArrowType::GEOARROW_TYPE_GEOMETRYCOLLECTION_Z),
            2001 => Some(GeoArrowType::GEOARROW_TYPE_POINT_M),
            2002 => Some(GeoArrowType::GEOARROW_TYPE_LINESTRING_M),
            2003 => Some(GeoArrowType::GEOARROW_TYPE_POLYGON_M),
            2004 => Some(GeoArrowType::GEOARROW_TYPE_MULTIPOINT_M),
            2005 => Some(GeoArrowType::GEOARROW_TYPE_MULTILINESTRING_M),
            2006 => Some(GeoArrowType::GEOARROW_TYPE_MULTIPOLYGON_M),
            2007 => Some(GeoArrowType::GEOARROW_TYPE_GEOMETRYCOLLECTION_M),
            3001 => Some(GeoArrowType::GEOARROW_TYPE_POINT_ZM),
            3002 => Some(GeoArrowType::GEOARROW_TYPE_LINESTRING_ZM),
            3003 => Some(GeoArrowType::GEOARROW_TYPE_POLYGON_ZM),
            3004 => Some(GeoArrowType::GEOARROW_TYPE_MULTIPOINT_ZM),
            3005 => Some(GeoArrowType::GEOARROW_TYPE_MULTILINESTRING_ZM),
            3006 => Some(GeoArrowType::GEOARROW_TYPE_MULTIPOLYGON_ZM),
            3007 => Some(GeoArrowType::GEOARROW_TYPE_GEOMETRYCOLLECTION_ZM),
            10001 => Some(GeoArrowType::GEOARROW_TYPE_INTERLEAVED_POINT),
            10002 => Some(GeoArrowType::GEOARROW_TYPE_INTERLEAVED_LINESTRING),
            10003 => Some(GeoArrowType::GEOARROW_TYPE_INTERLEAVED_POLYGON),
            10004 => Some(GeoArrowType::GEOARROW_TYPE_INTERLEAVED_MULTIPOINT),
            10005 => Some(GeoArrowType::GEOARROW_TYPE_INTERLEAVED_MULTILINESTRING),
            10006 => Some(GeoArrowType::GEOARROW_TYPE_INTERLEAVED_MULTIPOLYGON),
            10007 => Some(GeoArrowType::GEOARROW_TYPE_INTERLEAVED_GEOMETRYCOLLECTION),
            11001 => Some(GeoArrowType::GEOARROW_TYPE_INTERLEAVED_POINT_Z),
            11002 => Some(GeoArrowType::GEOARROW_TYPE_INTERLEAVED_LINESTRING_Z),
            11003 => Some(GeoArrowType::GEOARROW_TYPE_INTERLEAVED_POLYGON_Z),
            11004 => Some(GeoArrowType::GEOARROW_TYPE_INTERLEAVED_MULTIPOINT_Z),
            11005 => Some(GeoArrowType::GEOARROW_TYPE_INTERLEAVED_MULTILINESTRING_Z),
            11006 => Some(GeoArrowType::GEOARROW_TYPE_INTERLEAVED_MULTIPOLYGON_Z),
            11007 => Some(GeoArrowType::GEOARROW_TYPE_INTERLEAVED_GEOMETRYCOLLECTION_Z),
            12001 => Some(GeoArrowType::GEOARROW_TYPE_INTERLEAVED_POINT_M),
            12002 => Some(GeoArrowType::GEOARROW_TYPE_INTERLEAVED_LINESTRING_M),
            12003 => Some(GeoArrowType::GEOARROW_TYPE_INTERLEAVED_POLYGON_M),
            12004 => Some(GeoArrowType::GEOARROW_TYPE_INTERLEAVED_MULTIPOINT_M),
            12005 => Some(GeoArrowType::GEOARROW_TYPE_INTERLEAVED_MULTILINESTRING_M),
            12006 => Some(GeoArrowType::GEOARROW_TYPE_INTERLEAVED_MULTIPOLYGON_M),
            12007 => Some(GeoArrowType::GEOARROW_TYPE_INTERLEAVED_GEOMETRYCOLLECTION_M),
            13001 => Some(GeoArrowType::GEOARROW_TYPE_INTERLEAVED_POINT_ZM),
            13002 => Some(GeoArrowType::GEOARROW_TYPE_INTERLEAVED_LINESTRING_ZM),
            13003 => Some(GeoArrowType::GEOARROW_TYPE_INTERLEAVED_POLYGON_ZM),
            13004 => Some(GeoArrowType::GEOARROW_TYPE_INTERLEAVED_MULTIPOINT_ZM),
            13005 => Some(GeoArrowType::GEOARROW_TYPE_INTERLEAVED_MULTILINESTRING_ZM),
            13006 => Some(GeoArrowType::GEOARROW_TYPE_INTERLEAVED_MULTIPOLYGON_ZM),
            13007 => Some(GeoArrowType::GEOARROW_TYPE_INTERLEAVED_GEOMETRYCOLLECTION_ZM),
            _ => None,
        }
    }
}

} // verus!
