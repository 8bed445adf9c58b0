use geoarrow_rs_c::data_type::{geoarrow_type, type_code, CoordType, Dimension, GeoArrowDataType};
use geoarrow_rs_c::types::{GeoArrowCoordType, GeoArrowDimensions, GeoArrowEdgeType, GeoArrowType};

use CoordType::{Interleaved, Separated};
use Dimension::{XY, XYM, XYZ, XYZM};

fn point(d: Dimension, c: CoordType) -> GeoArrowDataType {
    GeoArrowDataType::Point(d, c)
}
fn linestring(d: Dimension, c: CoordType) -> GeoArrowDataType {
    GeoArrowDataType::LineString(d, c)
}
fn polygon(d: Dimension, c: CoordType) -> GeoArrowDataType {
    GeoArrowDataType::Polygon(d, c)
}
fn multipoint(d: Dimension, c: CoordType) -> GeoArrowDataType {
    GeoArrowDataType::MultiPoint(d, c)
}
fn multilinestring(d: Dimension, c: CoordType) -> GeoArrowDataType {
    GeoArrowDataType::MultiLineString(d, c)
}
fn multipolygon(d: Dimension, c: CoordType) -> GeoArrowDataType {
    GeoArrowDataType::MultiPolygon(d, c)
}
fn collection(d: Dimension, c: CoordType) -> GeoArrowDataType {
    GeoArrowDataType::GeometryCollection(d, c)
}
fn geometry(c: CoordType) -> GeoArrowDataType {
    GeoArrowDataType::Geometry(c)
}
fn rect(d: Dimension) -> GeoArrowDataType {
    GeoArrowDataType::Rect(d)
}

fn code_is(data_type: GeoArrowDataType, expected: GeoArrowType) {
    let expected_value = expected.value();
    assert_eq!(type_code(&data_type), expected_value, "for {expected_value}");
    assert_eq!(geoarrow_type(&data_type), expected, "for {expected_value}");
}

#[test]
fn type_code_matches_the_exported_enum() {
    code_is(point(XY, Separated), GeoArrowType::GEOARROW_TYPE_POINT);
    code_is(linestring(XY, Separated), GeoArrowType::GEOARROW_TYPE_LINESTRING);
    code_is(polygon(XY, Separated), GeoArrowType::GEOARROW_TYPE_POLYGON);
    code_is(multipoint(XY, Separated), GeoArrowType::GEOARROW_TYPE_MULTIPOINT);
    code_is(multilinestring(XY, Separated), GeoArrowType::GEOARROW_TYPE_MULTILINESTRING);
    code_is(multipolygon(XY, Separated), GeoArrowType::GEOARROW_TYPE_MULTIPOLYGON);
    code_is(point(XYZ, Separated), GeoArrowType::GEOARROW_TYPE_POINT_Z);
    code_is(point(XYM, Separated), GeoArrowType::GEOARROW_TYPE_POINT_M);
    code_is(point(XYZM, Separated), GeoArrowType::GEOARROW_TYPE_POINT_ZM);
    code_is(point(XY, Interleaved), GeoArrowType::GEOARROW_TYPE_INTERLEAVED_POINT);
    code_is(linestring(XYZM, Interleaved), GeoArrowType::GEOARROW_TYPE_INTERLEAVED_LINESTRING_ZM);
    code_is(polygon(XYZ, Interleaved), GeoArrowType::GEOARROW_TYPE_INTERLEAVED_POLYGON_Z);
    code_is(multipolygon(XYM, Interleaved), GeoArrowType::GEOARROW_TYPE_INTERLEAVED_MULTIPOLYGON_M);
    code_is(collection(XY, Separated), GeoArrowType::GEOARROW_TYPE_GEOMETRYCOLLECTION);
    code_is(collection(XYZ, Separated), GeoArrowType::GEOARROW_TYPE_GEOMETRYCOLLECTION_Z);
    code_is(collection(XYM, Separated), GeoArrowType::GEOARROW_TYPE_GEOMETRYCOLLECTION_M);
    code_is(collection(XYZM, Separated), GeoArrowType::GEOARROW_TYPE_GEOMETRYCOLLECTION_ZM);
    code_is(collection(XY, Interleaved), GeoArrowType::GEOARROW_TYPE_INTERLEAVED_GEOMETRYCOLLECTION);
    code_is(collection(XYZ, Interleaved), GeoArrowType::GEOARROW_TYPE_INTERLEAVED_GEOMETRYCOLLECTION_Z);
    code_is(collection(XYM, Interleaved), GeoArrowType::GEOARROW_TYPE_INTERLEAVED_GEOMETRYCOLLECTION_M);
    code_is(collection(XYZM, Interleaved), GeoArrowType::GEOARROW_TYPE_INTERLEAVED_GEOMETRYCOLLECTION_ZM);
    code_is(geometry(Separated), GeoArrowType::GEOARROW_TYPE_GEOMETRY);
    code_is(geometry(Interleaved), GeoArrowType::GEOARROW_TYPE_INTERLEAVED_GEOMETRY);
    code_is(rect(XY), GeoArrowType::GEOARROW_TYPE_BOX);
    code_is(rect(XYZ), GeoArrowType::GEOARROW_TYPE_BOX_Z);
    code_is(rect(XYM), GeoArrowType::GEOARROW_TYPE_BOX_M);
    code_is(rect(XYZM), GeoArrowType::GEOARROW_TYPE_BOX_ZM);
    code_is(GeoArrowDataType::Wkb, GeoArrowType::GEOARROW_TYPE_WKB);
    code_is(GeoArrowDataType::LargeWkb, GeoArrowType::GEOARROW_TYPE_LARGE_WKB);
    code_is(GeoArrowDataType::Wkt, GeoArrowType::GEOARROW_TYPE_WKT);
    code_is(GeoArrowDataType::LargeWkt, GeoArrowType::GEOARROW_TYPE_LARGE_WKT);
    code_is(GeoArrowDataType::WkbView, GeoArrowType::GEOARROW_TYPE_WKB_VIEW);
    code_is(GeoArrowDataType::WktView, GeoArrowType::GEOARROW_TYPE_WKT_VIEW);
}

fn all_data_types() -> Vec<GeoArrowDataType> {
    let dims = [XY, XYZ, XYM, XYZM];
    let coords = [Separated, Interleaved];
    let mut all = Vec::new();
    for d in dims {
        for c in coords {
            all.push(point(d, c));
            all.push(linestring(d, c));
            all.push(polygon(d, c));
            all.push(multipoint(d, c));
            all.push(multilinestring(d, c));
            all.push(multipolygon(d, c));
            all.push(collection(d, c));
        }
        all.push(rect(d));
    }
    for c in coords {
        all.push(geometry(c));
    }
    all.extend([
        GeoArrowDataType::Wkb,
        GeoArrowDataType::LargeWkb,
        GeoArrowDataType::WkbView,
        GeoArrowDataType::Wkt,
        GeoArrowDataType::LargeWkt,
        GeoArrowDataType::WktView,
    ]);
    all
}

#[test]
fn every_code_is_a_declared_constant_and_codes_are_distinct() {
    let all = all_data_types();
    assert_eq!(all.len(), 68);
    for (i, a) in all.iter().enumerate() {
        let code = type_code(a);
        assert_eq!(GeoArrowType::from_value(code), Some(geoarrow_type(a)));
        for b in all.iter().skip(i + 1) {
            assert_ne!(code, type_code(b));
        }
    }
}

#[test]
fn native_codes_follow_the_geoarrow_c_encoding() {
    // (coord_type - 1) * 10000 + (dimensions - 1) * 1000 + geometry_type
    let coord_value = GeoArrowCoordType::GEOARROW_COORD_TYPE_INTERLEAVED.value();
    let dim_value = GeoArrowDimensions::GEOARROW_DIMENSIONS_XYM.value();
    assert_eq!(
        type_code(&collection(XYM, Interleaved)),
        (coord_value - 1) * 10000 + (dim_value - 1) * 1000 + 7
    );
    assert_eq!(type_code(&collection(XYM, Interleaved)), 12007);
    assert_eq!(type_code(&rect(XYZM)), 3990);
    assert_eq!(type_code(&geometry(Interleaved)), 10991);
    assert_eq!(type_code(&multipoint(XYZ, Separated)), 1004);
}

#[test]
fn constants_round_trip_through_their_values() {
    assert_eq!(GeoArrowType::from_value(13003), Some(GeoArrowType::GEOARROW_TYPE_INTERLEAVED_POLYGON_ZM));
    assert_eq!(GeoArrowType::from_value(0), Some(GeoArrowType::GEOARROW_TYPE_UNINITIALIZED));
    assert_eq!(GeoArrowType::from_value(100006), Some(GeoArrowType::GEOARROW_TYPE_WKT_VIEW));
    assert_eq!(GeoArrowType::from_value(8), None);
    assert_eq!(GeoArrowType::from_value(-1), None);
    assert_eq!(GeoArrowType::from_value(4990), None);
    assert_eq!(GeoArrowType::GEOARROW_TYPE_INTERLEAVED_GEOMETRY.value(), 10991);

    assert_eq!(GeoArrowDimensions::from_value(4), Some(GeoArrowDimensions::GEOARROW_DIMENSIONS_XYZM));
    assert_eq!(GeoArrowDimensions::from_value(5), None);
    assert_eq!(GeoArrowDimensions::GEOARROW_DIMENSIONS_UNKNOWN.value(), 0);

    assert_eq!(GeoArrowCoordType::from_value(1), Some(GeoArrowCoordType::GEOARROW_COORD_TYPE_SEPARATE));
    assert_eq!(GeoArrowCoordType::from_value(3), None);

    assert_eq!(GeoArrowEdgeType::from_value(5), Some(GeoArrowEdgeType::GEOARROW_EDGE_TYPE_KARNEY));
    assert_eq!(GeoArrowEdgeType::GEOARROW_EDGE_TYPE_VINCENTY.value(), 2);
    assert_eq!(GeoArrowEdgeType::from_value(6), None);
}
