use std::sync::Arc;

use arrow_schema::ffi::FFI_ArrowSchema;
use arrow_schema::{DataType, Field};
use geoarrow_rs_c::data_type::{CoordType, Dimension, GeoArrowDataType};
use geoarrow_rs_c::error::{decimal_string, SchemaError, EINVAL, GEOARROW_OK};
use geoarrow_rs_c::query::{QueryRequest, SchemaTypeQuery};
use geoarrow_rs_c::schema::{SchemaHeader, SchemaRead, SchemaReply, SchemaWalk, WalkRequest};
use geoarrow_rs_c::types::GeoArrowType;
use geoarrow_schema::GeoArrowType as RsType;
use geoarrow_schema::{BoxType, GeometryType, Metadata, PointType, PolygonType, WkbType};

/// A schema struct and what its pointers lead to; `None` for a null pointer.
#[derive(Clone)]
struct RawNode {
    release: bool,
    format: Option<Vec<u8>>,
    name: Option<Vec<u8>>,
    n_children: i64,
    children: Option<Vec<Option<usize>>>,
    dictionary: Option<usize>,
}

/// A raw schema whose fields default to a valid childless int32.
fn raw_schema(format: &[u8], name: Option<&[u8]>) -> RawNode {
    RawNode {
        release: true,
        format: Some(format.to_vec()),
        name: name.map(|n| n.to_vec()),
        n_children: 0,
        children: None,
        dictionary: None,
    }
}

fn zeroed() -> RawNode {
    RawNode {
        release: false,
        format: None,
        name: None,
        n_children: 0,
        children: None,
        dictionary: None,
    }
}

fn answer(nodes: &[RawNode], read: SchemaRead) -> SchemaReply {
    match read {
        SchemaRead::Header(h) => {
            let n = &nodes[h];
            SchemaReply::Header(SchemaHeader {
                has_release: n.release,
                has_format: n.format.is_some(),
                has_name: n.name.is_some(),
                n_children: n.n_children,
                has_children: n.children.is_some(),
                dictionary: n.dictionary,
            })
        }
        SchemaRead::Format(h) => SchemaReply::Format(nodes[h].format.clone().unwrap()),
        SchemaRead::Name(h) => SchemaReply::Name(nodes[h].name.clone().unwrap()),
        SchemaRead::Child(h, i) => {
            SchemaReply::Child(nodes[h].children.as_ref().unwrap()[i as usize])
        }
    }
}

/// Drive a query over `nodes`: the return code, the type written (0 when
/// none is), the message, and the reads made.
fn run_query(
    nodes: &[RawNode],
    schema: Option<usize>,
    out_present: bool,
    conversion: Result<GeoArrowDataType, SchemaError>,
) -> (i32, i32, String, Vec<SchemaRead>) {
    let mut query = SchemaTypeQuery::new(schema, out_present);
    let mut conversion = Some(conversion);
    let mut reads = Vec::new();
    loop {
        match query.request() {
            QueryRequest::Read(read) => {
                reads.push(read);
                query.advance(answer(nodes, read));
            }
            QueryRequest::Convert(root) => {
                assert_eq!(Some(root), schema);
                query.convert(conversion.take().unwrap())
            }
            QueryRequest::Done(Ok(t)) => return (GEOARROW_OK, t.value(), String::new(), reads),
            QueryRequest::Done(Err(e)) => return (e.code(), 0, e.message(), reads),
        }
    }
}

fn run(nodes: &[RawNode]) -> (i32, i32, String) {
    let (rc, code, message, _) = run_query(
        nodes,
        Some(0),
        true,
        Err(SchemaError::Unsupported("conversion not expected".to_string())),
    );
    (rc, code, message)
}

fn expect_invalid(nodes: &[RawNode]) -> String {
    let (rc, code, message) = run(nodes);
    assert_eq!(rc, EINVAL);
    assert_eq!(code, 0);
    assert!(!message.starts_with("panic:"), "got {message:?}");
    message
}

/// The tree behind an arrow-rs schema, as the reads see it.
fn snapshot(ffi: &FFI_ArrowSchema) -> Vec<RawNode> {
    fn add(ffi: &FFI_ArrowSchema, nodes: &mut Vec<RawNode>) -> usize {
        let index = nodes.len();
        nodes.push(RawNode {
            release: ffi.release.is_some(),
            format: Some(ffi.format().as_bytes().to_vec()),
            name: ffi.name().map(|n| n.as_bytes().to_vec()),
            n_children: ffi.n_children,
            children: None,
            dictionary: None,
        });
        let mut children = Vec::new();
        for child in ffi.children() {
            children.push(Some(add(child, nodes)));
        }
        if ffi.n_children > 0 {
            nodes[index].children = Some(children);
        }
        if let Some(dictionary) = ffi.dictionary() {
            let d = add(dictionary, nodes);
            nodes[index].dictionary = Some(d);
        }
        index
    }
    let mut nodes = Vec::new();
    add(ffi, &mut nodes);
    nodes
}

fn dimension(d: geoarrow_schema::Dimension) -> Dimension {
    match d {
        geoarrow_schema::Dimension::XY => Dimension::XY,
        geoarrow_schema::Dimension::XYZ => Dimension::XYZ,
        geoarrow_schema::Dimension::XYM => Dimension::XYM,
        geoarrow_schema::Dimension::XYZM => Dimension::XYZM,
    }
}

fn coords(c: geoarrow_schema::CoordType) -> CoordType {
    match c {
        geoarrow_schema::CoordType::Separated => CoordType::Separated,
        geoarrow_schema::CoordType::Interleaved => CoordType::Interleaved,
    }
}

fn classify(t: &RsType) -> GeoArrowDataType {
    match t {
        RsType::Point(t) => GeoArrowDataType::Point(dimension(t.dimension()), coords(t.coord_type())),
        RsType::LineString(t) => {
            GeoArrowDataType::LineString(dimension(t.dimension()), coords(t.coord_type()))
        }
        RsType::Polygon(t) => {
            GeoArrowDataType::Polygon(dimension(t.dimension()), coords(t.coord_type()))
        }
        RsType::MultiPoint(t) => {
            GeoArrowDataType::MultiPoint(dimension(t.dimension()), coords(t.coord_type()))
        }
        RsType::MultiLineString(t) => {
            GeoArrowDataType::MultiLineString(dimension(t.dimension()), coords(t.coord_type()))
        }
        RsType::MultiPolygon(t) => {
            GeoArrowDataType::MultiPolygon(dimension(t.dimension()), coords(t.coord_type()))
        }
        RsType::GeometryCollection(t) => {
            GeoArrowDataType::GeometryCollection(dimension(t.dimension()), coords(t.coord_type()))
        }
        RsType::Rect(t) => GeoArrowDataType::Rect(dimension(t.dimension())),
        RsType::Geometry(t) => GeoArrowDataType::Geometry(coords(t.coord_type())),
        RsType::Wkb(_) => GeoArrowDataType::Wkb,
        RsType::LargeWkb(_) => GeoArrowDataType::LargeWkb,
        RsType::WkbView(_) => GeoArrowDataType::WkbView,
        RsType::Wkt(_) => GeoArrowDataType::Wkt,
        RsType::LargeWkt(_) => GeoArrowDataType::LargeWkt,
        RsType::WktView(_) => GeoArrowDataType::WktView,
    }
}

/// What arrow-rs and geoarrow-rs make of an arrow-rs schema.
fn convert(ffi: &FFI_ArrowSchema) -> Result<GeoArrowDataType, SchemaError> {
    let field =
        Field::try_from(ffi).map_err(|e| SchemaError::Unsupported(e.to_string()))?;
    let t = RsType::try_from(&field).map_err(|e| SchemaError::Unsupported(e.to_string()))?;
    Ok(classify(&t))
}

fn run_ffi(ffi: &FFI_ArrowSchema) -> (i32, i32, String) {
    let nodes = snapshot(ffi);
    let (rc, code, message, _) = run_query(&nodes, Some(0), true, convert(ffi));
    (rc, code, message)
}

fn code_of(field: &Field) -> Result<i32, i32> {
    let ffi = FFI_ArrowSchema::try_from(field).unwrap();
    let (rc, code, _) = run_ffi(&ffi);
    match rc {
        GEOARROW_OK => Ok(code),
        _ => Err(rc),
    }
}

fn metadata() -> Arc<Metadata> {
    Arc::new(Metadata::default())
}

#[test]
fn reports_the_code_a_geoarrow_field_describes() {
    let cases: Vec<(RsType, i32)> = vec![
        (RsType::Point(PointType::new(geoarrow_schema::Dimension::XY, metadata())), 1),
        (
            RsType::Polygon(
                PolygonType::new(geoarrow_schema::Dimension::XYZM, metadata())
                    .with_coord_type(geoarrow_schema::CoordType::Interleaved),
            ),
            13003,
        ),
        (RsType::Rect(BoxType::new(geoarrow_schema::Dimension::XY, metadata())), 990),
        (RsType::Geometry(GeometryType::new(metadata())), 991),
        (RsType::Wkb(WkbType::new(metadata())), 100001),
    ];
    for (data_type, expected) in cases {
        let field = data_type.to_field("geometry", true);
        assert_eq!(code_of(&field).unwrap(), expected, "for {expected}");
    }
}

#[test]
fn rejects_a_field_that_is_not_geoarrow() {
    let field = Field::new("plain", DataType::Int32, true);
    let ffi = FFI_ArrowSchema::try_from(&field).unwrap();
    let (rc, _, message) = run_ffi(&ffi);
    assert_eq!(rc, EINVAL);
    assert!(!message.is_empty());
}

#[test]
fn rejects_a_geoarrow_name_on_the_wrong_storage() {
    for extension in ["geoarrow.point", "geoarrow.box"] {
        let field = Field::new("geometry", DataType::Int32, true).with_metadata(
            [("ARROW:extension:name".to_string(), extension.to_string())].into(),
        );
        let ffi = FFI_ArrowSchema::try_from(&field).unwrap();
        let (rc, _, message) = run_ffi(&ffi);
        assert_eq!(rc, EINVAL, "for {extension}");
        assert!(!message.starts_with("panic:"), "got {message:?}");
    }
}

#[test]
fn rejects_null_pointers() {
    let (rc, code, _, reads) = run_query(
        &[],
        None,
        true,
        Err(SchemaError::Unsupported("conversion not expected".to_string())),
    );
    assert_eq!(rc, EINVAL);
    assert_eq!(code, 0, "out_type must stay untouched on failure");
    assert!(reads.is_empty());

    // A valid schema, so only the null out_type guard can return EINVAL.
    let field = PointType::new(geoarrow_schema::Dimension::XY, metadata()).to_field("geometry", true);
    let ffi = FFI_ArrowSchema::try_from(&field).unwrap();
    let nodes = snapshot(&ffi);
    let (rc, _, message, reads) = run_query(&nodes, Some(0), false, convert(&ffi));
    assert_eq!(rc, EINVAL);
    assert_eq!(message, "out_type pointer is null");
    assert!(reads.is_empty());
}

#[test]
fn rejects_malformed_raw_schemas() {
    // release absent, format present: only the release guard fires.
    let mut released = raw_schema(b"i", None);
    released.release = false;
    expect_invalid(&[released]);

    // A zeroed struct, as sent by a caller that forgot to fill it in.
    expect_invalid(&[zeroed()]);

    let invalid_utf8: &'static [u8] = b"\xff";
    expect_invalid(&[raw_schema(invalid_utf8, None)]);
    expect_invalid(&[raw_schema(b"i", Some(invalid_utf8))]);

    // An unknown format string fails inside arrow-rs and maps to EINVAL.
    let banana = FFI_ArrowSchema::try_new("banana", vec![], None)
        .unwrap()
        .with_name("geometry")
        .unwrap();
    let (rc, _, message) = run_ffi(&banana);
    assert_eq!(rc, EINVAL);
    assert!(!message.starts_with("panic:"), "got {message:?}");

    // Struct format with n_children = 1 but a null children array.
    let mut null_children = raw_schema(b"+s", None);
    null_children.n_children = 1;
    expect_invalid(&[null_children]);

    // A null entry inside the children array.
    let mut null_child = raw_schema(b"+s", None);
    null_child.n_children = 1;
    null_child.children = Some(vec![None]);
    expect_invalid(&[null_child]);

    // A released child.
    let mut child = raw_schema(b"i", None);
    child.release = false;
    let mut parent = raw_schema(b"+s", None);
    parent.n_children = 1;
    parent.children = Some(vec![Some(1)]);
    expect_invalid(&[parent, child]);

    // Self-referential: EINVAL via the depth cap, not a hang.
    let mut cyclic = raw_schema(b"+s", None);
    cyclic.n_children = 1;
    cyclic.children = Some(vec![Some(0)]);
    let message = expect_invalid(&[cyclic]);
    assert!(message.contains("deeper"), "got {message:?}");
}

#[test]
fn each_guard_reports_its_own_message() {
    let released = RawNode { release: false, ..raw_schema(b"i", None) };
    assert_eq!(expect_invalid(&[released]), "schema is released or zero-initialized");
    let mut no_format = raw_schema(b"i", None);
    no_format.format = None;
    assert_eq!(expect_invalid(&[no_format]), "schema format is null");
    assert_eq!(expect_invalid(&[raw_schema(b"\xc0\xaf", None)]), "schema format is not valid UTF-8");
    assert_eq!(
        expect_invalid(&[raw_schema(b"i", Some(b"\xed\xa0\x80"))]),
        "schema name is not valid UTF-8"
    );
    let mut negative = raw_schema(b"+s", None);
    negative.n_children = -1;
    assert_eq!(expect_invalid(&[negative]), "schema n_children is negative");
    let mut null_children = raw_schema(b"+s", None);
    null_children.n_children = 2;
    assert_eq!(expect_invalid(&[null_children]), "schema children pointer is null");
    let mut second_null = raw_schema(b"+s", None);
    second_null.n_children = 2;
    second_null.children = Some(vec![Some(1), None]);
    assert_eq!(expect_invalid(&[second_null, raw_schema(b"i", None)]), "schema child 1 is null");
    let (rc, code, message, _) =
        run_query(&[], None, false, Err(SchemaError::Unsupported(String::new())));
    assert_eq!((rc, code, message.as_str()), (EINVAL, 0, "schema pointer is null"));
}

#[test]
fn the_walk_reads_only_what_its_checks_allow() {
    // A released struct: nothing is read beyond it, not even its format.
    let released = RawNode { release: false, ..raw_schema(b"i", Some(b"x")) };
    let (_, _, _, reads) = run_query(&[released], Some(0), true, Ok(GeoArrowDataType::Wkb));
    assert_eq!(reads, vec![SchemaRead::Header(0)]);

    // A bad format: its name is not read.
    let (_, _, _, reads) =
        run_query(&[raw_schema(b"\xff", Some(b"x"))], Some(0), true, Ok(GeoArrowDataType::Wkb));
    assert_eq!(reads, vec![SchemaRead::Header(0), SchemaRead::Format(0)]);

    // Children in order, each child's reads before the next entry, then the
    // dictionary; a node without a name is not asked for one.
    let mut parent = raw_schema(b"+s", Some(b"p"));
    parent.n_children = 2;
    parent.children = Some(vec![Some(1), Some(2)]);
    parent.dictionary = Some(3);
    let nodes = [parent, raw_schema(b"i", None), raw_schema(b"g", Some(b"y")), raw_schema(b"u", None)];
    let (rc, code, _, reads) = run_query(&nodes, Some(0), true, Ok(GeoArrowDataType::Wkb));
    assert_eq!((rc, code), (GEOARROW_OK, 100001));
    assert_eq!(
        reads,
        vec![
            SchemaRead::Header(0),
            SchemaRead::Format(0),
            SchemaRead::Name(0),
            SchemaRead::Child(0, 0),
            SchemaRead::Header(1),
            SchemaRead::Format(1),
            SchemaRead::Child(0, 1),
            SchemaRead::Header(2),
            SchemaRead::Format(2),
            SchemaRead::Name(2),
            SchemaRead::Header(3),
            SchemaRead::Format(3),
        ]
    );
}

#[test]
fn depth_cap_rejects_deep_chains_and_dictionary_cycles() {
    // A chain of 65 nested schemas (depths 0 to 64) passes; 66 does not.
    fn chain(len: usize) -> Vec<RawNode> {
        (0..len)
            .map(|i| {
                let mut n = raw_schema(b"+s", None);
                if i + 1 < len {
                    n.n_children = 1;
                    n.children = Some(vec![Some(i + 1)]);
                }
                n
            })
            .collect()
    }
    let (rc, _, _, reads) = run_query(&chain(65), Some(0), true, Ok(GeoArrowDataType::Wkt));
    assert_eq!(rc, GEOARROW_OK);
    assert_eq!(reads.len(), 65 * 2 + 64);
    let (rc, _, message, _) = run_query(&chain(66), Some(0), true, Ok(GeoArrowDataType::Wkt));
    assert_eq!(rc, EINVAL);
    assert_eq!(message, "schema nests deeper than 64 levels");

    let mut self_dictionary = raw_schema(b"i", None);
    self_dictionary.dictionary = Some(0);
    assert!(expect_invalid(&[self_dictionary]).contains("deeper"));
}

#[test]
fn a_conversion_error_is_reported_and_no_type_written() {
    let (rc, code, message, _) = run_query(
        &[raw_schema(b"i", Some(b"geometry"))],
        Some(0),
        true,
        Err(SchemaError::Unsupported("not a geoarrow field".to_string())),
    );
    assert_eq!((rc, code), (EINVAL, 0));
    assert_eq!(message, "not a geoarrow field");
}

#[test]
fn a_reply_of_another_kind_leaves_the_walk_as_it_is() {
    let mut walk = SchemaWalk::new(5);
    assert!(matches!(walk.request(), WalkRequest::Read(SchemaRead::Header(5))));
    walk.advance(SchemaReply::Child(None));
    assert!(matches!(walk.request(), WalkRequest::Read(SchemaRead::Header(5))));
    walk.advance(SchemaReply::Header(SchemaHeader {
        has_release: true,
        has_format: true,
        has_name: false,
        n_children: 0,
        has_children: false,
        dictionary: None,
    }));
    assert!(matches!(walk.request(), WalkRequest::Read(SchemaRead::Format(5))));
    walk.advance(SchemaReply::Format(b"i".to_vec()));
    assert!(matches!(walk.request(), WalkRequest::Done(Ok(()))));
}

#[test]
fn messages_render_indices_in_decimal() {
    assert_eq!(decimal_string(0), "0");
    assert_eq!(decimal_string(1234567890), "1234567890");
    assert_eq!(SchemaError::ChildNull(42).message(), "schema child 42 is null");
    assert_eq!(SchemaError::TooDeep.code(), EINVAL);
}

#[test]
fn a_cycle_reached_through_a_child_and_a_dictionary_is_rejected() {
    // 0 -> child 1 -> dictionary 2 -> child 1: a cycle below the root.
    let mut root = raw_schema(b"+s", None);
    root.n_children = 1;
    root.children = Some(vec![Some(1)]);
    let mut middle = raw_schema(b"i", None);
    middle.dictionary = Some(2);
    let mut last = raw_schema(b"+s", None);
    last.n_children = 1;
    last.children = Some(vec![Some(1)]);
    let message = expect_invalid(&[root, middle, last]);
    assert_eq!(message, "schema nests deeper than 64 levels");
}
