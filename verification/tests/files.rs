use acuneus::errors::PlyError;
use acuneus::ply::{focal_length, image_size, number_property, parse_ply, property, uint_property, vertex_elements, vertex_positions, PlyValue};

const SPLATS: &str = "ply\nformat ascii 1.0\nelement vertex 2\nproperty float x\nproperty float y\nproperty float z\nproperty uchar n\nend_header\n0 1 2 7\n3 4 5 8\n";

const WITH_META: &str = "ply\nformat ascii 1.0\nelement vertex 1\nproperty float x\nelement image_size 2\nproperty uint image_size\nelement intrinsic 1\nproperty double intrinsic\nend_header\n1\n800\n600\n300.5\n";

#[test]
fn splat_vertices_are_read() {
    let doc = parse_ply(SPLATS.as_bytes()).ok().unwrap();
    let v = vertex_elements(&doc).ok().unwrap();
    let items = &doc.elements[v].items;
    assert_eq!(items.len(), 2);
    assert_eq!(property(&items[1], "x"), Some(PlyValue::Float(3.0f32.to_bits())));
    assert_eq!(uint_property(&items[0], "n"), None);
    assert_eq!(number_property(&items[0], "n").ok(), Some(PlyValue::UChar(7)));
    match number_property(&items[0], "opacity") {
        Err(PlyError::MissingProperty(name)) => assert_eq!(name, "opacity"),
        _ => panic!("expected a missing property"),
    }
    assert_eq!(image_size(&doc), (640, 480));
    assert_eq!(focal_length(&doc), None);
}

#[test]
fn splat_metadata_is_read() {
    let doc = parse_ply(WITH_META.as_bytes()).ok().unwrap();
    assert_eq!(image_size(&doc), (800, 600));
    assert_eq!(focal_length(&doc), Some(PlyValue::Double(300.5f64.to_bits())));
}

#[test]
fn broken_files_are_errors() {
    assert!(matches!(parse_ply(b"not a ply file"), Err(PlyError::Parse(_))));
    let no_vertex = "ply\nformat ascii 1.0\nelement face 0\nproperty uchar n\nend_header\n";
    let doc = parse_ply(no_vertex.as_bytes()).ok().unwrap();
    match vertex_elements(&doc) {
        Err(PlyError::Parse(m)) => assert_eq!(m, "Missing vertex element"),
        _ => panic!("expected a missing vertex element"),
    }
}

#[test]
fn vertex_positions_need_x_y_and_z() {
    let doc = parse_ply(SPLATS.as_bytes()).ok().unwrap();
    let items = &doc.elements[vertex_elements(&doc).ok().unwrap()].items;
    let positions = vertex_positions(items).ok().unwrap();
    let f = |v: f32| PlyValue::Float(v.to_bits());
    assert_eq!(positions, vec![(f(0.0), f(1.0), f(2.0)), (f(3.0), f(4.0), f(5.0))]);
    let no_y = "ply\nformat ascii 1.0\nelement vertex 1\nproperty float x\nproperty float z\nend_header\n0 2\n";
    let doc = parse_ply(no_y.as_bytes()).ok().unwrap();
    let items = &doc.elements[vertex_elements(&doc).ok().unwrap()].items;
    match vertex_positions(items) {
        Err(PlyError::MissingProperty(name)) => assert_eq!(name, "y"),
        _ => panic!("expected a missing y"),
    }
}
