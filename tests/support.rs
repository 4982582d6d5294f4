use gltf_codegen::camera::{Camera, CameraData, Kind, OrthographicData, PerspectiveData, Projection};
use gltf_codegen::document::{Document, Index};
use gltf_codegen::mesh::{AccessorData, Primitive, PrimitiveData};
use gltf_codegen::checked::Checked;
use gltf_codegen::semantic::{parse_decimal, Semantic};

fn document() -> Document {
    Document {
        cameras: vec![
            CameraData {
                name: Some("first".to_string()),
                kind: Checked::Valid(Kind::Perspective),
                perspective: Some(PerspectiveData { name: Some("wide".to_string()) }),
                orthographic: None,
            },
            CameraData {
                name: Some("second".to_string()),
                kind: Checked::Valid(Kind::Orthographic),
                perspective: None,
                orthographic: Some(OrthographicData { name: Some("flat".to_string()) }),
            },
        ],
        accessors: vec![
            AccessorData { name: Some("positions".to_string()), count: 24 },
            AccessorData { name: Some("normals".to_string()), count: 24 },
        ],
    }
}

#[test]
fn projection_follows_kind() {
    let doc = document();
    let first = doc.get(&Index { value: 0 });
    match first.projection() {
        Projection::Perspective(p) => assert_eq!(p.json.name.as_deref(), Some("wide")),
        Projection::Orthographic(_) => panic!("wrong projection"),
    }
    let second = Camera::new(&doc, &doc.cameras[1]);
    match second.projection() {
        Projection::Orthographic(o) => assert_eq!(o.json.name.as_deref(), Some("flat")),
        Projection::Perspective(_) => panic!("wrong projection"),
    }
}

#[test]
fn absent_optional_record_is_none() {
    let doc = document();
    let first = doc.get(&Index { value: 0 });
    assert!(first.orthographic().is_none());
    assert!(first.perspective().is_some());
    assert_eq!(first.kind(), Kind::Perspective);
}

#[test]
fn resolve_keeps_order_and_length() {
    let doc = document();
    let indices = vec![Index { value: 1 }, Index { value: 0 }, Index { value: 1 }];
    let cams = doc.resolve(&indices);
    assert_eq!(cams.len(), 3);
    let names: Vec<&str> = cams.iter().map(|c| c.json.name.as_deref().unwrap()).collect();
    assert_eq!(names, vec!["second", "first", "second"]);
    assert_eq!(doc.resolve(&vec![]).len(), 0);
}

#[test]
fn semantic_names() {
    assert_eq!(Semantic::checked("POSITION"), Checked::Valid(Semantic::Positions));
    assert_eq!(Semantic::checked("NORMAL"), Checked::Valid(Semantic::Normals));
    assert_eq!(Semantic::checked("TANGENT"), Checked::Valid(Semantic::Tangents));
    assert_eq!(Semantic::checked("COLOR_0"), Checked::Valid(Semantic::Colors(0)));
    assert_eq!(Semantic::checked("TEXCOORD_12"), Checked::Valid(Semantic::TexCoords(12)));
    assert_eq!(Semantic::checked("JOINTS_3"), Checked::Valid(Semantic::Joints(3)));
    assert_eq!(Semantic::checked("WEIGHTS_+4"), Checked::Valid(Semantic::Weights(4)));
    assert_eq!(Semantic::checked("COLOR_"), Checked::Invalid);
    assert_eq!(Semantic::checked("COLOR_x"), Checked::Invalid);
    assert_eq!(Semantic::checked("TEXCOORD_4294967296"), Checked::Invalid);
    assert_eq!(Semantic::checked("_extra"), Checked::Invalid);
    assert_eq!(Semantic::checked("normal"), Checked::Invalid);
}

#[test]
fn semantic_to_string() {
    assert_eq!(Semantic::Positions.to_string(), "POSITION");
    assert_eq!(Semantic::TexCoords(1).to_string(), "TEXCOORD_1");
    assert_eq!(Semantic::Weights(4294967295).to_string(), "WEIGHTS_4294967295");
    assert_eq!(Checked::Valid(Semantic::Joints(2)).to_string(), "JOINTS_2");
    assert_eq!(Checked::<Semantic>::Invalid.to_string(), "<invalid semantic name>");
    for s in [Semantic::Normals, Semantic::Colors(7), Semantic::Joints(0)] {
        assert_eq!(Semantic::checked(&s.to_string()), Checked::Valid(s));
    }
}

#[test]
fn decimal_parsing() {
    assert_eq!(parse_decimal("0"), Some(0));
    assert_eq!(parse_decimal("007"), Some(7));
    assert_eq!(parse_decimal("+9"), Some(9));
    assert_eq!(parse_decimal("4294967295"), Some(4294967295));
    assert_eq!(parse_decimal("4294967296"), None);
    assert_eq!(parse_decimal(""), None);
    assert_eq!(parse_decimal("+"), None);
    assert_eq!(parse_decimal("-1"), None);
    assert_eq!(parse_decimal("1a"), None);
}

#[test]
fn primitive_attributes_resolve_accessors() {
    let doc = document();
    let data = PrimitiveData {
        attributes: vec![
            (Checked::Valid(Semantic::Normals), Index { value: 1 }),
            (Checked::Valid(Semantic::Positions), Index { value: 0 }),
        ],
    };
    let primitive = Primitive { document: &doc, json: &data };
    let attributes = primitive.attributes();
    assert_eq!(attributes.len(), 2);
    let (semantic, accessor) = attributes.nth(0);
    assert_eq!(semantic, Semantic::Normals);
    assert_eq!(accessor.json.name.as_deref(), Some("normals"));
    let (semantic, accessor) = attributes.nth(1);
    assert_eq!(semantic, Semantic::Positions);
    assert_eq!(accessor.json.count, 24);
}

#[test]
fn primitive_insert_keeps_semantics_unique() {
    let mut data = PrimitiveData::new();
    data.insert(Checked::Valid(Semantic::Positions), Index { value: 0 });
    data.insert(Checked::Valid(Semantic::Normals), Index { value: 1 });
    data.insert(Checked::Valid(Semantic::Positions), Index { value: 1 });
    assert_eq!(data.attributes.len(), 2);
    assert_eq!(data.attributes[0], (Checked::Valid(Semantic::Positions), Index { value: 1 }));
    assert_eq!(data.attributes[1], (Checked::Valid(Semantic::Normals), Index { value: 1 }));
    data.insert(Checked::Invalid, Index { value: 0 });
    assert_eq!(data.attributes.len(), 3);
}
