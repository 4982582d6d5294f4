use gltf_codegen::assemble::{generate, write_module};
use gltf_codegen::checked::Checked;
use gltf_codegen::enums::{decode, encode, write_integer_enum, write_string_enum};
use gltf_codegen::load::{load, Key, LoadError};
use gltf_codegen::mapper::{map_type, Directive, Strategy};
use gltf_codegen::schema::{
    Body, DefaultValue, Element, Encoding, FieldSpec, Literal, Scalar, SchemaUnit, TypeTag, VariantSpec,
};
use gltf_codegen::value::Value;

fn s(x: &str) -> Value {
    Value::Str(x.to_string())
}

fn table(entries: Vec<(&str, Value)>) -> Value {
    Value::Table(entries.into_iter().map(|(k, v)| (k.to_string(), v)).collect())
}

fn meta(ident: &str, kind: &str, module: Option<&str>) -> Vec<(&'static str, Value)> {
    let mut m = vec![("ident", s(ident)), ("kind", s(kind)), ("docs", s("Some docs."))];
    if let Some(m2) = module {
        m.push(("module", s(m2)));
    }
    m
}

fn record(fields: Vec<(&str, Value)>) -> Value {
    table(vec![("meta", table(meta("Thing", "Struct", None))), ("fields", table(fields))])
}

fn unit_of(v: &Value) -> SchemaUnit {
    match load(v) {
        Ok(u) => u,
        Err(_) => panic!("load failed"),
    }
}

fn err_of(v: &Value) -> LoadError {
    match load(v) {
        Ok(_) => panic!("load succeeded"),
        Err(e) => e,
    }
}

fn camera_schema() -> Value {
    table(vec![
        ("meta", table(meta("Camera", "Struct", Some("camera")))),
        (
            "fields",
            table(vec![
                ("kind", table(vec![("docs", s("Kind.")), ("ty", s("Enum")), ("of", s("camera::Kind"))])),
                (
                    "perspective",
                    table(vec![
                        ("docs", s("Perspective.")),
                        ("ty", s("Struct")),
                        ("of", s("camera::Perspective")),
                        ("optional", Value::Bool(true)),
                    ]),
                ),
                (
                    "orthographic",
                    table(vec![
                        ("docs", s("Orthographic.")),
                        ("ty", s("Struct")),
                        ("of", s("camera::Orthographic")),
                        ("optional", Value::Bool(true)),
                    ]),
                ),
            ]),
        ),
    ])
}

#[test]
fn camera_record_end_to_end() {
    let unit = unit_of(&camera_schema());
    match &unit.body {
        Body::Record(fs) => {
            assert_eq!(fs.len(), 3);
            assert!(!fs[0].optional && fs[1].optional && fs[2].optional);
        },
        _ => panic!("not a record"),
    }
    let out = generate(&unit, None);
    assert!(out.starts_with("pub mod camera {\n/// Some docs.\n"));
    assert!(out.ends_with("}\n}\n\n"));
    assert!(out.contains("  pub kind: Checked<::camera::Kind>,\n"));
    assert!(out.contains(
        "  #[serde(default, skip_serializing_if = \"Option::is_none\")]\n  pub perspective: Option<::camera::Perspective>,\n"
    ));
    assert!(out.contains("  pub orthographic: Option<::camera::Orthographic>,\n"));
    assert!(out.contains("  pub fn kind(&self) -> ::camera::Kind {\n    self.json.kind.unwrap()\n  }\n"));
    assert!(out.contains(
        "  pub fn perspective(&self) -> Option<::camera::Perspective<'a>> {\n    self.json.perspective.as_ref().map(|json| ::camera::Perspective::new(self.document, json))\n  }\n"
    ));
    assert!(out.contains("  pub fn orthographic(&self) -> Option<::camera::Orthographic<'a>> {\n"));
}

fn alpha_mode(values: Vec<(&str, i64)>) -> Value {
    let mut m = meta("AlphaMode", "Enum", None);
    m.push(("of", s("Integer")));
    let vs = values
        .into_iter()
        .map(|(n, k)| (n, table(vec![("docs", s("A mode.")), ("value", Value::Integer(k))])))
        .collect();
    table(vec![("meta", table(m)), ("values", table(vs))])
}

#[test]
fn integer_enum_uses_declared_values() {
    let unit = unit_of(&alpha_mode(vec![("OPAQUE", 1), ("MASK", 2), ("BLEND", 3)]));
    let out = generate(&unit, None);
    assert!(out.contains("pub enum AlphaMode {\n  /// A mode.\n  OPAQUE = 1,\n  /// A mode.\n  MASK = 2,\n  /// A mode.\n  BLEND = 3,\n}\n"));
    assert!(out.contains("  pub fn as_gl_enum(&self) -> u32 {\n"));
    assert!(out.contains("      AlphaMode::OPAQUE => 1,\n      AlphaMode::MASK => 2,\n      AlphaMode::BLEND => 3,\n"));
    assert!(out.contains("            2 => Checked::Valid(AlphaMode::MASK),\n"));
    assert!(out.contains("deserializer.deserialize_u64(Visitor)"));
}

#[test]
fn integer_enum_discriminants_are_not_positions() {
    let unit = unit_of(&alpha_mode(vec![("A", 9729), ("B", 5)]));
    let out = generate(&unit, None);
    assert!(out.contains("  A = 9729,\n"));
    assert!(out.contains("  B = 5,\n"));
}

fn variants_str(names: &[(&str, &str)]) -> Vec<VariantSpec> {
    names
        .iter()
        .map(|(n, l)| VariantSpec {
            name: n.to_string(),
            docs: "D.".to_string(),
            literal: Literal::Str(l.to_string()),
        })
        .collect()
}

#[test]
fn string_enum_uses_positions() {
    let vs = variants_str(&[("Perspective", "perspective"), ("Orthographic", "orthographic")]);
    let mut out = String::new();
    write_string_enum(&mut out, &"Kind".to_string(), &"Kind docs.".to_string(), &vs);
    assert!(out.starts_with("/// Kind docs.\n#[derive(Clone, Copy, Debug, Eq, Hash, PartialEq)]\npub enum Kind {\n"));
    assert!(out.contains("  Perspective = 1,\n"));
    assert!(out.contains("  Orthographic = 2,\n"));
    assert!(out.contains("            \"orthographic\" => Checked::Valid(Kind::Orthographic),\n            _ => Checked::Invalid,\n"));
    assert!(out.contains("      Kind::Perspective => \"perspective\",\n"));
    assert!(out.ends_with("    serializer.serialize_str(self.as_str())\n  }\n}"));
}

#[test]
fn integer_enum_writer() {
    let vs = vec![VariantSpec { name: "X".to_string(), docs: "D.".to_string(), literal: Literal::Int(7) }];
    let mut out = String::new();
    write_integer_enum(&mut out, &"E".to_string(), &"E docs.".to_string(), &vs);
    assert!(out.contains("  X = 7,\n"));
    assert!(out.contains("            7 => Checked::Valid(E::X),\n"));
}

#[test]
fn decode_of_encode_gives_the_variant() {
    let vs = variants_str(&[("A", "a"), ("B", "b"), ("C", "c")]);
    for i in 0..vs.len() {
        assert_eq!(decode(&vs, encode(&vs, i)), Checked::Valid(i));
    }
}

#[test]
fn undeclared_literal_decodes_to_invalid() {
    let vs = variants_str(&[("A", "a"), ("B", "b")]);
    assert_eq!(decode(&vs, &Literal::Str("z".to_string())), Checked::Invalid);
    assert_eq!(decode(&vs, &Literal::Int(1)), Checked::Invalid);
}

#[test]
fn optional_with_default_is_refused() {
    let v = record(vec![(
        "count",
        table(vec![
            ("docs", s("C.")),
            ("ty", s("Integer")),
            ("optional", Value::Bool(true)),
            ("default", Value::Integer(3)),
        ]),
    )]);
    match err_of(&v) {
        LoadError::ConflictingOptionalDefault(n) => assert_eq!(n, "count"),
        _ => panic!("wrong error"),
    }
}

#[test]
fn missing_and_wrong_shape_errors() {
    let v = table(vec![("fields", table(vec![]))]);
    assert!(matches!(err_of(&v), LoadError::MissingField(Key::Meta)));
    let v = table(vec![("meta", s("x"))]);
    assert!(matches!(err_of(&v), LoadError::WrongShape(Key::Meta)));
    let v = table(vec![("meta", table(vec![("ident", s("T")), ("kind", s("Struct"))]))]);
    assert!(matches!(err_of(&v), LoadError::MissingField(Key::Docs)));
    let v = table(vec![("meta", table(meta("T", "Struct", None)))]);
    assert!(matches!(err_of(&v), LoadError::MissingField(Key::Fields)));
    let v = record(vec![("x", table(vec![("docs", s("X.")), ("ty", s("Bool")), ("hidden", s("yes"))]))]);
    assert!(matches!(err_of(&v), LoadError::WrongShape(Key::Hidden)));
    let v = table(vec![("meta", table(meta("T", "Union", None)))]);
    assert!(matches!(err_of(&v), LoadError::WrongShape(Key::Kind)));
}

#[test]
fn unknown_type_tag_is_refused() {
    let v = record(vec![("x", table(vec![("docs", s("X.")), ("ty", s("Complex"))]))]);
    match err_of(&v) {
        LoadError::UnknownTypeTag(t) => assert_eq!(t, "Complex"),
        _ => panic!("wrong error"),
    }
    let v = record(vec![(
        "x",
        table(vec![("docs", s("X.")), ("ty", s("FixedSizeArray")), ("of", table(vec![("ty", s("Bool")), ("n", Value::Integer(3))]))]),
    )]);
    assert!(matches!(err_of(&v), LoadError::UnknownTypeTag(_)));
}

#[test]
fn unknown_encoding_is_refused() {
    let mut m = meta("E", "Enum", None);
    m.push(("of", s("Float")));
    let v = table(vec![("meta", table(m)), ("values", table(vec![]))]);
    match err_of(&v) {
        LoadError::UnknownEncoding(t) => assert_eq!(t, "Float"),
        _ => panic!("wrong error"),
    }
}

#[test]
fn duplicate_literal_is_refused() {
    let v = alpha_mode(vec![("A", 1), ("B", 2), ("C", 1)]);
    match err_of(&v) {
        LoadError::DuplicateLiteral(n) => assert_eq!(n, "C"),
        _ => panic!("wrong error"),
    }
}

#[test]
fn field_order_is_kept() {
    let v = record(vec![
        ("zeta", table(vec![("docs", s("Z.")), ("ty", s("Bool"))])),
        ("alpha", table(vec![("docs", s("A.")), ("ty", s("String"))])),
    ]);
    let out = generate(&unit_of(&v), None);
    let z = out.find("pub zeta: bool").unwrap();
    let a = out.find("pub alpha: String").unwrap();
    assert!(z < a);
}

#[test]
fn integer_default_helpers() {
    let v = record(vec![("count", table(vec![("docs", s("C.")), ("ty", s("Integer")), ("default", Value::Integer(5))]))]);
    let out = generate(&unit_of(&v), None);
    assert!(out.contains("  #[serde(default = \"count_default\")]\n  #[serde(skip_serializing_if = \"count_is_default\")]\n  pub count: u32,\n"));
    assert!(out.contains("fn count_default() -> u32 { 5 }\nfn count_is_default(x: &u32) -> bool { *x == 5 }\n"));
}

#[test]
fn float_and_bool_default_helpers() {
    let v = record(vec![
        ("scale", table(vec![("docs", s("S.")), ("ty", s("Float")), ("default", Value::Float("1.0".to_string()))])),
        ("flag", table(vec![("docs", s("F.")), ("ty", s("Bool")), ("default", Value::Bool(false))])),
    ]);
    let out = generate(&unit_of(&v), None);
    assert!(out.contains("fn scale_default() -> f32 { 1.0 }\nfn scale_is_default(x: &f32) -> bool { approx_eq!(f32, *x, 1.0) }\n"));
    assert!(out.contains("fn flag_default() -> bool { false }\nfn flag_is_default(x: &bool) -> bool { *x == false }\n"));
}

#[test]
fn default_of_wrong_shape_is_refused() {
    let v = record(vec![("count", table(vec![("docs", s("C.")), ("ty", s("Integer")), ("default", s("five"))]))]);
    assert!(matches!(err_of(&v), LoadError::WrongShape(Key::Default)));
}

#[test]
fn hidden_and_special_fields_have_no_accessor() {
    let v = record(vec![
        ("secret", table(vec![("docs", s("S.")), ("ty", s("String")), ("hidden", Value::Bool(true))])),
        ("raw", table(vec![("docs", s("R.")), ("ty", s("Special")), ("of", s("Vec<u8>"))])),
        ("label", table(vec![("docs", s("L.")), ("ty", s("String")), ("optional", Value::Bool(true))])),
    ]);
    let out = generate(&unit_of(&v), None);
    assert!(out.contains("  pub secret: String,\n"));
    assert!(out.contains("  pub raw: Vec<u8>,\n"));
    assert!(!out.contains("pub fn secret("));
    assert!(!out.contains("pub fn raw("));
    assert!(out.contains("  pub fn label(&self) -> Option<&'a str> {\n    self.json.label.as_deref()\n  }\n"));
}

#[test]
fn array_of_indices_gets_a_sequence_type() {
    let v = record(vec![(
        "tex_coords",
        table(vec![("docs", s("T.")), ("ty", s("Array")), ("of", table(vec![("ty", s("Index")), ("of", s("Accessor"))]))]),
    )]);
    let out = generate(&unit_of(&v), None);
    assert!(out.contains("  #[serde(default, skip_serializing_if = \"Vec::is_empty\")]\n  pub tex_coords: Vec<Index<::Accessor>>,\n"));
    assert!(out.contains("pub struct TexCoords<'a> {\n  pub(crate) iter: ::std::slice::Iter<'a, Index<::Accessor>>,\n"));
    assert!(out.contains("    self.iter.next().map(|index| self.document.get(index))\n"));
    assert!(out.contains("  pub fn tex_coords(&self) -> TexCoords<'a> {\n    TexCoords { document: self.document, iter: self.json.tex_coords.iter() }\n"));
}

#[test]
fn array_of_records_and_scalars() {
    let v = record(vec![
        ("children", table(vec![("docs", s("C.")), ("ty", s("Array")), ("of", s("Node"))])),
        ("weights", table(vec![("docs", s("W.")), ("ty", s("Array")), ("of", s("Float"))])),
    ]);
    let out = generate(&unit_of(&v), None);
    assert!(out.contains("  pub children: Vec<::Node>,\n"));
    assert!(out.contains("  pub(crate) iter: ::std::iter::Enumerate<::std::slice::Iter<'a, ::Node>>,\n"));
    assert!(out.contains("pub type Weights<'a> = ::std::slice::Iter<'a, f32>;\n"));
    assert!(out.contains("  pub fn weights(&self) -> Weights<'a> {\n    self.json.weights.iter()\n"));
}

#[test]
fn fixed_array_and_any_fields() {
    let v = record(vec![
        ("matrix", table(vec![("docs", s("M.")), ("ty", s("FixedSizeArray")), ("of", table(vec![("ty", s("Float")), ("n", Value::Integer(16))]))])),
        ("payload", table(vec![("docs", s("P.")), ("ty", s("Any"))])),
    ]);
    let out = generate(&unit_of(&v), None);
    assert!(out.contains("  pub matrix: [f32; 16],\n"));
    assert!(out.contains("  pub fn matrix(&self) -> [f32; 16] {\n    self.json.matrix\n"));
    assert!(out.contains("  /// P.\n  pub payload: Option<::std::boxed::Box<::serde_json::value::RawValue>>,\n"));
    assert!(out.contains("  pub fn payload(&self) -> Option<&'a ::serde_json::value::RawValue> {\n"));
}

#[test]
fn type_mapper_rules() {
    let f = FieldSpec {
        name: "node".to_string(),
        docs: "N.".to_string(),
        tag: TypeTag::Index("Node".to_string()),
        optional: true,
        default: None,
        hidden: false,
    };
    let r = map_type(&f);
    assert_eq!(r.storage, "Option<Index<::Node>>");
    assert_eq!(r.accessor, "Option<::Node<'a>>");
    assert_eq!(r.directive, Directive::OmitIfAbsent);
    assert_eq!(r.strategy, Strategy::Resolve);
    let g = FieldSpec {
        name: "items".to_string(),
        docs: "I.".to_string(),
        tag: TypeTag::Array(Element::Integer),
        optional: true,
        default: None,
        hidden: false,
    };
    let r = map_type(&g);
    assert_eq!(r.storage, "Vec<u32>");
    assert_eq!(r.accessor, "Items<'a>");
    assert_eq!(r.directive, Directive::OmitIfEmpty);
    assert_eq!(r.strategy, Strategy::Iterate);
    let h = FieldSpec {
        name: "size".to_string(),
        docs: "S.".to_string(),
        tag: TypeTag::FixedArray(Scalar::Integer, 3),
        optional: false,
        default: Some(DefaultValue::Integer(0)),
        hidden: false,
    };
    let r = map_type(&h);
    assert_eq!(r.storage, "[u32; 3]");
    assert_eq!(r.directive, Directive::OmitIfDefault);
    assert_eq!(r.strategy, Strategy::Copy);
}

#[test]
fn module_nesting() {
    let blocks = vec!["A".to_string(), "B".to_string()];
    let mut out = String::new();
    write_module(&mut out, Some("foo::bar"), &blocks);
    assert_eq!(out, "pub mod foo {\npub mod bar {\nA\nB\n}\n}\n");
    let mut out = String::new();
    write_module(&mut out, None, &blocks);
    assert_eq!(out, "A\nB\n");
}

#[test]
fn preamble_comes_first() {
    let v = alpha_mode(vec![("X", 1)]);
    let out = generate(&unit_of(&v), Some("// support".to_string()));
    assert!(out.starts_with("// support\n/// Some docs.\n"));
}

#[test]
fn string_enum_loaded() {
    let mut m = meta("Kind", "Enum", Some("camera"));
    m.push(("of", s("String")));
    let vs = vec![
        ("Perspective", table(vec![("docs", s("P.")), ("value", s("perspective"))])),
        ("Orthographic", table(vec![("docs", s("O.")), ("value", s("orthographic"))])),
    ];
    let unit = unit_of(&table(vec![("meta", table(m)), ("values", table(vs))]));
    match &unit.body {
        Body::Enumeration(Encoding::Str, vs) => assert_eq!(vs.len(), 2),
        _ => panic!("not a string enumeration"),
    }
    let bad = {
        let mut m = meta("Kind", "Enum", None);
        m.push(("of", s("String")));
        table(vec![("meta", table(m)), ("values", table(vec![("A", table(vec![("docs", s("A.")), ("value", Value::Integer(1))]))]))])
    };
    assert!(matches!(err_of(&bad), LoadError::WrongShape(Key::Value)));
}

#[test]
fn feature_gated_boilerplate() {
    let v = record(vec![("flag", table(vec![("docs", s("F.")), ("ty", s("Bool"))]))]);
    let out = generate(&unit_of(&v), None);
    assert!(out.contains("  /// Optional user-defined name for this object.\n  #[cfg(feature = \"names\")]\n  #[cfg_attr(feature = \"names\", serde(default, skip_serializing_if = \"Option::is_none\"))]\n  pub name: Option<String>,\n"));
    assert!(out.contains("  #[cfg(feature = \"extras\")]\n  #[cfg_attr(feature = \"extras\", serde(default, skip_serializing_if = \"Option::is_none\"))]\n  pub extras: Option<::std::boxed::Box<::serde_json::value::RawValue>>,\n"));
    assert!(out.contains("  #[cfg(feature = \"names\")]\n  pub fn name(&self) -> Option<&str> {\n    self.json.name.as_ref().map(|name| name.as_str())\n  }\n"));
    assert!(out.contains("  #[cfg(feature = \"extras\")]\n  pub fn extras(&self) -> Option<&::serde_json::value::RawValue> {\n    self.json.extras.as_deref()\n  }\n"));
    assert!(out.contains("  pub fn extensions(&self) -> Option<&::serde_json::value::RawValue> {\n"));
}

#[test]
fn multi_line_docs_are_refused() {
    let v = record(vec![("flag", table(vec![("docs", s("First.\nSecond.")), ("ty", s("Bool"))]))]);
    assert!(matches!(err_of(&v), LoadError::WrongShape(Key::Docs)));
    let v = table(vec![("meta", table(vec![("ident", s("T")), ("kind", s("Struct")), ("docs", s("a\rb"))])), ("fields", table(vec![]))]);
    assert!(matches!(err_of(&v), LoadError::WrongShape(Key::Docs)));
}

#[test]
fn string_literals_are_escaped() {
    let mut m = meta("Quote", "Enum", None);
    m.push(("of", s("String")));
    let vs = vec![("Odd", table(vec![("docs", s("O.")), ("value", s("a\"b\\c"))]))];
    let out = generate(&unit_of(&table(vec![("meta", table(m)), ("values", table(vs))])), None);
    assert!(out.contains("            \"a\\\"b\\\\c\" => Checked::Valid(Quote::Odd),\n"));
    assert!(out.contains("      Quote::Odd => \"a\\\"b\\\\c\",\n"));
}

#[test]
fn optional_any_is_omitted_when_absent() {
    let v = record(vec![("payload", table(vec![("docs", s("P.")), ("ty", s("Any")), ("optional", Value::Bool(true))]))]);
    let out = generate(&unit_of(&v), None);
    assert!(out.contains("  #[serde(default, skip_serializing_if = \"Option::is_none\")]\n  pub payload: Option<::std::boxed::Box<::serde_json::value::RawValue>>,\n"));
}
