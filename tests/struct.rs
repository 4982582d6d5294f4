use gltf_codegen::document::Index;
use gltf_codegen::records::write_struct;
use gltf_codegen::schema::{FieldSpec, TypeTag};

#[derive(Debug)]
struct GeneratedStruct {
    pub buffer: Index,
    pub foo: u32,
}

fn field(name: &str, tag: TypeTag) -> FieldSpec {
    FieldSpec {
        name: name.to_string(),
        docs: "?".to_string(),
        tag,
        optional: false,
        default: None,
        hidden: false,
    }
}

#[test]
fn works() {
    let fields = vec![
        field("buffer", TypeTag::Index("Buffer".to_string())),
        field("foo", TypeTag::Integer),
    ];
    let mut text = String::new();
    write_struct(&mut text, &"InputStruct".to_string(), &"Documentation here.".to_string(), &fields);
    assert!(text.contains("pub struct InputStruct {\n"));
    assert!(text.contains("  pub buffer: Index<::Buffer>,\n"));
    assert!(text.contains("  pub foo: u32,\n"));
    let generated = GeneratedStruct { buffer: Index { value: 123 }, foo: 456 };
    println!("{:#?}", generated);
    assert_eq!(generated.buffer.value, 123);
    assert_eq!(generated.foo, 456);
}
