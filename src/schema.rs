use vstd::prelude::*;

verus! {

/// Element kind of a fixed-size array field.
#[derive(Clone, Copy, Debug, PartialEq, Eq, Structural)]
pub enum Scalar {
    Float,
    Integer,
}

/// Element kind of a growable array field.
pub enum Element {
    Float,
    Integer,
    /// Embedded records of the named entity.
    Struct(String),
    /// Indices of the named entity in the document.
    Index(String),
}

/// The closed vocabulary of field types.
pub enum TypeTag {
    Str,
    Integer,
    Float,
    Bool,
    /// An index of the named entity in the document.
    Index(String),
    /// An embedded record of the named entity.
    Struct(String),
    /// A value of the named enumeration.
    Enum(String),
    Array(Element),
    FixedArray(Scalar, u32),
    /// An opaque payload.
    Any,
    /// A storage-only field whose type is the given source text.
    Special(String),
}

/// The literal default of a field.
pub enum DefaultValue {
    Integer(u32),
    /// A floating-point literal, as source text.
    Float(String),
    Bool(bool),
}

/// One member of a record unit.
pub struct FieldSpec {
    pub name: String,
    pub docs: String,
    pub tag: TypeTag,
    pub optional: bool,
    pub default: Option<DefaultValue>,
    pub hidden: bool,
}

/// The wire literal of an enumeration variant.
pub enum Literal {
    Str(String),
    Int(u32),
}

/// One case of an enumeration unit.
pub struct VariantSpec {
    pub name: String,
    pub docs: String,
    pub literal: Literal,
}

/// How an enumeration is written on the wire.
#[derive(Clone, Copy, Debug, PartialEq, Eq, Structural)]
pub enum Encoding {
    Str,
    Int,
}

/// What a schema unit declares.
pub enum Body {
    Record(Vec<FieldSpec>),
    Enumeration(Encoding, Vec<VariantSpec>),
}

/// One compiled entity.
pub struct SchemaUnit {
    pub name: String,
    /// Module nesting, segments separated by `::`; `None` is the top level.
    pub module: Option<String>,
    pub docs: String,
    pub body: Body,
}

/// Whether two literals are the same wire value.
pub open spec fn same_literal(a: Literal, b: Literal) -> bool {
    match (a, b) {
        (Literal::Str(x), Literal::Str(y)) => x@ == y@,
        (Literal::Int(x), Literal::Int(y)) => x == y,
        _ => false,
    }
}

/// No two variants share a literal.
pub open spec fn literals_unique(vs: Seq<VariantSpec>) -> bool {
    forall|i: int, j: int|
        0 <= i < vs.len() && 0 <= j < vs.len() && i != j ==> !same_literal(
            #[trigger] vs[i].literal,
            #[trigger] vs[j].literal,
        )
}

/// Whether the accessor type exposes the field.
pub open spec fn is_visible(f: FieldSpec) -> bool {
    !f.hidden && !(f.tag is Special)
}

/// Compares two literals.
pub fn literal_eq(a: &Literal, b: &Literal) -> (r: bool)
    ensures
        r == same_literal(*a, *b),
{
    match (a, b) {
        (Literal::Str(x), Literal::Str(y)) => *x == *y,
        (Literal::Int(x), Literal::Int(y)) => *x == *y,
        _ => false,
    }
}

/// Text that fits on one line: it holds no line break.
pub open spec fn single_line(s: Seq<char>) -> bool {
    forall|i: int| 0 <= i < s.len() ==> #[trigger] s[i] != '\n' && s[i] != '\r'
}

/// Whether a default's kind is the one the field's type takes.
pub open spec fn default_fits(tag: TypeTag, d: DefaultValue) -> bool {
    match (tag, d) {
        (TypeTag::Integer, DefaultValue::Integer(_)) => true,
        (TypeTag::Float, DefaultValue::Float(_)) => true,
        (TypeTag::Bool, DefaultValue::Bool(_)) => true,
        _ => false,
    }
}

/// A well-formed field: an optional field has no default, a default fits
/// the field's type, and the docs hold one line.
pub open spec fn field_valid(f: FieldSpec) -> bool {
    &&& !(f.optional && f.default is Some)
    &&& match f.default {
        Some(d) => default_fits(f.tag, d),
        None => true,
    }
    &&& single_line(f.docs@)
}

pub open spec fn fields_valid(fs: Seq<FieldSpec>) -> bool {
    forall|i: int| 0 <= i < fs.len() ==> field_valid(#[trigger] fs[i])
}

/// Whether a literal is of the kind that the encoding writes.
pub open spec fn literal_fits(enc: Encoding, l: Literal) -> bool {
    match (enc, l) {
        (Encoding::Str, Literal::Str(_)) => true,
        (Encoding::Int, Literal::Int(_)) => true,
        _ => false,
    }
}

/// Well-formed variants: unique literals, each of the encoding's kind, and
/// one-line docs.
pub open spec fn variants_valid(enc: Encoding, vs: Seq<VariantSpec>) -> bool {
    &&& literals_unique(vs)
    &&& forall|i: int| 0 <= i < vs.len() ==> literal_fits(enc, #[trigger] vs[i].literal)
    &&& forall|i: int| 0 <= i < vs.len() ==> single_line(#[trigger] vs[i].docs@)
}

/// A well-formed schema unit.
pub open spec fn unit_valid(u: SchemaUnit) -> bool {
    &&& single_line(u.docs@)
    &&& match u.body {
        Body::Record(fs) => fields_valid(fs@),
        Body::Enumeration(enc, vs) => variants_valid(enc, vs@),
    }
}

} // verus!
