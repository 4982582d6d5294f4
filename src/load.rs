use vstd::prelude::*;
use crate::schema::{
    field_valid, fields_valid, literal_eq, literal_fits, literals_unique, same_literal, single_line,
    unit_valid, variants_valid, Body, DefaultValue, Element, Encoding, FieldSpec, Literal, Scalar,
    SchemaUnit, TypeTag, VariantSpec,
};
use crate::enums::{decoded, lemma_decode_encode};
use crate::checked::Checked;
use crate::value::{find, lookup, Value};

verus! {

/// The keys that the input format knows.
#[derive(Clone, Copy, Debug, PartialEq, Eq, Structural)]
pub enum Key {
    Meta,
    Ident,
    Kind,
    Docs,
    Module,
    Fields,
    Values,
    Of,
    Ty,
    N,
    Optional,
    Hidden,
    Default,
    Value,
}

/// Why a schema unit could not be loaded.
pub enum LoadError {
    /// A required key is absent.
    MissingField(Key),
    /// A key holds a value of the wrong kind: a scalar where a table is
    /// expected, a default or literal that does not fit the declared type,
    /// docs that span several lines, or a unit kind other than `Struct`
    /// and `Enum`.
    WrongShape(Key),
    /// A field or element type outside the known vocabulary.
    UnknownTypeTag(String),
    /// An enumeration encoding other than `String` and `Integer`.
    UnknownEncoding(String),
    /// The named field is optional and also declares a default.
    ConflictingOptionalDefault(String),
    /// The named variant repeats the literal of an earlier one.
    DuplicateLiteral(String),
}

pub open spec fn key_name(k: Key) -> Seq<char> {
    match k {
        Key::Meta => "meta"@,
        Key::Ident => "ident"@,
        Key::Kind => "kind"@,
        Key::Docs => "docs"@,
        Key::Module => "module"@,
        Key::Fields => "fields"@,
        Key::Values => "values"@,
        Key::Of => "of"@,
        Key::Ty => "ty"@,
        Key::N => "n"@,
        Key::Optional => "optional"@,
        Key::Hidden => "hidden"@,
        Key::Default => "default"@,
        Key::Value => "value"@,
    }
}

/// The name of a key as it is written in the input.
pub fn key_str(k: Key) -> (r: &'static str)
    ensures
        r@ == key_name(k),
{
    match k {
        Key::Meta => "meta",
        Key::Ident => "ident",
        Key::Kind => "kind",
        Key::Docs => "docs",
        Key::Module => "module",
        Key::Fields => "fields",
        Key::Values => "values",
        Key::Of => "of",
        Key::Ty => "ty",
        Key::N => "n",
        Key::Optional => "optional",
        Key::Hidden => "hidden",
        Key::Default => "default",
        Key::Value => "value",
    }
}

/// A required string entry.
pub open spec fn req_str(t: Seq<(String, Value)>, k: Key) -> Result<String, LoadError> {
    match lookup(t, key_name(k)) {
        None => Err(LoadError::MissingField(k)),
        Some(Value::Str(s)) => Ok(s),
        Some(_) => Err(LoadError::WrongShape(k)),
    }
}

/// The `docs` entry: required, and on one line.
pub open spec fn req_docs(t: Seq<(String, Value)>) -> Result<String, LoadError> {
    match req_str(t, Key::Docs) {
        Ok(s) => if single_line(s@) {
            Ok(s)
        } else {
            Err(LoadError::WrongShape(Key::Docs))
        },
        Err(e) => Err(e),
    }
}

/// An optional string entry.
pub open spec fn opt_str(t: Seq<(String, Value)>, k: Key) -> Result<Option<String>, LoadError> {
    match lookup(t, key_name(k)) {
        None => Ok(None),
        Some(Value::Str(s)) => Ok(Some(s)),
        Some(_) => Err(LoadError::WrongShape(k)),
    }
}

/// A boolean entry that is false when absent.
pub open spec fn flag(t: Seq<(String, Value)>, k: Key) -> Result<bool, LoadError> {
    match lookup(t, key_name(k)) {
        None => Ok(false),
        Some(Value::Bool(b)) => Ok(b),
        Some(_) => Err(LoadError::WrongShape(k)),
    }
}

/// A required table entry.
pub open spec fn req_table(t: Seq<(String, Value)>, k: Key) -> Result<Seq<(String, Value)>, LoadError> {
    match lookup(t, key_name(k)) {
        None => Err(LoadError::MissingField(k)),
        Some(Value::Table(x)) => Ok(x@),
        Some(_) => Err(LoadError::WrongShape(k)),
    }
}

pub open spec fn fits_u32(k: i64) -> bool {
    0 <= k <= u32::MAX
}

/// The element type of a fixed-size array, from its `of` table.
pub open spec fn fixed_array_of(o: Seq<(String, Value)>) -> Result<TypeTag, LoadError> {
    match req_str(o, Key::Ty) {
        Err(e) => Err(e),
        Ok(et) => {
            let s = if et@ == "Float"@ {
                Some(Scalar::Float)
            } else if et@ == "Integer"@ {
                Some(Scalar::Integer)
            } else {
                None
            };
            match s {
                None => Err(LoadError::UnknownTypeTag(et)),
                Some(s) => match lookup(o, key_name(Key::N)) {
                    None => Err(LoadError::MissingField(Key::N)),
                    Some(Value::Integer(n)) => if fits_u32(n) {
                        Ok(TypeTag::FixedArray(s, n as u32))
                    } else {
                        Err(LoadError::WrongShape(Key::N))
                    },
                    Some(_) => Err(LoadError::WrongShape(Key::N)),
                },
            }
        },
    }
}

/// The element type of a growable array, from its `of` entry: a scalar or
/// record name, or a table naming the indexed entity.
pub open spec fn array_of(t: Seq<(String, Value)>) -> Result<TypeTag, LoadError> {
    match lookup(t, key_name(Key::Of)) {
        None => Err(LoadError::MissingField(Key::Of)),
        Some(Value::Str(s)) => Ok(
            TypeTag::Array(
                if s@ == "Float"@ {
                    Element::Float
                } else if s@ == "Integer"@ {
                    Element::Integer
                } else {
                    Element::Struct(s)
                },
            ),
        ),
        Some(Value::Table(o)) => match req_str(o@, Key::Ty) {
            Err(e) => Err(e),
            Ok(et) => if et@ == "Index"@ {
                match req_str(o@, Key::Of) {
                    Err(e) => Err(e),
                    Ok(of) => Ok(TypeTag::Array(Element::Index(of))),
                }
            } else {
                Err(LoadError::UnknownTypeTag(et))
            },
        },
        Some(_) => Err(LoadError::WrongShape(Key::Of)),
    }
}

/// A type that names another entity in its `of` entry.
pub open spec fn named_tag(t: Seq<(String, Value)>, ty: Seq<char>) -> Result<TypeTag, LoadError> {
    match req_str(t, Key::Of) {
        Err(e) => Err(e),
        Ok(of) => Ok(
            if ty == "Index"@ {
                TypeTag::Index(of)
            } else if ty == "Struct"@ {
                TypeTag::Struct(of)
            } else if ty == "Enum"@ {
                TypeTag::Enum(of)
            } else {
                TypeTag::Special(of)
            },
        ),
    }
}

/// The type of a field, from its `ty` entry and, where the type needs one,
/// its `of` entry.
pub open spec fn tag_of(t: Seq<(String, Value)>) -> Result<TypeTag, LoadError> {
    match req_str(t, Key::Ty) {
        Err(e) => Err(e),
        Ok(ty) => {
            let y = ty@;
            if y == "String"@ {
                Ok(TypeTag::Str)
            } else if y == "Integer"@ {
                Ok(TypeTag::Integer)
            } else if y == "Float"@ {
                Ok(TypeTag::Float)
            } else if y == "Bool"@ {
                Ok(TypeTag::Bool)
            } else if y == "Any"@ {
                Ok(TypeTag::Any)
            } else if y == "Index"@ || y == "Struct"@ || y == "Enum"@ || y == "Special"@ {
                named_tag(t, y)
            } else if y == "FixedSizeArray"@ {
                match req_table(t, Key::Of) {
                    Err(e) => Err(e),
                    Ok(o) => fixed_array_of(o),
                }
            } else if y == "Array"@ {
                array_of(t)
            } else {
                Err(LoadError::UnknownTypeTag(ty))
            }
        },
    }
}

/// The default of a field of type `tag`, from its `default` entry.
pub open spec fn default_of(tag: TypeTag, d: Value) -> Result<DefaultValue, LoadError> {
    match (tag, d) {
        (TypeTag::Integer, Value::Integer(k)) => if fits_u32(k) {
            Ok(DefaultValue::Integer(k as u32))
        } else {
            Err(LoadError::WrongShape(Key::Default))
        },
        (TypeTag::Float, Value::Float(t)) => Ok(DefaultValue::Float(t)),
        (TypeTag::Bool, Value::Bool(b)) => Ok(DefaultValue::Bool(b)),
        _ => Err(LoadError::WrongShape(Key::Default)),
    }
}

/// The field that the entry `name = v` of the `fields` table declares.
pub open spec fn field_of(name: String, v: Value) -> Result<FieldSpec, LoadError> {
    match v {
        Value::Table(x) => {
            let t = x@;
            match (req_docs(t), tag_of(t), flag(t, Key::Optional), flag(t, Key::Hidden)) {
                (Err(e), _, _, _) => Err(e),
                (Ok(_), Err(e), _, _) => Err(e),
                (Ok(_), Ok(_), Err(e), _) => Err(e),
                (Ok(_), Ok(_), Ok(_), Err(e)) => Err(e),
                (Ok(docs), Ok(tag), Ok(optional), Ok(hidden)) => match lookup(t, key_name(Key::Default)) {
                    None => Ok(FieldSpec { name, docs, tag, optional, default: None, hidden }),
                    Some(d) => if optional {
                        Err(LoadError::ConflictingOptionalDefault(name))
                    } else {
                        match default_of(tag, d) {
                            Err(e) => Err(e),
                            Ok(dv) => Ok(FieldSpec { name, docs, tag, optional, default: Some(dv), hidden }),
                        }
                    },
                },
            }
        },
        _ => Err(LoadError::WrongShape(Key::Fields)),
    }
}

/// The literal of a variant, from its `value` entry.
pub open spec fn literal_of(enc: Encoding, t: Seq<(String, Value)>) -> Result<Literal, LoadError> {
    match lookup(t, key_name(Key::Value)) {
        None => Err(LoadError::MissingField(Key::Value)),
        Some(Value::Str(s)) => if enc == Encoding::Str {
            Ok(Literal::Str(s))
        } else {
            Err(LoadError::WrongShape(Key::Value))
        },
        Some(Value::Integer(k)) => if enc == Encoding::Int && fits_u32(k) {
            Ok(Literal::Int(k as u32))
        } else {
            Err(LoadError::WrongShape(Key::Value))
        },
        Some(_) => Err(LoadError::WrongShape(Key::Value)),
    }
}

/// The variant that the entry `name = v` of the `values` table declares.
pub open spec fn variant_of(enc: Encoding, name: String, v: Value) -> Result<VariantSpec, LoadError> {
    match v {
        Value::Table(x) => match (req_docs(x@), literal_of(enc, x@)) {
            (Err(e), _) => Err(e),
            (Ok(_), Err(e)) => Err(e),
            (Ok(docs), Ok(literal)) => Ok(VariantSpec { name, docs, literal }),
        },
        _ => Err(LoadError::WrongShape(Key::Values)),
    }
}

pub open spec fn ok_part<T>(r: Result<T, LoadError>) -> T {
    match r {
        Ok(x) => x,
        Err(_) => arbitrary(),
    }
}

/// The first error among the entries of a `fields` table.
pub open spec fn fields_error(es: Seq<(String, Value)>) -> Option<LoadError>
    decreases es.len(),
{
    if es.len() == 0 {
        None
    } else {
        match field_of(es[0].0, es[0].1) {
            Err(e) => Some(e),
            Ok(_) => fields_error(es.drop_first()),
        }
    }
}

pub open spec fn parsed_fields(es: Seq<(String, Value)>) -> Seq<FieldSpec> {
    Seq::new(es.len(), |i: int| ok_part(field_of(es[i].0, es[i].1)))
}

/// The first error among the entries of a `values` table.
pub open spec fn variants_error(enc: Encoding, es: Seq<(String, Value)>) -> Option<LoadError>
    decreases es.len(),
{
    if es.len() == 0 {
        None
    } else {
        match variant_of(enc, es[0].0, es[0].1) {
            Err(e) => Some(e),
            Ok(_) => variants_error(enc, es.drop_first()),
        }
    }
}

pub open spec fn parsed_variants(enc: Encoding, es: Seq<(String, Value)>) -> Seq<VariantSpec> {
    Seq::new(es.len(), |i: int| ok_part(variant_of(enc, es[i].0, es[i].1)))
}

/// Whether the variant at `k` repeats the literal of an earlier one.
pub open spec fn repeats(vs: Seq<VariantSpec>, k: int) -> bool {
    exists|j: int| 0 <= j < k && same_literal(#[trigger] vs[j].literal, vs[k].literal)
}

/// The first variant, from `k` on, that repeats an earlier literal.
pub open spec fn first_repeat(vs: Seq<VariantSpec>, k: int) -> Option<int>
    decreases vs.len() - k,
{
    if k < 0 || k >= vs.len() {
        None
    } else if repeats(vs, k) {
        Some(k)
    } else {
        first_repeat(vs, k + 1)
    }
}

/// What loading the `values` table of an enumeration gives.
pub open spec fn variants_result(enc: Encoding, es: Seq<(String, Value)>, r: Result<Vec<VariantSpec>, LoadError>) -> bool {
    match variants_error(enc, es) {
        Some(e) => r == Err::<Vec<VariantSpec>, LoadError>(e),
        None => {
            let ps = parsed_variants(enc, es);
            match first_repeat(ps, 0) {
                Some(k) => r == Err::<Vec<VariantSpec>, LoadError>(LoadError::DuplicateLiteral(ps[k].name)),
                None => r matches Ok(out) && out@ == ps,
            }
        },
    }
}

/// What loading the `fields` table of a record gives.
pub open spec fn fields_result(es: Seq<(String, Value)>, r: Result<Vec<FieldSpec>, LoadError>) -> bool {
    match fields_error(es) {
        Some(e) => r == Err::<Vec<FieldSpec>, LoadError>(e),
        None => r matches Ok(out) && out@ == parsed_fields(es),
    }
}

pub open spec fn encoding_of(s: Seq<char>) -> Option<Encoding> {
    if s == "String"@ {
        Some(Encoding::Str)
    } else if s == "Integer"@ {
        Some(Encoding::Int)
    } else {
        None
    }
}

/// What loading a whole input document gives.
pub open spec fn load_result(v: Value, r: Result<SchemaUnit, LoadError>) -> bool {
    match v {
        Value::Table(top) => match req_table(top@, Key::Meta) {
            Err(e) => r == Err::<SchemaUnit, LoadError>(e),
            Ok(meta) => match (req_str(meta, Key::Ident), req_docs(meta), req_str(meta, Key::Kind), opt_str(meta, Key::Module)) {
                (Err(e), _, _, _) => r == Err::<SchemaUnit, LoadError>(e),
                (Ok(_), Err(e), _, _) => r == Err::<SchemaUnit, LoadError>(e),
                (Ok(_), Ok(_), Err(e), _) => r == Err::<SchemaUnit, LoadError>(e),
                (Ok(_), Ok(_), Ok(_), Err(e)) => r == Err::<SchemaUnit, LoadError>(e),
                (Ok(name), Ok(docs), Ok(kind), Ok(module)) => {
                    let head = |u: SchemaUnit| u.name == name && u.docs == docs && u.module == module;
                    if kind@ == "Struct"@ {
                        match req_table(top@, Key::Fields) {
                            Err(e) => r == Err::<SchemaUnit, LoadError>(e),
                            Ok(es) => match r {
                                Ok(u) => head(u) && match u.body {
                                    Body::Record(fs) => fields_result(es, Ok(fs)),
                                    _ => false,
                                },
                                Err(e) => fields_result(es, Err(e)),
                            },
                        }
                    } else if kind@ == "Enum"@ {
                        match req_str(meta, Key::Of) {
                            Err(e) => r == Err::<SchemaUnit, LoadError>(e),
                            Ok(of) => match encoding_of(of@) {
                                None => r == Err::<SchemaUnit, LoadError>(LoadError::UnknownEncoding(of)),
                                Some(enc) => match req_table(top@, Key::Values) {
                                    Err(e) => r == Err::<SchemaUnit, LoadError>(e),
                                    Ok(es) => match r {
                                        Ok(u) => head(u) && match u.body {
                                            Body::Enumeration(e2, vs) => e2 == enc && variants_result(enc, es, Ok(vs)),
                                            _ => false,
                                        },
                                        Err(e) => variants_result(enc, es, Err(e)),
                                    },
                                },
                            },
                        }
                    } else {
                        r == Err::<SchemaUnit, LoadError>(LoadError::WrongShape(Key::Kind))
                    }
                },
            },
        },
        _ => r == Err::<SchemaUnit, LoadError>(LoadError::WrongShape(Key::Meta)),
    }
}

fn text_is(s: &String, lit: &str) -> (r: bool)
    ensures
        r == (s@ == lit@),
{
    let l = String::from_str(lit);
    *s == l
}

fn get_str<'a>(t: &'a Vec<(String, Value)>, k: Key) -> (r: Result<&'a String, LoadError>)
    ensures
        match r {
            Ok(s) => req_str(t@, k) == Ok::<String, LoadError>(*s),
            Err(e) => req_str(t@, k) == Err::<String, LoadError>(e),
        },
{
    match find(t, key_str(k)) {
        None => Err(LoadError::MissingField(k)),
        Some(Value::Str(s)) => Ok(s),
        Some(_) => Err(LoadError::WrongShape(k)),
    }
}

fn is_single_line(s: &String) -> (r: bool)
    ensures
        r == single_line(s@),
{
    let t = s.as_str();
    let n = t.unicode_len();
    let mut i: usize = 0;
    while i < n
        invariant
            n == s@.len(),
            t@ == s@,
            i <= n,
            forall|k: int| 0 <= k < i ==> #[trigger] s@[k] != '\n' && s@[k] != '\r',
        decreases n - i,
    {
        let c = t.get_char(i);
        if c == '\n' || c == '\r' {
            return false;
        }
        i = i + 1;
    }
    true
}

fn get_docs<'a>(t: &'a Vec<(String, Value)>) -> (r: Result<&'a String, LoadError>)
    ensures
        match r {
            Ok(s) => req_docs(t@) == Ok::<String, LoadError>(*s),
            Err(e) => req_docs(t@) == Err::<String, LoadError>(e),
        },
{
    match get_str(t, Key::Docs) {
        Ok(s) => if is_single_line(s) {
            Ok(s)
        } else {
            Err(LoadError::WrongShape(Key::Docs))
        },
        Err(e) => Err(e),
    }
}

fn get_opt_str<'a>(t: &'a Vec<(String, Value)>, k: Key) -> (r: Result<Option<&'a String>, LoadError>)
    ensures
        match r {
            Ok(Some(s)) => opt_str(t@, k) == Ok::<Option<String>, LoadError>(Some(*s)),
            Ok(None) => opt_str(t@, k) == Ok::<Option<String>, LoadError>(None),
            Err(e) => opt_str(t@, k) == Err::<Option<String>, LoadError>(e),
        },
{
    match find(t, key_str(k)) {
        None => Ok(None),
        Some(Value::Str(s)) => Ok(Some(s)),
        Some(_) => Err(LoadError::WrongShape(k)),
    }
}

fn get_flag(t: &Vec<(String, Value)>, k: Key) -> (r: Result<bool, LoadError>)
    ensures
        r == flag(t@, k),
{
    match find(t, key_str(k)) {
        None => Ok(false),
        Some(Value::Bool(b)) => Ok(*b),
        Some(_) => Err(LoadError::WrongShape(k)),
    }
}

fn get_table<'a>(t: &'a Vec<(String, Value)>, k: Key) -> (r: Result<&'a Vec<(String, Value)>, LoadError>)
    ensures
        match r {
            Ok(x) => req_table(t@, k) == Ok::<Seq<(String, Value)>, LoadError>(x@),
            Err(e) => req_table(t@, k) == Err::<Seq<(String, Value)>, LoadError>(e),
        },
{
    match find(t, key_str(k)) {
        None => Err(LoadError::MissingField(k)),
        Some(Value::Table(x)) => Ok(x),
        Some(_) => Err(LoadError::WrongShape(k)),
    }
}

fn to_u32(k: i64) -> (r: Option<u32>)
    ensures
        match r {
            Some(n) => fits_u32(k) && n == k as u32,
            None => !fits_u32(k),
        },
{
    if 0 <= k && k <= 0xffff_ffff {
        Some(k as u32)
    } else {
        None
    }
}

fn load_fixed_array(o: &Vec<(String, Value)>) -> (r: Result<TypeTag, LoadError>)
    ensures
        r == fixed_array_of(o@),
{
    let et = match get_str(o, Key::Ty) {
        Err(e) => return Err(e),
        Ok(et) => et,
    };
    let s = if text_is(et, "Float") {
        Scalar::Float
    } else if text_is(et, "Integer") {
        Scalar::Integer
    } else {
        return Err(LoadError::UnknownTypeTag(et.clone()));
    };
    match find(o, key_str(Key::N)) {
        None => Err(LoadError::MissingField(Key::N)),
        Some(Value::Integer(n)) => match to_u32(*n) {
            Some(n) => Ok(TypeTag::FixedArray(s, n)),
            None => Err(LoadError::WrongShape(Key::N)),
        },
        Some(_) => Err(LoadError::WrongShape(Key::N)),
    }
}

fn load_array(t: &Vec<(String, Value)>) -> (r: Result<TypeTag, LoadError>)
    ensures
        r == array_of(t@),
{
    match find(t, key_str(Key::Of)) {
        None => Err(LoadError::MissingField(Key::Of)),
        Some(Value::Str(s)) => Ok(
            TypeTag::Array(
                if text_is(s, "Float") {
                    Element::Float
                } else if text_is(s, "Integer") {
                    Element::Integer
                } else {
                    Element::Struct(s.clone())
                },
            ),
        ),
        Some(Value::Table(o)) => {
            let et = match get_str(o, Key::Ty) {
                Err(e) => return Err(e),
                Ok(et) => et,
            };
            if text_is(et, "Index") {
                match get_str(o, Key::Of) {
                    Err(e) => Err(e),
                    Ok(of) => Ok(TypeTag::Array(Element::Index(of.clone()))),
                }
            } else {
                Err(LoadError::UnknownTypeTag(et.clone()))
            }
        },
        Some(_) => Err(LoadError::WrongShape(Key::Of)),
    }
}

fn load_tag(t: &Vec<(String, Value)>) -> (r: Result<TypeTag, LoadError>)
    ensures
        r == tag_of(t@),
{
    let ty = match get_str(t, Key::Ty) {
        Err(e) => return Err(e),
        Ok(ty) => ty,
    };
    if text_is(ty, "String") {
        Ok(TypeTag::Str)
    } else if text_is(ty, "Integer") {
        Ok(TypeTag::Integer)
    } else if text_is(ty, "Float") {
        Ok(TypeTag::Float)
    } else if text_is(ty, "Bool") {
        Ok(TypeTag::Bool)
    } else if text_is(ty, "Any") {
        Ok(TypeTag::Any)
    } else if text_is(ty, "Index") || text_is(ty, "Struct") || text_is(ty, "Enum") || text_is(ty, "Special") {
        match get_str(t, Key::Of) {
            Err(e) => Err(e),
            Ok(of) => Ok(
                if text_is(ty, "Index") {
                    TypeTag::Index(of.clone())
                } else if text_is(ty, "Struct") {
                    TypeTag::Struct(of.clone())
                } else if text_is(ty, "Enum") {
                    TypeTag::Enum(of.clone())
                } else {
                    TypeTag::Special(of.clone())
                },
            ),
        }
    } else if text_is(ty, "FixedSizeArray") {
        match get_table(t, Key::Of) {
            Err(e) => Err(e),
            Ok(o) => load_fixed_array(o),
        }
    } else if text_is(ty, "Array") {
        load_array(t)
    } else {
        Err(LoadError::UnknownTypeTag(ty.clone()))
    }
}

fn load_default(tag: &TypeTag, d: &Value) -> (r: Result<DefaultValue, LoadError>)
    ensures
        r == default_of(*tag, *d),
{
    match (tag, d) {
        (TypeTag::Integer, Value::Integer(k)) => match to_u32(*k) {
            Some(k) => Ok(DefaultValue::Integer(k)),
            None => Err(LoadError::WrongShape(Key::Default)),
        },
        (TypeTag::Float, Value::Float(t)) => Ok(DefaultValue::Float(t.clone())),
        (TypeTag::Bool, Value::Bool(b)) => Ok(DefaultValue::Bool(*b)),
        _ => Err(LoadError::WrongShape(Key::Default)),
    }
}

/// Loads the field that the entry `name = v` of a `fields` table declares.
pub fn load_field(name: &String, v: &Value) -> (r: Result<FieldSpec, LoadError>)
    ensures
        r == field_of(*name, *v),
{
    let t = match v {
        Value::Table(t) => t,
        _ => return Err(LoadError::WrongShape(Key::Fields)),
    };
    let docs = match get_docs(t) {
        Err(e) => return Err(e),
        Ok(d) => d,
    };
    let tag = match load_tag(t) {
        Err(e) => return Err(e),
        Ok(tag) => tag,
    };
    let optional = match get_flag(t, Key::Optional) {
        Err(e) => return Err(e),
        Ok(b) => b,
    };
    let hidden = match get_flag(t, Key::Hidden) {
        Err(e) => return Err(e),
        Ok(b) => b,
    };
    let default = match find(t, key_str(Key::Default)) {
        None => None,
        Some(d) => {
            if optional {
                return Err(LoadError::ConflictingOptionalDefault(name.clone()));
            }
            match load_default(&tag, d) {
                Err(e) => return Err(e),
                Ok(dv) => Some(dv),
            }
        },
    };
    Ok(FieldSpec { name: name.clone(), docs: docs.clone(), tag, optional, default, hidden })
}

proof fn lemma_field_valid(name: String, v: Value)
    ensures
        match field_of(name, v) {
            Ok(f) => field_valid(f),
            Err(_) => true,
        },
{
}

proof fn lemma_variant_valid(enc: Encoding, name: String, v: Value)
    ensures
        match variant_of(enc, name, v) {
            Ok(x) => literal_fits(enc, x.literal) && single_line(x.docs@),
            Err(_) => true,
        },
{
}

fn load_fields(t: &Vec<(String, Value)>) -> (r: Result<Vec<FieldSpec>, LoadError>)
    ensures
        fields_result(t@, r),
        match r {
            Ok(out) => fields_valid(out@),
            Err(_) => true,
        },
{
    let ghost ps = parsed_fields(t@);
    let mut out: Vec<FieldSpec> = Vec::new();
    let mut i: usize = 0;
    proof {
        assert(t@.skip(0) =~= t@);
    }
    while i < t.len()
        invariant
            i <= t@.len(),
            ps == parsed_fields(t@),
            fields_error(t@) == fields_error(t@.skip(i as int)),
            out@ =~= ps.take(i as int),
            fields_valid(out@),
        decreases t@.len() - i,
    {
        proof {
            assert(t@.skip(i as int)[0] == t@[i as int]);
            assert(t@.skip(i as int).drop_first() =~= t@.skip(i as int + 1));
        }
        proof {
            lemma_field_valid(t@[i as int].0, t@[i as int].1);
        }
        match load_field(&t[i].0, &t[i].1) {
            Err(e) => return Err(e),
            Ok(f) => out.push(f),
        }
        i = i + 1;
    }
    proof {
        assert(t@.skip(i as int).len() == 0);
        assert(out@ =~= ps);
    }
    Ok(out)
}

fn load_literal(enc: Encoding, t: &Vec<(String, Value)>) -> (r: Result<Literal, LoadError>)
    ensures
        r == literal_of(enc, t@),
{
    match find(t, key_str(Key::Value)) {
        None => Err(LoadError::MissingField(Key::Value)),
        Some(Value::Str(s)) => if enc == Encoding::Str {
            Ok(Literal::Str(s.clone()))
        } else {
            Err(LoadError::WrongShape(Key::Value))
        },
        Some(Value::Integer(k)) => match to_u32(*k) {
            Some(k) => if enc == Encoding::Int {
                Ok(Literal::Int(k))
            } else {
                Err(LoadError::WrongShape(Key::Value))
            },
            None => Err(LoadError::WrongShape(Key::Value)),
        },
        Some(_) => Err(LoadError::WrongShape(Key::Value)),
    }
}

/// Loads the variant that the entry `name = v` of a `values` table declares.
pub fn load_variant(enc: Encoding, name: &String, v: &Value) -> (r: Result<VariantSpec, LoadError>)
    ensures
        r == variant_of(enc, *name, *v),
{
    let t = match v {
        Value::Table(t) => t,
        _ => return Err(LoadError::WrongShape(Key::Values)),
    };
    let docs = match get_docs(t) {
        Err(e) => return Err(e),
        Ok(d) => d,
    };
    let literal = match load_literal(enc, t) {
        Err(e) => return Err(e),
        Ok(l) => l,
    };
    Ok(VariantSpec { name: name.clone(), docs: docs.clone(), literal })
}

fn load_variants(enc: Encoding, t: &Vec<(String, Value)>) -> (r: Result<Vec<VariantSpec>, LoadError>)
    ensures
        variants_result(enc, t@, r),
        match r {
            Ok(out) => variants_valid(enc, out@),
            Err(_) => true,
        },
{
    let ghost ps = parsed_variants(enc, t@);
    let mut out: Vec<VariantSpec> = Vec::new();
    let mut i: usize = 0;
    proof {
        assert(t@.skip(0) =~= t@);
    }
    while i < t.len()
        invariant
            i <= t@.len(),
            ps == parsed_variants(enc, t@),
            variants_error(enc, t@) == variants_error(enc, t@.skip(i as int)),
            out@ =~= ps.take(i as int),
            forall|m: int| 0 <= m < out@.len() ==> literal_fits(enc, #[trigger] out@[m].literal),
            forall|m: int| 0 <= m < out@.len() ==> single_line(#[trigger] out@[m].docs@),
        decreases t@.len() - i,
    {
        proof {
            assert(t@.skip(i as int)[0] == t@[i as int]);
            assert(t@.skip(i as int).drop_first() =~= t@.skip(i as int + 1));
        }
        proof {
            lemma_variant_valid(enc, t@[i as int].0, t@[i as int].1);
        }
        match load_variant(enc, &t[i].0, &t[i].1) {
            Err(e) => return Err(e),
            Ok(v) => out.push(v),
        }
        i = i + 1;
    }
    proof {
        assert(t@.skip(i as int).len() == 0);
        assert(out@ =~= ps);
        assert(variants_error(enc, t@) is None);
        assert(forall|m: int| 0 <= m < ps.len() ==> literal_fits(enc, #[trigger] ps[m].literal));
        assert(forall|m: int| 0 <= m < ps.len() ==> single_line(#[trigger] ps[m].docs@));
    }
    let mut k: usize = 0;
    while k < out.len()
        invariant
            k <= out@.len(),
            out@ == ps,
            variants_error(enc, t@) is None,
            ps == parsed_variants(enc, t@),
            first_repeat(ps, 0) == first_repeat(ps, k as int),
            forall|m: int| 0 <= m < ps.len() ==> literal_fits(enc, #[trigger] ps[m].literal),
            forall|m: int| 0 <= m < ps.len() ==> single_line(#[trigger] ps[m].docs@),
        decreases out@.len() - k,
    {
        let mut j: usize = 0;
        while j < k
            invariant
                j <= k < out@.len(),
                out@ == ps,
                variants_error(enc, t@) is None,
                ps == parsed_variants(enc, t@),
                first_repeat(ps, 0) == first_repeat(ps, k as int),
                forall|m: int| 0 <= m < j ==> !same_literal(#[trigger] ps[m].literal, ps[k as int].literal),
            decreases k - j,
        {
            if literal_eq(&out[j].literal, &out[k].literal) {
                proof {
                    assert(repeats(ps, k as int));
                    assert(first_repeat(ps, k as int) == Some(k as int));
                }
                return Err(LoadError::DuplicateLiteral(out[k].name.clone()));
            }
            j = j + 1;
        }
        proof {
            assert(!repeats(ps, k as int));
        }
        k = k + 1;
    }
    proof {
        lemma_loaded_literals_unique(enc, t@, out);
    }
    Ok(out)
}

/// Loads a schema unit from its input document. Table entries keep their
/// order: fields and variants come out in the order in which they were
/// written.
pub fn load(input: &Value) -> (r: Result<SchemaUnit, LoadError>)
    ensures
        load_result(*input, r),
        match r {
            Ok(u) => unit_valid(u),
            Err(_) => true,
        },
{
    let top = match input {
        Value::Table(top) => top,
        _ => return Err(LoadError::WrongShape(Key::Meta)),
    };
    let meta = match get_table(top, Key::Meta) {
        Err(e) => return Err(e),
        Ok(m) => m,
    };
    let name = match get_str(meta, Key::Ident) {
        Err(e) => return Err(e),
        Ok(s) => s,
    };
    let docs = match get_docs(meta) {
        Err(e) => return Err(e),
        Ok(s) => s,
    };
    let kind = match get_str(meta, Key::Kind) {
        Err(e) => return Err(e),
        Ok(s) => s,
    };
    let module = match get_opt_str(meta, Key::Module) {
        Err(e) => return Err(e),
        Ok(None) => None,
        Ok(Some(s)) => Some(s.clone()),
    };
    let body = if text_is(kind, "Struct") {
        let es = match get_table(top, Key::Fields) {
            Err(e) => return Err(e),
            Ok(es) => es,
        };
        match load_fields(es) {
            Err(e) => return Err(e),
            Ok(fs) => Body::Record(fs),
        }
    } else if text_is(kind, "Enum") {
        let of = match get_str(meta, Key::Of) {
            Err(e) => return Err(e),
            Ok(s) => s,
        };
        let enc = if text_is(of, "String") {
            Encoding::Str
        } else if text_is(of, "Integer") {
            Encoding::Int
        } else {
            return Err(LoadError::UnknownEncoding(of.clone()));
        };
        let es = match get_table(top, Key::Values) {
            Err(e) => return Err(e),
            Ok(es) => es,
        };
        match load_variants(enc, es) {
            Err(e) => return Err(e),
            Ok(vs) => Body::Enumeration(enc, vs),
        }
    } else {
        return Err(LoadError::WrongShape(Key::Kind));
    };
    Ok(SchemaUnit { name: name.clone(), module, docs: docs.clone(), body })
}

proof fn lemma_no_repeat_from(vs: Seq<VariantSpec>, k: int, m: int)
    requires
        0 <= k <= m < vs.len(),
        first_repeat(vs, k) is None,
    ensures
        !repeats(vs, m),
    decreases m - k,
{
    if k < m {
        lemma_no_repeat_from(vs, k + 1, m);
    }
}

/// The variants of a loaded enumeration have unique literals.
pub proof fn lemma_loaded_literals_unique(enc: Encoding, es: Seq<(String, Value)>, vs: Vec<VariantSpec>)
    requires
        variants_result(enc, es, Ok(vs)),
    ensures
        literals_unique(vs@),
{
    let ps = vs@;
    assert forall|i: int, j: int|
        0 <= i < ps.len() && 0 <= j < ps.len() && i != j implies !same_literal(
            #[trigger] ps[i].literal,
            #[trigger] ps[j].literal,
        ) by {
        if same_literal(ps[i].literal, ps[j].literal) {
            if j < i {
                lemma_no_repeat_from(ps, 0, i);
                assert(repeats(ps, i));
            } else {
                lemma_no_repeat_from(ps, 0, j);
                assert(same_literal(ps[j].literal, ps[i].literal));
                assert(repeats(ps, j));
            }
        }
    }
}

/// For every loaded enumeration unit, decoding the literal that encodes a
/// declared variant gives that variant back.
pub proof fn lemma_loaded_round_trip(input: Value, u: SchemaUnit, i: int)
    requires
        load_result(input, Ok(u)),
        u.body is Enumeration,
        0 <= i < u.body->Enumeration_1@.len(),
    ensures
        decoded(u.body->Enumeration_1@, u.body->Enumeration_1@[i].literal) == Checked::Valid(i),
{
    let vs = u.body->Enumeration_1;
    let enc = u.body->Enumeration_0;
    let top = input->Table_0@;
    let meta = req_table(top, Key::Meta)->Ok_0;
    let es = req_table(top, Key::Values)->Ok_0;
    assert(variants_result(enc, es, Ok(vs)));
    lemma_loaded_literals_unique(enc, es, vs);
    lemma_decode_encode(vs@, i);
}

/// A field marked optional that also declares a default is refused with
/// `ConflictingOptionalDefault`, once its docs, type and flags are read.
pub proof fn lemma_optional_default_conflict(name: String, v: Value)
    requires
        v is Table,
        req_docs(v->Table_0@) is Ok,
        tag_of(v->Table_0@) is Ok,
        flag(v->Table_0@, Key::Optional) == Ok::<bool, LoadError>(true),
        flag(v->Table_0@, Key::Hidden) is Ok,
        lookup(v->Table_0@, key_name(Key::Default)) is Some,
    ensures
        field_of(name, v) == Err::<FieldSpec, LoadError>(LoadError::ConflictingOptionalDefault(name)),
{
}

proof fn lemma_fields_error_found(es: Seq<(String, Value)>, i: int)
    requires
        0 <= i < es.len(),
        field_of(es[i].0, es[i].1) is Err,
    ensures
        fields_error(es) is Some,
    decreases i,
{
    if i > 0 {
        if field_of(es[0].0, es[0].1) is Ok {
            assert(es.drop_first()[i - 1] == es[i]);
            lemma_fields_error_found(es.drop_first(), i - 1);
        }
    }
}

/// Whether the document declares a record unit.
pub open spec fn declares_record(input: Value) -> bool {
    &&& input is Table
    &&& req_table(input->Table_0@, Key::Meta) is Ok
    &&& req_str(req_table(input->Table_0@, Key::Meta)->Ok_0, Key::Kind) is Ok
    &&& req_str(req_table(input->Table_0@, Key::Meta)->Ok_0, Key::Kind)->Ok_0@ == "Struct"@
}

/// Loading a record unit fails whenever one of its fields is refused; in
/// particular, a field marked optional that declares a default makes the
/// load fail.
pub proof fn lemma_refused_field_fails_load(input: Value, r: Result<SchemaUnit, LoadError>, i: int)
    requires
        load_result(input, r),
        declares_record(input),
        req_table(input->Table_0@, Key::Fields) is Ok,
        0 <= i < req_table(input->Table_0@, Key::Fields)->Ok_0.len(),
        field_of(
            req_table(input->Table_0@, Key::Fields)->Ok_0[i].0,
            req_table(input->Table_0@, Key::Fields)->Ok_0[i].1,
        ) is Err,
    ensures
        r is Err,
{
    let es = req_table(input->Table_0@, Key::Fields)->Ok_0;
    lemma_fields_error_found(es, i);
}

} // verus!
