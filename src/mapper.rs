use vstd::prelude::*;
use crate::naming::{pascal_case, pascal_of};
use crate::schema::{Element, FieldSpec, Scalar, TypeTag};
use crate::text::{dec, push_decimal};

verus! {

/// How a field is annotated for serialization.
#[derive(Clone, Copy, Debug, PartialEq, Eq, Structural)]
pub enum Directive {
    /// No annotation.
    Plain,
    /// Omitted from output when absent; absent when missing from input.
    OmitIfAbsent,
    /// Omitted from output when equal to its default; defaulted when missing.
    OmitIfDefault,
    /// Omitted from output when empty; empty when missing.
    OmitIfEmpty,
}

/// How an accessor method builds its result from the stored value.
#[derive(Clone, Copy, Debug, PartialEq, Eq, Structural)]
pub enum Strategy {
    /// Returns a copy of the stored value.
    Copy,
    /// Returns a borrow of the stored value.
    Borrow,
    /// Resolves a stored index through the document.
    Resolve,
    /// Wraps the embedded record in its own accessor type.
    Construct,
    /// Unwraps a checked enumeration value.
    Unwrap,
    /// Returns a sequence over the stored elements.
    Iterate,
}

/// The storage, serialization and accessor rules of one field.
pub struct TypeRule {
    pub storage: String,
    pub directive: Directive,
    pub accessor: String,
    pub strategy: Strategy,
}

/// Whether a type honours the `optional` flag; the others ignore it.
pub open spec fn takes_optional(tag: TypeTag) -> bool {
    !(tag is Array || tag is Any || tag is Special)
}

/// Whether the field is stored as an `Option`.
pub open spec fn is_optional(tag: TypeTag, optional: bool) -> bool {
    optional && takes_optional(tag)
}

pub open spec fn scalar_type(s: Scalar) -> Seq<char> {
    match s {
        Scalar::Float => "f32"@,
        Scalar::Integer => "u32"@,
    }
}

pub open spec fn element_type(e: Element) -> Seq<char> {
    match e {
        Element::Float => "f32"@,
        Element::Integer => "u32"@,
        Element::Struct(of) => "::"@ + of@,
        Element::Index(of) => "Index<::"@ + of@ + ">"@,
    }
}

pub open spec fn array_type(s: Scalar, n: u32) -> Seq<char> {
    "["@ + scalar_type(s) + "; "@ + dec(n as nat) + "]"@
}

/// The stored type of a field, before optionality.
pub open spec fn base_type(tag: TypeTag) -> Seq<char> {
    match tag {
        TypeTag::Str => "String"@,
        TypeTag::Integer => "u32"@,
        TypeTag::Float => "f32"@,
        TypeTag::Bool => "bool"@,
        TypeTag::Index(of) => "Index<::"@ + of@ + ">"@,
        TypeTag::Struct(of) => "::"@ + of@,
        TypeTag::Enum(of) => "Checked<::"@ + of@ + ">"@,
        TypeTag::Array(e) => "Vec<"@ + element_type(e) + ">"@,
        TypeTag::FixedArray(s, n) => array_type(s, n),
        TypeTag::Any => "Option<::std::boxed::Box<::serde_json::value::RawValue>>"@,
        TypeTag::Special(t) => t@,
    }
}

/// The stored type of a field.
pub open spec fn storage_type(tag: TypeTag, optional: bool) -> Seq<char> {
    if is_optional(tag, optional) {
        "Option<"@ + base_type(tag) + ">"@
    } else {
        base_type(tag)
    }
}

/// The serialization directive of a field.
pub open spec fn directive_of(f: FieldSpec) -> Directive {
    if f.tag is Array {
        Directive::OmitIfEmpty
    } else if f.tag is Special {
        Directive::Plain
    } else if f.optional {
        Directive::OmitIfAbsent
    } else if f.default is Some {
        Directive::OmitIfDefault
    } else {
        Directive::Plain
    }
}

/// The accessor's result type, before optionality; `iter` names the
/// sequence type of an array field.
pub open spec fn base_accessor_type(tag: TypeTag, iter: Seq<char>) -> Seq<char> {
    match tag {
        TypeTag::Str => "&'a str"@,
        TypeTag::Integer => "u32"@,
        TypeTag::Float => "f32"@,
        TypeTag::Bool => "bool"@,
        TypeTag::Index(of) => "::"@ + of@ + "<'a>"@,
        TypeTag::Struct(of) => "::"@ + of@ + "<'a>"@,
        TypeTag::Enum(of) => "::"@ + of@,
        TypeTag::Array(_) => iter + "<'a>"@,
        TypeTag::FixedArray(s, n) => array_type(s, n),
        TypeTag::Any => "Option<&'a ::serde_json::value::RawValue>"@,
        TypeTag::Special(t) => t@,
    }
}

/// The accessor's result type.
pub open spec fn accessor_type(tag: TypeTag, optional: bool, iter: Seq<char>) -> Seq<char> {
    if is_optional(tag, optional) {
        "Option<"@ + base_accessor_type(tag, iter) + ">"@
    } else {
        base_accessor_type(tag, iter)
    }
}

pub open spec fn strategy_of(tag: TypeTag) -> Strategy {
    match tag {
        TypeTag::Str => Strategy::Borrow,
        TypeTag::Any => Strategy::Borrow,
        TypeTag::Index(_) => Strategy::Resolve,
        TypeTag::Struct(_) => Strategy::Construct,
        TypeTag::Enum(_) => Strategy::Unwrap,
        TypeTag::Array(_) => Strategy::Iterate,
        _ => Strategy::Copy,
    }
}

/// Source text of a literal chain: `a` followed by `b`.
pub(crate) fn concat(a: &str, b: &str) -> (r: String)
    ensures
        r@ == a@ + b@,
{
    let mut s = String::from_str(a);
    s.append(b);
    s
}

/// `a` followed by `b` and `c`.
pub(crate) fn concat3(a: &str, b: &str, c: &str) -> (r: String)
    ensures
        r@ == a@ + b@ + c@,
{
    let mut s = String::from_str(a);
    s.append(b);
    s.append(c);
    s
}

fn scalar_text(s: Scalar) -> (r: &'static str)
    ensures
        r@ == scalar_type(s),
{
    match s {
        Scalar::Float => "f32",
        Scalar::Integer => "u32",
    }
}

fn array_text(s: Scalar, n: u32) -> (r: String)
    ensures
        r@ == array_type(s, n),
{
    let mut r = concat("[", scalar_text(s));
    r.append("; ");
    push_decimal(&mut r, n as u64);
    r.append("]");
    r
}

fn element_text(e: &Element) -> (r: String)
    ensures
        r@ == element_type(*e),
{
    match e {
        Element::Float => String::from_str("f32"),
        Element::Integer => String::from_str("u32"),
        Element::Struct(of) => concat("::", of.as_str()),
        Element::Index(of) => concat3("Index<::", of.as_str(), ">"),
    }
}

fn base_text(tag: &TypeTag) -> (r: String)
    ensures
        r@ == base_type(*tag),
{
    match tag {
        TypeTag::Str => String::from_str("String"),
        TypeTag::Integer => String::from_str("u32"),
        TypeTag::Float => String::from_str("f32"),
        TypeTag::Bool => String::from_str("bool"),
        TypeTag::Index(of) => concat3("Index<::", of.as_str(), ">"),
        TypeTag::Struct(of) => concat("::", of.as_str()),
        TypeTag::Enum(of) => concat3("Checked<::", of.as_str(), ">"),
        TypeTag::Array(e) => {
            let t = element_text(e);
            concat3("Vec<", t.as_str(), ">")
        },
        TypeTag::FixedArray(s, n) => array_text(*s, *n),
        TypeTag::Any => String::from_str("Option<::std::boxed::Box<::serde_json::value::RawValue>>"),
        TypeTag::Special(t) => t.clone(),
    }
}

fn optional_flag(tag: &TypeTag, optional: bool) -> (r: bool)
    ensures
        r == is_optional(*tag, optional),
{
    match tag {
        TypeTag::Array(_) | TypeTag::Any | TypeTag::Special(_) => false,
        _ => optional,
    }
}

fn base_accessor_text(tag: &TypeTag, iter: &String) -> (r: String)
    ensures
        r@ == base_accessor_type(*tag, iter@),
{
    match tag {
        TypeTag::Str => String::from_str("&'a str"),
        TypeTag::Integer => String::from_str("u32"),
        TypeTag::Float => String::from_str("f32"),
        TypeTag::Bool => String::from_str("bool"),
        TypeTag::Index(of) => concat3("::", of.as_str(), "<'a>"),
        TypeTag::Struct(of) => concat3("::", of.as_str(), "<'a>"),
        TypeTag::Enum(of) => concat("::", of.as_str()),
        TypeTag::Array(_) => concat(iter.as_str(), "<'a>"),
        TypeTag::FixedArray(s, n) => array_text(*s, *n),
        TypeTag::Any => String::from_str("Option<&'a ::serde_json::value::RawValue>"),
        TypeTag::Special(t) => t.clone(),
    }
}

/// The type rules of a field: its stored type, serialization directive,
/// accessor result type and accessor strategy.
pub fn map_type(f: &FieldSpec) -> (r: TypeRule)
    ensures
        r.storage@ == storage_type(f.tag, f.optional),
        r.directive == directive_of(*f),
        r.accessor@ == accessor_type(f.tag, f.optional, pascal_of(f.name@)),
        r.strategy == strategy_of(f.tag),
{
    let opt = optional_flag(&f.tag, f.optional);
    let base = base_text(&f.tag);
    let storage = if opt {
        concat3("Option<", base.as_str(), ">")
    } else {
        base
    };
    let iter = pascal_case(f.name.as_str());
    let base_acc = base_accessor_text(&f.tag, &iter);
    let accessor = if opt {
        concat3("Option<", base_acc.as_str(), ">")
    } else {
        base_acc
    };
    let directive = match &f.tag {
        TypeTag::Array(_) => Directive::OmitIfEmpty,
        TypeTag::Special(_) => Directive::Plain,
        _ => if f.optional {
            Directive::OmitIfAbsent
        } else if f.default.is_some() {
            Directive::OmitIfDefault
        } else {
            Directive::Plain
        },
    };
    let strategy = match &f.tag {
        TypeTag::Str | TypeTag::Any => Strategy::Borrow,
        TypeTag::Index(_) => Strategy::Resolve,
        TypeTag::Struct(_) => Strategy::Construct,
        TypeTag::Enum(_) => Strategy::Unwrap,
        TypeTag::Array(_) => Strategy::Iterate,
        _ => Strategy::Copy,
    };
    TypeRule { storage, directive, accessor, strategy }
}

} // verus!
