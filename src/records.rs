use vstd::prelude::*;
use crate::mapper::{concat, concat3, directive_of, map_type, storage_type, Directive};
use crate::naming::{pascal_case, pascal_of};
use crate::schema::{fields_valid, single_line, DefaultValue, Element, FieldSpec, TypeTag};
use crate::text::{dec, push_decimal};

verus! {

pub open spec fn bool_text(b: bool) -> Seq<char> {
    if b {
        "true"@
    } else {
        "false"@
    }
}

/// The annotation lines placed before a field of the storage type.
pub open spec fn directive_text(d: Directive, name: Seq<char>) -> Seq<char> {
    match d {
        Directive::Plain => Seq::empty(),
        Directive::OmitIfAbsent => "  #[serde(default, skip_serializing_if = \"Option::is_none\")]\n"@,
        Directive::OmitIfDefault => "  #[serde(default = \""@ + name + "_default\")]\n"@
            + "  #[serde(skip_serializing_if = \""@ + name + "_is_default\")]\n"@,
        Directive::OmitIfEmpty => "  #[serde(default, skip_serializing_if = \"Vec::is_empty\")]\n"@,
    }
}

/// The declaration of one field in the storage type.
pub open spec fn field_text(f: FieldSpec) -> Seq<char> {
    "  /// "@ + f.docs@ + "\n"@ + directive_text(directive_of(f), f.name@) + "  pub "@ + f.name@
        + ": "@ + storage_type(f.tag, f.optional) + ",\n"@
}

/// The producer and the predicate of a field's default.
pub open spec fn default_helpers(name: Seq<char>, d: DefaultValue) -> Seq<char> {
    "fn "@ + name + "_default() -> "@ + default_type(d) + " { "@ + default_literal(d) + " }\n"@
        + "fn "@ + name + "_is_default(x: &"@ + default_type(d) + ") -> bool { "@ + default_test(d)
        + " }\n"@
}

/// The trait impls of a sequence type whose items are accessors of `of`,
/// built by `make` from what the inner iterator yields.
pub open spec fn iterator_impls(iter: Seq<char>, of: Seq<char>, make: Seq<char>) -> Seq<char> {
    "impl<'a> ExactSizeIterator for "@ + iter + "<'a> {}\n"@ + "impl<'a> Iterator for "@ + iter
        + "<'a> {\n"@ + "  type Item = ::"@ + of + "<'a>;\n"@
        + "  fn next(&mut self) -> Option<Self::Item> {\n"@ + "    self.iter.next().map("@ + make
        + ")\n"@ + "  }\n"@ + "  fn size_hint(&self) -> (usize, Option<usize>) {\n"@
        + "    self.iter.size_hint()\n"@ + "  }\n"@ + "}\n"@
}

/// The sequence type that the accessor of an array field returns.
pub open spec fn iterator_decl(iter: Seq<char>, e: Element) -> Seq<char> {
    match e {
        Element::Float => "pub type "@ + iter + "<'a> = ::std::slice::Iter<'a, f32>;\n"@,
        Element::Integer => "pub type "@ + iter + "<'a> = ::std::slice::Iter<'a, u32>;\n"@,
        Element::Struct(of) => "#[derive(Clone, Debug)]\n"@ + "pub struct "@ + iter + "<'a> {\n"@
            + "  pub(crate) iter: ::std::iter::Enumerate<::std::slice::Iter<'a, ::"@ + of@
            + ">>,\n"@ + "  pub(crate) document: &'a ::Document,\n"@ + "}\n\n"@ + iterator_impls(
            iter,
            of@,
            "|(index, json)| ::"@ + of@ + "::new(self.document, index, json)"@,
        ),
        Element::Index(of) => "#[derive(Clone, Debug)]\n"@ + "pub struct "@ + iter + "<'a> {\n"@
            + "  pub(crate) iter: ::std::slice::Iter<'a, Index<::"@ + of@ + ">>,\n"@
            + "  pub(crate) document: &'a ::Document,\n"@ + "}\n\n"@ + iterator_impls(
            iter,
            of@,
            "|index| self.document.get(index)"@,
        ),
    }
}

/// The free-standing items that a field adds after the storage type.
pub open spec fn field_extra(f: FieldSpec) -> Seq<char> {
    (match f.default {
        Some(d) => default_helpers(f.name@, d),
        None => Seq::empty(),
    }) + (match f.tag {
        TypeTag::Array(e) => iterator_decl(pascal_of(f.name@), e),
        _ => Seq::empty(),
    })
}

pub open spec fn fields_text(fs: Seq<FieldSpec>) -> Seq<char>
    decreases fs.len(),
{
    if fs.len() == 0 {
        Seq::empty()
    } else {
        fields_text(fs.drop_last()) + field_text(fs.last())
    }
}

pub open spec fn extras_text(fs: Seq<FieldSpec>) -> Seq<char>
    decreases fs.len(),
{
    if fs.len() == 0 {
        Seq::empty()
    } else {
        extras_text(fs.drop_last()) + field_extra(fs.last())
    }
}

/// The fields that every storage type carries.
pub open spec fn storage_boilerplate() -> Seq<char> {
    "  /// Optional user-defined name for this object.\n"@ + "  #[cfg(feature = \"names\")]\n"@
        + "  #[cfg_attr(feature = \"names\", serde(default, skip_serializing_if = \"Option::is_none\"))]\n"@
        + "  pub name: Option<String>,\n"@ + "  /// Optional application specific data.\n"@
        + "  #[cfg(feature = \"extras\")]\n"@
        + "  #[cfg_attr(feature = \"extras\", serde(default, skip_serializing_if = \"Option::is_none\"))]\n"@
        + "  pub extras: Option<::std::boxed::Box<::serde_json::value::RawValue>>,\n"@
        + "  /// Extension specific data.\n"@
        + "  #[serde(default, skip_serializing_if = \"Option::is_none\")]\n"@
        + "  pub extensions: Option<::std::boxed::Box<::serde_json::value::RawValue>>,\n"@
}

/// The storage type of a record unit, followed by its helper items.
pub open spec fn struct_text(name: Seq<char>, docs: Seq<char>, fs: Seq<FieldSpec>) -> Seq<char> {
    let head = "/// "@ + docs + "\n"@
        + "#[derive(Clone, Debug, Deserialize, PartialEq, Serialize)]\n"@ + "pub struct "@ + name
        + " {\n"@ + storage_boilerplate() + fields_text(fs);
    if extras_text(fs).len() == 0 {
        head + "}"@
    } else {
        head + "}\n"@ + extras_text(fs)
    }
}

fn directive_lines(d: Directive, name: &String) -> (r: String)
    ensures
        r@ == directive_text(d, name@),
{
    match d {
        Directive::Plain => String::new(),
        Directive::OmitIfAbsent => String::from_str(
            "  #[serde(default, skip_serializing_if = \"Option::is_none\")]\n",
        ),
        Directive::OmitIfDefault => {
            let mut r = concat3("  #[serde(default = \"", name.as_str(), "_default\")]\n");
            r.append("  #[serde(skip_serializing_if = \"");
            r.append(name.as_str());
            r.append("_is_default\")]\n");
            r
        },
        Directive::OmitIfEmpty => String::from_str(
            "  #[serde(default, skip_serializing_if = \"Vec::is_empty\")]\n",
        ),
    }
}

fn field_decl(f: &FieldSpec) -> (r: String)
    ensures
        r@ == field_text(*f),
{
    let rule = map_type(f);
    let mut r = concat3("  /// ", f.docs.as_str(), "\n");
    let d = directive_lines(rule.directive, &f.name);
    r.append(d.as_str());
    r.append("  pub ");
    r.append(f.name.as_str());
    r.append(": ");
    r.append(rule.storage.as_str());
    r.append(",\n");
    r
}

fn bool_str(b: bool) -> (r: &'static str)
    ensures
        r@ == bool_text(b),
{
    if b {
        "true"
    } else {
        "false"
    }
}

fn helpers(name: &String, d: &DefaultValue) -> (r: String)
    ensures
        r@ == default_helpers(name@, *d),
{
    let ty = match d {
        DefaultValue::Integer(_) => "u32",
        DefaultValue::Float(_) => "f32",
        DefaultValue::Bool(_) => "bool",
    };
    let mut lit = String::new();
    match d {
        DefaultValue::Integer(k) => push_decimal(&mut lit, *k as u64),
        DefaultValue::Float(t) => lit.append(t.as_str()),
        DefaultValue::Bool(b) => lit.append(bool_str(*b)),
    }
    let test = match d {
        DefaultValue::Float(t) => concat3("approx_eq!(f32, *x, ", t.as_str(), ")"),
        _ => concat("*x == ", lit.as_str()),
    };
    proof {
        assert(lit@ =~= default_literal(*d));
    }
    let mut r = concat3("fn ", name.as_str(), "_default() -> ");
    r.append(ty);
    r.append(" { ");
    r.append(lit.as_str());
    r.append(" }\n");
    r.append("fn ");
    r.append(name.as_str());
    r.append("_is_default(x: &");
    r.append(ty);
    r.append(") -> bool { ");
    r.append(test.as_str());
    r.append(" }\n");
    r
}

fn push_iterator_impls(r: &mut String, iter: &str, of: &str, make: &str)
    ensures
        final(r)@ == old(r)@ + iterator_impls(iter@, of@, make@),
{
    let mut s = concat3("impl<'a> ExactSizeIterator for ", iter, "<'a> {}\n");
    s.append("impl<'a> Iterator for ");
    s.append(iter);
    s.append("<'a> {\n");
    s.append("  type Item = ::");
    s.append(of);
    s.append("<'a>;\n");
    s.append("  fn next(&mut self) -> Option<Self::Item> {\n");
    s.append("    self.iter.next().map(");
    s.append(make);
    s.append(")\n");
    s.append("  }\n");
    s.append("  fn size_hint(&self) -> (usize, Option<usize>) {\n");
    s.append("    self.iter.size_hint()\n");
    s.append("  }\n");
    s.append("}\n");
    r.append(s.as_str());
}

fn iterator_type(iter: &String, e: &Element) -> (r: String)
    ensures
        r@ == iterator_decl(iter@, *e),
{
    match e {
        Element::Float => concat3("pub type ", iter.as_str(), "<'a> = ::std::slice::Iter<'a, f32>;\n"),
        Element::Integer => concat3("pub type ", iter.as_str(), "<'a> = ::std::slice::Iter<'a, u32>;\n"),
        Element::Struct(of) => {
            let mut r = String::from_str("#[derive(Clone, Debug)]\n");
            r.append("pub struct ");
            r.append(iter.as_str());
            r.append("<'a> {\n");
            r.append("  pub(crate) iter: ::std::iter::Enumerate<::std::slice::Iter<'a, ::");
            r.append(of.as_str());
            r.append(">>,\n");
            r.append("  pub(crate) document: &'a ::Document,\n");
            r.append("}\n\n");
            let make = concat3("|(index, json)| ::", of.as_str(), "::new(self.document, index, json)");
            push_iterator_impls(&mut r, iter.as_str(), of.as_str(), make.as_str());
            r
        },
        Element::Index(of) => {
            let mut r = String::from_str("#[derive(Clone, Debug)]\n");
            r.append("pub struct ");
            r.append(iter.as_str());
            r.append("<'a> {\n");
            r.append("  pub(crate) iter: ::std::slice::Iter<'a, Index<::");
            r.append(of.as_str());
            r.append(">>,\n");
            r.append("  pub(crate) document: &'a ::Document,\n");
            r.append("}\n\n");
            push_iterator_impls(&mut r, iter.as_str(), of.as_str(), "|index| self.document.get(index)");
            r
        },
    }
}

fn extra_items(f: &FieldSpec) -> (r: String)
    ensures
        r@ == field_extra(*f),
{
    let mut r = match &f.default {
        Some(d) => helpers(&f.name, d),
        None => String::new(),
    };
    match &f.tag {
        TypeTag::Array(e) => {
            let iter = pascal_case(f.name.as_str());
            let decl = iterator_type(&iter, e);
            r.append(decl.as_str());
        },
        _ => {},
    }
    proof {
        assert(r@ =~= field_extra(*f));
    }
    r
}

/// Renders the storage type of a record unit, with one producer and one
/// predicate per defaulted field and one sequence type per array field.
pub fn write_struct(output: &mut String, name: &String, docs: &String, fields: &Vec<FieldSpec>)
    requires
        single_line(docs@),
        fields_valid(fields@),
    ensures
        final(output)@ == old(output)@ + struct_text(name@, docs@, fields@),
{
    let mut extra = String::new();
    let mut head = concat3("/// ", docs.as_str(), "\n");
    head.append("#[derive(Clone, Debug, Deserialize, PartialEq, Serialize)]\n");
    head.append("pub struct ");
    head.append(name.as_str());
    head.append(" {\n");
    head.append("  /// Optional user-defined name for this object.\n");
    head.append("  #[cfg(feature = \"names\")]\n");
    head.append("  #[cfg_attr(feature = \"names\", serde(default, skip_serializing_if = \"Option::is_none\"))]\n");
    head.append("  pub name: Option<String>,\n");
    head.append("  /// Optional application specific data.\n");
    head.append("  #[cfg(feature = \"extras\")]\n");
    head.append("  #[cfg_attr(feature = \"extras\", serde(default, skip_serializing_if = \"Option::is_none\"))]\n");
    head.append("  pub extras: Option<::std::boxed::Box<::serde_json::value::RawValue>>,\n");
    head.append("  /// Extension specific data.\n");
    head.append("  #[serde(default, skip_serializing_if = \"Option::is_none\")]\n");
    head.append("  pub extensions: Option<::std::boxed::Box<::serde_json::value::RawValue>>,\n");
    let ghost start = head@;
    proof {
        assert(start =~= "/// "@ + docs@ + "\n"@
            + "#[derive(Clone, Debug, Deserialize, PartialEq, Serialize)]\n"@ + "pub struct "@
            + name@ + " {\n"@ + storage_boilerplate());
        assert(fields@.take(0) =~= Seq::<FieldSpec>::empty());
    }
    let mut i: usize = 0;
    while i < fields.len()
        invariant
            i <= fields@.len(),
            head@ == start + fields_text(fields@.take(i as int)),
            extra@ == extras_text(fields@.take(i as int)),
        decreases fields@.len() - i,
    {
        let f = &fields[i];
        let decl = field_decl(f);
        head.append(decl.as_str());
        let more = extra_items(f);
        extra.append(more.as_str());
        proof {
            assert(fields@.take(i as int + 1).drop_last() =~= fields@.take(i as int));
        }
        i = i + 1;
    }
    proof {
        assert(fields@.take(i as int) =~= fields@);
    }
    if extra.as_str().unicode_len() == 0 {
        head.append("}");
    } else {
        head.append("}\n");
        head.append(extra.as_str());
    }
    output.append(head.as_str());
}

/// The source literal of a default.
pub open spec fn default_literal(d: DefaultValue) -> Seq<char> {
    match d {
        DefaultValue::Integer(k) => dec(k as nat),
        DefaultValue::Float(t) => t@,
        DefaultValue::Bool(b) => bool_text(b),
    }
}

/// The stored type of a defaulted field.
pub open spec fn default_type(d: DefaultValue) -> Seq<char> {
    match d {
        DefaultValue::Integer(_) => "u32"@,
        DefaultValue::Float(_) => "f32"@,
        DefaultValue::Bool(_) => "bool"@,
    }
}

/// The test of the predicate: equality for integers and booleans,
/// approximate equality for floating-point numbers.
pub open spec fn default_test(d: DefaultValue) -> Seq<char> {
    match d {
        DefaultValue::Float(t) => "approx_eq!(f32, *x, "@ + t@ + ")"@,
        _ => "*x == "@ + default_literal(d),
    }
}

/// A field with a default gets a producer that returns the default's
/// literal and a predicate that compares its argument with that same
/// literal, both named after the field, and the serialization directive of
/// a non-optional scalar field with a default refers to the two by name.
pub proof fn lemma_default_helpers(f: FieldSpec, d: DefaultValue)
    requires
        f.default == Some(d),
        !(f.tag is Array),
    ensures
        field_extra(f) == "fn "@ + f.name@ + "_default() -> "@ + default_type(d) + " { "@
            + default_literal(d) + " }\n"@ + "fn "@ + f.name@ + "_is_default(x: &"@ + default_type(d)
            + ") -> bool { "@ + default_test(d) + " }\n"@,
        !f.optional && !(f.tag is Any) && !(f.tag is Special) ==> directive_of(f)
            == Directive::OmitIfDefault,
        directive_text(Directive::OmitIfDefault, f.name@) == "  #[serde(default = \""@ + f.name@
            + "_default\")]\n"@ + "  #[serde(skip_serializing_if = \""@ + f.name@ + "_is_default\")]\n"@,
{
    assert(field_extra(f) =~= default_helpers(f.name@, d));
}

/// The predicate of an integer or boolean default tests equality with the
/// default's literal, and no other value of the field's type is written as
/// that literal: the producer's value passes the predicate and every other
/// value fails it.
pub proof fn lemma_default_test_exact(d: DefaultValue, w: DefaultValue)
    requires
        (d is Integer && w is Integer) || (d is Bool && w is Bool),
        w != d,
    ensures
        default_test(d) == "*x == "@ + default_literal(d),
        default_literal(w) != default_literal(d),
{
    match (d, w) {
        (DefaultValue::Integer(a), DefaultValue::Integer(b)) => {
            crate::semantic::lemma_dec_digits(a as nat);
            crate::semantic::lemma_dec_digits(b as nat);
        },
        _ => {
            reveal_strlit("true");
            reveal_strlit("false");
            assert("true"@.len() != "false"@.len());
        },
    }
}

} // verus!
