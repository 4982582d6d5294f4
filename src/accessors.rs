use vstd::prelude::*;
use crate::mapper::{accessor_type, concat, concat3, is_optional, map_type};
use crate::naming::{pascal_case, pascal_of};
use crate::schema::{fields_valid, is_visible, single_line, Element, FieldSpec, TypeTag};

verus! {

/// The expression that an accessor method evaluates; `field` is the stored
/// value and `iter` names the sequence type of an array field.
pub open spec fn accessor_body(tag: TypeTag, optional: bool, field: Seq<char>, iter: Seq<char>) -> Seq<char> {
    let opt = is_optional(tag, optional);
    match tag {
        TypeTag::Str => if opt {
            field + ".as_deref()"@
        } else {
            field + ".as_str()"@
        },
        TypeTag::Index(_) => if opt {
            field + ".as_ref().map(|index| self.document.get(index))"@
        } else {
            "self.document.get(&"@ + field + ")"@
        },
        TypeTag::Struct(of) => if opt {
            field + ".as_ref().map(|json| ::"@ + of@ + "::new(self.document, json))"@
        } else {
            "::"@ + of@ + "::new(self.document, &"@ + field + ")"@
        },
        TypeTag::Enum(_) => if opt {
            field + ".as_ref().map(|checked| checked.unwrap())"@
        } else {
            field + ".unwrap()"@
        },
        TypeTag::Array(e) => match e {
            Element::Struct(_) => iter + " { document: self.document, iter: "@ + field
                + ".iter().enumerate() }"@,
            Element::Index(_) => iter + " { document: self.document, iter: "@ + field
                + ".iter() }"@,
            _ => field + ".iter()"@,
        },
        TypeTag::Any => field + ".as_deref()"@,
        _ => field,
    }
}

/// The read method of one visible field.
pub open spec fn method_text(f: FieldSpec) -> Seq<char> {
    let iter = pascal_of(f.name@);
    "  /// "@ + f.docs@ + "\n"@ + "  pub fn "@ + f.name@ + "(&self) -> "@ + accessor_type(
        f.tag,
        f.optional,
        iter,
    ) + " {\n"@ + "    "@ + accessor_body(f.tag, f.optional, "self.json."@ + f.name@, iter)
        + "\n"@ + "  }\n"@
}

/// The read methods of the visible fields, in order.
pub open spec fn methods_text(fs: Seq<FieldSpec>) -> Seq<char>
    decreases fs.len(),
{
    if fs.len() == 0 {
        Seq::empty()
    } else if is_visible(fs.last()) {
        methods_text(fs.drop_last()) + method_text(fs.last())
    } else {
        methods_text(fs.drop_last())
    }
}

/// The head of the accessor type, up to its first method.
pub open spec fn accessor_head(name: Seq<char>, docs: Seq<char>) -> Seq<char> {
    "/// "@ + docs + "\n"@ + "#[derive(Clone, Debug)]\n"@ + "pub struct "@ + name + "<'a> {\n"@
        + "  pub(crate) document: &'a ::Document,\n"@ + "  pub(crate) json: &'a ::json::"@ + name
        + ",\n"@ + "}\n\n"@ + "impl<'a> "@ + name + "<'a> {\n"@
        + "  /// Optional user-defined name for this object.\n"@ + "  #[cfg(feature = \"names\")]\n"@
        + "  pub fn name(&self) -> Option<&str> {\n"@
        + "    self.json.name.as_ref().map(|name| name.as_str())\n"@ + "  }\n"@
        + "  /// Optional application specific data.\n"@ + "  #[cfg(feature = \"extras\")]\n"@
        + "  pub fn extras(&self) -> Option<&::serde_json::value::RawValue> {\n"@
        + "    self.json.extras.as_deref()\n"@ + "  }\n"@
        + "  /// Extension specific data.\n"@
        + "  pub fn extensions(&self) -> Option<&::serde_json::value::RawValue> {\n"@
        + "    self.json.extensions.as_deref()\n"@ + "  }\n"@
}

/// The accessor type of a record unit.
pub open spec fn accessor_text(name: Seq<char>, docs: Seq<char>, fs: Seq<FieldSpec>) -> Seq<char> {
    accessor_head(name, docs) + methods_text(fs) + "}"@
}

fn body_text(tag: &TypeTag, optional: bool, field: &String, iter: &String) -> (r: String)
    ensures
        r@ == accessor_body(*tag, optional, field@, iter@),
{
    let opt = match tag {
        TypeTag::Array(_) | TypeTag::Any | TypeTag::Special(_) => false,
        _ => optional,
    };
    let field = field.as_str();
    match tag {
        TypeTag::Str => if opt {
            concat(field, ".as_deref()")
        } else {
            concat(field, ".as_str()")
        },
        TypeTag::Index(_) => if opt {
            concat(field, ".as_ref().map(|index| self.document.get(index))")
        } else {
            concat3("self.document.get(&", field, ")")
        },
        TypeTag::Struct(of) => if opt {
            let mut r = concat(field, ".as_ref().map(|json| ::");
            r.append(of.as_str());
            r.append("::new(self.document, json))");
            r
        } else {
            let mut r = concat3("::", of.as_str(), "::new(self.document, &");
            r.append(field);
            r.append(")");
            r
        },
        TypeTag::Enum(_) => if opt {
            concat(field, ".as_ref().map(|checked| checked.unwrap())")
        } else {
            concat(field, ".unwrap()")
        },
        TypeTag::Array(e) => match e {
            Element::Struct(_) => {
                let mut r = concat(iter.as_str(), " { document: self.document, iter: ");
                r.append(field);
                r.append(".iter().enumerate() }");
                r
            },
            Element::Index(_) => {
                let mut r = concat(iter.as_str(), " { document: self.document, iter: ");
                r.append(field);
                r.append(".iter() }");
                r
            },
            _ => concat(field, ".iter()"),
        },
        TypeTag::Any => concat(field, ".as_deref()"),
        _ => String::from_str(field),
    }
}

fn method(f: &FieldSpec) -> (r: String)
    ensures
        r@ == method_text(*f),
{
    let rule = map_type(f);
    let iter = pascal_case(f.name.as_str());
    let field = concat("self.json.", f.name.as_str());
    let body = body_text(&f.tag, f.optional, &field, &iter);
    let mut r = concat3("  /// ", f.docs.as_str(), "\n");
    r.append("  pub fn ");
    r.append(f.name.as_str());
    r.append("(&self) -> ");
    r.append(rule.accessor.as_str());
    r.append(" {\n");
    r.append("    ");
    r.append(body.as_str());
    r.append("\n");
    r.append("  }\n");
    r
}

fn visible(f: &FieldSpec) -> (r: bool)
    ensures
        r == is_visible(*f),
{
    match &f.tag {
        TypeTag::Special(_) => false,
        _ => !f.hidden,
    }
}

/// Renders the accessor type of a record unit: one read method per visible
/// field, in field order; hidden and `Special` fields get none.
pub fn write_struct_accessor(
    output: &mut String,
    name: &String,
    docs: &String,
    fields: &Vec<FieldSpec>,
)
    requires
        single_line(docs@),
        fields_valid(fields@),
    ensures
        final(output)@ == old(output)@ + accessor_text(name@, docs@, fields@),
{
    let mut r = concat3("/// ", docs.as_str(), "\n");
    r.append("#[derive(Clone, Debug)]\n");
    r.append("pub struct ");
    r.append(name.as_str());
    r.append("<'a> {\n");
    r.append("  pub(crate) document: &'a ::Document,\n");
    r.append("  pub(crate) json: &'a ::json::");
    r.append(name.as_str());
    r.append(",\n");
    r.append("}\n\n");
    r.append("impl<'a> ");
    r.append(name.as_str());
    r.append("<'a> {\n");
    r.append("  /// Optional user-defined name for this object.\n");
    r.append("  #[cfg(feature = \"names\")]\n");
    r.append("  pub fn name(&self) -> Option<&str> {\n");
    r.append("    self.json.name.as_ref().map(|name| name.as_str())\n");
    r.append("  }\n");
    r.append("  /// Optional application specific data.\n");
    r.append("  #[cfg(feature = \"extras\")]\n");
    r.append("  pub fn extras(&self) -> Option<&::serde_json::value::RawValue> {\n");
    r.append("    self.json.extras.as_deref()\n");
    r.append("  }\n");
    r.append("  /// Extension specific data.\n");
    r.append("  pub fn extensions(&self) -> Option<&::serde_json::value::RawValue> {\n");
    r.append("    self.json.extensions.as_deref()\n");
    r.append("  }\n");
    proof {
        assert(r@ =~= accessor_head(name@, docs@));
        assert(fields@.take(0) =~= Seq::<FieldSpec>::empty());
    }
    let mut i: usize = 0;
    while i < fields.len()
        invariant
            i <= fields@.len(),
            r@ == accessor_head(name@, docs@) + methods_text(fields@.take(i as int)),
        decreases fields@.len() - i,
    {
        let f = &fields[i];
        proof {
            assert(fields@.take(i as int + 1).drop_last() =~= fields@.take(i as int));
        }
        if visible(f) {
            let m = method(f);
            r.append(m.as_str());
        }
        i = i + 1;
    }
    proof {
        assert(fields@.take(i as int) =~= fields@);
    }
    r.append("}");
    output.append(r.as_str());
}

/// The pieces, one after another.
pub open spec fn concat_all(ss: Seq<Seq<char>>) -> Seq<char>
    decreases ss.len(),
{
    if ss.len() == 0 {
        Seq::empty()
    } else {
        concat_all(ss.drop_last()) + ss.last()
    }
}

/// The methods of the accessor type are exactly one read method per visible
/// field, in field order: hidden and `Special` fields get none, and each
/// method returns the accessor type that the type mapper gives the field.
pub proof fn lemma_accessor_methods(fs: Seq<FieldSpec>)
    ensures
        methods_text(fs) == concat_all(
            fs.filter(|f: FieldSpec| is_visible(f)).map_values(|f: FieldSpec| method_text(f)),
        ),
    decreases fs.len(),
{
    let vis = |f: FieldSpec| is_visible(f);
    let m = |f: FieldSpec| method_text(f);
    if fs.len() == 0 {
        reveal(Seq::filter);
        assert(fs.filter(vis).map_values(m) =~= Seq::<Seq<char>>::empty());
    } else {
        let p = fs.drop_last();
        lemma_accessor_methods(p);
        assert(p.push(fs.last()) =~= fs);
        p.lemma_filter_push(fs.last(), vis);
        if is_visible(fs.last()) {
            assert(p.filter(vis).push(fs.last()).map_values(m) =~= p.filter(vis).map_values(m).push(
                method_text(fs.last()),
            ));
            assert(p.filter(vis).map_values(m).push(method_text(fs.last())).drop_last()
                =~= p.filter(vis).map_values(m));
        }
    }
}

} // verus!
