use vstd::prelude::*;
use crate::checked::Checked;
use crate::mapper::{concat, concat3};
use crate::schema::{
    literal_eq, literals_unique, same_literal, single_line, variants_valid, Encoding, Literal,
    VariantSpec,
};
use crate::text::{dec, escaped, push_decimal, push_escaped};

verus! {

/// The source text of a literal: a quoted, escaped string or a decimal
/// integer.
pub open spec fn literal_text(l: Literal) -> Seq<char> {
    match l {
        Literal::Str(s) => "\""@ + escaped(s@) + "\""@,
        Literal::Int(k) => dec(k as nat),
    }
}

/// The discriminant of the variant at position `i`: its 1-based position
/// for a string encoding, its literal for an integer encoding.
pub open spec fn discriminant(enc: Encoding, i: nat, l: Literal) -> nat {
    match (enc, l) {
        (Encoding::Int, Literal::Int(k)) => k as nat,
        _ => i + 1,
    }
}

pub open spec fn variant_decl(enc: Encoding, i: nat, v: VariantSpec) -> Seq<char> {
    "  /// "@ + v.docs@ + "\n"@ + "  "@ + v.name@ + " = "@ + dec(discriminant(enc, i, v.literal))
        + ",\n"@
}

pub open spec fn variant_decls(enc: Encoding, vs: Seq<VariantSpec>) -> Seq<char>
    decreases vs.len(),
{
    if vs.len() == 0 {
        Seq::empty()
    } else {
        variant_decls(enc, vs.drop_last()) + variant_decl(enc, (vs.len() - 1) as nat, vs.last())
    }
}

/// The match arm that decodes one variant.
pub open spec fn decode_arm(name: Seq<char>, v: VariantSpec) -> Seq<char> {
    "            "@ + literal_text(v.literal) + " => Checked::Valid("@ + name + "::"@ + v.name@
        + "),\n"@
}

pub open spec fn decode_arms(name: Seq<char>, vs: Seq<VariantSpec>) -> Seq<char>
    decreases vs.len(),
{
    if vs.len() == 0 {
        Seq::empty()
    } else {
        decode_arms(name, vs.drop_last()) + decode_arm(name, vs.last())
    }
}

/// The match arm that encodes one variant.
pub open spec fn encode_arm(name: Seq<char>, v: VariantSpec) -> Seq<char> {
    "      "@ + name + "::"@ + v.name@ + " => "@ + literal_text(v.literal) + ",\n"@
}

pub open spec fn encode_arms(name: Seq<char>, vs: Seq<VariantSpec>) -> Seq<char>
    decreases vs.len(),
{
    if vs.len() == 0 {
        Seq::empty()
    } else {
        encode_arms(name, vs.drop_last()) + encode_arm(name, vs.last())
    }
}

/// The wire-dependent words of the generated codec.
pub open spec fn wire_words(enc: Encoding) -> (Seq<char>, Seq<char>, Seq<char>, Seq<char>) {
    match enc {
        Encoding::Str => (
            "      fn visit_str<E>(self, value: &str) -> Result<Self::Value, E>\n"@,
            "    deserializer.deserialize_str(Visitor)\n"@,
            "  /// Returns the equivalent string value.\n"@ + "  pub fn as_str(&self) -> &'static str {\n"@,
            "    serializer.serialize_str(self.as_str())\n"@,
        ),
        Encoding::Int => (
            "      fn visit_u64<E>(self, value: u64) -> Result<Self::Value, E>\n"@,
            "    deserializer.deserialize_u64(Visitor)\n"@,
            "  /// Returns the equivalent GLenum value.\n"@ + "  pub fn as_gl_enum(&self) -> u32 {\n"@,
            "    serializer.serialize_u32(self.as_gl_enum())\n"@,
        ),
    }
}

/// The declaration of an enumeration unit and its codec.
pub open spec fn enum_text(name: Seq<char>, docs: Seq<char>, enc: Encoding, vs: Seq<VariantSpec>) -> Seq<char> {
    let (visit, call, as_head, ser) = wire_words(enc);
    "/// "@ + docs + "\n"@ + "#[derive(Clone, Copy, Debug, Eq, Hash, PartialEq)]\n"@ + "pub enum "@
        + name + " {\n"@ + variant_decls(enc, vs) + "}\n\n"@
        + "impl<'de> ::serde::de::Deserialize<'de> for Checked<"@ + name + "> {\n"@
        + "  fn deserialize<D>(deserializer: D) -> Result<Self, D::Error>\n"@
        + "    where D: ::serde::de::Deserializer<'de>\n"@ + "  {\n"@ + "    struct Visitor;\n"@
        + "    impl<'de> ::serde::de::Visitor<'de> for Visitor {\n"@ + "      type Value = Checked<"@
        + name + ">;\n"@
        + "      fn expecting(&self, f: &mut ::std::fmt::Formatter) -> ::std::fmt::Result {\n"@
        + "        f.write_str(\""@ + name + "\")\n"@ + "      }\n"@ + visit
        + "        where E: ::serde::de::Error\n"@ + "      {\n"@ + "        Ok(\n"@
        + "          match value {\n"@ + decode_arms(name, vs) + "            _ => Checked::Invalid,\n"@
        + "          }\n"@ + "        )\n"@ + "      }\n"@ + "    }\n"@ + call + "  }\n"@ + "}\n\n"@
        + "impl "@ + name + " {\n"@ + as_head + "    match *self {\n"@ + encode_arms(name, vs)
        + "    }\n"@ + "  }\n"@ + "}\n\n"@ + "impl ::serde::ser::Serialize for "@ + name + " {\n"@
        + "  fn serialize<S>(&self, serializer: S) -> Result<S::Ok, S::Error>\n"@
        + "    where S: ::serde::ser::Serializer\n"@ + "  {\n"@ + ser + "  }\n"@ + "}"@
}

/// The position of the first variant whose literal is `lit`, searching
/// from position `k`.
pub open spec fn decode_from(vs: Seq<VariantSpec>, lit: Literal, k: int) -> Checked<int>
    decreases vs.len() - k,
{
    if k < 0 || k >= vs.len() {
        Checked::Invalid
    } else if same_literal(vs[k].literal, lit) {
        Checked::Valid(k)
    } else {
        decode_from(vs, lit, k + 1)
    }
}

/// What the generated codec decodes a literal to: the first variant that
/// declares it, or `Invalid`.
pub open spec fn decoded(vs: Seq<VariantSpec>, lit: Literal) -> Checked<int> {
    decode_from(vs, lit, 0)
}

/// Decodes a wire literal against the declared variants, as the generated
/// codec does: the position of the matching variant, or `Invalid`.
pub fn decode(variants: &Vec<VariantSpec>, lit: &Literal) -> (r: Checked<usize>)
    ensures
        match r {
            Checked::Valid(i) => decoded(variants@, *lit) == Checked::Valid(i as int),
            Checked::Invalid => decoded(variants@, *lit) == Checked::<int>::Invalid,
        },
{
    let mut k: usize = 0;
    while k < variants.len()
        invariant
            k <= variants@.len(),
            decoded(variants@, *lit) == decode_from(variants@, *lit, k as int),
        decreases variants@.len() - k,
    {
        if literal_eq(&variants[k].literal, lit) {
            return Checked::Valid(k);
        }
        k = k + 1;
    }
    Checked::Invalid
}

/// The literal that the generated codec writes for the variant at `i`.
pub fn encode(variants: &Vec<VariantSpec>, i: usize) -> (r: &Literal)
    requires
        i < variants@.len(),
    ensures
        *r == variants@[i as int].literal,
{
    &variants[i].literal
}

proof fn lemma_decode_from_declared(vs: Seq<VariantSpec>, i: int, k: int)
    requires
        literals_unique(vs),
        0 <= k <= i < vs.len(),
    ensures
        decode_from(vs, vs[i].literal, k) == Checked::Valid(i),
    decreases i - k,
{
    if k < i {
        assert(!same_literal(vs[k].literal, vs[i].literal));
        lemma_decode_from_declared(vs, i, k + 1);
    }
}

proof fn lemma_decode_from_undeclared(vs: Seq<VariantSpec>, lit: Literal, k: int)
    requires
        0 <= k,
        forall|j: int| 0 <= j < vs.len() ==> !same_literal(#[trigger] vs[j].literal, lit),
    ensures
        decode_from(vs, lit, k) == Checked::<int>::Invalid,
    decreases vs.len() - k,
{
    if k < vs.len() {
        lemma_decode_from_undeclared(vs, lit, k + 1);
    }
}

/// Decoding the literal that encodes a declared variant gives that variant
/// back, for every enumeration whose literals are unique.
pub proof fn lemma_decode_encode(vs: Seq<VariantSpec>, i: int)
    requires
        literals_unique(vs),
        0 <= i < vs.len(),
    ensures
        decoded(vs, vs[i].literal) == Checked::Valid(i),
{
    lemma_decode_from_declared(vs, i, 0);
}

/// A literal that no variant declares decodes to `Invalid`.
pub proof fn lemma_decode_undeclared(vs: Seq<VariantSpec>, lit: Literal)
    requires
        forall|j: int| 0 <= j < vs.len() ==> !same_literal(#[trigger] vs[j].literal, lit),
    ensures
        decoded(vs, lit) == Checked::<int>::Invalid,
{
    lemma_decode_from_undeclared(vs, lit, 0);
}

fn literal_source(l: &Literal) -> (r: String)
    ensures
        r@ == literal_text(*l),
{
    match l {
        Literal::Str(s) => {
            let mut r = String::from_str("\"");
            push_escaped(&mut r, s.as_str());
            r.append("\"");
            r
        },
        Literal::Int(k) => {
            let mut r = String::new();
            push_decimal(&mut r, *k as u64);
            assert(r@ =~= dec(*k as nat));
            r
        },
    }
}

fn wire_text(enc: Encoding) -> (r: (&'static str, &'static str, String, &'static str))
    ensures
        (r.0@, r.1@, r.2@, r.3@) == wire_words(enc),
{
    match enc {
        Encoding::Str => (
            "      fn visit_str<E>(self, value: &str) -> Result<Self::Value, E>\n",
            "    deserializer.deserialize_str(Visitor)\n",
            concat("  /// Returns the equivalent string value.\n", "  pub fn as_str(&self) -> &'static str {\n"),
            "    serializer.serialize_str(self.as_str())\n",
        ),
        Encoding::Int => (
            "      fn visit_u64<E>(self, value: u64) -> Result<Self::Value, E>\n",
            "    deserializer.deserialize_u64(Visitor)\n",
            concat("  /// Returns the equivalent GLenum value.\n", "  pub fn as_gl_enum(&self) -> u32 {\n"),
            "    serializer.serialize_u32(self.as_gl_enum())\n",
        ),
    }
}

fn discriminant_of(enc: Encoding, i: usize, l: &Literal) -> (r: u64)
    requires
        i < usize::MAX,
    ensures
        r as nat == discriminant(enc, i as nat, *l),
{
    match (enc, l) {
        (Encoding::Int, Literal::Int(k)) => *k as u64,
        _ => i as u64 + 1,
    }
}

fn write_enum(output: &mut String, name: &String, docs: &String, enc: Encoding, variants: &Vec<VariantSpec>)
    requires
        single_line(docs@),
        variants_valid(enc, variants@),
    ensures
        final(output)@ == old(output)@ + enum_text(name@, docs@, enc, variants@),
{
    let (visit, call, as_head, ser) = wire_text(enc);
    let n = name.as_str();
    let mut decls = String::new();
    let mut dec_arms = String::new();
    let mut enc_arms = String::new();
    proof {
        assert(variants@.take(0) =~= Seq::<VariantSpec>::empty());
    }
    let mut i: usize = 0;
    while i < variants.len()
        invariant
            i <= variants@.len(),
            n@ == name@,
            decls@ == variant_decls(enc, variants@.take(i as int)),
            dec_arms@ == decode_arms(name@, variants@.take(i as int)),
            enc_arms@ == encode_arms(name@, variants@.take(i as int)),
        decreases variants@.len() - i,
    {
        let v = &variants[i];
        let lit = literal_source(&v.literal);
        let mut d = concat3("  /// ", v.docs.as_str(), "\n");
        d.append("  ");
        d.append(v.name.as_str());
        d.append(" = ");
        push_decimal(&mut d, discriminant_of(enc, i, &v.literal));
        d.append(",\n");
        decls.append(d.as_str());
        let mut a = concat("            ", lit.as_str());
        a.append(" => Checked::Valid(");
        a.append(n);
        a.append("::");
        a.append(v.name.as_str());
        a.append("),\n");
        dec_arms.append(a.as_str());
        let mut e = concat3("      ", n, "::");
        e.append(v.name.as_str());
        e.append(" => ");
        e.append(lit.as_str());
        e.append(",\n");
        enc_arms.append(e.as_str());
        proof {
            let t = variants@.take(i as int + 1);
            assert(t.drop_last() =~= variants@.take(i as int));
            assert(t.last() == variants@[i as int]);
        }
        i = i + 1;
    }
    proof {
        assert(variants@.take(i as int) =~= variants@);
    }
    let mut x = concat3("/// ", docs.as_str(), "\n");
    x.append("#[derive(Clone, Copy, Debug, Eq, Hash, PartialEq)]\n");
    x.append("pub enum ");
    x.append(n);
    x.append(" {\n");
    x.append(decls.as_str());
    x.append("}\n\n");
    x.append("impl<'de> ::serde::de::Deserialize<'de> for Checked<");
    x.append(n);
    x.append("> {\n");
    x.append("  fn deserialize<D>(deserializer: D) -> Result<Self, D::Error>\n");
    x.append("    where D: ::serde::de::Deserializer<'de>\n");
    x.append("  {\n");
    x.append("    struct Visitor;\n");
    x.append("    impl<'de> ::serde::de::Visitor<'de> for Visitor {\n");
    x.append("      type Value = Checked<");
    x.append(n);
    x.append(">;\n");
    x.append("      fn expecting(&self, f: &mut ::std::fmt::Formatter) -> ::std::fmt::Result {\n");
    x.append("        f.write_str(\"");
    x.append(n);
    x.append("\")\n");
    x.append("      }\n");
    x.append(visit);
    x.append("        where E: ::serde::de::Error\n");
    x.append("      {\n");
    x.append("        Ok(\n");
    x.append("          match value {\n");
    x.append(dec_arms.as_str());
    x.append("            _ => Checked::Invalid,\n");
    x.append("          }\n");
    x.append("        )\n");
    x.append("      }\n");
    x.append("    }\n");
    x.append(call);
    x.append("  }\n");
    x.append("}\n\n");
    x.append("impl ");
    x.append(n);
    x.append(" {\n");
    x.append(as_head.as_str());
    x.append("    match *self {\n");
    x.append(enc_arms.as_str());
    x.append("    }\n");
    x.append("  }\n");
    x.append("}\n\n");
    x.append("impl ::serde::ser::Serialize for ");
    x.append(n);
    x.append(" {\n");
    x.append("  fn serialize<S>(&self, serializer: S) -> Result<S::Ok, S::Error>\n");
    x.append("    where S: ::serde::ser::Serializer\n");
    x.append("  {\n");
    x.append(ser);
    x.append("  }\n");
    x.append("}");
    output.append(x.as_str());
}

/// Renders a string-encoded enumeration: discriminants are 1-based
/// positions, and the codec maps each declared string to its variant.
pub fn write_string_enum(output: &mut String, name: &String, docs: &String, variants: &Vec<VariantSpec>)
    requires
        single_line(docs@),
        variants_valid(Encoding::Str, variants@),
    ensures
        final(output)@ == old(output)@ + enum_text(name@, docs@, Encoding::Str, variants@),
{
    write_enum(output, name, docs, Encoding::Str, variants)
}

/// Renders an integer-encoded enumeration: discriminants are the declared
/// integers, and the codec maps each declared integer to its variant.
pub fn write_integer_enum(output: &mut String, name: &String, docs: &String, variants: &Vec<VariantSpec>)
    requires
        single_line(docs@),
        variants_valid(Encoding::Int, variants@),
    ensures
        final(output)@ == old(output)@ + enum_text(name@, docs@, Encoding::Int, variants@),
{
    write_enum(output, name, docs, Encoding::Int, variants)
}

/// What the generated decoder of an integer-encoded enumeration gives for
/// a wire value: it matches the whole `u64` against the declared literals.
pub open spec fn decoded_wire(vs: Seq<VariantSpec>, n: u64) -> Checked<int> {
    if n <= u32::MAX {
        decoded(vs, Literal::Int(n as u32))
    } else {
        Checked::Invalid
    }
}

/// A wire value that no variant declares decodes to `Invalid`, including
/// values too large for any declared literal.
pub proof fn lemma_wire_undeclared(vs: Seq<VariantSpec>, n: u64)
    requires
        forall|j: int| 0 <= j < vs.len() ==> (#[trigger] vs[j].literal) != Literal::Int(n as u32)
            || n > u32::MAX,
    ensures
        decoded_wire(vs, n) == Checked::<int>::Invalid,
{
    if n <= u32::MAX {
        assert forall|j: int| 0 <= j < vs.len() implies !same_literal(
            #[trigger] vs[j].literal,
            Literal::Int(n as u32),
        ) by {
            assert(vs[j].literal != Literal::Int(n as u32));
        }
        lemma_decode_undeclared(vs, Literal::Int(n as u32));
    }
}

} // verus!
