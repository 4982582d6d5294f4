use vstd::prelude::*;
use crate::checked::Checked;
use crate::text::{dec, digit_char, push_decimal};

verus! {

/// Vertex attribute semantic name.
#[derive(Clone, Copy, Debug, PartialEq, Eq, Structural)]
pub enum Semantic {
    /// XYZ vertex positions.
    Positions,
    /// XYZ vertex normals.
    Normals,
    /// XYZW vertex tangents where the `w` component is a sign value
    /// indicating the handedness of the tangent basis.
    Tangents,
    /// RGB or RGBA vertex color.
    Colors(u32),
    /// UV texture co-ordinates.
    TexCoords(u32),
    /// Joint indices.
    Joints(u32),
    /// Joint weights.
    Weights(u32),
}

pub open spec fn is_digit(c: char) -> bool {
    '0' <= c && c <= '9'
}

/// The value of a run of decimal digits.
pub open spec fn digits_value(s: Seq<char>) -> nat
    decreases s.len(),
{
    if s.len() == 0 {
        0
    } else {
        (digits_value(s.drop_last()) * 10 + (s.last() as int - 48)) as nat
    }
}

/// The text after an optional leading `+`.
pub open spec fn unsigned_part(s: Seq<char>) -> Seq<char> {
    if s.len() > 0 && s[0] == '+' {
        s.skip(1)
    } else {
        s
    }
}

pub open spec fn all_digits(d: Seq<char>) -> bool {
    forall|i: int| 0 <= i < d.len() ==> is_digit(#[trigger] d[i])
}

/// A `u32` in decimal notation: an optional `+`, then one or more digits
/// whose value fits.
pub open spec fn parse_u32(s: Seq<char>) -> Option<u32> {
    let d = unsigned_part(s);
    if d.len() > 0 && all_digits(d) && digits_value(d) <= u32::MAX {
        Some(digits_value(d) as u32)
    } else {
        None
    }
}

pub open spec fn has_prefix(s: Seq<char>, p: Seq<char>) -> bool {
    s.len() >= p.len() && s.take(p.len() as int) == p
}

/// A numbered semantic, or `Invalid` when the number does not parse.
pub open spec fn numbered(n: Option<u32>, make: spec_fn(u32) -> Semantic) -> Checked<Semantic> {
    match n {
        Some(k) => Checked::Valid(make(k)),
        None => Checked::Invalid,
    }
}

/// The semantic that a name denotes.
pub open spec fn semantic_of(s: Seq<char>) -> Checked<Semantic> {
    if s == "NORMAL"@ {
        Checked::Valid(Semantic::Normals)
    } else if s == "POSITION"@ {
        Checked::Valid(Semantic::Positions)
    } else if s == "TANGENT"@ {
        Checked::Valid(Semantic::Tangents)
    } else if has_prefix(s, "COLOR_"@) {
        numbered(parse_u32(s.skip("COLOR_"@.len() as int)), |k: u32| Semantic::Colors(k))
    } else if has_prefix(s, "TEXCOORD_"@) {
        numbered(parse_u32(s.skip("TEXCOORD_"@.len() as int)), |k: u32| Semantic::TexCoords(k))
    } else if has_prefix(s, "JOINTS_"@) {
        numbered(parse_u32(s.skip("JOINTS_"@.len() as int)), |k: u32| Semantic::Joints(k))
    } else if has_prefix(s, "WEIGHTS_"@) {
        numbered(parse_u32(s.skip("WEIGHTS_"@.len() as int)), |k: u32| Semantic::Weights(k))
    } else {
        Checked::Invalid
    }
}

/// The name of a semantic.
pub open spec fn semantic_name(s: Semantic) -> Seq<char> {
    match s {
        Semantic::Positions => "POSITION"@,
        Semantic::Normals => "NORMAL"@,
        Semantic::Tangents => "TANGENT"@,
        Semantic::Colors(k) => "COLOR_"@ + dec(k as nat),
        Semantic::TexCoords(k) => "TEXCOORD_"@ + dec(k as nat),
        Semantic::Joints(k) => "JOINTS_"@ + dec(k as nat),
        Semantic::Weights(k) => "WEIGHTS_"@ + dec(k as nat),
    }
}

fn str_eq(a: &str, b: &str) -> (r: bool)
    ensures
        r == (a@ == b@),
{
    String::from_str(a) == String::from_str(b)
}

/// The rest of `s` after the prefix `p`, if `s` starts with it.
fn strip_prefix<'a>(s: &'a str, p: &str) -> (r: Option<&'a str>)
    ensures
        match r {
            Some(rest) => has_prefix(s@, p@) && rest@ == s@.skip(p@.len() as int),
            None => !has_prefix(s@, p@),
        },
{
    let n = s.unicode_len();
    let m = p.unicode_len();
    if n < m {
        return None;
    }
    if str_eq(s.substring_char(0, m), p) {
        Some(s.substring_char(m, n))
    } else {
        None
    }
}

/// Parses a `u32` written in decimal, with an optional leading `+`.
pub fn parse_decimal(s: &str) -> (r: Option<u32>)
    ensures
        r == parse_u32(s@),
{
    let n = s.unicode_len();
    let start: usize = if n > 0 && s.get_char(0) == '+' {
        1
    } else {
        0
    };
    let ghost d = s@.skip(start as int);
    proof {
        assert(d =~= unsigned_part(s@));
    }
    if start >= n {
        return None;
    }
    let mut acc: u64 = 0;
    let mut over = false;
    let mut i: usize = start;
    while i < n
        invariant
            n == s@.len(),
            start <= i <= n,
            d == s@.skip(start as int),
            d == unsigned_part(s@),
            d.len() == n - start,
            forall|k: int| 0 <= k < i - start ==> is_digit(#[trigger] d[k]),
            over ==> digits_value(d.take(i - start)) > u32::MAX,
            !over ==> acc == digits_value(d.take(i - start)) && acc <= u32::MAX,
        decreases n - i,
    {
        let c = s.get_char(i);
        if !('0' <= c && c <= '9') {
            proof {
                assert(d[i - start] == c);
                assert(!is_digit(d[i - start]));
                assert(!(forall|k: int| 0 <= k < d.len() ==> is_digit(#[trigger] d[k])));
            }
            return None;
        }
        let ghost t = d.take(i - start + 1);
        proof {
            assert(t.drop_last() =~= d.take(i - start));
            assert(t.last() == c);
        }
        if !over {
            let v = acc * 10 + (c as u32 - 48) as u64;
            if v > 0xffff_ffff {
                over = true;
            } else {
                acc = v;
            }
        }
        i = i + 1;
    }
    proof {
        assert(d.take(n - start) =~= d);
    }
    if over {
        None
    } else {
        Some(acc as u32)
    }
}

impl Semantic {
    /// The semantic that a name denotes, or `Invalid`.
    pub fn checked(s: &str) -> (r: Checked<Semantic>)
        ensures
            r == semantic_of(s@),
    {
        if str_eq(s, "NORMAL") {
            Checked::Valid(Semantic::Normals)
        } else if str_eq(s, "POSITION") {
            Checked::Valid(Semantic::Positions)
        } else if str_eq(s, "TANGENT") {
            Checked::Valid(Semantic::Tangents)
        } else if let Some(rest) = strip_prefix(s, "COLOR_") {
            match parse_decimal(rest) {
                Some(k) => Checked::Valid(Semantic::Colors(k)),
                None => Checked::Invalid,
            }
        } else if let Some(rest) = strip_prefix(s, "TEXCOORD_") {
            match parse_decimal(rest) {
                Some(k) => Checked::Valid(Semantic::TexCoords(k)),
                None => Checked::Invalid,
            }
        } else if let Some(rest) = strip_prefix(s, "JOINTS_") {
            match parse_decimal(rest) {
                Some(k) => Checked::Valid(Semantic::Joints(k)),
                None => Checked::Invalid,
            }
        } else if let Some(rest) = strip_prefix(s, "WEIGHTS_") {
            match parse_decimal(rest) {
                Some(k) => Checked::Valid(Semantic::Weights(k)),
                None => Checked::Invalid,
            }
        } else {
            Checked::Invalid
        }
    }

    /// The name of the semantic.
    pub fn to_string(&self) -> (r: String)
        ensures
            r@ == semantic_name(*self),
    {
        let (prefix, k) = match *self {
            Semantic::Positions => return String::from_str("POSITION"),
            Semantic::Normals => return String::from_str("NORMAL"),
            Semantic::Tangents => return String::from_str("TANGENT"),
            Semantic::Colors(k) => ("COLOR_", k),
            Semantic::TexCoords(k) => ("TEXCOORD_", k),
            Semantic::Joints(k) => ("JOINTS_", k),
            Semantic::Weights(k) => ("WEIGHTS_", k),
        };
        let mut r = String::from_str(prefix);
        push_decimal(&mut r, k as u64);
        r
    }
}

impl Checked<Semantic> {
    /// The name of a recognised semantic, or a placeholder.
    pub fn to_string(&self) -> (r: String)
        ensures
            match *self {
                Checked::Valid(s) => r@ == semantic_name(s),
                Checked::Invalid => r@ == "<invalid semantic name>"@,
            },
    {
        match self {
            Checked::Valid(s) => s.to_string(),
            Checked::Invalid => String::from_str("<invalid semantic name>"),
        }
    }
}

proof fn lemma_digit_char(d: nat)
    requires
        d < 10,
    ensures
        digit_char(d) as int - 48 == d,
        is_digit(digit_char(d)),
{
}

pub(crate) proof fn lemma_dec_digits(n: nat)
    ensures
        dec(n).len() > 0,
        all_digits(dec(n)),
        digits_value(dec(n)) == n,
    decreases n,
{
    lemma_digit_char(n % 10);
    if n < 10 {
        assert(dec(n).drop_last() =~= Seq::<char>::empty());
        assert(digits_value(Seq::<char>::empty()) == 0);
    } else {
        lemma_dec_digits(n / 10);
        let d = dec(n);
        assert(d.drop_last() =~= dec(n / 10));
        assert(d.last() == digit_char(n % 10));
        assert(n == (n / 10) * 10 + n % 10);
        assert forall|i: int| 0 <= i < d.len() implies is_digit(#[trigger] d[i]) by {
            if i < d.len() - 1 {
                assert(d[i] == dec(n / 10)[i]);
            }
        }
    }
}

proof fn lemma_numbered(p: Seq<char>, k: u32)
    requires
        p.len() > 0,
    ensures
        has_prefix(p + dec(k as nat), p),
        parse_u32((p + dec(k as nat)).skip(p.len() as int)) == Some(k),
{
    lemma_dec_digits(k as nat);
    let s = p + dec(k as nat);
    assert(s.take(p.len() as int) =~= p);
    assert(s.skip(p.len() as int) =~= dec(k as nat));
    assert(unsigned_part(dec(k as nat)) == dec(k as nat));
}

/// Reading back the name of a semantic gives the same semantic.
pub proof fn lemma_semantic_round_trip(s: Semantic)
    ensures
        semantic_of(semantic_name(s)) == Checked::Valid(s),
{
    reveal_strlit("NORMAL");
    reveal_strlit("POSITION");
    reveal_strlit("TANGENT");
    reveal_strlit("COLOR_");
    reveal_strlit("TEXCOORD_");
    reveal_strlit("JOINTS_");
    reveal_strlit("WEIGHTS_");
    let n = semantic_name(s);
    match s {
        Semantic::Colors(k) => {
            lemma_numbered("COLOR_"@, k);
            assert(n[0] == 'C');
        },
        Semantic::TexCoords(k) => {
            lemma_numbered("TEXCOORD_"@, k);
            assert(n[0] == 'T' && n[1] == 'E');
        },
        Semantic::Joints(k) => {
            lemma_numbered("JOINTS_"@, k);
            assert(n[0] == 'J');
        },
        Semantic::Weights(k) => {
            lemma_numbered("WEIGHTS_"@, k);
            assert(n[0] == 'W');
        },
        _ => {},
    }
}

} // verus!
