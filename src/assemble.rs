use vstd::prelude::*;
use crate::accessors::{accessor_text, write_struct_accessor};
use crate::enums::{enum_text, write_integer_enum, write_string_enum};
use crate::records::{struct_text, write_struct};
use crate::schema::{unit_valid, Body, Encoding, SchemaUnit};

verus! {

/// A module path with each `::` separator turned into the end of one
/// module header and the start of the next.
pub open spec fn open_path(s: Seq<char>) -> Seq<char>
    decreases s.len(),
{
    if s.len() == 0 {
        Seq::empty()
    } else if s.len() >= 2 && s[0] == ':' && s[1] == ':' {
        " {\npub mod "@ + open_path(s.skip(2))
    } else {
        seq![s[0]] + open_path(s.skip(1))
    }
}

/// The number of `::` separators in a module path, read left to right.
pub open spec fn separators(s: Seq<char>) -> nat
    decreases s.len(),
{
    if s.len() == 0 {
        0
    } else if s.len() >= 2 && s[0] == ':' && s[1] == ':' {
        1 + separators(s.skip(2))
    } else {
        separators(s.skip(1))
    }
}

pub open spec fn closers(n: nat) -> Seq<char>
    decreases n,
{
    if n == 0 {
        Seq::empty()
    } else {
        closers((n - 1) as nat) + "}\n"@
    }
}

pub open spec fn blocks_text(bs: Seq<Seq<char>>) -> Seq<char>
    decreases bs.len(),
{
    if bs.len() == 0 {
        Seq::empty()
    } else {
        blocks_text(bs.drop_last()) + bs.last() + "\n"@
    }
}

/// The blocks, each on its own lines, nested in one module per path
/// segment; unwrapped when there is no path.
pub open spec fn module_text(module: Option<Seq<char>>, bs: Seq<Seq<char>>) -> Seq<char> {
    match module {
        None => blocks_text(bs),
        Some(m) => "pub mod "@ + open_path(m) + " {\n"@ + blocks_text(bs) + closers(separators(m) + 1),
    }
}

pub open spec fn views(bs: Seq<String>) -> Seq<Seq<char>> {
    bs.map_values(|b: String| b@)
}

/// Writes the module headers of a path.
fn push_open_path(out: &mut String, m: &str)
    ensures
        final(out)@ == old(out)@ + open_path(m@),
{
    let n = m.unicode_len();
    let mut i: usize = 0;
    proof {
        assert(m@.skip(0) =~= m@);
    }
    while i < n
        invariant
            n == m@.len(),
            i <= n,
            out@ + open_path(m@.skip(i as int)) =~= old(out)@ + open_path(m@),
        decreases n - i,
    {
        let ghost rest = m@.skip(i as int);
        if i + 1 < n && m.get_char(i) == ':' && m.get_char(i + 1) == ':' {
            proof {
                assert(rest.skip(2) =~= m@.skip(i as int + 2));
                assert(out@ + " {\npub mod "@ + open_path(m@.skip(i as int + 2))
                    =~= out@ + open_path(rest));
            }
            out.append(" {\npub mod ");
            i = i + 2;
        } else {
            proof {
                assert(rest.skip(1) =~= m@.skip(i as int + 1));
                assert(m@.subrange(i as int, i as int + 1) =~= seq![rest[0]]);
                assert(out@ + m@.subrange(i as int, i as int + 1) + open_path(m@.skip(i as int + 1))
                    =~= out@ + open_path(rest));
            }
            out.append(m.substring_char(i, i + 1));
            i = i + 1;
        }
    }
    proof {
        assert(m@.skip(i as int) =~= Seq::<char>::empty());
    }
}

fn count_separators(m: &str) -> (r: usize)
    ensures
        r as nat == separators(m@),
        2 * r <= m@.len() <= usize::MAX,
{
    let n = m.unicode_len();
    let mut i: usize = 0;
    let mut c: usize = 0;
    proof {
        assert(m@.skip(0) =~= m@);
    }
    while i < n
        invariant
            n == m@.len(),
            i <= n,
            c + separators(m@.skip(i as int)) == separators(m@),
            2 * c <= i,
        decreases n - i,
    {
        let ghost rest = m@.skip(i as int);
        if i + 1 < n && m.get_char(i) == ':' && m.get_char(i + 1) == ':' {
            proof {
                assert(rest.skip(2) =~= m@.skip(i as int + 2));
            }
            c = c + 1;
            i = i + 2;
        } else {
            proof {
                assert(rest.skip(1) =~= m@.skip(i as int + 1));
            }
            i = i + 1;
        }
    }
    proof {
        assert(m@.skip(i as int) =~= Seq::<char>::empty());
    }
    c
}

/// Writes the blocks nested in the modules of `module`, a `::`-separated
/// path; without a path the blocks are written unwrapped.
pub fn write_module(output: &mut String, module: Option<&str>, blocks: &Vec<String>)
    ensures
        final(output)@ == old(output)@ + module_text(
            match module {
                Some(m) => Some(m@),
                None => None,
            },
            views(blocks@),
        ),
{
    let mut x = String::new();
    match module {
        Some(m) => {
            x.append("pub mod ");
            push_open_path(&mut x, m);
            x.append(" {\n");
        },
        None => {},
    }
    let ghost head = x@;
    proof {
        assert(views(blocks@).take(0) =~= Seq::<Seq<char>>::empty());
    }
    let mut i: usize = 0;
    while i < blocks.len()
        invariant
            i <= blocks@.len(),
            x@ == head + blocks_text(views(blocks@).take(i as int)),
        decreases blocks@.len() - i,
    {
        proof {
            assert(views(blocks@).take(i as int + 1).drop_last() =~= views(blocks@).take(i as int));
        }
        x.append(blocks[i].as_str());
        x.append("\n");
        proof {
            assert(x@ =~= head + blocks_text(views(blocks@).take(i as int + 1)));
        }
        i = i + 1;
    }
    proof {
        assert(views(blocks@).take(i as int) =~= views(blocks@));
    }
    match module {
        Some(m) => {
            let c = count_separators(m);
            let ghost before = x@;
            let mut k: usize = 0;
            while k <= c
                invariant
                    k <= c + 1,
                    2 * c <= m@.len() <= usize::MAX,
                    c as nat == separators(m@),
                    x@ == before + closers(k as nat),
                decreases c + 1 - k,
            {
                x.append("}\n");
                proof {
                    assert(x@ =~= before + closers(k as nat + 1));
                }
                k = k + 1;
            }
        },
        None => {},
    }
    proof {
        assert(x@ =~= module_text(
            match module {
                Some(m) => Some(m@),
                None => None,
            },
            views(blocks@),
        ));
    }
    output.append(x.as_str());
}

/// The blocks that a schema unit renders to, after the preamble if any.
pub open spec fn unit_blocks(u: SchemaUnit, preamble: Option<Seq<char>>) -> Seq<Seq<char>> {
    let pre = match preamble {
        Some(p) => seq![p],
        None => Seq::empty(),
    };
    pre + match u.body {
        Body::Record(fs) => seq![struct_text(u.name@, u.docs@, fs@), accessor_text(u.name@, u.docs@, fs@)],
        Body::Enumeration(enc, vs) => seq![enum_text(u.name@, u.docs@, enc, vs@)],
    }
}

/// The whole output for a schema unit.
pub open spec fn unit_text(u: SchemaUnit, preamble: Option<Seq<char>>) -> Seq<char> {
    module_text(
        match u.module {
            Some(m) => Some(m@),
            None => None,
        },
        unit_blocks(u, preamble),
    ) + "\n"@
}

/// Renders a loaded schema unit: the preamble text if any, then the storage
/// and accessor types of a record or the declaration and codec of an
/// enumeration, nested in the unit's modules.
#[verifier::rlimit(50)]
pub fn generate(unit: &SchemaUnit, preamble: Option<String>) -> (r: String)
    requires
        unit_valid(*unit),
    ensures
        r@ == unit_text(
            *unit,
            match preamble {
                Some(p) => Some(p@),
                None => None,
            },
        ),
{
    let ghost pre = match &preamble {
        Some(p) => Some(p@),
        None => None::<Seq<char>>,
    };
    let mut blocks: Vec<String> = Vec::new();
    match preamble {
        Some(p) => blocks.push(p),
        None => {},
    }
    match &unit.body {
        Body::Record(fields) => {
            let mut block = String::new();
            write_struct(&mut block, &unit.name, &unit.docs, fields);
            blocks.push(block);
            let mut block = String::new();
            write_struct_accessor(&mut block, &unit.name, &unit.docs, fields);
            blocks.push(block);
        },
        Body::Enumeration(enc, variants) => {
            let mut block = String::new();
            match enc {
                Encoding::Str => write_string_enum(&mut block, &unit.name, &unit.docs, variants),
                Encoding::Int => write_integer_enum(&mut block, &unit.name, &unit.docs, variants),
            }
            blocks.push(block);
        },
    }
    proof {
        assert(views(blocks@) =~= unit_blocks(*unit, pre));
    }
    let mut out = String::new();
    match &unit.module {
        Some(m) => write_module(&mut out, Some(m.as_str()), &blocks),
        None => write_module(&mut out, None, &blocks),
    }
    out.append("\n");
    out
}

} // verus!
