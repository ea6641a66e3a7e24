//! Transcribing math-macro definitions to command definitions.
//!
//! A template's macro script holds a small name-to-definition map. The
//! surrounding command reads it, hands each entry over as plain values,
//! and writes the emitted command lines back out; the text produced for
//! an entry, and the stripping of the script's assignment wrapper, are
//! specified here exactly.

use vstd::prelude::*;
use vstd::string::StringExecFns;

verus! {

/// One macro definition: a plain replacement body, or a body together
/// with its number of arguments.
#[derive(Debug)]
pub enum MacroDef {
    Simple(String),
    WithArgs(String, u64),
}

/// The decimal digits of `n`.
pub open spec fn spec_decimal(n: nat) -> Seq<char>
    decreases n,
{
    if n < 10 {
        seq![digit_char(n)]
    } else {
        spec_decimal(n / 10).push(digit_char(n % 10))
    }
}

/// The digit character for a value below ten.
pub open spec fn digit_char(d: nat) -> char {
    seq!['0', '1', '2', '3', '4', '5', '6', '7', '8', '9'][d as int]
}

/// Appends the decimal digits of `n`.
fn push_decimal(n: u64, out: &mut Vec<char>)
    ensures
        final(out)@ == old(out)@ + spec_decimal(n as nat),
    decreases n,
{
    if n < 10 {
        let d = n as usize;
        let digits = ['0', '1', '2', '3', '4', '5', '6', '7', '8', '9'];
        out.push(digits[d]);
        proof {
            assert(digits@[n as int] == digit_char(n as nat));
            assert(out@ =~= old(out)@ + seq![digit_char(n as nat)]);
        }
    } else {
        push_decimal(n / 10, out);
        let d = (n % 10) as usize;
        let digits = ['0', '1', '2', '3', '4', '5', '6', '7', '8', '9'];
        out.push(digits[d]);
        proof {
            assert(digits@[(n % 10) as int] == digit_char((n % 10) as nat));
            assert(out@ =~= old(out)@ + spec_decimal(n as nat));
        }
    }
}

/// The decimal rendering of `n`.
pub fn decimal_string(n: u64) -> (r: String)
    ensures
        r@ == spec_decimal(n as nat),
{
    let mut out: Vec<char> = Vec::new();
    push_decimal(n, &mut out);
    crate::chars::chars_to_string(&out)
}

/// The command line emitted for a plain macro.
pub open spec fn spec_simple_command(name: Seq<char>, body: Seq<char>) -> Seq<char> {
    "\\newcommand{"@ + name + "}{"@ + body + "}\n"@
}

/// The command line emitted for a macro with arguments.
pub open spec fn spec_args_command(name: Seq<char>, body: Seq<char>, args: nat) -> Seq<char> {
    "\\newcommand{"@ + name + "}["@ + spec_decimal(args) + "]{"@ + body + "}\n"@
}

/// The command line emitted for one macro entry.
pub open spec fn spec_macro_command(name: Seq<char>, def: MacroDef) -> Seq<char> {
    match def {
        MacroDef::Simple(body) => spec_simple_command(name, body@),
        MacroDef::WithArgs(body, args) => spec_args_command(name, body@, args as nat),
    }
}

/// The command line for one macro entry.
pub fn macro_command(name: &str, def: &MacroDef) -> (r: String)
    ensures
        r@ == spec_macro_command(name@, *def),
{
    match def {
        MacroDef::Simple(body) => {
            let mut r = String::new();
            r.append("\\newcommand{");
            r.append(name);
            r.append("}{");
            r.append(body.as_str());
            r.append("}\n");
            proof {
                assert(r@ =~= spec_simple_command(name@, body@));
            }
            r
        },
        MacroDef::WithArgs(body, args) => {
            let digits = decimal_string(*args);
            let mut r = String::new();
            r.append("\\newcommand{");
            r.append(name);
            r.append("}[");
            r.append(digits.as_str());
            r.append("]{");
            r.append(body.as_str());
            r.append("}\n");
            proof {
                assert(r@ =~= spec_args_command(name@, body@, *args as nat));
            }
            r
        },
    }
}

/// The assignment wrapper around a macro script's map text.
pub open spec fn wrapper_prefix() -> Seq<char> {
    "window.katexMacros = "@
}

/// `s` without a leading assignment wrapper, if it has one.
pub open spec fn spec_drop_prefix(s: Seq<char>) -> Seq<char> {
    if s.len() >= wrapper_prefix().len() && s.take(wrapper_prefix().len() as int)
        == wrapper_prefix() {
        s.skip(wrapper_prefix().len() as int)
    } else {
        s
    }
}

/// `s` without any statement semicolons.
pub open spec fn spec_remove_semis(s: Seq<char>) -> Seq<char>
    decreases s.len(),
{
    if s.len() == 0 {
        Seq::empty()
    } else if s[0] == ';' {
        spec_remove_semis(s.drop_first())
    } else {
        seq![s[0]] + spec_remove_semis(s.drop_first())
    }
}

/// Whether a character is trimmed whitespace.
pub open spec fn is_ws(c: char) -> bool {
    c == ' ' || c == '\t' || c == '\n' || c == '\r'
}

/// `s` without leading whitespace.
pub open spec fn spec_trim_start(s: Seq<char>) -> Seq<char>
    decreases s.len(),
{
    if s.len() > 0 && is_ws(s[0]) {
        spec_trim_start(s.drop_first())
    } else {
        s
    }
}

/// `s` without trailing whitespace.
pub open spec fn spec_trim_end(s: Seq<char>) -> Seq<char>
    decreases s.len(),
{
    if s.len() > 0 && is_ws(s.last()) {
        spec_trim_end(s.drop_last())
    } else {
        s
    }
}

/// The map text inside a macro script: the text without its assignment
/// wrapper and statement semicolons, trimmed.
pub open spec fn spec_strip_macro_wrapper(s: Seq<char>) -> Seq<char> {
    spec_trim_end(spec_trim_start(spec_remove_semis(spec_drop_prefix(s))))
}

/// Strips the assignment wrapper, the statement semicolons, and the
/// surrounding whitespace off a macro script, leaving the map text.
pub fn strip_macro_wrapper(content: &str) -> (r: String)
    ensures
        r@ == spec_strip_macro_wrapper(content@),
{
    let v = crate::chars::str_to_chars(content);
    let prefix = crate::chars::str_to_chars("window.katexMacros = ");
    proof {
        assert(prefix@ == wrapper_prefix());
    }
    // Drop the assignment wrapper if it leads.
    let mut start: usize = 0;
    if v.len() >= prefix.len() {
        let mut same = true;
        let mut i: usize = 0;
        proof {
            assert(v@.take(0) =~= prefix@.take(0));
        }
        while i < prefix.len()
            invariant
                i <= prefix@.len() <= v@.len(),
                same == (v@.take(i as int) == prefix@.take(i as int)),
            decreases prefix@.len() - i,
        {
            let ghost pre = same;
            if v[i] != prefix[i] {
                same = false;
            }
            proof {
                let vi1 = v@.take(i + 1);
                let pi1 = prefix@.take(i + 1);
                assert(vi1.subrange(0, i as int) =~= v@.take(i as int));
                assert(pi1.subrange(0, i as int) =~= prefix@.take(i as int));
                assert(vi1[i as int] == v@[i as int]);
                assert(pi1[i as int] == prefix@[i as int]);
                if pre && v@[i as int] == prefix@[i as int] {
                    assert(vi1 =~= pi1);
                }
            }
            i = i + 1;
        }
        proof {
            assert(prefix@.take(prefix@.len() as int) =~= prefix@);
        }
        if same {
            start = prefix.len();
        }
    }
    let ghost base = spec_drop_prefix(content@);
    proof {
        if start == prefix@.len() {
            assert(v@.take(wrapper_prefix().len() as int) == wrapper_prefix());
            assert(base =~= v@.skip(start as int));
        } else {
            if v@.len() >= wrapper_prefix().len() {
                assert(v@.take(wrapper_prefix().len() as int) != wrapper_prefix());
            }
            assert(base =~= v@);
            assert(v@.skip(0) =~= v@);
        }
    }
    // Remove semicolons.
    let mut kept: Vec<char> = Vec::new();
    let mut i: usize = start;
    proof {
        assert(base =~= v@.skip(start as int));
        assert(spec_remove_semis(base) =~= kept@ + spec_remove_semis(v@.skip(i as int)));
    }
    while i < v.len()
        invariant
            start <= i <= v@.len(),
            spec_remove_semis(v@.skip(start as int)) =~= kept@ + spec_remove_semis(
                v@.skip(i as int),
            ),
        decreases v@.len() - i,
    {
        proof {
            assert(v@.skip(i as int)[0] == v@[i as int]);
            assert(v@.skip(i as int).drop_first() =~= v@.skip(i + 1));
        }
        if v[i] != ';' {
            kept.push(v[i]);
        }
        i = i + 1;
    }
    proof {
        assert(v@.skip(v@.len() as int) =~= Seq::<char>::empty());
        assert(kept@ =~= spec_remove_semis(base));
    }
    // Trim both ends.
    let mut a: usize = 0;
    proof {
        assert(kept@.skip(0) =~= kept@);
    }
    while a < kept.len() && is_ws_char(kept[a])
        invariant
            a <= kept@.len(),
            spec_trim_start(kept@) == spec_trim_start(kept@.skip(a as int)),
        decreases kept@.len() - a,
    {
        proof {
            assert(kept@.skip(a as int)[0] == kept@[a as int]);
            assert(kept@.skip(a as int).drop_first() =~= kept@.skip(a + 1));
        }
        a = a + 1;
    }
    let ghost t = spec_trim_start(kept@);
    proof {
        if a < kept@.len() {
            assert(kept@.skip(a as int)[0] == kept@[a as int]);
            assert(t =~= kept@.skip(a as int));
        } else {
            assert(kept@.skip(a as int).len() == 0);
            assert(t =~= kept@.skip(a as int));
        }
    }
    let mut b: usize = kept.len();
    proof {
        assert(kept@.skip(a as int).take(b - a) =~= kept@.skip(a as int));
    }
    while b > a && is_ws_char(kept[b - 1])
        invariant
            a <= b <= kept@.len(),
            spec_trim_end(t) == spec_trim_end(kept@.skip(a as int).take(b - a)),
        decreases b,
    {
        proof {
            let u = kept@.skip(a as int).take(b - a);
            assert(u.last() == kept@[b - 1]);
            assert(u.drop_last() =~= kept@.skip(a as int).take(b - 1 - a));
        }
        b = b - 1;
    }
    proof {
        let u = kept@.skip(a as int).take(b - a);
        if b > a {
            assert(u.last() == kept@[b - 1]);
            assert(spec_trim_end(u) =~= u);
        } else {
            assert(u.len() == 0);
            assert(spec_trim_end(u) =~= u);
        }
        assert(u =~= kept@.subrange(a as int, b as int));
    }
    let mut out: Vec<char> = Vec::new();
    let mut j: usize = a;
    while j < b
        invariant
            a <= j <= b <= kept@.len(),
            out@ =~= kept@.subrange(a as int, j as int),
        decreases b - j,
    {
        out.push(kept[j]);
        proof {
            assert(kept@.subrange(a as int, j + 1) =~= kept@.subrange(a as int, j as int).push(
                kept@[j as int]));
        }
        j = j + 1;
    }
    proof {
        assert(out@ =~= spec_strip_macro_wrapper(content@));
    }
    crate::chars::chars_to_string(&out)
}

/// Whether this character is trimmed whitespace.
fn is_ws_char(c: char) -> (r: bool)
    ensures
        r == is_ws(c),
{
    c == ' ' || c == '\t' || c == '\n' || c == '\r'
}

} // verus!
