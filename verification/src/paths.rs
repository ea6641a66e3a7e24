//! Path-string derivations: the file name without extension, and the
//! default output path obtained by swapping a document's extension.
//!
//! Paths are treated as plain text with `'/'` separating components and
//! the last `'.'` of the final component starting its extension; a name
//! whose only dot leads (a hidden file) has no extension.

use vstd::prelude::*;

verus! {

/// The largest index at which `c` occurs in `s`, or `-1`.
pub open spec fn last_idx(s: Seq<char>, c: char) -> int
    decreases s.len(),
{
    if s.len() == 0 {
        -1
    } else if s.last() == c {
        s.len() - 1
    } else {
        last_idx(s.drop_last(), c)
    }
}

/// `last_idx` lies in range and is the last occurrence.
pub proof fn lemma_last_idx(s: Seq<char>, c: char)
    ensures
        -1 <= last_idx(s, c) < s.len(),
        last_idx(s, c) >= 0 ==> s[last_idx(s, c)] == c,
        forall|j: int| last_idx(s, c) < j < s.len() ==> s[j] != c,
    decreases s.len(),
{
    if s.len() != 0 && s.last() != c {
        lemma_last_idx(s.drop_last(), c);
        assert(forall|j: int| 0 <= j < s.len() - 1 ==> s.drop_last()[j] == s[j]);
    }
}

/// The file name of `p` without its extension.
pub open spec fn spec_file_stem(p: Seq<char>) -> Seq<char> {
    let sep = last_idx(p, '/');
    let dot = last_idx(p, '.');
    if dot > sep + 1 {
        p.subrange(sep + 1, dot)
    } else {
        p.skip(sep + 1)
    }
}

/// `p` with its extension replaced by `ext` (or with `.ext` appended
/// when it has none).
pub open spec fn spec_with_extension(p: Seq<char>, ext: Seq<char>) -> Seq<char> {
    let sep = last_idx(p, '/');
    let dot = last_idx(p, '.');
    if dot > sep + 1 {
        p.take(dot) + seq!['.'] + ext
    } else {
        p + seq!['.'] + ext
    }
}

/// The largest index at which `c` occurs in `v`, or `-1` (as `None`).
fn find_last(v: &Vec<char>, c: char) -> (r: Option<usize>)
    ensures
        (r matches Some(k) ==> last_idx(v@, c) == k),
        r is None ==> last_idx(v@, c) == -1,
{
    let mut i: usize = v.len();
    proof {
        assert(v@.take(v@.len() as int) =~= v@);
    }
    while i > 0
        invariant
            i <= v@.len(),
            last_idx(v@, c) == last_idx(v@.take(i as int), c),
        decreases i,
    {
        if v[i - 1] == c {
            proof {
                assert(v@.take(i as int).last() == v@[i - 1]);
            }
            return Some(i - 1);
        }
        proof {
            assert(v@.take(i as int).drop_last() =~= v@.take(i - 1));
        }
        i = i - 1;
    }
    None
}

/// Copies `v[from..to]` into a fresh vector.
fn copy_range(v: &Vec<char>, from: usize, to: usize) -> (r: Vec<char>)
    requires
        from <= to <= v@.len(),
    ensures
        r@ == v@.subrange(from as int, to as int),
{
    let mut r: Vec<char> = Vec::new();
    let mut j: usize = from;
    while j < to
        invariant
            from <= j <= to <= v@.len(),
            r@ =~= v@.subrange(from as int, j as int),
        decreases to - j,
    {
        r.push(v[j]);
        proof {
            assert(v@.subrange(from as int, j + 1) =~= v@.subrange(from as int, j as int).push(
                v@[j as int]));
        }
        j = j + 1;
    }
    r
}

/// The file name of `path` without its extension, for title fallback.
pub fn file_stem(path: &str) -> (r: String)
    ensures
        r@ == spec_file_stem(path@),
{
    let v = crate::chars::str_to_chars(path);
    let n = v.len();
    proof {
        lemma_last_idx(v@, '/');
        lemma_last_idx(v@, '.');
        assert(v@.len() == n);
    }
    let sep: usize = match find_last(&v, '/') {
        Some(k) => k + 1,
        None => 0,
    };
    let dot: Option<usize> = find_last(&v, '.');
    let stem = match dot {
        Some(d) if d > sep => copy_range(&v, sep, d),
        _ => copy_range(&v, sep, v.len()),
    };
    crate::chars::chars_to_string(&stem)
}

/// The path of an asset file inside a template directory.
pub fn template_asset_path(dir: &str, name: &str) -> (r: String)
    ensures
        r@ == dir@ + seq!['/'] + name@,
{
    let mut out = crate::chars::str_to_chars(dir);
    out.push('/');
    let name_chars = crate::chars::str_to_chars(name);
    let ghost base = out@;
    let mut j: usize = 0;
    while j < name_chars.len()
        invariant
            j <= name_chars@.len(),
            name_chars@ == name@,
            out@ =~= base + name@.take(j as int),
        decreases name_chars@.len() - j,
    {
        out.push(name_chars[j]);
        proof {
            assert(name@.take(j + 1) =~= name@.take(j as int).push(name@[j as int]));
        }
        j = j + 1;
    }
    proof {
        assert(name@.take(name@.len() as int) =~= name@);
        assert(out@ =~= dir@ + seq!['/'] + name@);
    }
    crate::chars::chars_to_string(&out)
}

/// `path` with its extension replaced by `ext`: the default output path
/// of an export that turns a document into another format.
pub fn with_extension(path: &str, ext: &str) -> (r: String)
    ensures
        r@ == spec_with_extension(path@, ext@),
{
    let v = crate::chars::str_to_chars(path);
    let n = v.len();
    proof {
        lemma_last_idx(v@, '/');
        lemma_last_idx(v@, '.');
        assert(v@.len() == n);
    }
    let sep: usize = match find_last(&v, '/') {
        Some(k) => k + 1,
        None => 0,
    };
    let dot: Option<usize> = find_last(&v, '.');
    let mut out = match dot {
        Some(d) if d > sep => copy_range(&v, 0, d),
        _ => copy_range(&v, 0, v.len()),
    };
    proof {
        assert(v@.subrange(0, v@.len() as int) =~= v@);
    }
    out.push('.');
    let mut r = crate::chars::chars_to_string(&out);
    let ghost before = r@;
    let ext_chars = crate::chars::str_to_chars(ext);
    let mut j: usize = 0;
    while j < ext_chars.len()
        invariant
            j <= ext_chars@.len(),
            ext_chars@ == ext@,
            r@ =~= before + ext@.take(j as int),
        decreases ext_chars@.len() - j,
    {
        crate::chars::push_char(&mut r, ext_chars[j]);
        proof {
            assert(ext@.take(j + 1) =~= ext@.take(j as int).push(ext@[j as int]));
        }
        j = j + 1;
    }
    proof {
        assert(ext@.take(ext@.len() as int) =~= ext@);
        assert(r@ =~= spec_with_extension(path@, ext@));
    }
    r
}

} // verus!
