//! Splitting a document into lines and joining lines back together.
//!
//! A document is modelled as the sequence of its lines, split on `'\n'`.
//! Splitting and joining are exact inverses, so a pass that leaves every
//! line untouched leaves the whole document untouched.

use vstd::prelude::*;

verus! {

/// The lines of `s`, split on `'\n'`. A document always has at least one
/// line; a trailing newline yields a final empty line.
pub open spec fn spec_split_lines(s: Seq<char>) -> Seq<Seq<char>>
    decreases s.len(),
{
    if s.len() == 0 {
        seq![Seq::<char>::empty()]
    } else if s[0] == '\n' {
        seq![Seq::<char>::empty()] + spec_split_lines(s.drop_first())
    } else {
        let rest = spec_split_lines(s.drop_first());
        seq![seq![s[0]] + rest[0]] + rest.drop_first()
    }
}

/// The document with the given lines: the lines, separated by `'\n'`.
pub open spec fn spec_join_lines(ls: Seq<Seq<char>>) -> Seq<char>
    decreases ls.len(),
{
    if ls.len() == 0 {
        Seq::empty()
    } else if ls.len() == 1 {
        ls[0]
    } else {
        ls[0] + seq!['\n'] + spec_join_lines(ls.drop_first())
    }
}

/// The views of a vector of line buffers.
pub open spec fn line_views(ls: Seq<Vec<char>>) -> Seq<Seq<char>> {
    ls.map_values(|l: Vec<char>| l@)
}

/// Splitting yields at least one line.
pub proof fn lemma_split_lines_nonempty(s: Seq<char>)
    ensures
        spec_split_lines(s).len() >= 1,
    decreases s.len(),
{
    if s.len() != 0 {
        lemma_split_lines_nonempty(s.drop_first());
    }
}

/// Joining the split lines rebuilds the document exactly.
pub proof fn lemma_join_split_roundtrip(s: Seq<char>)
    ensures
        spec_join_lines(spec_split_lines(s)) == s,
    decreases s.len(),
{
    if s.len() == 0 {
        assert(spec_join_lines(spec_split_lines(s)) =~= s);
    } else if s[0] == '\n' {
        lemma_join_split_roundtrip(s.drop_first());
        lemma_split_lines_nonempty(s.drop_first());
        let ls = spec_split_lines(s);
        let rest = spec_split_lines(s.drop_first());
        assert(ls.drop_first() =~= rest);
        assert(ls[0] + seq!['\n'] + spec_join_lines(rest) =~= s);
    } else {
        lemma_join_split_roundtrip(s.drop_first());
        lemma_split_lines_nonempty(s.drop_first());
        let ls = spec_split_lines(s);
        let rest = spec_split_lines(s.drop_first());
        if rest.len() == 1 {
            assert(ls.len() == 1);
            assert(ls[0] =~= seq![s[0]] + rest[0]);
            assert(spec_join_lines(rest) == rest[0]);
            assert(seq![s[0]] + rest[0] =~= s);
        } else {
            assert(ls.len() >= 2);
            assert(ls.drop_first() =~= rest.drop_first());
            assert(ls[0] == seq![s[0]] + rest[0]);
            assert(spec_join_lines(ls) == ls[0] + seq!['\n'] + spec_join_lines(rest.drop_first()));
            assert(spec_join_lines(rest) == rest[0] + seq!['\n'] + spec_join_lines(rest.drop_first()));
            assert(ls[0] + seq!['\n'] + spec_join_lines(rest.drop_first()) =~= seq![s[0]] + (rest[0]
                + seq!['\n'] + spec_join_lines(rest.drop_first())));
            assert(seq![s[0]] + spec_join_lines(rest) =~= s);
        }
    }
}

/// The lines of the document held in `v`.
pub fn split_lines(v: &Vec<char>) -> (r: Vec<Vec<char>>)
    ensures
        line_views(r@) == spec_split_lines(v@),
{
    let mut out: Vec<Vec<char>> = Vec::new();
    let mut cur: Vec<char> = Vec::new();
    let mut i: usize = 0;
    proof {
        lemma_split_lines_nonempty(v@);
        let t = spec_split_lines(v@);
        assert(v@.skip(0) =~= v@);
        assert(Seq::<char>::empty() + t[0] =~= t[0]);
        assert(line_views(out@) + (seq![Seq::<char>::empty() + t[0]] + t.drop_first()) =~= t);
    }
    while i < v.len()
        invariant
            i <= v@.len(),
            spec_split_lines(v@) =~= line_views(out@) + ({
                let t = spec_split_lines(v@.skip(i as int));
                seq![cur@ + t[0]] + t.drop_first()
            }),
        decreases v@.len() - i,
    {
        proof {
            lemma_split_lines_nonempty(v@.skip(i as int));
            lemma_split_lines_nonempty(v@.skip(i + 1));
            assert(v@.skip(i as int)[0] == v@[i as int]);
            assert(v@.skip(i as int).drop_first() =~= v@.skip(i + 1));
        }
        let ghost t = spec_split_lines(v@.skip(i as int));
        let ghost t1 = spec_split_lines(v@.skip(i + 1));
        if v[i] == '\n' {
            proof {
                assert(t =~= seq![Seq::<char>::empty()] + t1);
                assert(t[0] =~= Seq::<char>::empty());
                assert(cur@ + t[0] =~= cur@);
                assert(t.drop_first() =~= t1);
                assert(Seq::<char>::empty() + t1[0] =~= t1[0]);
                assert(seq![cur@ + t[0]] + t.drop_first() =~= seq![cur@] + (seq![Seq::<
                    char,
                >::empty() + t1[0]] + t1.drop_first()));
            }
            out.push(cur);
            cur = Vec::new();
            proof {
                assert(line_views(out@) =~= line_views(out@.drop_last()).push(out@.last()@));
            }
        } else {
            proof {
                assert(t =~= seq![seq![v@[i as int]] + t1[0]] + t1.drop_first());
                assert(cur@ + t[0] =~= cur@.push(v@[i as int]) + t1[0]);
                assert(t.drop_first() =~= t1.drop_first());
            }
            cur.push(v[i]);
        }
        proof {
            assert(spec_split_lines(v@) =~= line_views(out@) + ({
                let t = spec_split_lines(v@.skip(i + 1));
                seq![cur@ + t[0]] + t.drop_first()
            }));
        }
        i = i + 1;
    }
    proof {
        assert(v@.skip(v@.len() as int) =~= Seq::<char>::empty());
        assert(spec_split_lines(Seq::<char>::empty()) == seq![Seq::<char>::empty()]);
        assert(cur@ + Seq::<char>::empty() =~= cur@);
    }
    out.push(cur);
    proof {
        assert(line_views(out@) =~= line_views(out@.drop_last()).push(out@.last()@));
        assert(line_views(out@) =~= spec_split_lines(v@));
    }
    out
}

/// The document with the given lines, separated by `'\n'`.
pub fn join_lines(ls: &Vec<Vec<char>>) -> (r: Vec<char>)
    ensures
        r@ == spec_join_lines(line_views(ls@)),
{
    let ghost lsv = line_views(ls@);
    let mut r: Vec<char> = Vec::new();
    let mut i: usize = 0;
    proof {
        if ls@.len() > 0 {
            assert(lsv.skip(0) =~= lsv);
        }
    }
    while i < ls.len()
        invariant
            i <= ls@.len(),
            lsv == line_views(ls@),
            spec_join_lines(lsv) =~= r@ + (if i == ls@.len() {
                Seq::<char>::empty()
            } else {
                (if i > 0 {
                    seq!['\n']
                } else {
                    Seq::<char>::empty()
                }) + spec_join_lines(lsv.skip(i as int))
            }),
        decreases ls@.len() - i,
    {
        if i > 0 {
            r.push('\n');
        }
        let ghost r0 = r@;
        let line_len = ls[i].len();
        let mut j: usize = 0;
        while j < line_len
            invariant
                j <= line_len,
                line_len == ls@[i as int]@.len(),
                i < ls@.len(),
                r@ =~= r0 + ls@[i as int]@.take(j as int),
            decreases line_len - j,
        {
            let c = ls[i][j];
            r.push(c);
            proof {
                assert(ls@[i as int]@.take(j + 1) =~= ls@[i as int]@.take(j as int).push(
                    ls@[i as int]@[j as int]));
            }
            j = j + 1;
        }
        proof {
            assert(ls@[i as int]@.take(line_len as int) =~= ls@[i as int]@);
            assert(r@ =~= r0 + lsv[i as int]);
            assert(lsv.skip(i as int)[0] == lsv[i as int]);
            if i + 1 < ls@.len() {
                assert(lsv.skip(i as int).drop_first() =~= lsv.skip(i + 1));
                assert(spec_join_lines(lsv.skip(i as int)) == lsv[i as int] + seq!['\n']
                    + spec_join_lines(lsv.skip(i + 1)));
            } else {
                assert(lsv.skip(i as int).len() == 1);
                assert(spec_join_lines(lsv.skip(i as int)) == lsv[i as int]);
            }
        }
        i = i + 1;
    }
    r
}

} // verus!
