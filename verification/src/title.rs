//! Deriving a page title from a document.
//!
//! The title is the text of the first top-level heading; a document
//! without one falls back to its file name without extension (the stem).

use vstd::prelude::*;
use crate::lines::line_views;

verus! {

/// Whether a line is a top-level heading: `# ` followed by the title text.
pub open spec fn is_heading(l: Seq<char>) -> bool {
    l.len() >= 2 && l[0] == '#' && l[1] == ' '
}

/// The text of a top-level heading line.
pub open spec fn heading_text(l: Seq<char>) -> Seq<char> {
    l.skip(2)
}

/// The title of a document with the given lines: the text of the first
/// top-level heading, or the stem if there is none.
pub open spec fn spec_title(ls: Seq<Seq<char>>, stem: Seq<char>) -> Seq<char>
    decreases ls.len(),
{
    if ls.len() == 0 {
        stem
    } else if is_heading(ls[0]) {
        heading_text(ls[0])
    } else {
        spec_title(ls.drop_first(), stem)
    }
}

/// A document with no top-level heading is titled by its stem.
pub proof fn lemma_title_fallback(ls: Seq<Seq<char>>, stem: Seq<char>)
    requires
        forall|i: int| 0 <= i < ls.len() ==> !is_heading(#[trigger] ls[i]),
    ensures
        spec_title(ls, stem) == stem,
    decreases ls.len(),
{
    if ls.len() != 0 {
        assert(!is_heading(ls[0]));
        lemma_title_fallback(ls.drop_first(), stem);
    }
}

/// The title of a document is the text of its first top-level heading.
pub proof fn lemma_title_first_heading(ls: Seq<Seq<char>>, stem: Seq<char>, k: int)
    requires
        0 <= k < ls.len(),
        is_heading(ls[k]),
        forall|j: int| 0 <= j < k ==> !is_heading(#[trigger] ls[j]),
    ensures
        spec_title(ls, stem) == heading_text(ls[k]),
    decreases k,
{
    if k > 0 {
        assert(!is_heading(ls[0]));
        assert(ls.drop_first()[k - 1] == ls[k]);
        assert(forall|j: int| 0 <= j < k - 1 ==> ls.drop_first()[j] == ls[j + 1]
            && !is_heading(#[trigger] ls.drop_first()[j]));
        lemma_title_first_heading(ls.drop_first(), stem, k - 1);
    }
}

/// The title of the document with the given lines; `stem` is the
/// document's file name without extension.
pub fn derive_title(ls: &Vec<Vec<char>>, stem: &Vec<char>) -> (r: Vec<char>)
    ensures
        r@ == spec_title(line_views(ls@), stem@),
{
    let ghost lsv = line_views(ls@);
    let mut i: usize = 0;
    proof {
        assert(lsv.skip(0) =~= lsv);
    }
    while i < ls.len()
        invariant
            i <= ls@.len(),
            lsv == line_views(ls@),
            spec_title(lsv, stem@) == spec_title(lsv.skip(i as int), stem@),
        decreases ls@.len() - i,
    {
        proof {
            assert(lsv.skip(i as int)[0] == lsv[i as int]);
        }
        let line = &ls[i];
        if line.len() >= 2 && line[0] == '#' && line[1] == ' ' {
            let mut r: Vec<char> = Vec::new();
            let mut j: usize = 2;
            while j < line.len()
                invariant
                    2 <= j <= line@.len(),
                    line@ == ls@[i as int]@,
                    r@ =~= line@.subrange(2, j as int),
                decreases line@.len() - j,
            {
                r.push(line[j]);
                proof {
                    assert(line@.subrange(2, j + 1) =~= line@.subrange(2, j as int).push(
                        line@[j as int]));
                }
                j = j + 1;
            }
            proof {
                assert(is_heading(lsv[i as int]));
                assert(r@ =~= heading_text(lsv[i as int]));
            }
            return r;
        }
        proof {
            assert(!is_heading(lsv[i as int]));
            assert(lsv.skip(i as int).drop_first() =~= lsv.skip(i + 1));
        }
        i = i + 1;
    }
    proof {
        assert(lsv.skip(ls@.len() as int) =~= Seq::<Seq<char>>::empty());
    }
    let mut r: Vec<char> = Vec::new();
    let mut j: usize = 0;
    while j < stem.len()
        invariant
            j <= stem@.len(),
            r@ =~= stem@.take(j as int),
        decreases stem@.len() - j,
    {
        r.push(stem[j]);
        proof {
            assert(stem@.take(j + 1) =~= stem@.take(j as int).push(stem@[j as int]));
        }
        j = j + 1;
    }
    proof {
        assert(stem@.take(stem@.len() as int) =~= stem@);
    }
    r
}

} // verus!
