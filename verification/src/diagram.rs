//! Recognition and rendering of embedded diagram blocks.
//!
//! A diagram block is a fenced region of the document: a line holding
//! exactly the opening fence, the body lines, and a line holding exactly
//! the closing fence. A well-formed body is substituted, in place, with
//! inline vector markup built from a small skeleton (an opening tag, the
//! body verbatim, a closing tag). A malformed body — empty, or holding a
//! backtick that would break out of its fence — is passed through
//! unchanged as an inert code block, so one broken diagram never aborts
//! the compilation of the rest of the document.

use vstd::prelude::*;
use crate::lines::line_views;

verus! {

/// The opening fence of a diagram block.
pub open spec fn open_fence_text() -> Seq<char> {
    seq!['`', '`', '`', 's', 'v', 'g']
}

/// The closing fence of a diagram block.
pub open spec fn close_fence_text() -> Seq<char> {
    seq!['`', '`', '`']
}

/// The opening line of the vector-markup skeleton.
pub open spec fn svg_open_text() -> Seq<char> {
    "<svg xmlns=\"http://www.w3.org/2000/svg\">"@
}

/// The closing line of the vector-markup skeleton.
pub open spec fn svg_close_text() -> Seq<char> {
    "</svg>"@
}

/// Whether a line opens a diagram block.
pub open spec fn is_diagram_open(l: Seq<char>) -> bool {
    l == open_fence_text()
}

/// Whether a line closes a fenced block.
pub open spec fn is_fence_close(l: Seq<char>) -> bool {
    l == close_fence_text()
}

/// Whether a diagram body is well formed: non-empty, with no backtick
/// anywhere (a backtick could terminate the surrounding markup early).
pub open spec fn body_ok(body: Seq<Seq<char>>) -> bool {
    body.len() > 0 && forall|i: int, j: int|
        0 <= i < body.len() && 0 <= j < body[i].len() ==> #[trigger] body[i][j] != '`'
}

/// The number of lines before the first closing fence, or `ls.len()`
/// if there is none.
pub open spec fn first_close(ls: Seq<Seq<char>>) -> nat
    decreases ls.len(),
{
    if ls.len() == 0 {
        0
    } else if is_fence_close(ls[0]) {
        0
    } else {
        1 + first_close(ls.drop_first())
    }
}

/// A closing fence at `k` with none before it pins `first_close` to `k`.
pub proof fn lemma_first_close_at(ls: Seq<Seq<char>>, k: int)
    requires
        0 <= k < ls.len(),
        is_fence_close(ls[k]),
        forall|j: int| 0 <= j < k ==> !is_fence_close(#[trigger] ls[j]),
    ensures
        first_close(ls) == k,
    decreases k,
{
    if k > 0 {
        assert(!is_fence_close(ls[0]));
        assert(ls.drop_first()[k - 1] == ls[k]);
        assert(forall|j: int| 0 <= j < k - 1 ==> ls.drop_first()[j] == ls[j + 1]
            && !is_fence_close(#[trigger] ls.drop_first()[j]));
        lemma_first_close_at(ls.drop_first(), k - 1);
    }
}

/// No closing fence at all makes `first_close` run to the end.
pub proof fn lemma_first_close_none(ls: Seq<Seq<char>>)
    requires
        forall|j: int| 0 <= j < ls.len() ==> !is_fence_close(#[trigger] ls[j]),
    ensures
        first_close(ls) == ls.len(),
    decreases ls.len(),
{
    if ls.len() != 0 {
        assert(forall|j: int| 0 <= j < ls.len() - 1 ==> ls.drop_first()[j] == ls[j + 1]
            && !is_fence_close(#[trigger] ls.drop_first()[j]));
        lemma_first_close_none(ls.drop_first());
    }
}

/// What the diagram renderer returns for a block body: the body inside
/// the vector-markup skeleton when it is well formed, and the original
/// inert fenced block otherwise.
pub open spec fn spec_render_diagram(body: Seq<Seq<char>>) -> Seq<Seq<char>> {
    if body_ok(body) {
        seq![svg_open_text()] + body + seq![svg_close_text()]
    } else {
        seq![open_fence_text()] + body + seq![close_fence_text()]
    }
}

/// The document lines with every closed diagram block replaced by the
/// diagram renderer's output for its body, in place and in order. An
/// unclosed opening fence leaves the rest of the document untouched.
pub open spec fn spec_substitute(ls: Seq<Seq<char>>) -> Seq<Seq<char>>
    decreases ls.len(),
{
    if ls.len() == 0 {
        Seq::empty()
    } else if is_diagram_open(ls[0]) {
        let fc = first_close(ls.drop_first()) as int;
        if fc < ls.len() - 1 {
            let body = ls.subrange(1, fc + 1);
            spec_render_diagram(body) + spec_substitute(ls.skip(fc + 2))
        } else {
            ls
        }
    } else {
        seq![ls[0]] + spec_substitute(ls.drop_first())
    }
}

/// A document with no diagram opening fence is left untouched.
pub proof fn lemma_substitute_no_diagrams(ls: Seq<Seq<char>>)
    requires
        forall|i: int| 0 <= i < ls.len() ==> !is_diagram_open(#[trigger] ls[i]),
    ensures
        spec_substitute(ls) == ls,
    decreases ls.len(),
{
    if ls.len() != 0 {
        assert(!is_diagram_open(ls[0]));
        lemma_substitute_no_diagrams(ls.drop_first());
        assert(seq![ls[0]] + ls.drop_first() =~= ls);
    }
}

/// Containment of a malformed diagram block: wherever it stands after
/// non-diagram prose, the block is passed through verbatim — prose,
/// fences and body unchanged and in order — and the lines after it are
/// still processed.
pub proof fn lemma_malformed_block_contained(
    pre: Seq<Seq<char>>,
    body: Seq<Seq<char>>,
    rest: Seq<Seq<char>>,
)
    requires
        forall|i: int| 0 <= i < pre.len() ==> !is_diagram_open(#[trigger] pre[i]),
        forall|i: int| 0 <= i < body.len() ==> !is_fence_close(#[trigger] body[i]),
        !body_ok(body),
    ensures
        spec_substitute(pre + seq![open_fence_text()] + body + seq![close_fence_text()] + rest)
            == pre + seq![open_fence_text()] + body + seq![close_fence_text()]
            + spec_substitute(rest),
    decreases pre.len(),
{
    let block = seq![open_fence_text()] + body + seq![close_fence_text()];
    let ls = pre + block + rest;
    let ens_arg = pre + seq![open_fence_text()] + body + seq![close_fence_text()] + rest;
    let ens_rhs = pre + seq![open_fence_text()] + body + seq![close_fence_text()]
        + spec_substitute(rest);
    assert(ls =~= ens_arg);
    assert(pre + block + spec_substitute(rest) =~= ens_rhs);
    if pre.len() == 0 {
        assert(ls =~= block + rest);
        assert(is_diagram_open(ls[0]));
        let d = ls.drop_first();
        assert(d =~= body + seq![close_fence_text()] + rest);
        assert(forall|j: int| 0 <= j < body.len() ==> d[j] == body[j]
            && !is_fence_close(#[trigger] d[j]));
        assert(d[body.len() as int] == close_fence_text());
        lemma_first_close_at(d, body.len() as int);
        let fc = body.len() as int;
        assert(fc < ls.len() - 1);
        assert(ls.subrange(1, fc + 1) =~= body);
        assert(ls.skip(fc + 2) =~= rest);
        assert(spec_substitute(ls) == spec_render_diagram(body) + spec_substitute(rest));
        assert(spec_render_diagram(body) + spec_substitute(rest) =~= pre + block
            + spec_substitute(rest));
        assert(spec_substitute(ens_arg) == ens_rhs);
    } else {
        assert(ls[0] == pre[0]);
        assert(!is_diagram_open(ls[0]));
        let tail_arg = pre.drop_first() + seq![open_fence_text()] + body + seq![
            close_fence_text(),
        ] + rest;
        assert(ls.drop_first() =~= tail_arg);
        assert(forall|i: int| 0 <= i < pre.len() - 1 ==> pre.drop_first()[i] == pre[i + 1]
            && !is_diagram_open(#[trigger] pre.drop_first()[i]));
        lemma_malformed_block_contained(pre.drop_first(), body, rest);
        assert(spec_substitute(tail_arg) == pre.drop_first() + seq![open_fence_text()] + body
            + seq![close_fence_text()] + spec_substitute(rest));
        assert(spec_substitute(ls) == seq![ls[0]] + spec_substitute(ls.drop_first()));
        assert(seq![ls[0]] + (pre.drop_first() + seq![open_fence_text()] + body + seq![
            close_fence_text(),
        ] + spec_substitute(rest)) =~= ens_rhs);
        assert(spec_substitute(ens_arg) == ens_rhs);
    }
}

/// Whether this line opens a diagram block.
pub fn is_open_line(l: &Vec<char>) -> (r: bool)
    ensures
        r == is_diagram_open(l@),
{
    let r = l.len() == 6 && l[0] == '`' && l[1] == '`' && l[2] == '`' && l[3] == 's' && l[4] == 'v'
        && l[5] == 'g';
    proof {
        if r {
            assert(l@ =~= open_fence_text());
        }
        if l@ == open_fence_text() {
            assert(l@.len() == 6);
        }
    }
    r
}

/// Whether this line closes a fenced block.
pub fn is_close_line(l: &Vec<char>) -> (r: bool)
    ensures
        r == is_fence_close(l@),
{
    let r = l.len() == 3 && l[0] == '`' && l[1] == '`' && l[2] == '`';
    proof {
        if r {
            assert(l@ =~= close_fence_text());
        }
        if l@ == close_fence_text() {
            assert(l@.len() == 3);
        }
    }
    r
}

/// A copy of one line.
pub fn copy_line(l: &Vec<char>) -> (r: Vec<char>)
    ensures
        r@ == l@,
{
    let mut r: Vec<char> = Vec::new();
    let mut j: usize = 0;
    while j < l.len()
        invariant
            j <= l@.len(),
            r@ =~= l@.take(j as int),
        decreases l@.len() - j,
    {
        r.push(l[j]);
        proof {
            assert(l@.take(j + 1) =~= l@.take(j as int).push(l@[j as int]));
        }
        j = j + 1;
    }
    proof {
        assert(l@.take(l@.len() as int) =~= l@);
    }
    r
}

/// Whether a built diagram body is well formed.
fn check_body_ok(body: &Vec<Vec<char>>) -> (r: bool)
    ensures
        r == body_ok(line_views(body@)),
{
    if body.len() == 0 {
        return false;
    }
    let mut i: usize = 0;
    while i < body.len()
        invariant
            i <= body@.len(),
            body@.len() > 0,
            forall|a: int, b: int|
                0 <= a < i && 0 <= b < body@[a]@.len() ==> #[trigger] body@[a]@[b] != '`',
        decreases body@.len() - i,
    {
        let line = &body[i];
        let mut j: usize = 0;
        while j < line.len()
            invariant
                j <= line@.len(),
                line@ == body@[i as int]@,
                i < body@.len(),
                forall|b: int| 0 <= b < j ==> #[trigger] line@[b] != '`',
            decreases line@.len() - j,
        {
            if line[j] == '`' {
                proof {
                    assert(line_views(body@)[i as int][j as int] == '`');
                }
                return false;
            }
            j = j + 1;
        }
        i = i + 1;
    }
    proof {
        assert(forall|a: int, b: int|
            0 <= a < line_views(body@).len() && 0 <= b < line_views(body@)[a].len()
                ==> #[trigger] line_views(body@)[a][b] != '`');
    }
    true
}

/// The diagram renderer: pure substitution of the block body into the
/// vector-markup skeleton, with malformed bodies passed through as an
/// inert fenced block. Cannot fail.
pub fn render_diagram(body: &Vec<Vec<char>>) -> (r: Vec<Vec<char>>)
    ensures
        line_views(r@) == spec_render_diagram(line_views(body@)),
{
    let ok = check_body_ok(body);
    let mut r: Vec<Vec<char>> = Vec::new();
    if ok {
        r.push(crate::chars::str_to_chars("<svg xmlns=\"http://www.w3.org/2000/svg\">"));
        proof {
            assert(line_views(r@) =~= seq![svg_open_text()]);
        }
    } else {
        let mut fence: Vec<char> = Vec::new();
        fence.push('`');
        fence.push('`');
        fence.push('`');
        fence.push('s');
        fence.push('v');
        fence.push('g');
        proof {
            assert(fence@ =~= open_fence_text());
        }
        r.push(fence);
        proof {
            assert(line_views(r@) =~= seq![open_fence_text()]);
        }
    }
    let ghost r0 = line_views(r@);
    proof {
        assert(line_views(r@) =~= r0 + line_views(body@).take(0));
    }
    let mut i: usize = 0;
    while i < body.len()
        invariant
            i <= body@.len(),
            r0 == seq![
                if body_ok(line_views(body@)) {
                    svg_open_text()
                } else {
                    open_fence_text()
                },
            ],
            line_views(r@) =~= r0 + line_views(body@).take(i as int),
        decreases body@.len() - i,
    {
        let ghost prev = line_views(r@);
        r.push(copy_line(&body[i]));
        proof {
            assert(line_views(r@) =~= prev.push(body@[i as int]@));
            assert(line_views(body@).take(i + 1) =~= line_views(body@).take(i as int).push(
                body@[i as int]@));
            assert(line_views(r@) =~= r0 + line_views(body@).take(i + 1));
        }
        i = i + 1;
    }
    let ghost before_close = line_views(r@);
    if ok {
        r.push(crate::chars::str_to_chars("</svg>"));
        proof {
            assert(line_views(r@) =~= before_close.push(svg_close_text()));
        }
    } else {
        let mut fence: Vec<char> = Vec::new();
        fence.push('`');
        fence.push('`');
        fence.push('`');
        proof {
            assert(fence@ =~= close_fence_text());
        }
        r.push(fence);
        proof {
            assert(line_views(r@) =~= before_close.push(close_fence_text()));
        }
    }
    proof {
        assert(line_views(body@).take(body@.len() as int) =~= line_views(body@));
        assert(line_views(r@) =~= spec_render_diagram(line_views(body@)));
    }
    r
}

/// The index of the first closing fence at or after `from`, if any.
fn find_close(ls: &Vec<Vec<char>>, from: usize) -> (r: Option<usize>)
    requires
        from <= ls@.len(),
    ensures
        (r matches Some(k) ==> from <= k < ls@.len() && is_fence_close(line_views(ls@)[k as int])
            && (forall|j: int|
            from <= j < k ==> !is_fence_close(#[trigger] line_views(ls@)[j]))),
        r is None ==> forall|j: int|
            from <= j < ls@.len() ==> !is_fence_close(#[trigger] line_views(ls@)[j]),
{
    let mut k: usize = from;
    while k < ls.len()
        invariant
            from <= k <= ls@.len(),
            forall|j: int| from <= j < k ==> !is_fence_close(#[trigger] line_views(ls@)[j]),
        decreases ls@.len() - k,
    {
        if is_close_line(&ls[k]) {
            return Some(k);
        }
        k = k + 1;
    }
    None
}

/// The document lines with every closed diagram block replaced by the
/// diagram renderer's output, preserving all surrounding content in
/// order.
pub fn substitute_diagrams(ls: &Vec<Vec<char>>) -> (r: Vec<Vec<char>>)
    ensures
        line_views(r@) == spec_substitute(line_views(ls@)),
{
    let ghost lsv = line_views(ls@);
    let mut out: Vec<Vec<char>> = Vec::new();
    let mut i: usize = 0;
    proof {
        assert(lsv.skip(0) =~= lsv);
        assert(line_views(out@) + spec_substitute(lsv) =~= spec_substitute(lsv));
    }
    while i < ls.len()
        invariant
            i <= ls@.len(),
            lsv == line_views(ls@),
            spec_substitute(lsv) =~= line_views(out@) + spec_substitute(lsv.skip(i as int)),
        decreases ls@.len() - i,
    {
        proof {
            assert(lsv.skip(i as int)[0] == lsv[i as int]);
        }
        if is_open_line(&ls[i]) {
            let close = find_close(ls, i + 1);
            let ghost tail = lsv.skip(i as int);
            if let Some(k) = close {
                // Build the body, render it, and splice the result in.
                let mut body: Vec<Vec<char>> = Vec::new();
                let mut b: usize = i + 1;
                while b < k
                    invariant
                        i + 1 <= b <= k <= ls@.len(),
                        lsv == line_views(ls@),
                        line_views(body@) =~= lsv.subrange(i + 1, b as int),
                    decreases k - b,
                {
                    body.push(copy_line(&ls[b]));
                    proof {
                        assert(line_views(body@) =~= line_views(body@.drop_last()).push(
                            body@.last()@));
                        assert(lsv.subrange(i + 1, b + 1) =~= lsv.subrange(i + 1, b as int).push(
                            lsv[b as int]));
                    }
                    b = b + 1;
                }
                let mut rendered = render_diagram(&body);
                proof {
                    // Identify the scanned close with the spec's first_close.
                    assert(tail.drop_first() =~= lsv.skip(i + 1));
                    assert(lsv.skip(i + 1)[k - i - 1] == lsv[k as int]);
                    assert(forall|j: int| 0 <= j < k - i - 1 ==> lsv.skip(i + 1)[j] == lsv[j + i
                        + 1] && !is_fence_close(#[trigger] lsv.skip(i + 1)[j]));
                    lemma_first_close_at(lsv.skip(i + 1), k - i - 1);
                    assert(first_close(tail.drop_first()) == k - i - 1);
                    assert(is_diagram_open(tail[0]));
                    assert(tail.len() == lsv.len() - i);
                    assert(k - i - 1 < tail.len() - 1);
                    assert(tail.subrange(1, k - i) =~= lsv.subrange(i + 1, k as int));
                    assert(tail.skip(k - i + 1) =~= lsv.skip(k + 1));
                    assert(spec_substitute(tail) =~= spec_render_diagram(
                        lsv.subrange(i + 1, k as int)) + spec_substitute(lsv.skip(k + 1)));
                    assert(line_views(body@) =~= lsv.subrange(i + 1, k as int));
                }
                let ghost out0 = out@;
                let ghost rv = rendered@;
                out.append(&mut rendered);
                proof {
                    assert(line_views(out@) =~= line_views(out0) + line_views(rv));
                    assert(spec_substitute(lsv) =~= line_views(out@) + spec_substitute(
                        lsv.skip(k + 1)));
                }
                i = k + 1;
            } else {
                // No closing fence: the rest of the document is untouched.
                proof {
                    assert(forall|j: int| 0 <= j < tail.len() - 1 ==> tail.drop_first()[j]
                        == lsv[j + i + 1] && !is_fence_close(#[trigger] tail.drop_first()[j]));
                    lemma_first_close_none(tail.drop_first());
                    assert(spec_substitute(tail) =~= tail);
                }
                let ghost out0 = out@;
                let mut t: usize = i;
                while t < ls.len()
                    invariant
                        i <= t <= ls@.len(),
                        lsv == line_views(ls@),
                        line_views(out@) =~= line_views(out0) + lsv.subrange(i as int, t as int),
                    decreases ls@.len() - t,
                {
                    let ghost prev = line_views(out@);
                    out.push(copy_line(&ls[t]));
                    proof {
                        assert(line_views(out@) =~= prev.push(lsv[t as int]));
                        assert(lsv.subrange(i as int, t + 1) =~= lsv.subrange(i as int, t as int)
                            .push(lsv[t as int]));
                        assert(line_views(out@) =~= line_views(out0) + lsv.subrange(
                            i as int,
                            t + 1,
                        ));
                    }
                    t = t + 1;
                }
                proof {
                    assert(lsv.subrange(i as int, lsv.len() as int) =~= lsv.skip(i as int));
                    assert(line_views(out@) =~= line_views(out0) + spec_substitute(
                        lsv.skip(i as int)));
                    assert(lsv.skip(lsv.len() as int) =~= Seq::<Seq<char>>::empty());
                    assert(spec_substitute(lsv) =~= line_views(out@) + spec_substitute(
                        lsv.skip(lsv.len() as int)));
                }
                i = ls.len();
            }
        } else {
            out.push(copy_line(&ls[i]));
            proof {
                assert(line_views(out@) =~= line_views(out@.drop_last()).push(out@.last()@));
                assert(lsv.skip(i as int).drop_first() =~= lsv.skip(i + 1));
                assert(spec_substitute(lsv.skip(i as int)) =~= seq![lsv[i as int]]
                    + spec_substitute(lsv.skip(i + 1)));
            }
            i = i + 1;
        }
    }
    proof {
        assert(lsv.skip(lsv.len() as int) =~= Seq::<Seq<char>>::empty());
    }
    out
}

} // verus!
