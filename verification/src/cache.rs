//! The template cache: resolved templates, keyed by template path, for
//! the life of the process.
//!
//! Templates are immutable once loaded and are never re-resolved while
//! the server runs, so a cache is only ever populated. The cache itself
//! is plain owned state; the server shares one behind its own lock and
//! populates it on a miss. Two concurrent misses for the same path may
//! both resolve and both store — the last writer wins, which is sound
//! because both resolved the same immutable directory.

use vstd::prelude::*;
use crate::template::{Template, TemplateView};

verus! {

/// The map a cache's entries stand for, later entries winning.
pub open spec fn map_of(s: Seq<(String, Template)>) -> Map<Seq<char>, TemplateView>
    decreases s.len(),
{
    if s.len() == 0 {
        Map::empty()
    } else {
        map_of(s.drop_last()).insert(s.last().0@, s.last().1@)
    }
}

/// A resolved-template store keyed by template path.
pub struct TemplateCache {
    entries: Vec<(String, Template)>,
}

impl View for TemplateCache {
    type V = Map<Seq<char>, TemplateView>;

    closed spec fn view(&self) -> Map<Seq<char>, TemplateView> {
        map_of(self.entries@)
    }
}

/// Distinct keys throughout.
spec fn distinct_keys(s: Seq<(String, Template)>) -> bool {
    forall|i: int, j: int| 0 <= i < j < s.len() ==> (#[trigger] s[i]).0@ != (#[trigger] s[j]).0@
}

/// With distinct keys, the map agrees with the entries pointwise.
proof fn lemma_map_of_entries(s: Seq<(String, Template)>)
    requires
        distinct_keys(s),
    ensures
        forall|p: Seq<char>|
            #[trigger] map_of(s).contains_key(p) == exists|i: int|
                0 <= i < s.len() && (#[trigger] s[i]).0@ == p,
        forall|i: int|
            0 <= i < s.len() ==> map_of(s).contains_key((#[trigger] s[i]).0@) && map_of(s)[s[
                i].0@] == s[i].1@,
    decreases s.len(),
{
    if s.len() != 0 {
        assert(distinct_keys(s.drop_last())) by {
            assert(forall|i: int| 0 <= i < s.len() - 1 ==> (#[trigger] s.drop_last()[i]) == s[i]);
        }
        lemma_map_of_entries(s.drop_last());
        assert(forall|i: int| 0 <= i < s.len() - 1 ==> (#[trigger] s.drop_last()[i]) == s[i]);
        assert forall|i: int| 0 <= i < s.len() implies map_of(s).contains_key(
            (#[trigger] s[i]).0@,
        ) && map_of(s)[s[i].0@] == s[i].1@ by {
            if i < s.len() - 1 {
                assert(s.drop_last()[i] == s[i]);
                assert(s[i].0@ != s.last().0@);
            }
        }
        assert forall|p: Seq<char>| #[trigger] map_of(s).contains_key(p) implies exists|i: int|
            0 <= i < s.len() && (#[trigger] s[i]).0@ == p by {
            if p != s.last().0@ {
                assert(map_of(s.drop_last()).contains_key(p));
                assert(exists|i: int|
                    0 <= i < s.drop_last().len() && (#[trigger] s.drop_last()[i]).0@ == p);
                let i = choose|i: int|
                    0 <= i < s.drop_last().len() && (#[trigger] s.drop_last()[i]).0@ == p;
                assert(s.drop_last()[i] == s[i]);
                assert(s[i].0@ == p);
            } else {
                assert(s[s.len() - 1].0@ == p);
            }
        }
    }
}

/// Removing one entry removes exactly its key.
proof fn lemma_map_of_remove(s: Seq<(String, Template)>, i: int)
    requires
        distinct_keys(s),
        0 <= i < s.len(),
    ensures
        distinct_keys(s.remove(i)),
        map_of(s.remove(i)) == map_of(s).remove(s[i].0@),
{
    lemma_map_of_entries(s);
    assert(forall|a: int|
        0 <= a < s.len() - 1 ==> (#[trigger] s.remove(i)[a]) == (if a < i {
            s[a]
        } else {
            s[a + 1]
        }));
    assert(distinct_keys(s.remove(i)));
    lemma_map_of_entries(s.remove(i));
    assert forall|p: Seq<char>|
        #[trigger] map_of(s.remove(i)).contains_key(p) == map_of(s).remove(
            s[i].0@,
        ).contains_key(p) by {
        if map_of(s.remove(i)).contains_key(p) {
            let a = choose|a: int|
                0 <= a < s.remove(i).len() && (#[trigger] s.remove(i)[a]).0@ == p;
            if a < i {
                assert(s[a].0@ == p);
            } else {
                assert(s[a + 1].0@ == p);
            }
        }
        if map_of(s).remove(s[i].0@).contains_key(p) {
            let a = choose|a: int| 0 <= a < s.len() && (#[trigger] s[a]).0@ == p;
            if a < i {
                assert(s.remove(i)[a].0@ == p);
            } else {
                assert(a != i);
                assert(s.remove(i)[a - 1].0@ == p);
            }
        }
    }
    assert forall|p: Seq<char>| #[trigger] map_of(s.remove(i)).contains_key(p) implies map_of(
        s.remove(i),
    )[p] == map_of(s).remove(s[i].0@)[p] by {
        let a = choose|a: int| 0 <= a < s.remove(i).len() && (#[trigger] s.remove(i)[a]).0@ == p;
        if a < i {
            assert(s[a].0@ == p);
        } else {
            assert(s[a + 1].0@ == p);
        }
    }
    assert(map_of(s.remove(i)) =~= map_of(s).remove(s[i].0@));
}

impl TemplateCache {
    /// The cache's internal well-formedness: one entry per path.
    pub closed spec fn wf(&self) -> bool {
        distinct_keys(self.entries@)
    }

    /// An empty cache.
    pub fn new() -> (r: Self)
        ensures
            r.wf(),
            r@ == Map::<Seq<char>, TemplateView>::empty(),
    {
        TemplateCache { entries: Vec::new() }
    }

    /// The index of the entry for `path`, if one is stored.
    fn find(&self, path: &str) -> (r: Option<usize>)
        requires
            self.wf(),
        ensures
            (r matches Some(i) ==> i < self.entries@.len() && self.entries@[i as int].0@
                == path@),
            r is None ==> !self@.contains_key(path@),
    {
        proof {
            lemma_map_of_entries(self.entries@);
        }
        let mut i: usize = 0;
        while i < self.entries.len()
            invariant
                i <= self.entries@.len(),
                forall|j: int| 0 <= j < i ==> (#[trigger] self.entries@[j]).0@ != path@,
            decreases self.entries@.len() - i,
        {
            if crate::chars::str_eq(self.entries[i].0.as_str(), path) {
                return Some(i);
            }
            i = i + 1;
        }
        None
    }

    /// The cached template for a path, if one is stored.
    pub fn get(&self, path: &str) -> (r: Option<&Template>)
        requires
            self.wf(),
        ensures
            (r is Some) == self@.contains_key(path@),
            r matches Some(t) ==> t@ == self@[path@],
    {
        proof {
            lemma_map_of_entries(self.entries@);
        }
        match self.find(path) {
            Some(i) => Some(&self.entries[i].1),
            None => None,
        }
    }

    /// Stores the resolved template for a path. An entry already stored
    /// for that path is replaced: the last writer wins.
    pub fn insert(&mut self, path: String, template: Template)
        requires
            old(self).wf(),
        ensures
            final(self).wf(),
            final(self)@ == old(self)@.insert(path@, template@),
    {
        let ghost m0 = self@;
        let ghost pkey = path@;
        let ghost tval = template@;
        match self.find(path.as_str()) {
            Some(i) => {
                proof {
                    lemma_map_of_remove(self.entries@, i as int);
                }
                let _ = self.entries.remove(i);
                proof {
                    assert(self@ == m0.remove(pkey));
                    assert(!self@.contains_key(pkey));
                    lemma_map_of_entries(self.entries@);
                    assert(forall|j: int|
                        0 <= j < self.entries@.len() ==> (#[trigger] self.entries@[j]).0@
                            != pkey);
                }
            },
            None => {
                proof {
                    assert(!self@.contains_key(pkey));
                    lemma_map_of_entries(self.entries@);
                    assert(forall|j: int|
                        0 <= j < self.entries@.len() ==> (#[trigger] self.entries@[j]).0@
                            != pkey);
                }
            },
        }
        let ghost before = self.entries@;
        let ghost mbefore = self@;
        self.entries.push((path, template));
        proof {
            assert(self.entries@.drop_last() =~= before);
            assert(self.entries@.last().0@ == pkey);
            assert(self@ == mbefore.insert(pkey, tval));
            if mbefore == m0.remove(pkey) {
                assert(m0.remove(pkey).insert(pkey, tval) =~= m0.insert(pkey, tval));
            }
            assert(self@ =~= m0.insert(pkey, tval));
            assert(distinct_keys(self.entries@)) by {
                assert(forall|j: int|
                    0 <= j < before.len() ==> (#[trigger] self.entries@[j]) == before[j]);
            }
        }
    }
}

} // verus!
