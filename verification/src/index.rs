//! The live index: the authoritative set of tracked file paths.
//!
//! The index is an ordered collection with stable insertion order and no
//! duplicate entries. Inserting a path that is already present is a no-op,
//! and removing one drops every matching entry (with the no-duplicate
//! invariant there is at most one), so membership behaves like a
//! mathematical set while snapshots stay deterministic.

use vstd::prelude::*;

verus! {

/// The index after a path is inserted: unchanged when the path is already
/// present, otherwise the path is appended.
pub open spec fn insert_path(s: Seq<Seq<char>>, p: Seq<char>) -> Seq<Seq<char>> {
    if s.contains(p) {
        s
    } else {
        s.push(p)
    }
}

/// The index after a path is removed: every occurrence of the path is
/// dropped and the order of the rest is kept.
pub open spec fn remove_path(s: Seq<Seq<char>>, p: Seq<char>) -> Seq<Seq<char>>
    decreases s.len(),
{
    if s.len() == 0 {
        s
    } else if s.last() == p {
        remove_path(s.drop_last(), p)
    } else {
        remove_path(s.drop_last(), p).push(s.last())
    }
}

/// Inserting a path adds exactly it to the membership set, keeps the other
/// entries in place, and preserves the no-duplicate invariant.
pub proof fn lemma_insert_path(s: Seq<Seq<char>>, p: Seq<char>)
    ensures
        forall|x: Seq<char>| insert_path(s, p).contains(x) <==> (s.contains(x) || x == p),
        insert_path(s, p).to_set() == s.to_set().insert(p),
        s.no_duplicates() ==> insert_path(s, p).no_duplicates(),
{
    let r = insert_path(s, p);
    assert forall|x: Seq<char>| r.contains(x) implies (s.contains(x) || x == p) by {
        let i = choose|i: int| 0 <= i < r.len() && r[i] == x;
        if i < s.len() {
            assert(s[i] == x);
        }
    };
    assert forall|x: Seq<char>| (s.contains(x) || x == p) implies r.contains(x) by {
        if s.contains(x) {
            let i = choose|i: int| 0 <= i < s.len() && s[i] == x;
            assert(r[i] == x);
        } else if !s.contains(p) {
            assert(r[s.len() as int] == x);
        }
    };
    if s.no_duplicates() && !s.contains(p) {
        assert forall|i: int, j: int|
            0 <= i < r.len() && 0 <= j < r.len() && i != j implies r[i] != r[j] by {
            if i < s.len() && j < s.len() {
                assert(r[i] == s[i] && r[j] == s[j]);
            } else if i < s.len() {
                assert(r[i] == s[i] && r[j] == p);
                if s[i] == p {
                    assert(s.contains(p));
                }
            } else {
                assert(r[i] == p && r[j] == s[j]);
                if s[j] == p {
                    assert(s.contains(p));
                }
            }
        };
    }
    assert(r.to_set() =~= s.to_set().insert(p));
}

/// Removing a path deletes exactly its occurrences, and preserves the
/// no-duplicate invariant.
pub proof fn lemma_remove_path(s: Seq<Seq<char>>, p: Seq<char>)
    ensures
        forall|x: Seq<char>| remove_path(s, p).contains(x) <==> (s.contains(x) && x != p),
        remove_path(s, p).to_set() == s.to_set().remove(p),
        s.no_duplicates() ==> remove_path(s, p).no_duplicates(),
    decreases s.len(),
{
    let r = remove_path(s, p);
    if s.len() > 0 {
        let head = s.drop_last();
        let rh = remove_path(head, p);
        lemma_remove_path(head, p);
        assert(forall|k: int| 0 <= k < head.len() ==> head[k] == s[k]);
        if s.no_duplicates() {
            assert(head.no_duplicates());
        }
        assert forall|x: Seq<char>| r.contains(x) implies (s.contains(x) && x != p) by {
            let i = choose|i: int| 0 <= i < r.len() && r[i] == x;
            if s.last() == p || i < rh.len() {
                assert(remove_path(head, p)[i] == x);
                assert(remove_path(head, p).contains(x));
                assert(head.contains(x) && x != p);
                let j = choose|j: int| 0 <= j < head.len() && head[j] == x;
                assert(s[j] == x);
                assert(s.contains(x));
            } else {
                assert(x == s.last());
                assert(s[s.len() - 1] == x);
                assert(s.contains(x));
            }
        };
        assert forall|x: Seq<char>| (s.contains(x) && x != p) implies r.contains(x) by {
            let i = choose|i: int| 0 <= i < s.len() && s[i] == x;
            if i < head.len() {
                assert(head[i] == x);
                assert(head.contains(x));
                assert(remove_path(head, p).contains(x));
                let k = choose|k: int|
                    0 <= k < remove_path(head, p).len() && remove_path(head, p)[k] == x;
                assert(r[k] == x);
                assert(r.contains(x));
            } else {
                assert(x == s.last());
                assert(r[rh.len() as int] == x);
                assert(r.contains(x));
            }
        };
        if s.no_duplicates() && s.last() != p {
            assert(head.no_duplicates());
            assert(!head.contains(s.last())) by {
                if head.contains(s.last()) {
                    let i = choose|i: int| 0 <= i < head.len() && head[i] == s.last();
                    assert(s[i] == s[s.len() - 1]);
                }
            }
            assert forall|i: int, j: int|
                0 <= i < r.len() && 0 <= j < r.len() && i != j implies r[i] != r[j] by {
                if i < rh.len() && j < rh.len() {
                    assert(r[i] == rh[i] && r[j] == rh[j]);
                } else if i < rh.len() {
                    assert(r[i] == rh[i] && r[j] == s.last());
                    if rh[i] == s.last() {
                        assert(rh.contains(s.last()));
                    }
                } else {
                    assert(r[i] == s.last() && r[j] == rh[j]);
                    if rh[j] == s.last() {
                        assert(rh.contains(s.last()));
                    }
                }
            };
        }
    }
    assert(r.to_set() =~= s.to_set().remove(p));
}

/// The live index: tracked file paths in insertion order, without
/// duplicates, viewed as the sequence of their character sequences.
#[derive(Debug)]
pub struct LiveIndex {
    paths: Vec<String>,
}

impl View for LiveIndex {
    type V = Seq<Seq<char>>;

    closed spec fn view(&self) -> Seq<Seq<char>> {
        self.paths.deep_view()
    }
}

impl LiveIndex {
    #[verifier::type_invariant]
    spec fn inv(&self) -> bool {
        self@.no_duplicates()
    }

    /// An empty index.
    pub fn new() -> (r: Self)
        ensures
            r@ == Seq::<Seq<char>>::empty(),
    {
        let r = LiveIndex { paths: Vec::new() };
        proof {
            assert(r@ =~= Seq::<Seq<char>>::empty());
        }
        r
    }

    /// The index never holds the same path twice; callers may rely on it
    /// without any precondition.
    pub fn no_duplicates_holds(&self)
        ensures
            self@.no_duplicates(),
    {
        proof {
            use_type_invariant(self);
        }
    }

    /// How many paths are tracked.
    pub fn len(&self) -> (r: usize)
        ensures
            r == self@.len(),
    {
        self.paths.len()
    }

    /// Whether `p` is tracked.
    pub fn contains(&self, p: &String) -> (r: bool)
        ensures
            r == self@.contains(p@),
    {
        let n = self.paths.len();
        let mut i: usize = 0;
        while i < n
            invariant
                n == self.paths.len(),
                i <= n,
                forall|j: int| 0 <= j < i ==> self@[j] != p@,
            decreases n - i,
        {
            let q: &String = &self.paths[i];
            if q.eq(p) {
                assert(self@[i as int] == p@);
                return true;
            }
            i = i + 1;
        }
        false
    }

    /// Inserts `p`; a path already present is left alone.
    pub fn insert(&mut self, p: String)
        ensures
            final(self)@ == insert_path(old(self)@, p@),
    {
        proof {
            use_type_invariant(&*self);
        }
        if !self.contains(&p) {
            let ghost old_view = self@;
            let ghost pv = p@;
            let mut v: Vec<String> = Vec::new();
            std::mem::swap(&mut v, &mut self.paths);
            v.push(p);
            proof {
                assert(v.deep_view() =~= old_view.push(pv));
                lemma_insert_path(old_view, pv);
            }
            self.paths = v;
        }
    }

    /// Removes every entry equal to `p`; absent paths are a no-op.
    pub fn remove(&mut self, p: &String)
        ensures
            final(self)@ == remove_path(old(self)@, p@),
    {
        proof {
            use_type_invariant(&*self);
            lemma_remove_path(self@, p@);
        }
        let n = self.paths.len();
        let mut kept: Vec<String> = Vec::new();
        let mut i: usize = 0;
        while i < n
            invariant
                n == self.paths.len(),
                i <= n,
                kept.deep_view() == remove_path(self@.take(i as int), p@),
            decreases n - i,
        {
            proof {
                assert(self@.take(i + 1).drop_last() =~= self@.take(i as int));
                assert(self@.take(i + 1).last() == self@[i as int]);
            }
            let q: &String = &self.paths[i];
            if !q.eq(p) {
                let ghost prev = kept@;
                kept.push(q.clone());
                proof {
                    assert(kept@ == prev.push(self.paths@[i as int]));
                    assert(forall|k: int| 0 <= k < prev.len() ==> kept@[k] == prev[k]);
                    assert(kept.deep_view() =~= remove_path(self@.take(i as int), p@).push(
                        self@[i as int],
                    ));
                }
            }
            i = i + 1;
        }
        proof {
            assert(self@.take(n as int) =~= self@);
        }
        self.paths = kept;
    }

    /// An independent copy of the current contents, in index order.
    pub fn snapshot_paths(&self) -> (r: Vec<String>)
        ensures
            r.deep_view() == self@,
    {
        let n = self.paths.len();
        let mut r: Vec<String> = Vec::new();
        let mut i: usize = 0;
        while i < n
            invariant
                n == self.paths.len(),
                i <= n,
                r@.len() == i as int,
                r.deep_view() == self@.take(i as int),
            decreases n - i,
        {
            let ghost prev = r@;
            r.push(self.paths[i].clone());
            proof {
                assert(r@ == prev.push(self.paths@[i as int]));
                assert(forall|k: int| 0 <= k < prev.len() ==> r@[k] == prev[k]);
                assert(r.deep_view() =~= self@.take(i + 1));
            }
            i = i + 1;
        }
        proof {
            assert(self@.take(n as int) =~= self@);
        }
        r
    }
}

} // verus!
