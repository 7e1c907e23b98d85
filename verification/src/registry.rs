//! The persistent registry: an ordered key-to-value store keyed by string
//! identifiers, with point lookup, insert-or-overwrite, delete, and full
//! ascending iteration.
//!
//! Entries are held sorted by the lexicographic order of their keys, the
//! order in which the protocol's bulk operations and queries walk them.

use crate::ids::{lemma_lex_lt_connected, lemma_lex_lt_irreflexive, lemma_lex_lt_transitive,
    lex_lt, str_eq, str_lex_lt};
use vstd::prelude::*;

verus! {

/// Keys appear in strictly ascending lexicographic order (hence no
/// duplicates).
pub open spec fn keys_sorted<V>(s: Seq<(String, V)>) -> bool {
    forall|i: int, j: int| 0 <= i < j < s.len() ==> lex_lt(s[i].0@, s[j].0@)
}

/// Some entry carries the key `k`.
pub open spec fn reg_contains<V>(s: Seq<(String, V)>, k: Seq<char>) -> bool {
    exists|i: int| 0 <= i < s.len() && s[i].0@ == k
}

/// The position of the entry carrying `k`, if one does.
pub open spec fn reg_idx<V>(s: Seq<(String, V)>, k: Seq<char>) -> int {
    choose|i: int| 0 <= i < s.len() && s[i].0@ == k
}

/// The value stored under `k`, if any.
pub open spec fn reg_find<V>(s: Seq<(String, V)>, k: Seq<char>) -> Option<V> {
    if reg_contains(s, k) {
        Some(s[reg_idx(s, k)].1)
    } else {
        None
    }
}

/// In a sorted sequence, an entry with key `k` at position `i` is the one
/// that `reg_find` yields.
pub proof fn lemma_reg_at<V>(s: Seq<(String, V)>, k: Seq<char>, i: int)
    requires
        keys_sorted(s),
        0 <= i < s.len(),
        s[i].0@ == k,
    ensures
        reg_contains(s, k),
        reg_find(s, k) == Some(s[i].1),
{
    assert(reg_contains(s, k));
    let j = reg_idx(s, k);
    if j != i {
        assert(lex_lt(k, k));
        lemma_lex_lt_irreflexive(k);
    }
}

/// An ordered key-to-value registry.
pub struct Registry<V> {
    pub entries: Vec<(String, V)>,
}

impl<V> View for Registry<V> {
    type V = Seq<(String, V)>;

    open spec fn view(&self) -> Seq<(String, V)> {
        self.entries@
    }
}

impl<V> Registry<V> {
    pub open spec fn wf(&self) -> bool {
        keys_sorted(self@)
    }

    pub fn new() -> (r: Self)
        ensures
            r@ =~= Seq::<(String, V)>::empty(),
            r.wf(),
    {
        Registry { entries: Vec::new() }
    }

    pub fn len(&self) -> (n: usize)
        ensures
            n == self@.len(),
    {
        self.entries.len()
    }

    /// The entry at iteration position `i` (ascending key order).
    pub fn entry(&self, i: usize) -> (e: &(String, V))
        requires
            i < self@.len(),
        ensures
            *e == self@[i as int],
    {
        &self.entries[i]
    }

    /// The position of the entry carrying `key`, if one does.
    fn find_key(&self, key: &str) -> (r: Option<usize>)
        ensures
            match r {
                Some(i) => i < self@.len() && self@[i as int].0@ == key@,
                None => forall|j: int| 0 <= j < self@.len() ==> self@[j].0@ != key@,
            },
    {
        let n = self.entries.len();
        let mut i: usize = 0;
        while i < n
            invariant
                i <= n,
                n == self@.len(),
                forall|j: int| 0 <= j < i ==> self@[j].0@ != key@,
            decreases n - i,
        {
            if str_eq(self.entries[i].0.as_str(), key) {
                return Some(i);
            }
            i = i + 1;
        }
        None
    }

    /// Point lookup.
    pub fn get(&self, key: &str) -> (r: Option<&V>)
        requires
            self.wf(),
        ensures
            match r {
                Some(v) => reg_find(self@, key@) == Some(*v),
                None => reg_find(self@, key@) is None,
            },
    {
        match self.find_key(key) {
            Some(i) => {
                proof {
                    lemma_reg_at(self@, key@, i as int);
                }
                Some(&self.entries[i].1)
            },
            None => {
                proof {
                    if reg_contains(self@, key@) {
                        let w = reg_idx(self@, key@);
                        assert(self@[w].0@ != key@);
                    }
                }
                None
            },
        }
    }

    /// The position of the first key not below `key`.
    fn find_pos(&self, key: &str) -> (i: usize)
        ensures
            i <= self@.len(),
            forall|j: int| 0 <= j < i ==> lex_lt(self@[j].0@, key@),
            i < self@.len() ==> !lex_lt(self@[i as int].0@, key@),
    {
        let n = self.entries.len();
        let mut i: usize = 0;
        while i < n
            invariant
                i <= n,
                n == self@.len(),
                forall|j: int| 0 <= j < i ==> lex_lt(self@[j].0@, key@),
            decreases n - i,
        {
            if !str_lex_lt(self.entries[i].0.as_str(), key) {
                return i;
            }
            i = i + 1;
        }
        i
    }

    /// Insert-or-overwrite under `key`, keeping the ascending order.
    pub fn insert(&mut self, key: String, value: V)
        requires
            old(self).wf(),
        ensures
            final(self).wf(),
            reg_find(final(self)@, key@) == Some(value),
            forall|k: Seq<char>| k != key@ ==> reg_find(final(self)@, k) == reg_find(
                old(self)@,
                k,
            ),
            final(self)@.len() == if reg_contains(old(self)@, key@) {
                old(self)@.len() as int
            } else {
                old(self)@.len() + 1int
            },
            forall|j: int|
                0 <= j < final(self)@.len() ==> #[trigger] final(self)@[j].0@ == key@
                    || reg_contains(old(self)@, final(self)@[j].0@),
    {
        let ghost s0 = self@;
        let i = self.find_pos(key.as_str());
        if i < self.entries.len() && str_eq(self.entries[i].0.as_str(), key.as_str()) {
            self.entries.remove(i);
            self.entries.insert(i, (key, value));
            proof {
                let s1 = self@;
                assert(s1.len() == s0.len());
                assert forall|j: int| 0 <= j < s1.len() && j != i implies s1[j] == s0[j] by {
                    assert(s0.remove(i as int).insert(i as int, s1[i as int]) == s1);
                }
                assert(s1[i as int].0@ == s0[i as int].0@);
                assert forall|p: int, q: int| 0 <= p < q < s1.len() implies lex_lt(
                    s1[p].0@,
                    s1[q].0@,
                ) by {
                    assert(lex_lt(s0[p].0@, s0[q].0@));
                }
                lemma_reg_at(s1, key@, i as int);
                lemma_reg_at(s0, key@, i as int);
                assert forall|k: Seq<char>| k != key@ implies reg_find(s1, k) == reg_find(
                    s0,
                    k,
                ) by {
                    if reg_contains(s0, k) {
                        let w = reg_idx(s0, k);
                        lemma_reg_at(s0, k, w);
                        lemma_reg_at(s1, k, w);
                    } else if reg_contains(s1, k) {
                        let w = reg_idx(s1, k);
                        assert(s0[w].0@ == k);
                    }
                }
            }
        } else {
            proof {
                if i < s0.len() {
                    if lex_lt(key@, s0[i as int].0@) {
                    } else {
                        lemma_lex_lt_connected(s0[i as int].0@, key@);
                        assert(false);
                    }
                }
                if reg_contains(s0, key@) {
                    let w = reg_idx(s0, key@);
                    if w < i {
                        lemma_lex_lt_irreflexive(key@);
                    } else {
                        assert(w > i || w == i);
                        if w == i {
                            assert(s0[w].0@ != key@);
                        } else {
                            assert(lex_lt(s0[i as int].0@, s0[w].0@));
                            lemma_lex_lt_transitive(key@, s0[i as int].0@, s0[w].0@);
                            lemma_lex_lt_irreflexive(key@);
                        }
                    }
                }
            }
            self.entries.insert(i, (key, value));
            proof {
                let s1 = self@;
                assert(s1 == s0.insert(i as int, s1[i as int]));
                assert(s1.len() == s0.len() + 1);
                assert forall|j: int| 0 <= j < s1.len() implies (if j < i {
                    s1[j] == s0[j]
                } else if j == i {
                    s1[j].0@ == key@
                } else {
                    s1[j] == s0[j - 1]
                }) by {}
                assert forall|p: int, q: int| 0 <= p < q < s1.len() implies lex_lt(
                    s1[p].0@,
                    s1[q].0@,
                ) by {
                    if p < i && q < i {
                    } else if p < i && q == i {
                    } else if p < i && q > i {
                        assert(lex_lt(s0[p].0@, s0[q - 1].0@));
                    } else if p == i {
                        if q - 1 == i {
                            assert(lex_lt(key@, s0[i as int].0@));
                        } else {
                            assert(lex_lt(s0[i as int].0@, s0[q - 1].0@));
                            lemma_lex_lt_transitive(key@, s0[i as int].0@, s0[q - 1].0@);
                        }
                    } else {
                        assert(lex_lt(s0[p - 1].0@, s0[q - 1].0@));
                    }
                }
                lemma_reg_at(s1, key@, i as int);
                assert forall|k: Seq<char>| k != key@ implies reg_find(s1, k) == reg_find(
                    s0,
                    k,
                ) by {
                    if reg_contains(s0, k) {
                        let w = reg_idx(s0, k);
                        lemma_reg_at(s0, k, w);
                        if w < i {
                            lemma_reg_at(s1, k, w);
                        } else {
                            lemma_reg_at(s1, k, w + 1);
                        }
                    } else if reg_contains(s1, k) {
                        let w = reg_idx(s1, k);
                        assert(0 <= w < s1.len() && s1[w].0@ == k);
                        if w < i {
                            assert(s0[w].0@ == k);
                        } else if w == i {
                            assert(k == key@);
                        } else {
                            assert(s0[w - 1].0@ == k);
                        }
                    }
                }
            }
        }
    }

    /// Delete the entry under `key`, returning it if it was there.
    pub fn remove(&mut self, key: &str) -> (r: Option<V>)
        requires
            old(self).wf(),
        ensures
            final(self).wf(),
            r == reg_find(old(self)@, key@),
            reg_find(final(self)@, key@) is None,
            forall|k: Seq<char>| k != key@ ==> reg_find(final(self)@, k) == reg_find(
                old(self)@,
                k,
            ),
            final(self)@.len() == if reg_contains(old(self)@, key@) {
                old(self)@.len() - 1
            } else {
                old(self)@.len() as int
            },
            forall|j: int|
                0 <= j < final(self)@.len() ==> reg_contains(
                    old(self)@,
                    #[trigger] final(self)@[j].0@,
                ),
    {
        let ghost s0 = self@;
        match self.find_key(key) {
            Some(i) => {
                proof {
                    lemma_reg_at(s0, key@, i as int);
                }
                let e = self.entries.remove(i);
                proof {
                    let s1 = self@;
                    assert(s1 == s0.remove(i as int));
                    assert forall|p: int, q: int| 0 <= p < q < s1.len() implies lex_lt(
                        s1[p].0@,
                        s1[q].0@,
                    ) by {
                        let p0: int = if p < i { p } else { p + 1 };
                        let q0: int = if q < i { q } else { q + 1 };
                        assert(lex_lt(s0[p0].0@, s0[q0].0@));
                    }
                    if reg_contains(s1, key@) {
                        let w = reg_idx(s1, key@);
                        let w0: int = if w < i { w } else { w + 1 };
                        assert(s0[w0].0@ == key@);
                        assert(lex_lt(key@, key@));
                        lemma_lex_lt_irreflexive(key@);
                    }
                    assert forall|k: Seq<char>| k != key@ implies reg_find(s1, k) == reg_find(
                        s0,
                        k,
                    ) by {
                        if reg_contains(s0, k) {
                            let w = reg_idx(s0, k);
                            lemma_reg_at(s0, k, w);
                            if w < i {
                                lemma_reg_at(s1, k, w);
                            } else {
                                lemma_reg_at(s1, k, w - 1);
                            }
                        } else if reg_contains(s1, k) {
                            let w = reg_idx(s1, k);
                            let w0: int = if w < i { w } else { w + 1 };
                            assert(s0[w0].0@ == k);
                        }
                    }
                }
                Some(e.1)
            },
            None => {
                proof {
                    if reg_contains(s0, key@) {
                        let w = reg_idx(s0, key@);
                        assert(s0[w].0@ != key@);
                    }
                }
                None
            },
        }
    }

    /// Delete every entry.
    pub fn clear(&mut self)
        ensures
            final(self)@ =~= Seq::<(String, V)>::empty(),
            final(self).wf(),
    {
        self.entries.clear();
    }
}

} // verus!
