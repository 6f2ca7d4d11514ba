//! A small association list from names to values, with unique names.
use vstd::prelude::*;

verus! {

/// Entries keyed by name; each name occurs at most once.
pub struct NameTable<V> {
    entries: Vec<(String, V)>,
}

impl<V> NameTable<V> {
    pub closed spec fn entries(&self) -> Seq<(String, V)> {
        self.entries@
    }

    /// No two entries carry the same name.
    pub closed spec fn wf(&self) -> bool {
        forall|i: int, j: int|
            0 <= i < self.entries@.len() && 0 <= j < self.entries@.len()
                && #[trigger] self.entries@[i].0@ == #[trigger] self.entries@[j].0@ ==> i == j
    }

    pub closed spec fn has(&self, k: Seq<char>) -> bool {
        exists|i: int| 0 <= i < self.entries@.len() && #[trigger] self.entries@[i].0@ == k
    }

    spec fn index_of_spec(&self, k: Seq<char>) -> int {
        choose|i: int| 0 <= i < self.entries@.len() && #[trigger] self.entries@[i].0@ == k
    }

    /// The table as a map from names to values.
    pub closed spec fn view(&self) -> Map<Seq<char>, V> {
        Map::new(|k: Seq<char>| self.has(k), |k: Seq<char>| self.entries@[self.index_of_spec(k)].1)
    }

    proof fn lemma_view_at(&self, i: int)
        requires
            self.wf(),
            0 <= i < self.entries@.len(),
        ensures
            self.view().contains_key(self.entries@[i].0@),
            self.view()[self.entries@[i].0@] == self.entries@[i].1,
    {
        let k = self.entries@[i].0@;
        assert(self.has(k));
        let j = self.index_of_spec(k);
        assert(self.entries@[j].0@ == k);
    }

    pub fn new() -> (r: Self)
        ensures
            r.wf(),
            r.view() == Map::<Seq<char>, V>::empty(),
    {
        let r = NameTable { entries: Vec::new() };
        assert(r.view() =~= Map::<Seq<char>, V>::empty());
        r
    }

    /// Position of the entry named `name`, if any.
    pub fn find(&self, name: &String) -> (r: Option<usize>)
        requires
            self.wf(),
        ensures
            match r {
                Some(i) => i < self.entries().len() && self.entries()[i as int].0@ == name@
                    && self.view().contains_key(name@)
                    && self.view()[name@] == self.entries()[i as int].1,
                None => !self.view().contains_key(name@),
            },
    {
        let mut i: usize = 0;
        while i < self.entries.len()
            invariant
                self.wf(),
                i <= self.entries@.len(),
                forall|j: int| 0 <= j < i ==> #[trigger] self.entries@[j].0@ != name@,
            decreases self.entries@.len() - i,
        {
            if self.entries[i].0 == *name {
                proof {
                    self.lemma_view_at(i as int);
                }
                return Some(i);
            }
            i = i + 1;
        }
        None
    }

    /// The value bound to `name`, if any.
    pub fn get(&self, name: &String) -> (r: Option<&V>)
        requires
            self.wf(),
        ensures
            match r {
                Some(v) => self.view().contains_key(name@) && self.view()[name@] == *v,
                None => !self.view().contains_key(name@),
            },
    {
        match self.find(name) {
            Some(i) => Some(&self.entries[i].1),
            None => None,
        }
    }

    /// Binds `name` to `value` unless the name is already bound.
    pub fn insert_absent(&mut self, name: String, value: V) -> (added: bool)
        requires
            old(self).wf(),
        ensures
            final(self).wf(),
            added == !old(self).view().contains_key(name@),
            final(self).view() == if added {
                old(self).view().insert(name@, value)
            } else {
                old(self).view()
            },
    {
        match self.find(&name) {
            Some(_) => false,
            None => {
                let ghost k = name@;
                let ghost before = *self;
                self.entries.push((name, value));
                proof {
                    assert forall|i: int, j: int|
                        0 <= i < self.entries@.len() && 0 <= j < self.entries@.len()
                            && #[trigger] self.entries@[i].0@ == #[trigger] self.entries@[j].0@
                        implies i == j by {
                        let n = before.entries@.len() as int;
                        if i < n && j == n {
                            before.lemma_view_at(i);
                        } else if i == n && j < n {
                            before.lemma_view_at(j);
                        }
                    }
                    assert forall|q: Seq<char>| #[trigger] self.view().contains_key(q)
                        == before.view().insert(k, value).contains_key(q) by {
                        if before.has(q) {
                            let i = before.index_of_spec(q);
                            assert(self.entries@[i].0@ == q);
                        }
                        if self.has(q) {
                            let i = self.index_of_spec(q);
                            if i < before.entries@.len() {
                                assert(before.entries@[i].0@ == q);
                            }
                        }
                        if q == k {
                            assert(self.entries@[before.entries@.len() as int].0@ == k);
                        }
                    }
                    assert forall|q: Seq<char>| #[trigger] self.view().contains_key(q)
                        implies self.view()[q] == before.view().insert(k, value)[q] by {
                        let i = self.index_of_spec(q);
                        self.lemma_view_at(i);
                        if i < before.entries@.len() {
                            before.lemma_view_at(i);
                        }
                    }
                    assert(self.view() =~= before.view().insert(k, value));
                }
                true
            }
        }
    }

    /// Takes out the entry at position `i`, returning its name and value.
    pub fn remove_at(&mut self, i: usize) -> (r: (String, V))
        requires
            old(self).wf(),
            i < old(self).entries().len(),
        ensures
            final(self).wf(),
            r == old(self).entries()[i as int],
            old(self).view().contains_key(r.0@),
            old(self).view()[r.0@] == r.1,
            final(self).view() == old(self).view().remove(r.0@),
    {
        let ghost before = *self;
        proof {
            before.lemma_view_at(i as int);
        }
        let r = self.entries.remove(i);
        let ghost k = r.0@;
        proof {
            let n = before.entries@.len() as int;
            assert forall|a: int, b: int|
                0 <= a < self.entries@.len() && 0 <= b < self.entries@.len()
                    && #[trigger] self.entries@[a].0@ == #[trigger] self.entries@[b].0@
                implies a == b by {
                let a0 = if a < i { a } else { a + 1 };
                let b0 = if b < i { b } else { b + 1 };
                assert(before.entries@[a0].0@ == before.entries@[b0].0@);
            }
            assert forall|q: Seq<char>| #[trigger] self.view().contains_key(q)
                == before.view().remove(k).contains_key(q) by {
                if self.has(q) {
                    let a = self.index_of_spec(q);
                    let a0 = if a < i { a } else { a + 1 };
                    assert(before.entries@[a0].0@ == q);
                    assert(a0 != i);
                }
                if before.has(q) && q != k {
                    let a0 = before.index_of_spec(q);
                    if a0 < i {
                        assert(self.entries@[a0].0@ == q);
                    } else if a0 > i {
                        assert(self.entries@[a0 - 1].0@ == q);
                    }
                }
            }
            assert forall|q: Seq<char>| #[trigger] self.view().contains_key(q)
                implies self.view()[q] == before.view().remove(k)[q] by {
                let a = self.index_of_spec(q);
                self.lemma_view_at(a);
                let a0 = if a < i { a } else { a + 1 };
                before.lemma_view_at(a0);
            }
            assert(self.view() =~= before.view().remove(k));
        }
        r
    }
}

} // verus!
