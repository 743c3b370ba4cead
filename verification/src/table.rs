//! A table of values keyed by name: each name at most once; storing a
//! name again replaces its value.
use vstd::prelude::*;

use crate::text::{chars_le, sort_strings, str_eq, strictly_sorted};

verus! {

/// Values by name.
pub struct NameTable<T> {
    items: Vec<(String, T)>,
}

impl<T> NameTable<T> {
    /// The names, in the order they were first stored.
    pub closed spec fn names_view(&self) -> Seq<Seq<char>> {
        self.items@.map_values(|e: (String, T)| e.0@)
    }

    /// The value stored under each name.
    pub closed spec fn entries(&self) -> Map<Seq<char>, T> {
        Map::new(
            |n: Seq<char>| exists|i: int| 0 <= i < self.items@.len() && self.items@[i].0@ == n,
            |n: Seq<char>|
                self.items@[choose|i: int| 0 <= i < self.items@.len() && self.items@[i].0@ == n].1,
        )
    }

    /// No name occurs twice.
    pub closed spec fn wf(&self) -> bool {
        forall|i: int, j: int|
            0 <= i < j < self.items@.len() ==> #[trigger] self.items@[i].0@ != #[trigger] self.items@[j].0@
    }

    /// An empty table.
    pub fn new() -> (r: Self)
        ensures
            r.wf(),
            r.entries() == Map::<Seq<char>, T>::empty(),
    {
        let r = NameTable { items: Vec::new() };
        assert(r.entries() =~= Map::<Seq<char>, T>::empty());
        r
    }

    fn position(&self, name: &str) -> (r: Option<usize>)
        ensures
            match r {
                Some(i) => i < self.items@.len() && self.items@[i as int].0@ == name@,
                None => forall|i: int| 0 <= i < self.items@.len() ==> self.items@[i].0@ != name@,
            },
    {
        let mut i: usize = 0;
        while i < self.items.len()
            invariant
                i <= self.items@.len(),
                forall|j: int| 0 <= j < i ==> self.items@[j].0@ != name@,
            decreases self.items.len() - i,
        {
            if str_eq(self.items[i].0.as_str(), name) {
                return Some(i);
            }
            i = i + 1;
        }
        None
    }

    /// Stores `value` under `name`, replacing what was stored there.
    pub fn insert(&mut self, name: String, value: T)
        requires
            old(self).wf(),
        ensures
            final(self).wf(),
            final(self).entries() == old(self).entries().insert(name@, value),
    {
        let ghost old_entries = self.entries();
        match self.position(name.as_str()) {
            Some(i) => {
                let ghost before = self.items@;
                self.items.set(i, (name, value));
                assert forall|n: Seq<char>| #[trigger] self.entries().dom().contains(n) <==> old_entries.insert(
                    name@,
                    value,
                ).dom().contains(n) by {
                    if n != name@ && old_entries.dom().contains(n) {
                        let k = choose|k: int| 0 <= k < before.len() && before[k].0@ == n;
                        assert(self.items@[k].0@ == n);
                    }
                    if self.entries().dom().contains(n) {
                        let k = choose|k: int| 0 <= k < self.items@.len() && self.items@[k].0@ == n;
                        if k != i {
                            assert(before[k].0@ == n);
                        }
                    }
                    if n == name@ {
                        assert(self.items@[i as int].0@ == n);
                    }
                }
                assert forall|n: Seq<char>| #[trigger] self.entries().dom().contains(n) implies self.entries()[n]
                    == old_entries.insert(name@, value)[n] by {
                    let k = choose|k: int| 0 <= k < self.items@.len() && self.items@[k].0@ == n;
                    if n == name@ {
                        assert(k == i);
                    } else {
                        let k0 = choose|k0: int| 0 <= k0 < before.len() && before[k0].0@ == n;
                        assert(k0 == k);
                    }
                }
                assert(self.entries() =~= old_entries.insert(name@, value));
            },
            None => {
                let ghost before = self.items@;
                self.items.push((name, value));
                assert forall|n: Seq<char>| #[trigger] self.entries().dom().contains(n) <==> old_entries.insert(
                    name@,
                    value,
                ).dom().contains(n) by {
                    if n != name@ && old_entries.dom().contains(n) {
                        let k = choose|k: int| 0 <= k < before.len() && before[k].0@ == n;
                        assert(self.items@[k].0@ == n);
                    }
                    if self.entries().dom().contains(n) {
                        let k = choose|k: int| 0 <= k < self.items@.len() && self.items@[k].0@ == n;
                        if k < before.len() {
                            assert(before[k].0@ == n);
                        }
                    }
                    if n == name@ {
                        assert(self.items@[before.len() as int].0@ == n);
                    }
                }
                assert forall|n: Seq<char>| #[trigger] self.entries().dom().contains(n) implies self.entries()[n]
                    == old_entries.insert(name@, value)[n] by {
                    let k = choose|k: int| 0 <= k < self.items@.len() && self.items@[k].0@ == n;
                    if n == name@ {
                        assert(k == before.len());
                    } else {
                        let k0 = choose|k0: int| 0 <= k0 < before.len() && before[k0].0@ == n;
                        assert(k0 == k);
                    }
                }
                assert(self.entries() =~= old_entries.insert(name@, value));
            },
        }
    }

    /// The value stored under `name`.
    pub fn get(&self, name: &str) -> (r: Option<&T>)
        requires
            self.wf(),
        ensures
            match r {
                Some(p) => self.entries().dom().contains(name@) && *p == self.entries()[name@],
                None => !self.entries().dom().contains(name@),
            },
    {
        match self.position(name) {
            Some(i) => {
                assert(self.entries().dom().contains(name@));
                let ghost k = choose|k: int|
                    0 <= k < self.items@.len() && self.items@[k].0@ == name@;
                assert(k == i as int);
                Some(&self.items[i].1)
            },
            None => None,
        }
    }

    /// The stored names, sorted.
    pub fn names(&self) -> (r: Vec<String>)
        requires
            self.wf(),
        ensures
            r@.map_values(|s: String| s@).to_set() == self.entries().dom(),
            strictly_sorted(r@.map_values(|s: String| s@)),
    {
        let mut v: Vec<String> = Vec::new();
        let mut i: usize = 0;
        while i < self.items.len()
            invariant
                i <= self.items@.len(),
                v@.map_values(|s: String| s@) == self.names_view().take(i as int),
            decreases self.items.len() - i,
        {
            let ghost before = v@;
            let n = self.items[i].0.clone();
            v.push(n);
            assert(v@.map_values(|s: String| s@) =~= before.map_values(|s: String| s@).push(n@));
            assert(self.names_view().take(i + 1) =~= self.names_view().take(i as int).push(
                self.items@[i as int].0@,
            ));
            i = i + 1;
        }
        assert(self.names_view().take(self.items@.len() as int) =~= self.names_view());
        let r = sort_strings(v);
        proof {
            let names = self.names_view();
            let rs = r@.map_values(|s: String| s@);
            self.lemma_len();
            names.lemma_multiset_has_no_duplicates();
            rs.lemma_multiset_has_no_duplicates_conv();
            names.to_multiset_ensures();
            rs.to_multiset_ensures();
            assert forall|x: Seq<char>| rs.to_set().contains(x) <==> self.entries().dom().contains(x) by {
                if rs.to_set().contains(x) {
                    assert(rs.contains(x));
                    assert(rs.to_multiset().count(x) > 0);
                    assert(names.to_multiset().count(x) > 0);
                    assert(names.contains(x));
                    let k = choose|k: int| 0 <= k < names.len() && names[k] == x;
                    assert(self.items@[k].0@ == x);
                }
                if self.entries().dom().contains(x) {
                    let k = choose|k: int| 0 <= k < self.items@.len() && self.items@[k].0@ == x;
                    assert(names[k] == x);
                    assert(names.contains(x));
                    assert(names.to_multiset().count(x) > 0);
                    assert(rs.to_multiset().count(x) > 0);
                    assert(rs.contains(x));
                }
            }
            assert(rs.to_set() =~= self.entries().dom());
            assert forall|i: int, j: int| 0 <= i < j < rs.len() implies chars_le(#[trigger] rs[i], #[trigger] rs[j])
                && rs[i] != rs[j] by {
                assert(chars_le(r@[i]@, r@[j]@));
            }
        }
        r
    }

    /// Number of stored names.
    pub fn len(&self) -> (r: usize)
        requires
            self.wf(),
        ensures
            r == self.entries().dom().len(),
    {
        proof {
            self.lemma_len();
        }
        self.items.len()
    }

    /// The entries in storage order.
    pub closed spec fn items_view(&self) -> Seq<(String, T)> {
        self.items@
    }

    /// The stored entries, in the order names were first stored.
    pub fn items(&self) -> (r: &Vec<(String, T)>)
        ensures
            r@ == self.items_view(),
    {
        &self.items
    }

    proof fn lemma_len(&self)
        requires
            self.wf(),
        ensures
            self.entries().dom().len() == self.items@.len(),
            self.entries().dom().finite(),
    {
        let names = self.names_view();
        vstd::seq_lib::seq_to_set_is_finite(names);
        assert(names.no_duplicates()) by {
            assert forall|i: int, j: int| 0 <= i < names.len() && 0 <= j < names.len() && i != j implies names[i]
                != names[j] by {
                if i < j {
                    assert(self.items@[i].0@ != self.items@[j].0@);
                } else {
                    assert(self.items@[j].0@ != self.items@[i].0@);
                }
            }
        }
        names.unique_seq_to_set();
        assert(self.entries().dom() =~= names.to_set()) by {
            assert forall|n: Seq<char>| self.entries().dom().contains(n) implies names.to_set().contains(n) by {
                let k = choose|k: int| 0 <= k < self.items@.len() && self.items@[k].0@ == n;
                assert(names[k] == n);
            }
            assert forall|n: Seq<char>| names.to_set().contains(n) implies self.entries().dom().contains(n) by {
                let k = choose|k: int| 0 <= k < names.len() && names[k] == n;
                assert(self.items@[k].0@ == n);
            }
        }
    }

}

/// Storing `value` under `name` makes it what `get(name)` finds; every
/// other name keeps its entry; the table grows by one name exactly when
/// `name` was not stored before.
pub proof fn law_insert_then_get<T>(before: NameTable<T>, after: NameTable<T>, name: Seq<char>, value: T)
    requires
        before.wf(),
        after.entries() == before.entries().insert(name, value),
    ensures
        after.entries().dom().contains(name),
        after.entries()[name] == value,
        forall|other: Seq<char>|
            other != name ==> (after.entries().dom().contains(other) == before.entries().dom().contains(
                other,
            )) && (before.entries().dom().contains(other) ==> after.entries()[other]
                == before.entries()[other]),
        after.entries().dom().len() == before.entries().dom().len() + (if before.entries().dom().contains(
            name,
        ) {
            0int
        } else {
            1int
        }),
{
    before.lemma_len();
    if before.entries().dom().contains(name) {
        assert(before.entries().dom().insert(name) =~= before.entries().dom());
    }
}

} // verus!
