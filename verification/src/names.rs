//! Values filed under names, in the order in which the names came in.

use crate::seqs::{first_index, lemma_filter_out, lemma_first_index, lemma_first_index_bounds};
use vstd::prelude::*;

verus! {

/// The names of a row of entries, in order.
pub open spec fn names_of<V>(entries: Seq<(Seq<char>, V)>) -> Seq<Seq<char>> {
    entries.map_values(|e: (Seq<char>, V)| e.0)
}

/// Whether no name stands twice in `entries`.
pub open spec fn distinct_names<V>(entries: Seq<(Seq<char>, V)>) -> bool {
    names_of(entries).no_duplicates()
}

/// The value that `entries` file under `name`.
pub open spec fn lookup<V>(entries: Seq<(Seq<char>, V)>, name: Seq<char>) -> Option<V> {
    let k = first_index(names_of(entries), name);
    if 0 <= k < entries.len() {
        Some(entries[k].1)
    } else {
        None
    }
}

/// `entries` with `value` under `name`: in the place of what the name had, or
/// at the end if the name is new.
pub open spec fn with_entry<V>(entries: Seq<(Seq<char>, V)>, name: Seq<char>, value: V) -> Seq<
    (Seq<char>, V),
> {
    let k = first_index(names_of(entries), name);
    if 0 <= k < entries.len() {
        entries.update(k, (name, value))
    } else {
        entries.push((name, value))
    }
}

/// `entries` without what stands under `name`; the others keep their order.
pub open spec fn without_entry<V>(entries: Seq<(Seq<char>, V)>, name: Seq<char>) -> Seq<
    (Seq<char>, V),
> {
    entries.filter(other_than(name))
}

/// The test that an entry stands under another name than `name`.
pub open spec fn other_than<V>(name: Seq<char>) -> spec_fn((Seq<char>, V)) -> bool {
    |e: (Seq<char>, V)| e.0 != name
}

/// What is looked up is an entry of the row, and every entry of a row of
/// distinct names is found under its name.
pub proof fn lemma_lookup<V>(entries: Seq<(Seq<char>, V)>, name: Seq<char>)
    ensures
        0 <= first_index(names_of(entries), name) <= entries.len(),
        lookup(entries, name) is Some <==> names_of(entries).contains(name),
        lookup(entries, name) is Some ==> exists|i: int|
            0 <= i < entries.len() && #[trigger] entries[i] == (name, lookup(entries, name)->0),
        distinct_names(entries) ==> forall|i: int|
            0 <= i < entries.len() && (#[trigger] entries[i]).0 == name ==> first_index(
                names_of(entries),
                name,
            ) == i,
{
    let names = names_of(entries);
    lemma_first_index_bounds(names, name);
    let k = first_index(names, name);
    if k < entries.len() {
        assert(names[k] == name);
        assert(entries[k] == (name, entries[k].1));
    }
    if names.contains(name) {
        let i = choose|i: int| 0 <= i < names.len() && names[i] == name;
        assert(names[i] == name);
    }
    if distinct_names(entries) {
        assert forall|i: int| 0 <= i < entries.len() && (#[trigger] entries[i]).0 == name implies k
            == i by {
            assert(names[i] == name);
            assert(names[k] == name);
        }
    }
}

/// Values filed under names, no name twice. Walking through it follows the
/// order in which the names came in.
#[derive(Debug)]
pub struct NameMap<V> {
    entries: Vec<(String, V)>,
}

impl<V> View for NameMap<V> {
    type V = Seq<(Seq<char>, V)>;

    closed spec fn view(&self) -> Seq<(Seq<char>, V)> {
        self.entries@.map_values(|e: (String, V)| (e.0@, e.1))
    }
}

impl<V> NameMap<V> {
    /// No name stands twice.
    #[verifier::type_invariant]
    spec fn well_formed(self) -> bool {
        distinct_names(self@)
    }

    /// A map that holds nothing.
    pub fn new() -> (m: Self)
        ensures
            m@ == Seq::<(Seq<char>, V)>::empty(),
    {
        let m = NameMap { entries: Vec::new() };
        assert(m@ =~= Seq::<(Seq<char>, V)>::empty());
        m
    }

    /// How many names the map holds.
    pub fn len(&self) -> (n: usize)
        ensures
            n == self@.len(),
            distinct_names(self@),
    {
        proof {
            use_type_invariant(self);
        }
        self.entries.len()
    }

    /// Whether the map holds no name.
    pub fn is_empty(&self) -> (b: bool)
        ensures
            b == (self@.len() == 0),
    {
        self.entries.len() == 0
    }

    /// Where `name` stands in the map.
    fn position(&self, name: &str) -> (k: Option<usize>)
        ensures
            match k {
                Some(i) => i < self@.len() && self@[i as int].0 == name@ && first_index(
                    names_of(self@),
                    name@,
                ) == i,
                None => first_index(names_of(self@), name@) == self@.len(),
            },
    {
        let key = name.to_owned();
        for i in 0..self.entries.len()
            invariant
                key@ == name@,
                self@.len() == self.entries@.len(),
                forall|j: int| 0 <= j < i ==> names_of(self@)[j] != name@,
        {
            if self.entries[i].0 == key {
                proof {
                    lemma_first_index(names_of(self@), name@, i as int);
                }
                return Some(i);
            }
        }
        proof {
            lemma_first_index(names_of(self@), name@, self@.len() as int);
        }
        None
    }

    /// Whether something stands under `name`.
    pub fn contains_key(&self, name: &str) -> (b: bool)
        ensures
            b == lookup(self@, name@) is Some,
    {
        self.position(name).is_some()
    }

    /// What stands under `name`.
    pub fn get(&self, name: &str) -> (v: Option<&V>)
        ensures
            v == match lookup(self@, name@) {
                Some(x) => Some(&x),
                None => None,
            },
    {
        match self.position(name) {
            Some(i) => Some(&self.entries[i].1),
            None => None,
        }
    }

    /// The name that came in as number `i`.
    pub fn name_at(&self, i: usize) -> (name: &String)
        requires
            i < self@.len(),
        ensures
            name@ == self@[i as int].0,
    {
        &self.entries[i].0
    }

    /// The value under the name that came in as number `i`.
    pub fn value_at(&self, i: usize) -> (v: &V)
        requires
            i < self@.len(),
        ensures
            *v == self@[i as int].1,
    {
        &self.entries[i].1
    }

    /// Files `value` under `name`, in place of what stood there.
    pub fn insert(&mut self, name: String, value: V)
        ensures
            final(self)@ == with_entry(old(self)@, name@, value),
            forall|n: Seq<char>| #[trigger]
                lookup(final(self)@, n) == if n == name@ {
                    Some(value)
                } else {
                    lookup(old(self)@, n)
                },
    {
        proof {
            use_type_invariant(&*self);
            lemma_with_entry(self@, name@, value);
        }
        let found = self.position(name.as_str());
        let mut entries: Vec<(String, V)> = Vec::new();
        std::mem::swap(&mut entries, &mut self.entries);
        let ghost before = old(self)@;
        match found {
            Some(i) => {
                entries.set(i, (name, value));
            },
            None => {
                entries.push((name, value));
            },
        }
        assert(entries@.map_values(|e: (String, V)| (e.0@, e.1)) =~= with_entry(
            before,
            name@,
            value,
        ));
        self.entries = entries;
    }

    /// Takes out what stands under `name`.
    pub fn remove(&mut self, name: &str) -> (v: Option<V>)
        ensures
            v == lookup(old(self)@, name@),
            final(self)@ == without_entry(old(self)@, name@),
            forall|n: Seq<char>| #[trigger]
                lookup(final(self)@, n) == if n == name@ {
                    None
                } else {
                    lookup(old(self)@, n)
                },
    {
        proof {
            use_type_invariant(&*self);
            lemma_without_entry(self@, name@);
        }
        match self.position(name) {
            Some(i) => {
                let mut entries: Vec<(String, V)> = Vec::new();
                std::mem::swap(&mut entries, &mut self.entries);
                let taken = entries.remove(i);
                assert(entries@.map_values(|e: (String, V)| (e.0@, e.1)) =~= old(self)@.remove(
                    i as int,
                ));
                self.entries = entries;
                Some(taken.1)
            },
            None => None,
        }
    }
}

impl<V: Clone> Clone for NameMap<V> {
    fn clone(&self) -> (copy: Self)
        ensures
            copy@.len() == self@.len(),
            forall|i: int|
                0 <= i < self@.len() ==> (#[trigger] copy@[i]).0 == self@[i].0 && cloned::<V>(
                    self@[i].1,
                    copy@[i].1,
                ),
    {
        proof {
            use_type_invariant(self);
        }
        let mut entries: Vec<(String, V)> = Vec::new();
        for i in 0..self.entries.len()
            invariant
                entries@.len() == i,
                forall|j: int|
                    0 <= j < i ==> (#[trigger] entries@[j]).0@ == self.entries@[j].0@ && cloned::<
                        V,
                    >(self.entries@[j].1, entries@[j].1),
        {
            entries.push((self.entries[i].0.clone(), self.entries[i].1.clone()));
        }
        assert(names_of(entries@.map_values(|e: (String, V)| (e.0@, e.1))) =~= names_of(self@));
        NameMap { entries }
    }
}

/// Filing a value keeps names distinct and touches no other name.
pub proof fn lemma_with_entry<V>(entries: Seq<(Seq<char>, V)>, name: Seq<char>, value: V)
    requires
        distinct_names(entries),
    ensures
        distinct_names(with_entry(entries, name, value)),
        forall|n: Seq<char>| #[trigger]
            lookup(with_entry(entries, name, value), n) == if n == name {
                Some(value)
            } else {
                lookup(entries, n)
            },
{
    let names = names_of(entries);
    let after = with_entry(entries, name, value);
    let new_names = names_of(after);
    let k = first_index(names, name);
    lemma_first_index_bounds(names, name);
    if k < entries.len() {
        assert(new_names =~= names);
    } else {
        assert(new_names =~= names.push(name));
    }
    assert forall|n: Seq<char>| #[trigger] lookup(after, n) == if n == name {
        Some(value)
    } else {
        lookup(entries, n)
    } by {
        lemma_first_index_bounds(names, n);
        let m = first_index(names, n);
        if n == name {
            assert(new_names[k] == name);
            lemma_first_index(new_names, n, k);
        } else if m < entries.len() {
            assert(new_names[m] == n);
            lemma_first_index(new_names, n, m);
        } else {
            lemma_first_index(new_names, n, new_names.len() as int);
        }
    }
}

/// Taking a name out removes its one entry and touches no other name.
pub proof fn lemma_without_entry<V>(entries: Seq<(Seq<char>, V)>, name: Seq<char>)
    requires
        distinct_names(entries),
    ensures
        distinct_names(without_entry(entries, name)),
        without_entry(entries, name) == {
            let k = first_index(names_of(entries), name);
            if 0 <= k < entries.len() {
                entries.remove(k)
            } else {
                entries
            }
        },
        forall|n: Seq<char>| #[trigger]
            lookup(without_entry(entries, name), n) == if n == name {
                None
            } else {
                lookup(entries, n)
            },
{
    let names = names_of(entries);
    let keep = other_than::<V>(name);
    let after = without_entry(entries, name);
    let k = first_index(names, name);
    lemma_first_index_bounds(names, name);
    assert forall|i: int| 0 <= i < entries.len() && i != k implies keep(#[trigger] entries[i]) by {
        assert(names[i] == entries[i].0);
        if names[i] == name {
            lemma_lookup(entries, name);
        }
    }
    if k < entries.len() {
        assert(entries[k].0 == names[k]);
        lemma_filter_out(entries, keep, k);
        assert(names_of(after) =~= names.remove(k));
    } else {
        lemma_filter_out(entries, keep, k);
    }
    let new_names = names_of(after);
    assert forall|n: Seq<char>| #[trigger] lookup(after, n) == if n == name {
        None
    } else {
        lookup(entries, n)
    } by {
        lemma_first_index_bounds(names, n);
        let m = first_index(names, n);
        if n == name {
            assert forall|i: int| 0 <= i < new_names.len() implies new_names[i] != n by {
                if k < entries.len() {
                    assert(new_names[i] == if i < k { names[i] } else { names[i + 1] });
                }
            }
            lemma_first_index(new_names, n, new_names.len() as int);
        } else if m < k {
            assert(forall|i: int| 0 <= i <= m ==> new_names[i] == names[i]);
            lemma_first_index(new_names, n, m);
        } else {
            assert forall|i: int| 0 <= i < m - 1 implies new_names[i] != n by {
                assert(new_names[i] == if i < k { names[i] } else { names[i + 1] });
            }
            if k < entries.len() {
                lemma_first_index(new_names, n, m - 1);
            }
        }
    }
}

/// Names that are distinct stay so when some entries go.
pub proof fn lemma_filter_distinct<V>(
    entries: Seq<(Seq<char>, V)>,
    keep: spec_fn((Seq<char>, V)) -> bool,
)
    requires
        distinct_names(entries),
    ensures
        distinct_names(entries.filter(keep)),
    decreases entries.len(),
{
    reveal(Seq::filter);
    if entries.len() > 0 {
        let front = entries.drop_last();
        let last = entries.last();
        assert(names_of(front) =~= names_of(entries).drop_last());
        lemma_filter_distinct(front, keep);
        let kept = front.filter(keep);
        if keep(last) {
            assert(names_of(kept.push(last)) =~= names_of(kept).push(last.0));
            assert forall|k: int| 0 <= k < kept.len() implies names_of(kept)[k] != last.0 by {
                assert(kept.contains(kept[k]));
                front.lemma_filter_contains_rev(keep, kept[k]);
                let i = choose|i: int| 0 <= i < front.len() && front[i] == kept[k];
                assert(names_of(entries)[i] == kept[k].0);
                assert(names_of(entries)[entries.len() - 1] == last.0);
            }
        }
    }
}

} // verus!
