//! What is filed under a name.

use crate::names::{
    distinct_names, lemma_lookup, lemma_without_entry, lookup, names_of, with_entry,
    without_entry,
};
use crate::seqs::{first_index, lemma_first_index_bounds};
use vstd::prelude::*;

verus! {

/// Whether `name` stands somewhere in `entries`.
pub open spec fn stands_in<V>(entries: Seq<(Seq<char>, V)>, name: Seq<char>) -> bool {
    exists|i: int| 0 <= i < entries.len() && (#[trigger] entries[i]).0 == name
}

/// Whether no two entries have the same name.
pub open spec fn no_name_twice<V>(entries: Seq<(Seq<char>, V)>) -> bool {
    forall|i: int, j: int|
        0 <= i < j < entries.len() ==> (#[trigger] entries[i]).0 != (#[trigger] entries[j]).0
}

/// The names of the entries are their names, in order, and they are distinct
/// exactly if no two are the same.
pub proof fn law_names_are_those_of_the_entries<V>(entries: Seq<(Seq<char>, V)>)
    ensures
        names_of(entries).len() == entries.len(),
        forall|i: int| 0 <= i < entries.len() ==> #[trigger] names_of(entries)[i] == entries[i].0,
        distinct_names(entries) <==> no_name_twice(entries),
{
    if distinct_names(entries) {
        assert forall|i: int, j: int| 0 <= i < j < entries.len() implies (
        #[trigger] entries[i]).0 != (#[trigger] entries[j]).0 by {
            assert(names_of(entries)[i] != names_of(entries)[j]);
        }
    }
    if no_name_twice(entries) {
        assert forall|i: int, j: int|
            0 <= i < entries.len() && 0 <= j < entries.len() && i != j implies names_of(
            entries,
        )[i] != names_of(entries)[j] by {
            if i < j {
                assert(entries[i].0 != entries[j].0);
            } else {
                assert(entries[j].0 != entries[i].0);
            }
        }
    }
}

/// Every entry is found under its name, and nothing is found under a name that
/// no entry has.
pub proof fn law_entries_are_found<V>(entries: Seq<(Seq<char>, V)>, name: Seq<char>)
    requires
        no_name_twice(entries),
    ensures
        forall|i: int|
            0 <= i < entries.len() && (#[trigger] entries[i]).0 == name ==> lookup(entries, name)
                == Some(entries[i].1),
        !stands_in(entries, name) ==> lookup(entries, name) is None,
{
    law_names_are_those_of_the_entries(entries);
    lemma_lookup(entries, name);
    if lookup(entries, name) is Some {
        let i = choose|i: int|
            0 <= i < entries.len() && #[trigger] entries[i] == (name, lookup(entries, name)->0);
        assert(entries[i].0 == name);
    }
    assert forall|i: int|
        0 <= i < entries.len() && (#[trigger] entries[i]).0 == name implies lookup(entries, name)
        == Some(entries[i].1) by {
        assert(first_index(names_of(entries), name) == i);
    }
}

/// A value filed under a new name comes last; one filed under a name that has
/// one takes its place. Nothing else moves.
pub proof fn law_filing_touches_one_entry<V>(
    entries: Seq<(Seq<char>, V)>,
    name: Seq<char>,
    value: V,
)
    requires
        no_name_twice(entries),
    ensures
        !stands_in(entries, name) ==> with_entry(entries, name, value) == entries.push(
            (name, value),
        ),
        forall|k: int|
            0 <= k < entries.len() && (#[trigger] entries[k]).0 == name ==> with_entry(
                entries,
                name,
                value,
            ) == entries.update(k, (name, value)),
{
    law_names_are_those_of_the_entries(entries);
    lemma_lookup(entries, name);
    let k = first_index(names_of(entries), name);
    lemma_first_index_bounds(names_of(entries), name);
    if k < entries.len() {
        assert(names_of(entries)[k] == name);
        assert(entries[k].0 == name);
    }
}

/// A name that is taken out takes its one entry with it; the others keep their
/// order. Taking out a name that is not there changes nothing.
pub proof fn law_taking_out_touches_one_entry<V>(entries: Seq<(Seq<char>, V)>, name: Seq<char>)
    requires
        no_name_twice(entries),
    ensures
        !stands_in(entries, name) ==> without_entry(entries, name) == entries,
        forall|k: int|
            0 <= k < entries.len() && (#[trigger] entries[k]).0 == name ==> without_entry(
                entries,
                name,
            ) == entries.remove(k),
{
    law_names_are_those_of_the_entries(entries);
    lemma_lookup(entries, name);
    lemma_without_entry(entries, name);
    let k = first_index(names_of(entries), name);
    lemma_first_index_bounds(names_of(entries), name);
    if k < entries.len() {
        assert(names_of(entries)[k] == name);
        assert(entries[k].0 == name);
    }
}

} // verus!
