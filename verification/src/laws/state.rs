//! Which projects run, and which are forgotten.

use crate::laws::names::{law_entries_are_found, no_name_twice, stands_in};
use crate::names::names_of;
use crate::seqs::lemma_filter_out;
use crate::state::{entry_alive, entry_dead, groups_of, running, LiveGroups, ProcessState};
use vstd::prelude::*;

verus! {

/// Whether the group `id` stands among those that were found alive.
pub open spec fn found(live: LiveGroups, id: u32) -> bool {
    exists|j: int| 0 <= j < live.ids@.len() && #[trigger] live.ids@[j] == id
}

/// A group is alive exactly if it stands among those that were found alive,
/// wherever it stands.
pub proof fn law_alive_is_found_alive(live: LiveGroups)
    ensures
        forall|j: int| 0 <= j < live.ids@.len() ==> live.alive(#[trigger] live.ids@[j]),
        forall|id: u32| #[trigger] live.alive(id) ==> found(live, id),
{
    assert forall|j: int| 0 <= j < live.ids@.len() implies live.alive(#[trigger] live.ids@[j]) by {
        assert(live.ids@.contains(live.ids@[j]));
    }
    assert forall|id: u32| #[trigger] live.alive(id) implies found(live, id) by {
        let j = choose|j: int| 0 <= j < live.ids@.len() && live.ids@[j] == id;
        assert(live.ids@[j] == id);
    }
}

/// A project runs exactly if it was started and its group was found alive.
pub proof fn law_running_is_started_and_alive(
    entries: Seq<(Seq<char>, ProcessState)>,
    live: LiveGroups,
    name: Seq<char>,
)
    requires
        no_name_twice(entries),
    ensures
        forall|i: int|
            0 <= i < entries.len() && (#[trigger] entries[i]).0 == name ==> running(
                entries,
                name,
                live,
            ) == found(live, entries[i].1.pid),
        !stands_in(entries, name) ==> !running(entries, name, live),
{
    law_alive_is_found_alive(live);
    law_entries_are_found(entries, name);
}

/// Pruning forgets exactly the entries whose groups were not found alive: each
/// entry is kept or named as dead by that alone, the kept ones as they were.
pub proof fn law_pruning_goes_by_what_was_found(
    entries: Seq<(Seq<char>, ProcessState)>,
    live: LiveGroups,
    i: int,
)
    requires
        0 <= i < entries.len(),
    ensures
        found(live, entries[i].1.pid) ==> entries.filter(entry_alive(live)).contains(entries[i]),
        !found(live, entries[i].1.pid) ==> {
            &&& !entries.filter(entry_alive(live)).contains(entries[i])
            &&& names_of(entries.filter(entry_dead(live))).contains(entries[i].0)
        },
        forall|k: int|
            0 <= k < entries.filter(entry_alive(live)).len() ==> entries.contains(
                #[trigger] entries.filter(entry_alive(live))[k],
            ),
        forall|k: int|
            0 <= k < entries.filter(entry_dead(live)).len() ==> entries.contains(
                #[trigger] entries.filter(entry_dead(live))[k],
            ) && !found(live, entries.filter(entry_dead(live))[k].1.pid),
{
    law_alive_is_found_alive(live);
    let e = entries[i];
    let kept = entries.filter(entry_alive(live));
    let dead = entries.filter(entry_dead(live));
    if found(live, e.1.pid) {
        let j = choose|j: int| 0 <= j < live.ids@.len() && #[trigger] live.ids@[j] == e.1.pid;
        assert(live.alive(live.ids@[j]));
        entries.lemma_filter_contains(entry_alive(live), i);
    } else {
        assert(!live.alive(e.1.pid));
        entries.lemma_filter_contains(entry_dead(live), i);
        let k = choose|k: int| 0 <= k < dead.len() && dead[k] == e;
        assert(names_of(dead)[k] == e.0);
        if kept.contains(e) {
            let m = choose|m: int| 0 <= m < kept.len() && kept[m] == e;
            entries.lemma_filter_pred(entry_alive(live), m);
        }
    }
    assert forall|k: int| 0 <= k < kept.len() implies entries.contains(#[trigger] kept[k]) by {
        assert(kept.contains(kept[k]));
        entries.lemma_filter_contains_rev(entry_alive(live), kept[k]);
    }
    assert forall|k: int| 0 <= k < dead.len() implies entries.contains(#[trigger] dead[k])
        && !found(live, dead[k].1.pid) by {
        assert(dead.contains(dead[k]));
        entries.lemma_filter_contains_rev(entry_dead(live), dead[k]);
        entries.lemma_filter_pred(entry_dead(live), k);
        if found(live, dead[k].1.pid) {
            let j = choose|j: int|
                0 <= j < live.ids@.len() && #[trigger] live.ids@[j] == dead[k].1.pid;
            assert(live.alive(live.ids@[j]));
        }
    }
}

/// A state whose groups were all found alive is left as it is, and no project is
/// named as dead.
pub proof fn law_living_projects_stay(
    entries: Seq<(Seq<char>, ProcessState)>,
    live: LiveGroups,
)
    requires
        forall|i: int| 0 <= i < entries.len() ==> found(live, (#[trigger] entries[i]).1.pid),
    ensures
        entries.filter(entry_alive(live)) == entries,
        entries.filter(entry_dead(live)).len() == 0,
{
    law_alive_is_found_alive(live);
    assert forall|i: int| 0 <= i < entries.len() implies entry_alive(live)(
        #[trigger] entries[i],
    ) by {
        let j = choose|j: int|
            0 <= j < live.ids@.len() && #[trigger] live.ids@[j] == entries[i].1.pid;
        assert(live.alive(live.ids@[j]));
    }
    lemma_filter_out(entries, entry_alive(live), entries.len() as int);
    let dead = entries.filter(entry_dead(live));
    if dead.len() > 0 {
        assert(dead.contains(dead[0]));
        entries.lemma_filter_contains_rev(entry_dead(live), dead[0]);
        entries.lemma_filter_pred(entry_dead(live), 0);
        let i = choose|i: int| 0 <= i < entries.len() && entries[i] == dead[0];
        assert(entry_alive(live)(entries[i]));
    }
}

/// The kept entries and the dead ones stand in the order of the state: what one
/// more entry adds comes last.
pub proof fn law_pruning_keeps_the_order(
    entries: Seq<(Seq<char>, ProcessState)>,
    e: (Seq<char>, ProcessState),
    live: LiveGroups,
)
    ensures
        entries.push(e).filter(entry_alive(live)) == if found(live, e.1.pid) {
            entries.filter(entry_alive(live)).push(e)
        } else {
            entries.filter(entry_alive(live))
        },
        entries.push(e).filter(entry_dead(live)) == if found(live, e.1.pid) {
            entries.filter(entry_dead(live))
        } else {
            entries.filter(entry_dead(live)).push(e)
        },
{
    reveal(Seq::filter);
    law_alive_is_found_alive(live);
    assert(entries.push(e).drop_last() =~= entries);
    if found(live, e.1.pid) {
        let j = choose|j: int| 0 <= j < live.ids@.len() && #[trigger] live.ids@[j] == e.1.pid;
        assert(live.alive(live.ids@[j]));
    }
}

/// The groups to look for are those of all entries, in order.
pub proof fn law_every_group_is_looked_for(entries: Seq<(Seq<char>, ProcessState)>)
    ensures
        groups_of(entries).len() == entries.len(),
        forall|i: int|
            0 <= i < entries.len() ==> #[trigger] groups_of(entries)[i] == entries[i].1.pid,
{
}

} // verus!
