//! What the program currently believes it is managing.

use crate::names::{
    distinct_names, lemma_filter_distinct, lemma_lookup, lemma_with_entry, lemma_without_entry,
    lookup, names_of, other_than, with_entry, without_entry, NameMap,
};
use crate::seqs::{first_index, lemma_filter_out, lemma_filter_same, lemma_filter_twice};
use crate::text::texts;
use vstd::prelude::*;

verus! {

/// A moment, as the seconds since the start of 1970 UTC and the nanoseconds
/// since the last full second.
#[derive(Debug, Clone, Copy, PartialEq, Eq, Structural)]
pub struct Timestamp {
    pub secs: i64,
    pub nanos: u32,
}

/// `chrono::Utc::now`: the present moment. A clock that is right shows a time
/// after the start of 1970, and `chrono` panics on one that does not.
#[verifier::external_body]
pub(crate) fn utc_now() -> (t: Timestamp)
    ensures
        t.secs >= 0,
        t.nanos < 1_000_000_000,
{
    let now = chrono::Utc::now();
    Timestamp { secs: now.timestamp(), nanos: now.timestamp_subsec_nanos() }
}

/// A project that was started.
#[derive(Debug, Clone, Copy, PartialEq, Eq, Structural)]
pub struct ProcessState {
    /// The process group that the project runs in, by the number that its
    /// first process had.
    pub pid: u32,
    pub started_at: Timestamp,
    /// The port that the project listens on.
    pub port: Option<u16>,
}

/// The process groups that were found alive.
#[derive(Debug)]
pub struct LiveGroups {
    pub ids: Vec<u32>,
}

impl LiveGroups {
    /// Whether the group `id` was found alive.
    pub open spec fn alive(&self, id: u32) -> bool {
        self.ids@.contains(id)
    }

    /// Whether the group `id` was found alive.
    pub fn contains(&self, id: u32) -> (b: bool)
        ensures
            b == self.alive(id),
    {
        for i in 0..self.ids.len()
            invariant
                forall|j: int| 0 <= j < i ==> self.ids@[j] != id,
        {
            if self.ids[i] == id {
                return true;
            }
        }
        false
    }
}

/// The projects that were started and not stopped, by name.
#[derive(Debug)]
pub struct AppState {
    pub processes: NameMap<ProcessState>,
}

impl Clone for AppState {
    fn clone(&self) -> (copy: Self)
        ensures
            copy.processes@ == self.processes@,
    {
        let copy = AppState { processes: self.processes.clone() };
        assert(copy.processes@ =~= self.processes@);
        copy
    }
}

impl Default for AppState {
    fn default() -> (state: Self)
        ensures
            state.processes@ == Seq::<(Seq<char>, ProcessState)>::empty(),
    {
        AppState { processes: NameMap::new() }
    }
}

/// Whether `name` stands for a process group that is alive.
pub open spec fn running(
    entries: Seq<(Seq<char>, ProcessState)>,
    name: Seq<char>,
    live: LiveGroups,
) -> bool {
    lookup(entries, name) matches Some(ps) && live.alive(ps.pid)
}

/// The test that the group of an entry is alive.
pub open spec fn entry_alive(live: LiveGroups) -> spec_fn((Seq<char>, ProcessState)) -> bool {
    |e: (Seq<char>, ProcessState)| live.alive(e.1.pid)
}

/// The test that the group of an entry is not alive.
pub open spec fn entry_dead(live: LiveGroups) -> spec_fn((Seq<char>, ProcessState)) -> bool {
    |e: (Seq<char>, ProcessState)| !live.alive(e.1.pid)
}

/// The test that the name of an entry is none of `gone`.
pub open spec fn entry_not_among(gone: Seq<Seq<char>>) -> spec_fn(
    (Seq<char>, ProcessState),
) -> bool {
    |e: (Seq<char>, ProcessState)| !gone.contains(e.0)
}

/// The groups of all entries, in order.
pub open spec fn groups_of(entries: Seq<(Seq<char>, ProcessState)>) -> Seq<u32> {
    entries.map_values(|e: (Seq<char>, ProcessState)| e.1.pid)
}

impl AppState {
    /// Records that `name` was started at the moment `started_at`, in place of
    /// what was known of it.
    pub fn add_at(&mut self, name: String, pid: u32, port: Option<u16>, started_at: Timestamp)
        ensures
            final(self).processes@ == with_entry(
                old(self).processes@,
                name@,
                (ProcessState { pid, started_at, port }),
            ),
            forall|n: Seq<char>| #[trigger]
                lookup(final(self).processes@, n) == if n == name@ {
                    Some(ProcessState { pid, started_at, port })
                } else {
                    lookup(old(self).processes@, n)
                },
    {
        self.processes.insert(name, ProcessState { pid, started_at, port });
    }

    /// Records that `name` was started now, in place of what was known of it.
    pub fn add(&mut self, name: String, pid: u32, port: Option<u16>)
        ensures
            lookup(final(self).processes@, name@) matches Some(ps) && {
                &&& ps.pid == pid
                &&& ps.port == port
                &&& ps.started_at.secs >= 0
                &&& ps.started_at.nanos < 1_000_000_000
                &&& final(self).processes@ == with_entry(old(self).processes@, name@, ps)
            },
            forall|n: Seq<char>|
                n != name@ ==> #[trigger] lookup(final(self).processes@, n) == lookup(
                    old(self).processes@,
                    n,
                ),
    {
        let now = utc_now();
        self.add_at(name, pid, port, now);
    }

    /// Forgets `name`, and says what was known of it.
    pub fn remove(&mut self, name: &str) -> (ps: Option<ProcessState>)
        ensures
            ps == lookup(old(self).processes@, name@),
            final(self).processes@ == without_entry(old(self).processes@, name@),
            forall|n: Seq<char>| #[trigger]
                lookup(final(self).processes@, n) == if n == name@ {
                    None
                } else {
                    lookup(old(self).processes@, n)
                },
    {
        self.processes.remove(name)
    }

    /// The process groups to look for, one for each project.
    pub fn groups(&self) -> (ids: Vec<u32>)
        ensures
            ids@ == groups_of(self.processes@),
    {
        let mut ids: Vec<u32> = Vec::new();
        let n: usize = self.processes.len();
        for i in 0..n
            invariant
                n == self.processes@.len(),
                ids@ == groups_of(self.processes@).take(i as int),
        {
            ids.push(self.processes.value_at(i).pid);
            assert(groups_of(self.processes@).take(i + 1) =~= groups_of(self.processes@).take(
                i as int,
            ).push(groups_of(self.processes@)[i as int]));
        }
        assert(groups_of(self.processes@).take(self.processes@.len() as int) =~= groups_of(
            self.processes@,
        ));
        ids
    }

    /// Whether `name` was started and its process group is alive.
    pub fn is_running(&self, name: &str, live: &LiveGroups) -> (b: bool)
        ensures
            b == running(self.processes@, name@, *live),
    {
        match self.processes.get(name) {
            Some(ps) => live.contains(ps.pid),
            None => false,
        }
    }

    /// Forgets the projects whose process groups are not alive, and gives
    /// their names.
    pub fn prune_dead(&mut self, live: &LiveGroups) -> (dead: Vec<String>)
        ensures
            texts(dead@) == names_of(old(self).processes@.filter(entry_dead(*live))),
            final(self).processes@ == old(self).processes@.filter(entry_alive(*live)),
    {
        let ghost entries = self.processes@;
        let mut dead: Vec<String> = Vec::new();
        let n: usize = self.processes.len();
        for i in 0..n
            invariant
                n == self.processes@.len(),
                entries == self.processes@,
                texts(dead@) == names_of(entries.take(i as int).filter(entry_dead(*live))),
        {
            let ghost before = dead@;
            if !live.contains(self.processes.value_at(i).pid) {
                dead.push(self.processes.name_at(i).clone());
            }
            proof {
                reveal(Seq::filter);
                let longer = entries.take(i + 1);
                assert(longer.drop_last() =~= entries.take(i as int));
                assert(longer.last() == entries[i as int]);
                if dead@ != before {
                    assert(texts(dead@) =~= texts(before).push(entries[i as int].0));
                    assert(names_of(longer.filter(entry_dead(*live))) =~= names_of(
                        entries.take(i as int).filter(entry_dead(*live)),
                    ).push(entries[i as int].0));
                }
            }
        }
        assert(entries.take(n as int) =~= entries);
        let ghost gone = texts(dead@);
        proof {
            lemma_filter_out(entries, entry_not_among(gone.take(0)), entries.len() as int);
        }
        for i in 0..dead.len()
            invariant
                gone == texts(dead@),
                self.processes@ == entries.filter(entry_not_among(gone.take(i as int))),
        {
            self.processes.remove(dead[i].as_str());
            proof {
                let name = dead@[i as int]@;
                assert(gone[i as int] == name);
                assert forall|e: (Seq<char>, ProcessState)| #[trigger]
                    entry_not_among(gone.take(i + 1))(e) == (entry_not_among(
                        gone.take(i as int),
                    )(e) && other_than(name)(e)) by {
                    let shorter = gone.take(i as int);
                    let longer = gone.take(i + 1);
                    assert(longer =~= shorter.push(name));
                    if shorter.contains(e.0) {
                        let k = choose|k: int| 0 <= k < shorter.len() && shorter[k] == e.0;
                        assert(longer[k] == e.0);
                    }
                    if e.0 == name {
                        assert(longer[i as int] == e.0);
                    }
                }
                lemma_filter_twice(
                    entries,
                    entry_not_among(gone.take(i as int)),
                    other_than(name),
                    entry_not_among(gone.take(i + 1)),
                );
            }
        }
        proof {
            assert(gone.take(gone.len() as int) =~= gone);
            lemma_dead_names(entries, *live);
            lemma_filter_same(entries, entry_not_among(gone), entry_alive(*live));
        }
        dead
    }
}

/// The names of the dead entries are those under which a dead group stands.
proof fn lemma_dead_names(entries: Seq<(Seq<char>, ProcessState)>, live: LiveGroups)
    requires
        distinct_names(entries),
    ensures
        forall|i: int|
            0 <= i < entries.len() ==> names_of(entries.filter(entry_dead(live))).contains(
                (#[trigger] entries[i]).0,
            ) == !live.alive(entries[i].1.pid),
{
    let dead = entries.filter(entry_dead(live));
    assert forall|i: int| 0 <= i < entries.len() implies names_of(dead).contains(
        (#[trigger] entries[i]).0,
    ) == !live.alive(entries[i].1.pid) by {
        let name = entries[i].0;
        if !live.alive(entries[i].1.pid) {
            entries.lemma_filter_contains(entry_dead(live), i);
            let k = choose|k: int| 0 <= k < dead.len() && dead[k] == entries[i];
            assert(names_of(dead)[k] == name);
        }
        if names_of(dead).contains(name) {
            let k = choose|k: int| 0 <= k < dead.len() && names_of(dead)[k] == name;
            assert(dead.contains(dead[k]));
            entries.lemma_filter_contains_rev(entry_dead(live), dead[k]);
            entries.lemma_filter_pred(entry_dead(live), k);
            let m = choose|m: int| 0 <= m < entries.len() && entries[m] == dead[k];
            lemma_lookup(entries, name);
            assert(m == i);
        }
    }
}

/// Pruning leaves the projects that run as they are, and of the others it
/// leaves none.
pub proof fn law_pruning_keeps_what_runs(
    entries: Seq<(Seq<char>, ProcessState)>,
    live: LiveGroups,
    name: Seq<char>,
)
    requires
        distinct_names(entries),
    ensures
        lookup(entries.filter(entry_alive(live)), name) == if running(entries, name, live) {
            lookup(entries, name)
        } else {
            None
        },
        running(entries.filter(entry_alive(live)), name, live) == running(entries, name, live),
{
    let kept = entries.filter(entry_alive(live));
    lemma_filter_distinct(entries, entry_alive(live));
    lemma_lookup(entries, name);
    lemma_lookup(kept, name);
    if running(entries, name, live) {
        let i = choose|i: int|
            0 <= i < entries.len() && #[trigger] entries[i] == (name, lookup(entries, name)->0);
        entries.lemma_filter_contains(entry_alive(live), i);
        let k = choose|k: int| 0 <= k < kept.len() && kept[k] == entries[i];
        assert(kept[k].0 == name);
    }
    if lookup(kept, name) is Some {
        let k = choose|k: int|
            0 <= k < kept.len() && #[trigger] kept[k] == (name, lookup(kept, name)->0);
        assert(kept.contains(kept[k]));
        entries.lemma_filter_contains_rev(entry_alive(live), kept[k]);
        entries.lemma_filter_pred(entry_alive(live), k);
        let i = choose|i: int| 0 <= i < entries.len() && entries[i] == kept[k];
        assert(entries[i].0 == name);
    }
}

/// Pruning twice does no more than pruning once.
pub proof fn law_pruning_once_is_enough(
    entries: Seq<(Seq<char>, ProcessState)>,
    live: LiveGroups,
)
    ensures
        entries.filter(entry_alive(live)).filter(entry_alive(live)) == entries.filter(
            entry_alive(live),
        ),
        entries.filter(entry_alive(live)).filter(entry_dead(live)).len() == 0,
{
    let alive = entry_alive(live);
    let kept = entries.filter(alive);
    lemma_filter_twice(entries, alive, alive, alive);
    if kept.filter(entry_dead(live)).len() > 0 {
        let e = kept.filter(entry_dead(live))[0];
        assert(kept.filter(entry_dead(live)).contains(e));
        kept.lemma_filter_contains_rev(entry_dead(live), e);
        kept.lemma_filter_pred(entry_dead(live), 0);
        let k = choose|k: int| 0 <= k < kept.len() && kept[k] == e;
        entries.lemma_filter_pred(alive, k);
    }
}

/// A state in which every project runs is left as it is.
pub proof fn law_nothing_dead_nothing_pruned(
    entries: Seq<(Seq<char>, ProcessState)>,
    live: LiveGroups,
)
    ensures
        entries.filter(entry_dead(live)).len() == 0 ==> entries.filter(entry_alive(live)) == entries,
{
    if entries.filter(entry_dead(live)).len() == 0 {
        assert forall|i: int| 0 <= i < entries.len() implies entry_alive(live)(
            #[trigger] entries[i],
        ) by {
            if entry_dead(live)(entries[i]) {
                entries.lemma_filter_contains(entry_dead(live), i);
            }
        }
        lemma_filter_out(entries, entry_alive(live), entries.len() as int);
    }
}

/// A project that is added and removed again leaves nothing of itself, and
/// takes nothing else with it.
pub proof fn law_removing_undoes_adding(
    entries: Seq<(Seq<char>, ProcessState)>,
    name: Seq<char>,
    ps: ProcessState,
)
    requires
        distinct_names(entries),
    ensures
        lookup(with_entry(entries, name, ps), name) == Some(ps),
        without_entry(with_entry(entries, name, ps), name) == without_entry(entries, name),
{
    lemma_with_entry(entries, name, ps);
    let after = with_entry(entries, name, ps);
    lemma_without_entry(entries, name);
    lemma_without_entry(after, name);
    lemma_lookup(entries, name);
    lemma_lookup(after, name);
    let k = first_index(names_of(entries), name);
    if k < entries.len() {
        assert(after[k].0 == name);
        assert(after.remove(k) =~= entries.remove(k));
    } else {
        assert(after[k].0 == name);
        assert(after.remove(k) =~= entries);
    }
}

} // verus!
