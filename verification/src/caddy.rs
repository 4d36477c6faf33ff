//! The reverse proxy: which routes it has, and how it comes to have them.

use crate::names::{
    distinct_names, lemma_filter_distinct, lemma_lookup, lemma_without_entry, lookup, other_than,
    without_entry,
};
use crate::seqs::{lemma_contains_of_front, lemma_filter_commutes, same_bytes};
use crate::state::{entry_alive, AppState, LiveGroups, ProcessState};
use crate::text::{
    decimal, decimal_text, join_from, joined, lemma_part_of_joined, occurs_in, text_of, texts,
};
use vstd::prelude::*;
use vstd::string::*;
use vstd::utf8::{encode_utf8, encode_utf8_decode_utf8};

verus! {

/// How long `caddy` may take to do as it is told, in nanoseconds.
pub const CADDY_TIMEOUT_NANOS: u128 = 5_000_000_000;

/// How long to wait before asking again whether `caddy` has exited, in
/// nanoseconds.
pub const CADDY_PAUSE_NANOS: u128 = 50_000_000;

/// The test that an entry has a port.
pub open spec fn has_port() -> spec_fn((Seq<char>, ProcessState)) -> bool {
    |e: (Seq<char>, ProcessState)| e.1.port is Some
}

/// The route by which the project `name` is reached on the port `port`.
pub open spec fn route(name: Seq<char>, port: u16) -> Seq<char> {
    "http://"@ + name + ".localhost:1300 {\n    reverse_proxy localhost:"@ + decimal(port as nat)
        + "\n}"@
}

/// The routes of the started projects, one for each that has a port.
pub open spec fn routes(entries: Seq<(Seq<char>, ProcessState)>) -> Seq<Seq<char>> {
    entries.filter(has_port()).map_values(
        |e: (Seq<char>, ProcessState)| route(e.0, e.1.port->0),
    )
}

/// The Caddy config that has these routes.
pub open spec fn caddyfile(entries: Seq<(Seq<char>, ProcessState)>) -> Seq<char> {
    joined(routes(entries), "\n\n"@)
}

/// The route by which the project `name` is reached on the port `port`.
fn route_text(name: &str, port: u16) -> (s: String)
    ensures
        s@ == route(name@, port),
{
    let mut s = "http://".to_owned();
    s.append(name);
    s.append(".localhost:1300 {\n    reverse_proxy localhost:");
    s.append(decimal_text(port as u64).as_str());
    s.append("\n}");
    s
}

/// The Caddy config for the started projects; it is empty where none has a
/// port.
pub fn generate_caddyfile(state: &AppState) -> (s: String)
    ensures
        s@ == caddyfile(state.processes@),
{
    let ghost entries = state.processes@;
    let n: usize = state.processes.len();
    let mut parts: Vec<String> = Vec::new();
    for i in 0..n
        invariant
            n == state.processes@.len(),
            entries == state.processes@,
            texts(parts@) == routes(entries.take(i as int)),
    {
        let ghost before = parts@;
        let ps = state.processes.value_at(i);
        if let Some(port) = ps.port {
            parts.push(route_text(state.processes.name_at(i).as_str(), port));
        }
        proof {
            reveal(Seq::filter);
            let longer = entries.take(i + 1);
            assert(longer.drop_last() =~= entries.take(i as int));
            assert(longer.last() == entries[i as int]);
            if entries[i as int].1.port is Some {
                let r = route(entries[i as int].0, entries[i as int].1.port->0);
                assert(texts(parts@) =~= texts(before).push(r));
                assert(routes(longer) =~= routes(entries.take(i as int)).push(r));
            }
        }
    }
    assert(entries.take(n as int) =~= entries);
    assert(texts(parts@).skip(0) =~= texts(parts@));
    join_from(&parts, 0, "\n\n")
}

/// The config that is on disk; one that is not there has no routes, as an empty
/// one.
pub open spec fn config_on_disk(on_disk: Option<Vec<u8>>) -> Seq<u8> {
    match on_disk {
        Some(bytes) => bytes@,
        None => seq![],
    }
}

/// Whether the config `disk` is another than the started projects call for.
pub open spec fn out_of_date(entries: Seq<(Seq<char>, ProcessState)>, disk: Seq<u8>) -> bool {
    disk != encode_utf8(caddyfile(entries))
}

/// Whether the proxy has to be reloaded: the config on disk is another than the
/// started projects call for.
pub fn reconcile_caddy(state: &AppState, on_disk: Option<Vec<u8>>) -> (reload: bool)
    ensures
        reload == out_of_date(state.processes@, config_on_disk(on_disk)),
{
    let wanted = generate_caddyfile(state);
    let found: Vec<u8> = match on_disk {
        Some(bytes) => bytes,
        None => Vec::new(),
    };
    !same_bytes(found.as_slice(), wanted.as_str().as_bytes())
}

/// What `caddy` is told.
#[derive(Debug, Clone, Copy, PartialEq, Eq, Structural)]
pub enum CaddyCommand {
    Stop,
    Reload,
    Start,
}

/// The word for a command.
pub open spec fn command_word(command: CaddyCommand) -> Seq<char> {
    match command {
        CaddyCommand::Stop => "stop"@,
        CaddyCommand::Reload => "reload"@,
        CaddyCommand::Start => "start"@,
    }
}

/// The arguments by which `caddy` is told a command, for the config at `path`.
pub fn caddy_args(command: CaddyCommand, path: &str) -> (args: Vec<String>)
    ensures
        texts(args@) == seq![command_word(command), "--config"@, path@],
{
    let word = match command {
        CaddyCommand::Stop => "stop",
        CaddyCommand::Reload => "reload",
        CaddyCommand::Start => "start",
    };
    let mut args: Vec<String> = Vec::new();
    args.push(word.to_owned());
    args.push("--config".to_owned());
    args.push(path.to_owned());
    assert(texts(args@) =~= seq![command_word(command), "--config"@, path@]);
    args
}

/// Whether `caddy` did as it was told: it exited in time, and with success. If
/// it did not exit in time it is to be ended.
pub fn run_caddy(success: Option<bool>) -> (done: bool)
    ensures
        done == (success == Some(true)),
{
    match success {
        Some(s) => s,
        None => false,
    }
}

/// Why the proxy was not brought up to date.
#[derive(Debug, Clone, Copy, PartialEq, Eq, Structural)]
pub enum ReloadFailure {
    /// Its config could not be removed.
    NotRemoved,
    /// Its config could not be written.
    NotWritten,
    /// `caddy` ran, and did not start the proxy.
    NotStarted,
    /// `caddy` could not be run.
    NotRun,
}

/// How far the proxy has been brought up to date.
#[derive(Debug, Clone, Copy, PartialEq, Eq, Structural)]
pub enum ReloadPhase {
    /// There are no routes: is there a config?
    LookForFile,
    /// There are no routes, but there is a config: the proxy is to stop.
    Stop,
    RemoveFile,
    WriteFile,
    Reload,
    /// The proxy did not reload, so it may not run.
    Start,
    Done,
    Failed(ReloadFailure),
}

/// The proxy being brought up to date.
#[derive(Debug)]
pub struct CaddyReload {
    /// The config that the proxy is to have.
    pub content: String,
    pub phase: ReloadPhase,
}

/// What is to be done next.
#[derive(Debug)]
pub enum ReloadAction {
    /// Find out whether there is a config.
    LookForFile,
    /// Tell `caddy` a command.
    RunCaddy(CaddyCommand),
    RemoveFile,
    /// Write this config.
    WriteFile(String),
    /// Nothing: the proxy is up to date.
    Succeed,
    /// Nothing: the proxy could not be brought up to date.
    Fail(ReloadFailure),
}

/// What came of an action.
#[derive(Debug, Clone, Copy, PartialEq, Eq, Structural)]
pub enum ReloadEvent {
    FileExists(bool),
    /// `caddy` was run, and did as it was told or did not.
    CaddyRan(bool),
    /// `caddy` could not be run.
    CaddyBroken,
    FileRemoved(bool),
    FileWritten(bool),
}

impl CaddyReload {
    /// What is to be done in this phase.
    pub open spec fn action(self) -> ReloadAction {
        match self.phase {
            ReloadPhase::LookForFile => ReloadAction::LookForFile,
            ReloadPhase::Stop => ReloadAction::RunCaddy(CaddyCommand::Stop),
            ReloadPhase::RemoveFile => ReloadAction::RemoveFile,
            ReloadPhase::WriteFile => ReloadAction::WriteFile(self.content),
            ReloadPhase::Reload => ReloadAction::RunCaddy(CaddyCommand::Reload),
            ReloadPhase::Start => ReloadAction::RunCaddy(CaddyCommand::Start),
            ReloadPhase::Done => ReloadAction::Succeed,
            ReloadPhase::Failed(failure) => ReloadAction::Fail(failure),
        }
    }

    /// The phase that follows when `event` came of the action of this one. An
    /// event that is no answer to the action changes nothing.
    pub open spec fn phase_after(self, event: ReloadEvent) -> ReloadPhase {
        match (self.phase, event) {
            (ReloadPhase::LookForFile, ReloadEvent::FileExists(found)) => if found {
                ReloadPhase::Stop
            } else {
                ReloadPhase::Done
            },
            (ReloadPhase::Stop, ReloadEvent::CaddyRan(_)) => ReloadPhase::RemoveFile,
            (ReloadPhase::Stop, ReloadEvent::CaddyBroken) => ReloadPhase::RemoveFile,
            (ReloadPhase::RemoveFile, ReloadEvent::FileRemoved(ok)) => if ok {
                ReloadPhase::Done
            } else {
                ReloadPhase::Failed(ReloadFailure::NotRemoved)
            },
            (ReloadPhase::WriteFile, ReloadEvent::FileWritten(ok)) => if ok {
                ReloadPhase::Reload
            } else {
                ReloadPhase::Failed(ReloadFailure::NotWritten)
            },
            (ReloadPhase::Reload, ReloadEvent::CaddyRan(true)) => ReloadPhase::Done,
            (ReloadPhase::Reload, ReloadEvent::CaddyRan(false)) => ReloadPhase::Start,
            (ReloadPhase::Reload, ReloadEvent::CaddyBroken) => ReloadPhase::Start,
            (ReloadPhase::Start, ReloadEvent::CaddyRan(true)) => ReloadPhase::Done,
            (ReloadPhase::Start, ReloadEvent::CaddyRan(false)) => ReloadPhase::Failed(
                ReloadFailure::NotStarted,
            ),
            (ReloadPhase::Start, ReloadEvent::CaddyBroken) => ReloadPhase::Failed(
                ReloadFailure::NotRun,
            ),
            (phase, _) => phase,
        }
    }

    /// The proxy after `event`.
    pub open spec fn after(self, event: ReloadEvent) -> CaddyReload {
        CaddyReload { phase: self.phase_after(event), ..self }
    }

    /// The proxy after all of `events`.
    pub open spec fn run(self, events: Seq<ReloadEvent>) -> CaddyReload
        decreases events.len(),
    {
        if events.len() == 0 {
            self
        } else {
            self.run(events.drop_last()).after(events.last())
        }
    }

    /// How many answers are needed at most before the end.
    pub open spec fn steps_left(self) -> nat {
        match self.phase {
            ReloadPhase::LookForFile => 3,
            ReloadPhase::Stop => 2,
            ReloadPhase::RemoveFile => 1,
            ReloadPhase::WriteFile => 3,
            ReloadPhase::Reload => 2,
            ReloadPhase::Start => 1,
            ReloadPhase::Done => 0,
            ReloadPhase::Failed(_) => 0,
        }
    }

    /// What is to be done next.
    pub fn next_action(&self) -> (action: ReloadAction)
        ensures
            action == self.action(),
    {
        match self.phase {
            ReloadPhase::LookForFile => ReloadAction::LookForFile,
            ReloadPhase::Stop => ReloadAction::RunCaddy(CaddyCommand::Stop),
            ReloadPhase::RemoveFile => ReloadAction::RemoveFile,
            ReloadPhase::WriteFile => ReloadAction::WriteFile(self.content.clone()),
            ReloadPhase::Reload => ReloadAction::RunCaddy(CaddyCommand::Reload),
            ReloadPhase::Start => ReloadAction::RunCaddy(CaddyCommand::Start),
            ReloadPhase::Done => ReloadAction::Succeed,
            ReloadPhase::Failed(failure) => ReloadAction::Fail(failure),
        }
    }

    /// What the user is told of a failure, besides what the machine had to say;
    /// `path` is where the config lies.
    pub fn failure_message(&self, path: &str) -> (s: Option<String>)
        ensures
            text_of(s) == reload_failure_text(*self, path@),
    {
        match self.phase {
            ReloadPhase::Failed(ReloadFailure::NotWritten) => {
                let mut s = "failed to write Caddyfile to ".to_owned();
                s.append(path);
                Some(s)
            },
            ReloadPhase::Failed(ReloadFailure::NotStarted) => Some(
                "caddy start did not complete in time".to_owned(),
            ),
            _ => None,
        }
    }

    /// Takes in what came of the last action, and says what is to be done next.
    pub fn advance(&mut self, event: ReloadEvent) -> (action: ReloadAction)
        ensures
            *final(self) == old(self).after(event),
            action == final(self).action(),
    {
        self.phase = match (self.phase, event) {
            (ReloadPhase::LookForFile, ReloadEvent::FileExists(true)) => ReloadPhase::Stop,
            (ReloadPhase::LookForFile, ReloadEvent::FileExists(false)) => ReloadPhase::Done,
            (ReloadPhase::Stop, ReloadEvent::CaddyRan(_)) => ReloadPhase::RemoveFile,
            (ReloadPhase::Stop, ReloadEvent::CaddyBroken) => ReloadPhase::RemoveFile,
            (ReloadPhase::RemoveFile, ReloadEvent::FileRemoved(true)) => ReloadPhase::Done,
            (ReloadPhase::RemoveFile, ReloadEvent::FileRemoved(false)) => ReloadPhase::Failed(
                ReloadFailure::NotRemoved,
            ),
            (ReloadPhase::WriteFile, ReloadEvent::FileWritten(true)) => ReloadPhase::Reload,
            (ReloadPhase::WriteFile, ReloadEvent::FileWritten(false)) => ReloadPhase::Failed(
                ReloadFailure::NotWritten,
            ),
            (ReloadPhase::Reload, ReloadEvent::CaddyRan(true)) => ReloadPhase::Done,
            (ReloadPhase::Reload, ReloadEvent::CaddyRan(false)) => ReloadPhase::Start,
            (ReloadPhase::Reload, ReloadEvent::CaddyBroken) => ReloadPhase::Start,
            (ReloadPhase::Start, ReloadEvent::CaddyRan(true)) => ReloadPhase::Done,
            (ReloadPhase::Start, ReloadEvent::CaddyRan(false)) => ReloadPhase::Failed(
                ReloadFailure::NotStarted,
            ),
            (ReloadPhase::Start, ReloadEvent::CaddyBroken) => ReloadPhase::Failed(
                ReloadFailure::NotRun,
            ),
            (phase, _) => phase,
        };
        self.next_action()
    }
}

/// What the user is told of a proxy that could not be brought up to date. Where
/// the machine failed and nothing is to be added to that, there is nothing to
/// tell.
pub open spec fn reload_failure_text(reload: CaddyReload, path: Seq<char>) -> Option<Seq<char>> {
    match reload.phase {
        ReloadPhase::Failed(ReloadFailure::NotWritten) => Some(
            "failed to write Caddyfile to "@ + path,
        ),
        ReloadPhase::Failed(ReloadFailure::NotStarted) => Some(
            "caddy start did not complete in time"@,
        ),
        _ => None,
    }
}

/// Begins to bring the proxy up to date with the started projects: with routes
/// by writing its config, without by taking its config away.
pub fn reload_caddy(state: &AppState) -> (r: CaddyReload)
    ensures
        r.content@ == caddyfile(state.processes@),
        r.phase == if caddyfile(state.processes@).len() == 0 {
            ReloadPhase::LookForFile
        } else {
            ReloadPhase::WriteFile
        },
{
    let content = generate_caddyfile(state);
    let phase = if content.as_str().is_empty() {
        ReloadPhase::LookForFile
    } else {
        ReloadPhase::WriteFile
    };
    CaddyReload { content, phase }
}

/// Whether `r` is the route to a started project with a port.
pub open spec fn leads_somewhere(entries: Seq<(Seq<char>, ProcessState)>, r: Seq<char>) -> bool {
    exists|i: int|
        0 <= i < entries.len() && (#[trigger] entries[i]).1.port is Some && r == route(
            entries[i].0,
            entries[i].1.port->0,
        )
}

/// Every route stands for a started project with a port, and every such project
/// has its route.
pub proof fn law_routes_are_the_ported_projects(entries: Seq<(Seq<char>, ProcessState)>)
    ensures
        forall|i: int|
            0 <= i < entries.len() && (#[trigger] entries[i]).1.port is Some ==> routes(
                entries,
            ).contains(route(entries[i].0, entries[i].1.port->0)),
        forall|k: int|
            0 <= k < routes(entries).len() ==> leads_somewhere(
                entries,
                #[trigger] routes(entries)[k],
            ),
{
    let ported = entries.filter(has_port());
    assert forall|i: int|
        0 <= i < entries.len() && (#[trigger] entries[i]).1.port is Some implies routes(
        entries,
    ).contains(route(entries[i].0, entries[i].1.port->0)) by {
        entries.lemma_filter_contains(has_port(), i);
        let k = choose|k: int| 0 <= k < ported.len() && ported[k] == entries[i];
        assert(routes(entries)[k] == route(entries[i].0, entries[i].1.port->0));
    }
    assert forall|k: int| 0 <= k < routes(entries).len() implies leads_somewhere(
        entries,
        #[trigger] routes(entries)[k],
    ) by {
        assert(ported.contains(ported[k]));
        entries.lemma_filter_contains_rev(has_port(), ported[k]);
        entries.lemma_filter_pred(has_port(), k);
        let i = choose|i: int| 0 <= i < entries.len() && entries[i] == ported[k];
        assert(entries[i].1.port is Some);
    }
}

/// The route of every started project with a port stands in the config.
pub proof fn law_route_stands_in_the_config(
    entries: Seq<(Seq<char>, ProcessState)>,
    name: Seq<char>,
    port: u16,
)
    requires
        lookup(entries, name) matches Some(ps) && ps.port == Some(port),
    ensures
        occurs_in(route(name, port), caddyfile(entries)),
{
    lemma_lookup(entries, name);
    let i = choose|i: int|
        0 <= i < entries.len() && #[trigger] entries[i] == (name, lookup(entries, name)->0);
    law_routes_are_the_ported_projects(entries);
    assert(entries[i].1.port is Some);
    let k = choose|k: int| 0 <= k < routes(entries).len() && routes(entries)[k] == route(name, port);
    lemma_part_of_joined(routes(entries), "\n\n"@, k);
}

/// When a project is forgotten its route goes, and the other routes stay in
/// their order.
pub proof fn law_route_goes_with_its_project(
    entries: Seq<(Seq<char>, ProcessState)>,
    name: Seq<char>,
)
    requires
        distinct_names(entries),
    ensures
        routes(without_entry(entries, name)) == without_entry(
            entries.filter(has_port()),
            name,
        ).map_values(|e: (Seq<char>, ProcessState)| route(e.0, e.1.port->0)),
        lookup(entries, name) is None || lookup(entries, name)->0.port is None ==> routes(
            without_entry(entries, name),
        ) == routes(entries),
        lookup(entries, name) matches Some(ps) && ps.port is Some ==> routes(
            without_entry(entries, name),
        ).len() == routes(entries).len() - 1,
{
    let ported = entries.filter(has_port());
    lemma_filter_commutes(entries, other_than(name), has_port());
    lemma_filter_distinct(entries, has_port());
    lemma_without_entry(ported, name);
    lemma_lookup(entries, name);
    lemma_lookup(ported, name);
    if lookup(ported, name) is Some {
        let k = choose|k: int|
            0 <= k < ported.len() && #[trigger] ported[k] == (name, lookup(ported, name)->0);
        assert(ported.contains(ported[k]));
        entries.lemma_filter_contains_rev(has_port(), ported[k]);
        entries.lemma_filter_pred(has_port(), k);
        let i = choose|i: int| 0 <= i < entries.len() && entries[i] == ported[k];
        assert(entries[i].0 == name);
    }
    if lookup(entries, name) matches Some(ps) && ps.port is Some {
        let i = choose|i: int|
            0 <= i < entries.len() && #[trigger] entries[i] == (name, lookup(entries, name)->0);
        entries.lemma_filter_contains(has_port(), i);
        let k = choose|k: int| 0 <= k < ported.len() && ported[k] == entries[i];
        assert(ported[k].0 == name);
    }
}

/// Whether `r` is the route to a started project with a port whose group is
/// alive.
pub open spec fn leads_to_live(
    entries: Seq<(Seq<char>, ProcessState)>,
    live: LiveGroups,
    r: Seq<char>,
) -> bool {
    exists|i: int|
        0 <= i < entries.len() && (#[trigger] entries[i]).1.port is Some && live.alive(
            entries[i].1.pid,
        ) && r == route(entries[i].0, entries[i].1.port->0)
}

/// Once dead projects were forgotten, every route leads to a project that runs,
/// and every project that runs and has a port has its route.
pub proof fn law_routes_lead_to_live_projects(
    entries: Seq<(Seq<char>, ProcessState)>,
    live: LiveGroups,
)
    ensures
        ({
            let kept = entries.filter(entry_alive(live));
            &&& forall|k: int|
                0 <= k < routes(kept).len() ==> leads_to_live(
                    entries,
                    live,
                    #[trigger] routes(kept)[k],
                )
            &&& forall|i: int|
                0 <= i < entries.len() && (#[trigger] entries[i]).1.port is Some && live.alive(
                    entries[i].1.pid,
                ) ==> routes(kept).contains(route(entries[i].0, entries[i].1.port->0))
        }),
{
    let kept = entries.filter(entry_alive(live));
    law_routes_are_the_ported_projects(kept);
    assert forall|k: int| 0 <= k < routes(kept).len() implies leads_to_live(
        entries,
        live,
        #[trigger] routes(kept)[k],
    ) by {
        assert(leads_somewhere(kept, routes(kept)[k]));
        let j = choose|j: int|
            0 <= j < kept.len() && (#[trigger] kept[j]).1.port is Some && routes(kept)[k] == route(
                kept[j].0,
                kept[j].1.port->0,
            );
        assert(kept.contains(kept[j]));
        entries.lemma_filter_contains_rev(entry_alive(live), kept[j]);
        entries.lemma_filter_pred(entry_alive(live), j);
        let i = choose|i: int| 0 <= i < entries.len() && entries[i] == kept[j];
        assert(entries[i].1.port is Some);
    }
    assert forall|i: int|
        0 <= i < entries.len() && (#[trigger] entries[i]).1.port is Some && live.alive(
            entries[i].1.pid,
        ) implies routes(kept).contains(route(entries[i].0, entries[i].1.port->0)) by {
        entries.lemma_filter_contains(entry_alive(live), i);
        let j = choose|j: int| 0 <= j < kept.len() && kept[j] == entries[i];
        assert(kept[j].1.port is Some);
    }
}

/// The config is empty exactly where no started project has a port.
pub proof fn law_no_ports_no_config(entries: Seq<(Seq<char>, ProcessState)>)
    ensures
        caddyfile(entries).len() == 0 <==> forall|i: int|
            0 <= i < entries.len() ==> (#[trigger] entries[i]).1.port is None,
{
    law_routes_are_the_ported_projects(entries);
    let all = routes(entries);
    if all.len() > 0 {
        reveal_strlit("\n}");
        let last = all[all.len() - 1];
        let i = choose|i: int|
            0 <= i < entries.len() && (#[trigger] entries[i]).1.port is Some && last == route(
                entries[i].0,
                entries[i].1.port->0,
            );
        assert(last.len() >= 2);
        assert(caddyfile(entries).len() >= last.len());
        assert(entries[i].1.port is Some);
    } else {
        assert forall|i: int| 0 <= i < entries.len() implies (#[trigger] entries[i]).1.port
            is None by {
            if entries[i].1.port is Some {
                assert(all.contains(route(entries[i].0, entries[i].1.port->0)));
            }
        }
    }
}

/// When the projects were started, and in which groups, does not matter to the
/// proxy.
pub proof fn law_config_follows_names_and_ports(
    a: Seq<(Seq<char>, ProcessState)>,
    b: Seq<(Seq<char>, ProcessState)>,
)
    requires
        a.len() == b.len(),
        forall|i: int|
            0 <= i < a.len() ==> (#[trigger] a[i]).0 == b[i].0 && a[i].1.port == b[i].1.port,
    ensures
        caddyfile(a) == caddyfile(b),
{
    lemma_same_routes(a, b);
}

proof fn lemma_same_routes(
    a: Seq<(Seq<char>, ProcessState)>,
    b: Seq<(Seq<char>, ProcessState)>,
)
    requires
        a.len() == b.len(),
        forall|i: int|
            0 <= i < a.len() ==> (#[trigger] a[i]).0 == b[i].0 && a[i].1.port == b[i].1.port,
    ensures
        routes(a) == routes(b),
    decreases a.len(),
{
    reveal(Seq::filter);
    if a.len() > 0 {
        let n = a.len() - 1;
        lemma_same_routes(a.drop_last(), b.drop_last());
        assert(a[n].0 == b[n].0 && a[n].1.port == b[n].1.port);
        if a[n].1.port is Some {
            let r = route(a[n].0, a[n].1.port->0);
            assert(routes(a) =~= routes(a.drop_last()).push(r));
            assert(routes(b) =~= routes(b.drop_last()).push(r));
        }
    }
}

/// A config that was written calls for no reload until the routes change, and
/// no config at all calls for one exactly where there are routes.
pub proof fn law_reconciling_settles(
    entries: Seq<(Seq<char>, ProcessState)>,
    later: Seq<(Seq<char>, ProcessState)>,
)
    ensures
        !out_of_date(entries, encode_utf8(caddyfile(entries))),
        out_of_date(later, encode_utf8(caddyfile(entries))) <==> caddyfile(later) != caddyfile(
            entries,
        ),
        out_of_date(entries, config_on_disk(None)) <==> routes(entries).len() > 0,
{
    encode_utf8_decode_utf8(caddyfile(entries));
    encode_utf8_decode_utf8(caddyfile(later));
    assert(encode_utf8(Seq::<char>::empty()) =~= seq![]);
    encode_utf8_decode_utf8(Seq::<char>::empty());
    law_routes_are_the_ported_projects(entries);
    law_no_ports_no_config(entries);
    if routes(entries).len() > 0 {
        assert(leads_somewhere(entries, routes(entries)[0]));
    } else {
        assert(caddyfile(entries) =~= Seq::<char>::empty());
    }
}

/// What must have happened before each phase.
spec fn reload_history(reload: CaddyReload, events: Seq<ReloadEvent>) -> bool {
    match reload.run(events).phase {
        ReloadPhase::Reload | ReloadPhase::Start => events.contains(ReloadEvent::FileWritten(true)),
        ReloadPhase::Done => if reload.phase is WriteFile {
            events.contains(ReloadEvent::FileWritten(true)) && events.contains(
                ReloadEvent::CaddyRan(true),
            )
        } else {
            events.contains(ReloadEvent::FileExists(false)) || events.contains(
                ReloadEvent::FileRemoved(true),
            )
        },
        ReloadPhase::LookForFile | ReloadPhase::Stop | ReloadPhase::RemoveFile => reload.phase
            is LookForFile,
        ReloadPhase::WriteFile => reload.phase is WriteFile,
        ReloadPhase::Failed(_) => true,
    }
}

proof fn lemma_reload_history(reload: CaddyReload, events: Seq<ReloadEvent>)
    requires
        reload.phase is WriteFile || reload.phase is LookForFile,
    ensures
        reload_history(reload, events),
        reload.run(events).content == reload.content,
        reload.run(events).phase is Reload || reload.run(events).phase is Start ==> reload.phase
            is WriteFile,
    decreases events.len(),
{
    if events.len() > 0 {
        lemma_reload_history(reload, events.drop_last());
        lemma_contains_of_front(events);
    }
}

/// Where there are routes, the proxy is up to date only once its config was
/// written and `caddy` took it over; where there are none, only once its config
/// is gone.
pub proof fn law_up_to_date_means_config_in_place(
    reload: CaddyReload,
    events: Seq<ReloadEvent>,
)
    requires
        reload.phase is WriteFile || reload.phase is LookForFile,
    ensures
        reload.run(events).action() is Succeed ==> if reload.phase is WriteFile {
            events.contains(ReloadEvent::FileWritten(true)) && events.contains(
                ReloadEvent::CaddyRan(true),
            )
        } else {
            events.contains(ReloadEvent::FileExists(false)) || events.contains(
                ReloadEvent::FileRemoved(true),
            )
        },
{
    lemma_reload_history(reload, events);
}

/// Only the config that was generated is ever written, and `caddy` is told to
/// take one over only after it was.
pub proof fn law_only_the_generated_config_is_written(
    reload: CaddyReload,
    events: Seq<ReloadEvent>,
)
    requires
        reload.phase is WriteFile || reload.phase is LookForFile,
    ensures
        reload.run(events).action() matches ReloadAction::WriteFile(content) ==> content
            == reload.content,
        reload.run(events).action() matches ReloadAction::RunCaddy(command) ==> command
            is Stop || events.contains(ReloadEvent::FileWritten(true)),
        reload.run(events).action() matches ReloadAction::RunCaddy(command) ==> (command is Stop
            <==> reload.phase is LookForFile),
{
    lemma_reload_history(reload, events);
}

/// Bringing the proxy up to date comes to an end: every answer to an action
/// leaves fewer steps, and where none are left nothing more is to be done.
pub proof fn law_reload_comes_to_an_end(reload: CaddyReload, event: ReloadEvent)
    ensures
        reload.after(event) == reload || reload.after(event).steps_left() < reload.steps_left(),
        reload.steps_left() == 0 <==> (reload.action() is Succeed || reload.action() is Fail),
{
}

} // verus!
