//! The commands: what is done before every one of them, and what each does and
//! says.

use crate::config::{Config, ProjectConfig};
use crate::names::{distinct_names, lemma_without_entry, lookup, names_of, without_entry};
use crate::seqs::lemma_contains_of_front;
use crate::startup::{describe_readiness, probe_of, readiness_text};
use crate::state::{
    entry_alive, entry_dead, law_nothing_dead_nothing_pruned, running, AppState, LiveGroups,
    ProcessState,
};
use crate::text::{decimal, decimal_text, pad_right, padded, texts};
use vstd::prelude::*;
use vstd::string::*;

verus! {

/// A row of a table: three columns of their widths and one that takes the rest,
/// a space between each two.
pub open spec fn row(
    columns: (Seq<char>, Seq<char>, Seq<char>, Seq<char>),
    widths: (nat, nat, nat),
) -> Seq<char> {
    padded(columns.0, widths.0) + " "@ + padded(columns.1, widths.1) + " "@ + padded(
        columns.2,
        widths.2,
    ) + " "@ + columns.3
}

/// A row of a table.
fn row_text(a: &str, b: &str, c: &str, d: &str, widths: (usize, usize, usize)) -> (s: String)
    ensures
        s@ == row((a@, b@, c@, d@), (widths.0 as nat, widths.1 as nat, widths.2 as nat)),
{
    let mut s = pad_right(a, widths.0);
    s.append(" ");
    s.append(pad_right(b, widths.1).as_str());
    s.append(" ");
    s.append(pad_right(c, widths.2).as_str());
    s.append(" ");
    s.append(d);
    s
}

/// How the list shows a project.
pub open spec fn list_row(name: Seq<char>, project: ProjectConfig) -> Seq<char> {
    let port = match project.port {
        Some(p) => decimal(p as nat),
        None => "-"@,
    };
    row((name, project.path@, port, project.cmd@), (20, 40, 10))
}

/// The list of the configured projects.
pub open spec fn list_table(projects: Seq<(Seq<char>, ProjectConfig)>) -> Seq<Seq<char>> {
    if projects.len() == 0 {
        seq!["No projects configured."@, "Add projects to ~/.devhub/proj.json"@]
    } else {
        seq![row(("PROJECT"@, "PATH"@, "PORT"@, "COMMAND"@), (20, 40, 10))] + projects.map_values(
            |e: (Seq<char>, ProjectConfig)| list_row(e.0, e.1),
        )
    }
}

/// The list of the configured projects, line by line.
pub fn cmd_list(config: &Config) -> (lines: Vec<String>)
    ensures
        texts(lines@) == list_table(config.projects@),
{
    let mut lines: Vec<String> = Vec::new();
    let n: usize = config.projects.len();
    if n == 0 {
        lines.push("No projects configured.".to_owned());
        lines.push("Add projects to ~/.devhub/proj.json".to_owned());
        assert(texts(lines@) =~= list_table(config.projects@));
        return lines;
    }
    lines.push(row_text("PROJECT", "PATH", "PORT", "COMMAND", (20, 40, 10)));
    let ghost table = list_table(config.projects@);
    assert(texts(lines@) =~= table.take(1));
    for i in 0..n
        invariant
            n == config.projects@.len(),
            n > 0,
            table == list_table(config.projects@),
            texts(lines@) == table.take(i + 1),
    {
        let ghost before = lines@;
        let project = config.projects.value_at(i);
        let port = match project.port {
            Some(p) => decimal_text(p as u64),
            None => "-".to_owned(),
        };
        lines.push(
            row_text(
                config.projects.name_at(i).as_str(),
                project.path.as_str(),
                port.as_str(),
                project.cmd.as_str(),
                (20, 40, 10),
            ),
        );
        assert(texts(lines@) =~= texts(before).push(table[i + 1]));
        assert(table.take(i + 2) =~= table.take(i + 1).push(table[i + 1]));
    }
    assert(table.take(n + 1) =~= table);
    lines
}

/// How the status shows a project: one that runs with its group, and where it
/// is reached if it has a port.
pub open spec fn status_row(
    name: Seq<char>,
    processes: Seq<(Seq<char>, ProcessState)>,
    live: LiveGroups,
) -> Seq<char> {
    if running(processes, name, live) {
        let ps = lookup(processes, name)->0;
        let url = match ps.port {
            Some(p) => "http://"@ + name + ".localhost:1300 (→ :"@ + decimal(p as nat) + ")"@,
            None => "-"@,
        };
        row((name, "running"@, decimal(ps.pid as nat), url), (20, 12, 8))
    } else {
        row((name, "stopped"@, "-"@, "-"@), (20, 12, 8))
    }
}

/// The status of the configured projects.
pub open spec fn status_table(
    projects: Seq<(Seq<char>, ProjectConfig)>,
    processes: Seq<(Seq<char>, ProcessState)>,
    live: LiveGroups,
) -> Seq<Seq<char>> {
    if projects.len() == 0 {
        seq!["No projects configured."@]
    } else {
        seq![row(("PROJECT"@, "STATUS"@, "PID"@, "URL"@), (20, 12, 8))] + projects.map_values(
            |e: (Seq<char>, ProjectConfig)| status_row(e.0, processes, live),
        )
    }
}

/// How the status shows a project.
fn status_line(name: &str, state: &AppState, live: &LiveGroups) -> (s: String)
    ensures
        s@ == status_row(name@, state.processes@, *live),
{
    if let Some(ps) = state.processes.get(name) {
        if live.contains(ps.pid) {
            let url = match ps.port {
                Some(p) => {
                    let mut u = "http://".to_owned();
                    u.append(name);
                    u.append(".localhost:1300 (→ :");
                    u.append(decimal_text(p as u64).as_str());
                    u.append(")");
                    u
                },
                None => "-".to_owned(),
            };
            let pid = decimal_text(ps.pid as u64);
            return row_text(name, "running", pid.as_str(), url.as_str(), (20, 12, 8));
        }
    }
    row_text(name, "stopped", "-", "-", (20, 12, 8))
}

/// The status of the configured projects, line by line.
pub fn cmd_status(config: &Config, state: &AppState, live: &LiveGroups) -> (lines: Vec<String>)
    ensures
        texts(lines@) == status_table(config.projects@, state.processes@, *live),
{
    let mut lines: Vec<String> = Vec::new();
    let n: usize = config.projects.len();
    let ghost table = status_table(config.projects@, state.processes@, *live);
    if n == 0 {
        lines.push("No projects configured.".to_owned());
        assert(texts(lines@) =~= table);
        return lines;
    }
    lines.push(row_text("PROJECT", "STATUS", "PID", "URL", (20, 12, 8)));
    assert(texts(lines@) =~= table.take(1));
    for i in 0..n
        invariant
            n == config.projects@.len(),
            n > 0,
            table == status_table(config.projects@, state.processes@, *live),
            texts(lines@) == table.take(i + 1),
    {
        let ghost before = lines@;
        lines.push(status_line(config.projects.name_at(i).as_str(), state, live));
        assert(texts(lines@) =~= texts(before).push(table[i + 1]));
        assert(table.take(i + 2) =~= table.take(i + 1).push(table[i + 1]));
    }
    assert(table.take(n + 1) =~= table);
    lines
}

/// What went wrong without stopping a command.
#[derive(Debug, Clone, Copy, PartialEq, Eq, Structural)]
pub enum Trouble {
    /// Logs could not be removed.
    LogCleanup,
    /// The proxy could not be brought up to date.
    ProxyReload,
}

/// The warning about a trouble; one that belongs to a project is indented.
pub open spec fn warning_text(trouble: Trouble, indented: bool, cause: Seq<char>) -> Seq<char> {
    (if indented {
        "  "@
    } else {
        seq![]
    }) + (match trouble {
        Trouble::LogCleanup => "warning: log cleanup failed: "@,
        Trouble::ProxyReload => "warning: caddy reload failed: "@,
    }) + cause
}

/// The warning about a trouble; one that belongs to a project is indented.
pub fn warning(trouble: Trouble, indented: bool, cause: &str) -> (s: String)
    ensures
        s@ == warning_text(trouble, indented, cause@),
{
    let mut s = String::new();
    if indented {
        s.append("  ");
    }
    match trouble {
        Trouble::LogCleanup => s.append("warning: log cleanup failed: "),
        Trouble::ProxyReload => s.append("warning: caddy reload failed: "),
    }
    s.append(cause);
    s
}

/// How far the command to start a project has come.
#[derive(Debug, Clone, Copy, PartialEq, Eq, Structural)]
pub enum StartCommandPhase {
    FindLog,
    Start,
    Reload,
    Done,
    Failed,
}

/// The command to start a project.
#[derive(Debug)]
pub struct StartCommand {
    pub name: String,
    pub project: ProjectConfig,
    pub phase: StartCommandPhase,
}

/// What came of a step of the command.
#[derive(Debug)]
pub enum StartCommandEvent {
    /// The project's log will lie here.
    LogFound(String),
    /// There is no place for the log.
    LogLost,
    /// The project runs in this process group.
    Started(u32),
    NotStarted,
    /// The proxy was told of the project, and is up to date or is not.
    ProxyReloaded(bool),
}

/// What the command says once the project runs.
pub open spec fn started_lines(name: Seq<char>, pid: u32, port: Option<u16>) -> Seq<Seq<char>> {
    let pid_line = "  pid:  "@ + decimal(pid as nat);
    match port {
        Some(p) => seq![
            pid_line,
            "  url:  http://"@ + name + ".localhost:1300 (→ localhost:"@ + decimal(p as nat) + ")"@,
        ],
        None => seq![pid_line, "Started."@],
    }
}

impl StartCommand {
    /// The phase that follows when `event` came of this one. An event that is
    /// no answer to it changes nothing.
    pub open spec fn phase_after(self, event: StartCommandEvent) -> StartCommandPhase {
        match (self.phase, event) {
            (StartCommandPhase::FindLog, StartCommandEvent::LogFound(_)) => StartCommandPhase::Start,
            (StartCommandPhase::FindLog, StartCommandEvent::LogLost) => StartCommandPhase::Failed,
            (StartCommandPhase::Start, StartCommandEvent::Started(_)) => if self.project.port
                is Some {
                StartCommandPhase::Reload
            } else {
                StartCommandPhase::Done
            },
            (StartCommandPhase::Start, StartCommandEvent::NotStarted) => StartCommandPhase::Failed,
            (StartCommandPhase::Reload, StartCommandEvent::ProxyReloaded(_)) => {
                StartCommandPhase::Done
            },
            (phase, _) => phase,
        }
    }

    /// What the command says when `event` came of this phase.
    pub open spec fn said(self, event: StartCommandEvent) -> Seq<Seq<char>> {
        match (self.phase, event) {
            (StartCommandPhase::FindLog, StartCommandEvent::LogFound(path)) => seq![
                "  log:  "@ + path@,
                "  readiness:  "@ + readiness_text(probe_of(self.project)),
            ],
            (StartCommandPhase::Start, StartCommandEvent::Started(pid)) => started_lines(
                self.name@,
                pid,
                self.project.port,
            ),
            (StartCommandPhase::Reload, StartCommandEvent::ProxyReloaded(_)) => seq!["Started."@],
            _ => seq![],
        }
    }

    /// The command after `event`.
    pub open spec fn after(self, event: StartCommandEvent) -> StartCommand {
        StartCommand { phase: self.phase_after(event), ..self }
    }

    /// What the command says first.
    pub fn opening(&self) -> (s: String)
        ensures
            s@ == "Starting '"@ + self.name@ + "'..."@,
    {
        let mut s = "Starting '".to_owned();
        s.append(self.name.as_str());
        s.append("'...");
        s
    }

    /// Takes in what came of the last step, and gives the lines to say.
    pub fn advance(&mut self, event: StartCommandEvent) -> (lines: Vec<String>)
        ensures
            *final(self) == old(self).after(event),
            texts(lines@) == old(self).said(event),
    {
        let mut lines: Vec<String> = Vec::new();
        match (self.phase, &event) {
            (StartCommandPhase::FindLog, StartCommandEvent::LogFound(path)) => {
                let mut log = "  log:  ".to_owned();
                log.append(path.as_str());
                lines.push(log);
                let mut readiness = "  readiness:  ".to_owned();
                readiness.append(describe_readiness(&self.project).as_str());
                lines.push(readiness);
                self.phase = StartCommandPhase::Start;
            },
            (StartCommandPhase::FindLog, StartCommandEvent::LogLost) => {
                self.phase = StartCommandPhase::Failed;
            },
            (StartCommandPhase::Start, StartCommandEvent::Started(pid)) => {
                let mut pid_line = "  pid:  ".to_owned();
                pid_line.append(decimal_text(*pid as u64).as_str());
                lines.push(pid_line);
                match self.project.port {
                    Some(p) => {
                        let mut url = "  url:  http://".to_owned();
                        url.append(self.name.as_str());
                        url.append(".localhost:1300 (→ localhost:");
                        url.append(decimal_text(p as u64).as_str());
                        url.append(")");
                        lines.push(url);
                        self.phase = StartCommandPhase::Reload;
                    },
                    None => {
                        lines.push("Started.".to_owned());
                        self.phase = StartCommandPhase::Done;
                    },
                }
            },
            (StartCommandPhase::Start, StartCommandEvent::NotStarted) => {
                self.phase = StartCommandPhase::Failed;
            },
            (StartCommandPhase::Reload, StartCommandEvent::ProxyReloaded(_)) => {
                lines.push("Started.".to_owned());
                self.phase = StartCommandPhase::Done;
            },
            _ => {},
        }
        assert(texts(lines@) =~= old(self).said(event));
        lines
    }
}

/// Begins the command to start a project; a project that is not configured
/// cannot be started.
pub fn cmd_start(name: &str, config: &Config) -> (r: Result<StartCommand, String>)
    ensures
        match lookup(config.projects@, name@) {
            Some(project) => r matches Ok(command) && command.name@ == name@ && command.project
                == project && command.phase == StartCommandPhase::FindLog,
            None => r matches Err(message) && message@ == "project '"@ + name@
                + "' not found in config"@,
        },
{
    match config.projects.get(name) {
        Some(project) => Ok(
            StartCommand {
                name: name.to_owned(),
                project: project.clone(),
                phase: StartCommandPhase::FindLog,
            },
        ),
        None => {
            let mut message = "project '".to_owned();
            message.append(name);
            message.append("' not found in config");
            Err(message)
        },
    }
}

/// How far the command to stop a project has come.
#[derive(Debug, Clone, Copy, PartialEq, Eq, Structural)]
pub enum StopCommandPhase {
    Stop,
    RemoveLog,
    Reload,
    Done,
    Failed,
}

/// The command to stop a project.
#[derive(Debug)]
pub struct StopCommand {
    pub name: String,
    /// Whether the project had a route, which has to go.
    pub had_port: bool,
    pub phase: StopCommandPhase,
}

/// What came of a step of the command.
#[derive(Debug, Clone, Copy, PartialEq, Eq, Structural)]
pub enum StopCommandEvent {
    Stopped(bool),
    LogRemoved(bool),
    ProxyReloaded(bool),
}

impl StopCommand {
    /// The phase that follows when `event` came of this one. An event that is
    /// no answer to it changes nothing.
    pub open spec fn phase_after(self, event: StopCommandEvent) -> StopCommandPhase {
        match (self.phase, event) {
            (StopCommandPhase::Stop, StopCommandEvent::Stopped(ok)) => if ok {
                StopCommandPhase::RemoveLog
            } else {
                StopCommandPhase::Failed
            },
            (StopCommandPhase::RemoveLog, StopCommandEvent::LogRemoved(_)) => if self.had_port {
                StopCommandPhase::Reload
            } else {
                StopCommandPhase::Done
            },
            (StopCommandPhase::Reload, StopCommandEvent::ProxyReloaded(_)) => StopCommandPhase::Done,
            (phase, _) => phase,
        }
    }

    /// The command after `event`.
    pub open spec fn after(self, event: StopCommandEvent) -> StopCommand {
        StopCommand { phase: self.phase_after(event), ..self }
    }

    /// What the command says first.
    pub fn opening(&self) -> (s: String)
        ensures
            s@ == "Stopping '"@ + self.name@ + "'..."@,
    {
        let mut s = "Stopping '".to_owned();
        s.append(self.name.as_str());
        s.append("'...");
        s
    }

    /// Takes in what came of the last step, and gives the line to say: the
    /// command says that the project is stopped once all is done.
    pub fn advance(&mut self, event: StopCommandEvent) -> (line: Option<String>)
        ensures
            *final(self) == old(self).after(event),
            match line {
                Some(s) => s@ == "Stopped."@ && final(self).phase is Done && !(old(self).phase
                    is Done),
                None => final(self).phase is Done ==> old(self).phase is Done,
            },
    {
        match (self.phase, event) {
            (StopCommandPhase::Stop, StopCommandEvent::Stopped(ok)) => {
                self.phase = if ok {
                    StopCommandPhase::RemoveLog
                } else {
                    StopCommandPhase::Failed
                };
                None
            },
            (StopCommandPhase::RemoveLog, StopCommandEvent::LogRemoved(_)) => {
                if self.had_port {
                    self.phase = StopCommandPhase::Reload;
                    None
                } else {
                    self.phase = StopCommandPhase::Done;
                    Some("Stopped.".to_owned())
                }
            },
            (StopCommandPhase::Reload, StopCommandEvent::ProxyReloaded(_)) => {
                self.phase = StopCommandPhase::Done;
                Some("Stopped.".to_owned())
            },
            _ => None,
        }
    }
}

/// Begins the command to stop a project.
pub fn cmd_stop(name: &str, state: &AppState) -> (command: StopCommand)
    ensures
        command.name@ == name@,
        command.had_port == (lookup(state.processes@, name@) matches Some(ps) && ps.port is Some),
        command.phase == StopCommandPhase::Stop,
{
    let had_port = match state.processes.get(name) {
        Some(ps) => ps.port.is_some(),
        None => false,
    };
    StopCommand { name: name.to_owned(), had_port, phase: StopCommandPhase::Stop }
}

/// How far a command is from being carried out.
#[derive(Debug, Clone, Copy, PartialEq, Eq, Structural)]
pub enum RunPhase {
    LoadConfig,
    LoadState,
    ProbeGroups,
    /// Dead projects were forgotten.
    SaveState,
    CleanLogs,
    Reconcile,
    Execute,
    Failed,
}

/// What is done before every command.
#[derive(Debug, Clone, Copy, PartialEq, Eq, Structural)]
pub struct Housekeeping {
    pub phase: RunPhase,
}

/// What came of a step.
#[derive(Debug)]
pub enum RunEvent {
    ConfigLoaded(bool),
    StateLoaded(bool),
    /// These groups were found alive.
    GroupsProbed(LiveGroups),
    StateSaved(bool),
    LogsCleaned(bool),
    Reconciled(bool),
}

impl Housekeeping {
    /// The phase that follows when `event` came of this one, for the state
    /// `processes`. An event that is no answer to it changes nothing.
    pub open spec fn phase_after(
        self,
        event: RunEvent,
        processes: Seq<(Seq<char>, ProcessState)>,
    ) -> RunPhase {
        match (self.phase, event) {
            (RunPhase::LoadConfig, RunEvent::ConfigLoaded(ok)) => if ok {
                RunPhase::LoadState
            } else {
                RunPhase::Failed
            },
            (RunPhase::LoadState, RunEvent::StateLoaded(ok)) => if ok {
                RunPhase::ProbeGroups
            } else {
                RunPhase::Failed
            },
            (RunPhase::ProbeGroups, RunEvent::GroupsProbed(live)) => if processes.filter(
                entry_dead(live),
            ).len() > 0 {
                RunPhase::SaveState
            } else {
                RunPhase::CleanLogs
            },
            (RunPhase::SaveState, RunEvent::StateSaved(ok)) => if ok {
                RunPhase::CleanLogs
            } else {
                RunPhase::Failed
            },
            (RunPhase::CleanLogs, RunEvent::LogsCleaned(_)) => RunPhase::Reconcile,
            (RunPhase::Reconcile, RunEvent::Reconciled(_)) => RunPhase::Execute,
            (phase, _) => phase,
        }
    }

    /// The state that follows when `event` came of this phase: once the groups
    /// were looked for, dead projects are forgotten.
    pub open spec fn processes_after(
        self,
        event: RunEvent,
        processes: Seq<(Seq<char>, ProcessState)>,
    ) -> Seq<(Seq<char>, ProcessState)> {
        match (self.phase, event) {
            (RunPhase::ProbeGroups, RunEvent::GroupsProbed(live)) => processes.filter(
                entry_alive(live),
            ),
            _ => processes,
        }
    }

    /// Takes in what came of the last step.
    pub fn advance(&mut self, event: RunEvent, state: &mut AppState)
        ensures
            final(self).phase == old(self).phase_after(event, old(state).processes@),
            final(state).processes@ == old(self).processes_after(event, old(state).processes@),
    {
        match (self.phase, &event) {
            (RunPhase::LoadConfig, RunEvent::ConfigLoaded(ok)) => {
                self.phase = if *ok {
                    RunPhase::LoadState
                } else {
                    RunPhase::Failed
                };
            },
            (RunPhase::LoadState, RunEvent::StateLoaded(ok)) => {
                self.phase = if *ok {
                    RunPhase::ProbeGroups
                } else {
                    RunPhase::Failed
                };
            },
            (RunPhase::ProbeGroups, RunEvent::GroupsProbed(live)) => {
                let dead = state.prune_dead(live);
                assert(texts(dead@).len() == dead@.len());
                assert(names_of(old(state).processes@.filter(entry_dead(*live))).len() == old(
                    state,
                ).processes@.filter(entry_dead(*live)).len());
                self.phase = if dead.len() > 0 {
                    RunPhase::SaveState
                } else {
                    RunPhase::CleanLogs
                };
            },
            (RunPhase::SaveState, RunEvent::StateSaved(ok)) => {
                self.phase = if *ok {
                    RunPhase::CleanLogs
                } else {
                    RunPhase::Failed
                };
            },
            (RunPhase::CleanLogs, RunEvent::LogsCleaned(_)) => {
                self.phase = RunPhase::Reconcile;
            },
            (RunPhase::Reconcile, RunEvent::Reconciled(_)) => {
                self.phase = RunPhase::Execute;
            },
            _ => {},
        }
    }
}

/// Begins what is done before every command.
pub fn run() -> (h: Housekeeping)
    ensures
        h.phase == RunPhase::LoadConfig,
{
    Housekeeping { phase: RunPhase::LoadConfig }
}

/// How far a command has come, and what is known of the projects, after all of
/// `events`.
pub open spec fn course(
    start: Housekeeping,
    processes: Seq<(Seq<char>, ProcessState)>,
    events: Seq<RunEvent>,
) -> (Housekeeping, Seq<(Seq<char>, ProcessState)>)
    decreases events.len(),
{
    if events.len() == 0 {
        (start, processes)
    } else {
        let (h, entries) = course(start, processes, events.drop_last());
        (
            Housekeeping { phase: h.phase_after(events.last(), entries) },
            h.processes_after(events.last(), entries),
        )
    }
}

/// Whether the groups were looked for in the course of `events`, and `after`
/// is what is left of `before` by what was found.
pub open spec fn pruned(
    before: Seq<(Seq<char>, ProcessState)>,
    after: Seq<(Seq<char>, ProcessState)>,
    events: Seq<RunEvent>,
) -> bool {
    exists|live: LiveGroups| #[trigger]
        events.contains(RunEvent::GroupsProbed(live)) && after == before.filter(entry_alive(live))
}

/// What must have happened before each phase.
spec fn run_history(
    processes: Seq<(Seq<char>, ProcessState)>,
    events: Seq<RunEvent>,
    h: Housekeeping,
    after: Seq<(Seq<char>, ProcessState)>,
) -> bool {
    let loaded = events.contains(RunEvent::ConfigLoaded(true)) && events.contains(
        RunEvent::StateLoaded(true),
    );
    let saved = after != processes ==> events.contains(RunEvent::StateSaved(true));
    match h.phase {
        RunPhase::LoadConfig => after == processes,
        RunPhase::LoadState => after == processes && events.contains(RunEvent::ConfigLoaded(true)),
        RunPhase::ProbeGroups => after == processes && loaded,
        RunPhase::SaveState => loaded && pruned(processes, after, events),
        RunPhase::CleanLogs => loaded && pruned(processes, after, events) && saved,
        RunPhase::Reconcile => loaded && pruned(processes, after, events) && saved,
        RunPhase::Execute => loaded && pruned(processes, after, events) && saved,
        RunPhase::Failed => true,
    }
}

proof fn lemma_run_history(processes: Seq<(Seq<char>, ProcessState)>, events: Seq<RunEvent>)
    ensures
        ({
            let (h, after) = course(
                (Housekeeping { phase: RunPhase::LoadConfig }),
                processes,
                events,
            );
            run_history(processes, events, h, after)
        }),
    decreases events.len(),
{
    if events.len() > 0 {
        let front = events.drop_last();
        let start = Housekeeping { phase: RunPhase::LoadConfig };
        let (h, before) = course(start, processes, front);
        let (_, after) = course(start, processes, events);
        lemma_run_history(processes, front);
        lemma_contains_of_front(events);
        if pruned(processes, before, front) {
            let live = choose|live: LiveGroups| #[trigger]
                front.contains(RunEvent::GroupsProbed(live)) && before == processes.filter(
                    entry_alive(live),
                );
            assert(events.contains(RunEvent::GroupsProbed(live)));
            assert(pruned(processes, before, events));
        }
        if h.phase is ProbeGroups {
            if let RunEvent::GroupsProbed(live) = events.last() {
                assert(events.contains(RunEvent::GroupsProbed(live)));
                assert(pruned(processes, after, events));
                law_nothing_dead_nothing_pruned(processes, live);
            }
        }
    }
}

/// Before any command is carried out, the config and the state were loaded, and
/// the projects whose groups are not alive were forgotten; if there were any,
/// that was written down.
pub proof fn law_every_command_prunes_first(
    processes: Seq<(Seq<char>, ProcessState)>,
    events: Seq<RunEvent>,
)
    ensures
        ({
            let (h, after) = course(
                (Housekeeping { phase: RunPhase::LoadConfig }),
                processes,
                events,
            );
            h.phase is Execute ==> {
                &&& events.contains(RunEvent::ConfigLoaded(true))
                &&& events.contains(RunEvent::StateLoaded(true))
                &&& pruned(processes, after, events)
                &&& after != processes ==> events.contains(RunEvent::StateSaved(true))
            }
        }),
{
    lemma_run_history(processes, events);
}

/// A log that cannot be removed, or a proxy that cannot be brought up to date,
/// stops no command: all goes on as if it could.
pub proof fn law_trouble_stops_nothing(
    h: Housekeeping,
    processes: Seq<(Seq<char>, ProcessState)>,
    start: StartCommand,
    stop: StopCommand,
)
    ensures
        h.phase_after(RunEvent::LogsCleaned(false), processes) == h.phase_after(
            RunEvent::LogsCleaned(true),
            processes,
        ),
        h.phase_after(RunEvent::Reconciled(false), processes) == h.phase_after(
            RunEvent::Reconciled(true),
            processes,
        ),
        start.after(StartCommandEvent::ProxyReloaded(false)) == start.after(
            StartCommandEvent::ProxyReloaded(true),
        ),
        start.said(StartCommandEvent::ProxyReloaded(false)) == start.said(
            StartCommandEvent::ProxyReloaded(true),
        ),
        stop.after(StopCommandEvent::LogRemoved(false)) == stop.after(
            StopCommandEvent::LogRemoved(true),
        ),
        stop.after(StopCommandEvent::ProxyReloaded(false)) == stop.after(
            StopCommandEvent::ProxyReloaded(true),
        ),
{
}

/// A config or a state that cannot be loaded, and a state that cannot be
/// written down, stop every command.
pub proof fn law_lost_files_stop_every_command(
    h: Housekeeping,
    processes: Seq<(Seq<char>, ProcessState)>,
    event: RunEvent,
)
    ensures
        h.phase is LoadConfig ==> h.phase_after(RunEvent::ConfigLoaded(false), processes) is Failed,
        h.phase is LoadState ==> h.phase_after(RunEvent::StateLoaded(false), processes) is Failed,
        h.phase is SaveState ==> h.phase_after(RunEvent::StateSaved(false), processes) is Failed,
        h.phase is Failed ==> h.phase_after(event, processes) is Failed,
{
}

/// The proxy is told exactly of the projects that have a port.
pub proof fn law_proxy_hears_of_ports(
    start: StartCommand,
    pid: u32,
    stop: StopCommand,
    removed: bool,
)
    requires
        start.phase is Start,
        stop.phase is RemoveLog,
    ensures
        start.after(StartCommandEvent::Started(pid)).phase is Reload <==> start.project.port
            is Some,
        stop.after(StopCommandEvent::LogRemoved(removed)).phase is Reload <==> stop.had_port,
{
}

/// The commands that start and stop a project come to their end only for a
/// project that was started, or stopped: a failure is the end, and nothing more
/// is said or done.
pub proof fn law_failed_commands_do_no_more(
    start: StartCommand,
    stop: StopCommand,
    start_event: StartCommandEvent,
    stop_event: StopCommandEvent,
)
    ensures
        start.phase is Start && start.after(start_event).phase != start.phase ==> (
        start_event is Started <==> !(start.after(start_event).phase is Failed)),
        start.phase is Failed ==> start.after(start_event) == start && start.said(start_event).len()
            == 0,
        stop.phase is Stop && stop.after(stop_event).phase != stop.phase ==> (stop_event
            == StopCommandEvent::Stopped(true) <==> stop.after(stop_event).phase is RemoveLog),
        stop.phase is Failed ==> stop.after(stop_event) == stop,
{
}

/// A project that is forgotten shows as stopped, and every other project shows
/// as before.
pub proof fn law_forgotten_project_shows_as_stopped(
    name: Seq<char>,
    other: Seq<char>,
    processes: Seq<(Seq<char>, ProcessState)>,
    live: LiveGroups,
)
    requires
        distinct_names(processes),
    ensures
        status_row(name, without_entry(processes, name), live) == row(
            (name, "stopped"@, "-"@, "-"@),
            (20, 12, 8),
        ),
        other != name ==> status_row(other, without_entry(processes, name), live) == status_row(
            other,
            processes,
            live,
        ),
{
    lemma_without_entry(processes, name);
}

} // verus!
