//! Starting and stopping projects.

use crate::config::{expand_path_of, expanded, shown_home, ProjectConfig};
use crate::dirs::{home_dir, FilePath};
use crate::names::{
    distinct_names, lemma_lookup, lemma_with_entry, lemma_without_entry, lookup,
    with_entry, without_entry,
};
use crate::seqs::lemma_contains_of_front;
use crate::startup::{
    diagnosis, law_success_means_ready, probe_of, startup_failure, Probe, Startup, StartupAction,
    StartupEvent, StartupFailure, StartupPhase,
};
use crate::state::{running, AppState, LiveGroups, ProcessState};
use crate::text::{decimal, decimal_text, text_of};
use vstd::prelude::*;
use vstd::string::*;
use vstd::utf8::{decode_utf8, valid_utf8};

verus! {

/// Why a project was not started.
#[derive(Debug)]
pub enum StartFailure {
    /// It runs already, in this process group.
    AlreadyRunning(u32),
    /// This directory of it does not exist.
    NoDirectory(String),
    /// Its log could not be opened.
    LogNotOpened,
    /// Its log could not be opened a second time, for the errors.
    LogNotShared,
    /// Its command could not be run in this directory.
    NotSpawned(String),
    /// It did not become ready, and these were the last lines of its log, if
    /// there were any.
    NotReady(StartupFailure, Option<String>),
    /// It was started, but that could not be written down.
    NotSaved,
}

/// How far the start of a project has come. Until the project runs, its
/// directory is kept at hand.
#[derive(Debug)]
pub enum StartPhase {
    CheckDirectory(String),
    OpenLog(String),
    ShareLog(String),
    Spawn(String),
    /// The start has failed for this reason: the log has told what it can.
    DropLog(StartFailure),
    /// The project runs in this process group.
    AwaitReady(u32),
    /// The project did not become ready: its log may tell why.
    ReadTail(StartupFailure),
    /// The project is ready, and recorded.
    SaveState(u32),
    Started(u32),
    Refused(StartFailure),
}

/// The start of a project.
#[derive(Debug)]
pub struct ProjectStart {
    pub name: String,
    pub config: ProjectConfig,
    pub phase: StartPhase,
}

/// What is to be done next to start a project.
#[derive(Debug)]
pub enum StartAction {
    /// Find out whether this directory exists.
    CheckDirectory(String),
    /// Open the project's log, and empty it.
    OpenLog,
    /// Open it a second time, for the errors.
    ShareLog,
    /// Run the command with a shell, in this directory and in a process group
    /// of its own.
    Spawn { cmd: String, dir: String },
    /// Remove the project's log, if that can be done.
    DropLog,
    /// Wait until the project in this process group is ready.
    AwaitReady(u32),
    /// Read the last lines of the project's log, as far as that can be done.
    ReadTail,
    /// Write the state to its file.
    SaveState,
    /// Nothing: the project runs in this process group.
    Succeed(u32),
    /// Nothing: the project was not started.
    Fail,
}

/// What came of an action.
#[derive(Debug)]
pub enum StartEvent {
    DirectoryExists(bool),
    LogOpened(bool),
    LogShared(bool),
    Spawned(u32),
    NotSpawned,
    LogDropped,
    BecameReady,
    /// The project will not become ready.
    NotReady(StartupFailure),
    /// The last lines of the project's log, if there are any to show.
    TailRead(Option<String>),
    StateSaved(bool),
}

impl ProjectStart {
    /// What is to be done in this phase.
    pub open spec fn action(self) -> StartAction {
        match self.phase {
            StartPhase::CheckDirectory(dir) => StartAction::CheckDirectory(dir),
            StartPhase::OpenLog(_) => StartAction::OpenLog,
            StartPhase::ShareLog(_) => StartAction::ShareLog,
            StartPhase::Spawn(dir) => StartAction::Spawn { cmd: self.config.cmd, dir },
            StartPhase::DropLog(_) => StartAction::DropLog,
            StartPhase::AwaitReady(pid) => StartAction::AwaitReady(pid),
            StartPhase::ReadTail(_) => StartAction::ReadTail,
            StartPhase::SaveState(_) => StartAction::SaveState,
            StartPhase::Started(pid) => StartAction::Succeed(pid),
            StartPhase::Refused(_) => StartAction::Fail,
        }
    }

    /// The phase that follows when `event` came of the action of this one. An
    /// event that is no answer to the action changes nothing.
    pub open spec fn phase_after(self, event: StartEvent) -> StartPhase {
        match (self.phase, event) {
            (StartPhase::CheckDirectory(dir), StartEvent::DirectoryExists(found)) => if found {
                StartPhase::OpenLog(dir)
            } else {
                StartPhase::Refused(StartFailure::NoDirectory(dir))
            },
            (StartPhase::OpenLog(dir), StartEvent::LogOpened(ok)) => if ok {
                StartPhase::ShareLog(dir)
            } else {
                StartPhase::Refused(StartFailure::LogNotOpened)
            },
            (StartPhase::ShareLog(dir), StartEvent::LogShared(ok)) => if ok {
                StartPhase::Spawn(dir)
            } else {
                StartPhase::DropLog(StartFailure::LogNotShared)
            },
            (StartPhase::Spawn(_), StartEvent::Spawned(pid)) => StartPhase::AwaitReady(pid),
            (StartPhase::Spawn(dir), StartEvent::NotSpawned) => StartPhase::DropLog(
                StartFailure::NotSpawned(dir),
            ),
            (StartPhase::DropLog(failure), StartEvent::LogDropped) => StartPhase::Refused(failure),
            (StartPhase::AwaitReady(pid), StartEvent::BecameReady) => StartPhase::SaveState(pid),
            (StartPhase::AwaitReady(_), StartEvent::NotReady(failure)) => StartPhase::ReadTail(
                failure,
            ),
            (StartPhase::ReadTail(failure), StartEvent::TailRead(tail)) => StartPhase::DropLog(
                StartFailure::NotReady(failure, tail),
            ),
            (StartPhase::SaveState(pid), StartEvent::StateSaved(ok)) => if ok {
                StartPhase::Started(pid)
            } else {
                StartPhase::Refused(StartFailure::NotSaved)
            },
            (phase, _) => phase,
        }
    }

    /// The start after `event`.
    pub open spec fn after(self, event: StartEvent) -> ProjectStart {
        ProjectStart { phase: self.phase_after(event), ..self }
    }

    /// The start after all of `events`.
    pub open spec fn run(self, events: Seq<StartEvent>) -> ProjectStart
        decreases events.len(),
    {
        if events.len() == 0 {
            self
        } else {
            self.run(events.drop_last()).after(events.last())
        }
    }

    /// Whether `event` is the word that the project is ready, by which it is
    /// recorded.
    pub open spec fn records(self, event: StartEvent) -> bool {
        self.phase is AwaitReady && event is BecameReady
    }

    /// What is to be done next.
    pub fn next_action(&self) -> (action: StartAction)
        ensures
            action == self.action(),
    {
        match &self.phase {
            StartPhase::CheckDirectory(dir) => StartAction::CheckDirectory(dir.clone()),
            StartPhase::OpenLog(_) => StartAction::OpenLog,
            StartPhase::ShareLog(_) => StartAction::ShareLog,
            StartPhase::Spawn(dir) => StartAction::Spawn {
                cmd: self.config.cmd.clone(),
                dir: dir.clone(),
            },
            StartPhase::DropLog(_) => StartAction::DropLog,
            StartPhase::AwaitReady(pid) => StartAction::AwaitReady(*pid),
            StartPhase::ReadTail(_) => StartAction::ReadTail,
            StartPhase::SaveState(_) => StartAction::SaveState,
            StartPhase::Started(pid) => StartAction::Succeed(*pid),
            StartPhase::Refused(_) => StartAction::Fail,
        }
    }

    /// Takes in what came of the last action, records the project in `state`
    /// once it is ready, and says what is to be done next.
    pub fn advance(&mut self, event: StartEvent, state: &mut AppState) -> (action: StartAction)
        ensures
            *final(self) == old(self).after(event),
            action == final(self).action(),
            if old(self).records(event) {
                recorded(
                    old(state).processes@,
                    final(state).processes@,
                    old(self).name@,
                    old(self).phase->AwaitReady_0,
                    old(self).config.port,
                )
            } else {
                *final(state) == *old(state)
            },
    {
        let mut phase = StartPhase::Refused(StartFailure::NotSaved);
        std::mem::swap(&mut phase, &mut self.phase);
        self.phase = match (phase, event) {
            (StartPhase::CheckDirectory(dir), StartEvent::DirectoryExists(found)) => {
                if found {
                    StartPhase::OpenLog(dir)
                } else {
                    StartPhase::Refused(StartFailure::NoDirectory(dir))
                }
            },
            (StartPhase::OpenLog(dir), StartEvent::LogOpened(ok)) => {
                if ok {
                    StartPhase::ShareLog(dir)
                } else {
                    StartPhase::Refused(StartFailure::LogNotOpened)
                }
            },
            (StartPhase::ShareLog(dir), StartEvent::LogShared(ok)) => {
                if ok {
                    StartPhase::Spawn(dir)
                } else {
                    StartPhase::DropLog(StartFailure::LogNotShared)
                }
            },
            (StartPhase::Spawn(_), StartEvent::Spawned(pid)) => StartPhase::AwaitReady(pid),
            (StartPhase::Spawn(dir), StartEvent::NotSpawned) => StartPhase::DropLog(
                StartFailure::NotSpawned(dir),
            ),
            (StartPhase::DropLog(failure), StartEvent::LogDropped) => StartPhase::Refused(failure),
            (StartPhase::AwaitReady(pid), StartEvent::BecameReady) => {
                state.add(self.name.clone(), pid, self.config.port);
                StartPhase::SaveState(pid)
            },
            (StartPhase::AwaitReady(_), StartEvent::NotReady(failure)) => StartPhase::ReadTail(
                failure,
            ),
            (StartPhase::ReadTail(failure), StartEvent::TailRead(tail)) => StartPhase::DropLog(
                StartFailure::NotReady(failure, tail),
            ),
            (StartPhase::SaveState(pid), StartEvent::StateSaved(ok)) => {
                if ok {
                    StartPhase::Started(pid)
                } else {
                    StartPhase::Refused(StartFailure::NotSaved)
                }
            },
            (phase, _) => phase,
        };
        self.next_action()
    }

    /// What the user is told of a failure, besides what the machine had to say.
    pub fn failure_message(&self) -> (s: Option<String>)
        ensures
            text_of(s) == start_failure_text(*self),
    {
        match &self.phase {
            StartPhase::Refused(StartFailure::AlreadyRunning(pid)) => {
                let mut s = "project '".to_owned();
                s.append(self.name.as_str());
                s.append("' is already running (pid ");
                s.append(decimal_text(*pid as u64).as_str());
                s.append(")");
                Some(s)
            },
            StartPhase::Refused(StartFailure::NoDirectory(dir)) => {
                let mut s = "project directory '".to_owned();
                s.append(dir.as_str());
                s.append("' does not exist");
                Some(s)
            },
            StartPhase::Refused(StartFailure::LogNotShared) => {
                let mut s = "failed to clone log handle for project '".to_owned();
                s.append(self.name.as_str());
                s.append("'");
                Some(s)
            },
            StartPhase::Refused(StartFailure::NotSpawned(dir)) => {
                let mut s = "failed to start command '".to_owned();
                s.append(self.config.cmd.as_str());
                s.append("' in ");
                s.append(dir.as_str());
                Some(s)
            },
            StartPhase::Refused(StartFailure::NotReady(failure, tail)) => {
                Some(startup_failure(failure, tail))
            },
            _ => None,
        }
    }
}

/// Whether `after` is `before` with the project `name` recorded in it, as
/// started in the process group `pid`, at some moment since the start of 1970.
pub open spec fn recorded(
    before: Seq<(Seq<char>, ProcessState)>,
    after: Seq<(Seq<char>, ProcessState)>,
    name: Seq<char>,
    pid: u32,
    port: Option<u16>,
) -> bool {
    lookup(after, name) matches Some(ps) && {
        &&& ps.pid == pid
        &&& ps.port == port
        &&& ps.started_at.secs >= 0
        &&& ps.started_at.nanos < 1_000_000_000
        &&& after == with_entry(before, name, ps)
    }
}

/// What the user is told of a start that failed. Where the machine failed and
/// nothing is to be added to that, there is nothing to tell.
pub open spec fn start_failure_text(start: ProjectStart) -> Option<Seq<char>> {
    match start.phase {
        StartPhase::Refused(StartFailure::AlreadyRunning(pid)) => Some(
            "project '"@ + start.name@ + "' is already running (pid "@ + decimal(pid as nat)
                + ")"@,
        ),
        StartPhase::Refused(StartFailure::NoDirectory(dir)) => Some(
            "project directory '"@ + dir@ + "' does not exist"@,
        ),
        StartPhase::Refused(StartFailure::LogNotShared) => Some(
            "failed to clone log handle for project '"@ + start.name@ + "'"@,
        ),
        StartPhase::Refused(StartFailure::NotSpawned(dir)) => Some(
            "failed to start command '"@ + start.config.cmd@ + "' in "@ + dir@,
        ),
        StartPhase::Refused(StartFailure::NotReady(failure, tail)) => Some(
            diagnosis(failure, text_of(tail)),
        ),
        _ => None,
    }
}

/// Begins to start a project in the directory `dir`, unless it runs already.
pub fn start_project_in(
    name: &str,
    config: &ProjectConfig,
    state: &AppState,
    live: &LiveGroups,
    dir: String,
) -> (start: ProjectStart)
    ensures
        start.name@ == name@,
        start.config == *config,
        start.phase == if running(state.processes@, name@, *live) {
            StartPhase::Refused(
                StartFailure::AlreadyRunning(lookup(state.processes@, name@)->0.pid),
            )
        } else {
            StartPhase::CheckDirectory(dir)
        },
{
    let mut phase = StartPhase::CheckDirectory(dir);
    if let Some(ps) = state.processes.get(name) {
        if live.contains(ps.pid) {
            phase = StartPhase::Refused(StartFailure::AlreadyRunning(ps.pid));
        }
    }
    ProjectStart { name: name.to_owned(), config: config.clone(), phase }
}

/// Begins to start a project in its configured directory, unless it runs
/// already, for a user with this home directory.
pub fn start_project_of(
    name: &str,
    config: &ProjectConfig,
    state: &AppState,
    live: &LiveGroups,
    home: Option<FilePath>,
) -> (start: ProjectStart)
    ensures
        start.name@ == name@,
        start.config == *config,
        if running(state.processes@, name@, *live) {
            start.phase == StartPhase::Refused(
                StartFailure::AlreadyRunning(lookup(state.processes@, name@)->0.pid),
            )
        } else {
            start.phase matches StartPhase::CheckDirectory(dir) && {
                &&& dir@ == expanded(config.path@, shown_home(home))
                &&& home matches Some(h) ==> valid_utf8(h@) ==> dir@ == expanded(
                    config.path@,
                    Some(decode_utf8(h@)),
                )
            }
        },
{
    let dir = expand_path_of(config.path.as_str(), home);
    start_project_in(name, config, state, live, dir)
}

/// Begins to start a project in its configured directory, unless it runs
/// already.
pub fn start_project(
    name: &str,
    config: &ProjectConfig,
    state: &AppState,
    live: &LiveGroups,
) -> (start: ProjectStart)
    ensures
        start.name@ == name@,
        start.config == *config,
        if running(state.processes@, name@, *live) {
            start.phase == StartPhase::Refused(
                StartFailure::AlreadyRunning(lookup(state.processes@, name@)->0.pid),
            )
        } else {
            start.phase matches StartPhase::CheckDirectory(dir) && exists|home: Option<FilePath>|
                dir@ == expanded(config.path@, #[trigger] shown_home(home))
        },
{
    let home = home_dir();
    start_project_of(name, config, state, live, home)
}

/// The word on a project's readiness: where there is nothing to wait for the
/// project is ready, and while the waiting goes on there is none.
pub open spec fn word_on_readiness(waiting: Option<Startup>) -> Option<StartEvent> {
    match waiting {
        Some(w) => match w.action() {
            StartupAction::Succeed => Some(StartEvent::BecameReady),
            StartupAction::Fail(failure) => Some(StartEvent::NotReady(failure)),
            _ => None,
        },
        None => Some(StartEvent::BecameReady),
    }
}

/// The word on a project's readiness, if there is one yet.
pub fn readiness_event(waiting: &Option<Startup>) -> (event: Option<StartEvent>)
    ensures
        event == word_on_readiness(*waiting),
{
    match waiting {
        Some(w) => match w.next_action() {
            StartupAction::Succeed => Some(StartEvent::BecameReady),
            StartupAction::Fail(failure) => Some(StartEvent::NotReady(failure)),
            _ => None,
        },
        None => Some(StartEvent::BecameReady),
    }
}

/// Why a project was not stopped.
#[derive(Debug, Clone, Copy, PartialEq, Eq, Structural)]
pub enum StopFailure {
    /// It was not started.
    NotRunning,
    /// Its process group was gone already.
    GroupGone(u32),
    /// Its process group could not be asked to end.
    NotKilled,
    /// It is gone, but that could not be written down.
    NotSaved,
}

/// How far the end of a project has come.
#[derive(Debug, Clone, Copy, PartialEq, Eq, Structural)]
pub enum StopPhase {
    CheckGroup(u32),
    KillGroup(u32),
    /// The group was gone: the project is forgotten.
    SaveGone(u32),
    /// The group was ended: the project is forgotten.
    SaveStopped,
    Stopped,
    Refused(StopFailure),
}

/// The end of a project.
#[derive(Debug)]
pub struct ProjectStop {
    pub name: String,
    pub phase: StopPhase,
}

/// What is to be done next to stop a project.
#[derive(Debug, Clone, Copy, PartialEq, Eq, Structural)]
pub enum StopAction {
    /// Find out whether this process group is alive.
    ProbeGroup(u32),
    /// End this process group.
    KillGroup(u32),
    /// Write the state to its file.
    SaveState,
    /// Nothing: the project is stopped.
    Succeed,
    /// Nothing: the project was not stopped.
    Fail,
}

/// What came of an action.
#[derive(Debug, Clone, Copy, PartialEq, Eq, Structural)]
pub enum StopEvent {
    GroupAlive(bool),
    GroupKilled(bool),
    StateSaved(bool),
}

impl ProjectStop {
    /// What is to be done in this phase.
    pub open spec fn action(self) -> StopAction {
        match self.phase {
            StopPhase::CheckGroup(pid) => StopAction::ProbeGroup(pid),
            StopPhase::KillGroup(pid) => StopAction::KillGroup(pid),
            StopPhase::SaveGone(_) => StopAction::SaveState,
            StopPhase::SaveStopped => StopAction::SaveState,
            StopPhase::Stopped => StopAction::Succeed,
            StopPhase::Refused(_) => StopAction::Fail,
        }
    }

    /// The phase that follows when `event` came of the action of this one. An
    /// event that is no answer to the action changes nothing.
    pub open spec fn phase_after(self, event: StopEvent) -> StopPhase {
        match (self.phase, event) {
            (StopPhase::CheckGroup(pid), StopEvent::GroupAlive(alive)) => if alive {
                StopPhase::KillGroup(pid)
            } else {
                StopPhase::SaveGone(pid)
            },
            (StopPhase::KillGroup(_), StopEvent::GroupKilled(ok)) => if ok {
                StopPhase::SaveStopped
            } else {
                StopPhase::Refused(StopFailure::NotKilled)
            },
            (StopPhase::SaveGone(pid), StopEvent::StateSaved(ok)) => if ok {
                StopPhase::Refused(StopFailure::GroupGone(pid))
            } else {
                StopPhase::Refused(StopFailure::NotSaved)
            },
            (StopPhase::SaveStopped, StopEvent::StateSaved(ok)) => if ok {
                StopPhase::Stopped
            } else {
                StopPhase::Refused(StopFailure::NotSaved)
            },
            (phase, _) => phase,
        }
    }

    /// The end of the project after `event`.
    pub open spec fn after(self, event: StopEvent) -> ProjectStop {
        ProjectStop { phase: self.phase_after(event), ..self }
    }

    /// The end of the project after all of `events`.
    pub open spec fn run(self, events: Seq<StopEvent>) -> ProjectStop
        decreases events.len(),
    {
        if events.len() == 0 {
            self
        } else {
            self.run(events.drop_last()).after(events.last())
        }
    }

    /// Whether `event` is the word that the process group is gone, by which
    /// the project is forgotten.
    pub open spec fn forgets(self, event: StopEvent) -> bool {
        ||| self.phase is CheckGroup && event == StopEvent::GroupAlive(false)
        ||| self.phase is KillGroup && event == StopEvent::GroupKilled(true)
    }

    /// What is to be done next.
    pub fn next_action(&self) -> (action: StopAction)
        ensures
            action == self.action(),
    {
        match self.phase {
            StopPhase::CheckGroup(pid) => StopAction::ProbeGroup(pid),
            StopPhase::KillGroup(pid) => StopAction::KillGroup(pid),
            StopPhase::SaveGone(_) => StopAction::SaveState,
            StopPhase::SaveStopped => StopAction::SaveState,
            StopPhase::Stopped => StopAction::Succeed,
            StopPhase::Refused(_) => StopAction::Fail,
        }
    }

    /// Takes in what came of the last action, forgets the project in `state`
    /// once its process group is gone, and says what is to be done next.
    pub fn advance(&mut self, event: StopEvent, state: &mut AppState) -> (action: StopAction)
        ensures
            *final(self) == old(self).after(event),
            action == final(self).action(),
            if old(self).forgets(event) {
                final(state).processes@ == without_entry(old(state).processes@, old(self).name@)
            } else {
                *final(state) == *old(state)
            },
    {
        self.phase = match (self.phase, event) {
            (StopPhase::CheckGroup(pid), StopEvent::GroupAlive(alive)) => {
                if alive {
                    StopPhase::KillGroup(pid)
                } else {
                    state.remove(self.name.as_str());
                    StopPhase::SaveGone(pid)
                }
            },
            (StopPhase::KillGroup(_), StopEvent::GroupKilled(ok)) => {
                if ok {
                    state.remove(self.name.as_str());
                    StopPhase::SaveStopped
                } else {
                    StopPhase::Refused(StopFailure::NotKilled)
                }
            },
            (StopPhase::SaveGone(pid), StopEvent::StateSaved(ok)) => {
                if ok {
                    StopPhase::Refused(StopFailure::GroupGone(pid))
                } else {
                    StopPhase::Refused(StopFailure::NotSaved)
                }
            },
            (StopPhase::SaveStopped, StopEvent::StateSaved(ok)) => {
                if ok {
                    StopPhase::Stopped
                } else {
                    StopPhase::Refused(StopFailure::NotSaved)
                }
            },
            (phase, _) => phase,
        };
        self.next_action()
    }

    /// What the user is told of a failure, besides what the machine had to say.
    pub fn failure_message(&self) -> (s: Option<String>)
        ensures
            text_of(s) == stop_failure_text(*self),
    {
        match self.phase {
            StopPhase::Refused(StopFailure::NotRunning) => {
                let mut s = "project '".to_owned();
                s.append(self.name.as_str());
                s.append("' is not running");
                Some(s)
            },
            StopPhase::Refused(StopFailure::GroupGone(pid)) => {
                let mut s = "project '".to_owned();
                s.append(self.name.as_str());
                s.append("' process group (pid ");
                s.append(decimal_text(pid as u64).as_str());
                s.append(") is no longer alive");
                Some(s)
            },
            _ => None,
        }
    }
}

/// What the user is told of a stop that failed. Where the machine failed and
/// nothing is to be added to that, there is nothing to tell.
pub open spec fn stop_failure_text(stop: ProjectStop) -> Option<Seq<char>> {
    match stop.phase {
        StopPhase::Refused(StopFailure::NotRunning) => Some(
            "project '"@ + stop.name@ + "' is not running"@,
        ),
        StopPhase::Refused(StopFailure::GroupGone(pid)) => Some(
            "project '"@ + stop.name@ + "' process group (pid "@ + decimal(pid as nat)
                + ") is no longer alive"@,
        ),
        _ => None,
    }
}

/// Begins to stop a project, if it was started.
pub fn stop_project(name: &str, state: &AppState) -> (stop: ProjectStop)
    ensures
        stop.name@ == name@,
        stop.phase == match lookup(state.processes@, name@) {
            Some(ps) => StopPhase::CheckGroup(ps.pid),
            None => StopPhase::Refused(StopFailure::NotRunning),
        },
{
    let phase = match state.processes.get(name) {
        Some(ps) => StopPhase::CheckGroup(ps.pid),
        None => StopPhase::Refused(StopFailure::NotRunning),
    };
    ProjectStop { name: name.to_owned(), phase }
}

/// The group that the project was recorded with in the course of `events`, if
/// it was recorded.
pub open spec fn recorded_with(start: ProjectStart, events: Seq<StartEvent>) -> Option<u32>
    decreases events.len(),
{
    if events.len() == 0 {
        None
    } else {
        let before = start.run(events.drop_last());
        if before.records(events.last()) {
            Some(before.phase->AwaitReady_0)
        } else {
            recorded_with(start, events.drop_last())
        }
    }
}

/// Whether a log that was opened in the course of `events` is left.
pub open spec fn log_left(start: ProjectStart, events: Seq<StartEvent>) -> bool
    decreases events.len(),
{
    if events.len() == 0 {
        false
    } else {
        let before = start.run(events.drop_last());
        if before.action() is OpenLog && events.last() == StartEvent::LogOpened(true) {
            true
        } else if before.action() is DropLog && events.last() is LogDropped {
            false
        } else {
            log_left(start, events.drop_last())
        }
    }
}

/// Whether what a failure tells of a project that did not become ready came in
/// with `events`.
spec fn told_by(failure: StartFailure, events: Seq<StartEvent>) -> bool {
    failure matches StartFailure::NotReady(why, tail) ==> events.contains(StartEvent::NotReady(why))
        && events.contains(StartEvent::TailRead(tail))
}

/// What must have happened before each phase.
spec fn start_history(start: ProjectStart, dir: String, events: Seq<StartEvent>) -> bool {
    let group = recorded_with(start, events);
    match start.run(events).phase {
        StartPhase::CheckDirectory(d) => d == dir && group is None && !log_left(start, events),
        StartPhase::OpenLog(d) => d == dir && group is None && !log_left(start, events) && events.contains(
            StartEvent::DirectoryExists(true),
        ),
        StartPhase::ShareLog(d) => d == dir && group is None && events.contains(
            StartEvent::DirectoryExists(true),
        ),
        StartPhase::Spawn(d) => d == dir && group is None && events.contains(
            StartEvent::DirectoryExists(true),
        ),
        StartPhase::DropLog(failure) => group is None && told_by(failure, events),
        StartPhase::AwaitReady(pid) => group is None && events.contains(StartEvent::Spawned(pid)),
        StartPhase::ReadTail(failure) => group is None && events.contains(
            StartEvent::NotReady(failure),
        ),
        StartPhase::SaveState(pid) => group == Some(pid) && events.contains(
            StartEvent::Spawned(pid),
        ),
        StartPhase::Started(pid) => group == Some(pid) && events.contains(StartEvent::Spawned(pid))
            && events.contains(StartEvent::StateSaved(true)),
        StartPhase::Refused(failure) => failure is NotSaved || group is None && !log_left(
            start,
            events,
        ) && told_by(failure, events),
    }
}

proof fn lemma_start_history(start: ProjectStart, dir: String, events: Seq<StartEvent>)
    requires
        start.phase == StartPhase::CheckDirectory(dir),
    ensures
        start_history(start, dir, events),
        start.run(events).config == start.config,
    decreases events.len(),
{
    if events.len() > 0 {
        let front = events.drop_last();
        lemma_start_history(start, dir, front);
        lemma_contains_of_front(events);
    }
}

/// A start succeeds only for a project that was spawned, then told to be ready
/// and recorded with its group, and written down.
pub proof fn law_started_means_recorded(
    start: ProjectStart,
    dir: String,
    events: Seq<StartEvent>,
)
    requires
        start.phase == StartPhase::CheckDirectory(dir),
    ensures
        start.run(events).action() matches StartAction::Succeed(pid) ==> {
            &&& events.contains(StartEvent::Spawned(pid))
            &&& recorded_with(start, events) == Some(pid)
            &&& events.contains(StartEvent::StateSaved(true))
        },
{
    lemma_start_history(start, dir, events);
}

/// A start that failed has recorded nothing, unless only the writing down
/// failed.
pub proof fn law_failed_start_records_nothing(
    start: ProjectStart,
    dir: String,
    events: Seq<StartEvent>,
)
    requires
        start.phase == StartPhase::CheckDirectory(dir),
    ensures
        start.run(events).phase matches StartPhase::Refused(failure) ==> failure is NotSaved
            || recorded_with(start, events) is None,
{
    lemma_start_history(start, dir, events);
}

/// The command that is run is the configured one, and the directory that it is
/// run in was found to exist.
pub proof fn law_command_runs_in_its_directory(
    start: ProjectStart,
    dir: String,
    events: Seq<StartEvent>,
)
    requires
        start.phase == StartPhase::CheckDirectory(dir),
    ensures
        start.run(events).action() matches StartAction::Spawn { cmd, dir: d } ==> {
            &&& cmd == start.config.cmd
            &&& d == dir
            &&& events.contains(StartEvent::DirectoryExists(true))
        },
{
    lemma_start_history(start, dir, events);
}

/// A project is called ready only if it has no way to tell, or its probe passed
/// while it was waited for.
pub proof fn law_word_on_readiness_is_earned(
    config: ProjectConfig,
    probe: Probe,
    events: Seq<StartupEvent>,
)
    requires
        probe_of(config) == Some(probe),
    ensures
        ({
            let start = Startup {
                probe,
                timeout_ms: config.startup_timeout_ms,
                phase: StartupPhase::TryWait,
            };
            word_on_readiness(Some(start.run(events))) == Some(StartEvent::BecameReady)
                ==> exists|i: int|
                0 <= i < events.len() && #[trigger] events[i] == StartupEvent::ProbePassed(true)
                    && start.run(events.take(i)).phase is RunProbe
        }),
{
    let start = Startup {
        probe,
        timeout_ms: config.startup_timeout_ms,
        phase: StartupPhase::TryWait,
    };
    law_success_means_ready(start, events);
}

/// A project that did not become ready, for whatever cause, is told of with the
/// last lines of its log, and only after that log was dropped.
pub proof fn law_failed_start_shows_and_drops_its_log(
    start: ProjectStart,
    dir: String,
    events: Seq<StartEvent>,
)
    requires
        start.phase == StartPhase::CheckDirectory(dir),
    ensures
        start.run(events).phase matches StartPhase::Refused(StartFailure::NotReady(failure, tail))
            ==> {
            &&& events.contains(StartEvent::NotReady(failure))
            &&& events.contains(StartEvent::TailRead(tail))
            &&& !log_left(start, events)
            &&& start_failure_text(start.run(events)) == Some(diagnosis(failure, text_of(tail)))
        },
{
    lemma_start_history(start, dir, events);
}

/// A failed start leaves no log, unless only the writing down failed: then the
/// project runs, and writes to its log.
pub proof fn law_failed_start_leaves_no_log(
    start: ProjectStart,
    dir: String,
    events: Seq<StartEvent>,
)
    requires
        start.phase == StartPhase::CheckDirectory(dir),
    ensures
        start.run(events).phase matches StartPhase::Refused(failure) ==> failure is NotSaved
            || !log_left(start, events),
{
    lemma_start_history(start, dir, events);
}

/// Once the log was opened, a start fails only by way of dropping the log, or
/// where only the writing down failed.
pub proof fn law_failure_comes_after_the_log(start: ProjectStart, event: StartEvent)
    requires
        !(start.phase is CheckDirectory || start.phase is OpenLog || start.phase is Refused),
        start.after(event).phase is Refused,
    ensures
        start.action() is DropLog && event is LogDropped || start.after(event).phase
            == StartPhase::Refused(StartFailure::NotSaved),
{
}

/// Every word that a project will not become ready leads to its log being read,
/// and then dropped.
pub proof fn law_log_is_read_before_it_goes(
    start: ProjectStart,
    failure: StartupFailure,
    tail: Option<String>,
)
    requires
        start.phase is AwaitReady,
    ensures
        start.after(StartEvent::NotReady(failure)).action() is ReadTail,
        start.after(StartEvent::NotReady(failure)).after(StartEvent::TailRead(tail)).action()
            is DropLog,
{
}

/// Once the outcome of a start is told it stays.
pub proof fn law_start_outcome_is_final(start: ProjectStart, event: StartEvent)
    requires
        start.action() is Succeed || start.action() is Fail,
    ensures
        start.after(event) == start,
        !start.records(event),
{
}

/// A project that was recorded runs as long as its group is alive, and every
/// other project runs or does not as before.
pub proof fn law_recorded_project_runs(
    before: Seq<(Seq<char>, ProcessState)>,
    after: Seq<(Seq<char>, ProcessState)>,
    name: Seq<char>,
    pid: u32,
    port: Option<u16>,
    live: LiveGroups,
)
    requires
        distinct_names(before),
        recorded(before, after, name, pid, port),
    ensures
        running(after, name, live) == live.alive(pid),
        forall|other: Seq<char>|
            other != name ==> #[trigger] running(after, other, live) == running(
                before,
                other,
                live,
            ),
{
    lemma_with_entry(before, name, lookup(after, name)->0);
}

/// Stopping undoes starting: a project that was not known, was recorded and is
/// forgotten again leaves the state as it was.
pub proof fn law_stop_undoes_start(
    before: Seq<(Seq<char>, ProcessState)>,
    after: Seq<(Seq<char>, ProcessState)>,
    name: Seq<char>,
    pid: u32,
    port: Option<u16>,
)
    requires
        distinct_names(before),
        lookup(before, name) is None,
        recorded(before, after, name, pid, port),
    ensures
        without_entry(after, name) == before,
{
    let ps = lookup(after, name)->0;
    lemma_lookup(before, name);
    lemma_with_entry(before, name, ps);
    lemma_without_entry(after, name);
    lemma_lookup(after, name);
    assert(after == before.push((name, ps)));
    let n = before.len() as int;
    assert(after[n].0 == name);
    assert(after.remove(n) =~= before);
}

/// A project that is forgotten does not run, and every other project runs or
/// does not as before.
pub proof fn law_forgotten_project_does_not_run(
    entries: Seq<(Seq<char>, ProcessState)>,
    name: Seq<char>,
    live: LiveGroups,
)
    requires
        distinct_names(entries),
    ensures
        !running(without_entry(entries, name), name, live),
        forall|other: Seq<char>|
            other != name ==> #[trigger] running(without_entry(entries, name), other, live)
                == running(entries, other, live),
{
    lemma_without_entry(entries, name);
}

/// Whether the project was forgotten in the course of `events`.
pub open spec fn forgotten_during(stop: ProjectStop, events: Seq<StopEvent>) -> bool
    decreases events.len(),
{
    events.len() > 0 && (forgotten_during(stop, events.drop_last()) || stop.run(
        events.drop_last(),
    ).forgets(events.last()))
}

/// What must have happened before each phase.
spec fn stop_history(stop: ProjectStop, pid: u32, events: Seq<StopEvent>) -> bool {
    match stop.run(events).phase {
        StopPhase::CheckGroup(id) => id == pid && !forgotten_during(stop, events),
        StopPhase::KillGroup(id) => id == pid && !forgotten_during(stop, events)
            && events.contains(StopEvent::GroupAlive(true)),
        StopPhase::SaveGone(id) | StopPhase::Refused(StopFailure::GroupGone(id)) => id == pid
            && forgotten_during(stop, events) && events.contains(StopEvent::GroupAlive(false)),
        StopPhase::SaveStopped | StopPhase::Stopped => forgotten_during(stop, events)
            && events.contains(StopEvent::GroupAlive(true)) && events.contains(
            StopEvent::GroupKilled(true),
        ),
        StopPhase::Refused(StopFailure::NotKilled) => !forgotten_during(stop, events),
        StopPhase::Refused(StopFailure::NotSaved) => forgotten_during(stop, events),
        StopPhase::Refused(StopFailure::NotRunning) => false,
    }
}

proof fn lemma_stop_history(stop: ProjectStop, pid: u32, events: Seq<StopEvent>)
    requires
        stop.phase == StopPhase::CheckGroup(pid),
    ensures
        stop_history(stop, pid, events),
    decreases events.len(),
{
    if events.len() > 0 {
        let front = events.drop_last();
        lemma_stop_history(stop, pid, front);
        lemma_contains_of_front(events);
    }
}

/// A stop succeeds only for a project whose group was found alive, then ended,
/// and that was then forgotten.
pub proof fn law_stopped_means_ended(stop: ProjectStop, pid: u32, events: Seq<StopEvent>)
    requires
        stop.phase == StopPhase::CheckGroup(pid),
    ensures
        stop.run(events).action() is Succeed ==> {
            &&& events.contains(StopEvent::GroupAlive(true))
            &&& events.contains(StopEvent::GroupKilled(true))
            &&& forgotten_during(stop, events)
        },
{
    lemma_stop_history(stop, pid, events);
}

/// The group that is ended is the one that the project was recorded with.
pub proof fn law_stop_ends_the_recorded_group(
    stop: ProjectStop,
    pid: u32,
    events: Seq<StopEvent>,
)
    requires
        stop.phase == StopPhase::CheckGroup(pid),
    ensures
        stop.run(events).action() matches StopAction::KillGroup(id) ==> id == pid,
        stop.run(events).action() matches StopAction::ProbeGroup(id) ==> id == pid,
{
    lemma_stop_history(stop, pid, events);
}

/// A project whose group could not be ended stays known, so that it can be
/// stopped later; one whose group was gone already is forgotten all the same.
pub proof fn law_only_gone_groups_are_forgotten(
    stop: ProjectStop,
    pid: u32,
    events: Seq<StopEvent>,
)
    requires
        stop.phase == StopPhase::CheckGroup(pid),
    ensures
        stop.run(events).phase == StopPhase::Refused(StopFailure::NotKilled) ==> !forgotten_during(
            stop,
            events,
        ),
        stop.run(events).phase matches StopPhase::Refused(StopFailure::GroupGone(id)) ==> id == pid
            && forgotten_during(stop, events) && events.contains(StopEvent::GroupAlive(false)),
{
    lemma_stop_history(stop, pid, events);
}

/// Once the outcome of a stop is told it stays.
pub proof fn law_stop_outcome_is_final(stop: ProjectStop, event: StopEvent)
    requires
        stop.action() is Succeed || stop.action() is Fail,
    ensures
        stop.after(event) == stop,
        !stop.forgets(event),
{
}

} // verus!
