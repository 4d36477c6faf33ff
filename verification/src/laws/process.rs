//! How a project is started and stopped, and what the state then knows of it.

use crate::config::ProjectConfig;
use crate::laws::names::{law_filing_touches_one_entry, no_name_twice, stands_in};
use crate::laws::text::{law_numerals_are_the_only_ones, numeral_of};
use crate::names::lookup;
use crate::process::{
    recorded, start_failure_text, stop_failure_text, word_on_readiness, ProjectStart, ProjectStop,
    StartAction, StartEvent, StartFailure, StartPhase, StopAction, StopEvent, StopFailure,
    StopPhase,
};
use crate::startup::{diagnosis, Startup, StartupAction, StartupFailure};
use crate::state::ProcessState;
use vstd::prelude::*;

verus! {

/// A start that goes well, step by step: the directory is looked for, the log
/// opened and shared, the configured command run in that directory, and the
/// group that it got is waited for, saved and given back.
pub proof fn law_start_goes_step_by_step(
    name: String,
    config: ProjectConfig,
    dir: String,
    pid: u32,
)
    ensures
        ({
            let start = ProjectStart { name, config, phase: StartPhase::CheckDirectory(dir) };
            let there = start.after(StartEvent::DirectoryExists(true));
            let logged = there.after(StartEvent::LogOpened(true));
            let shared = logged.after(StartEvent::LogShared(true));
            let up = shared.after(StartEvent::Spawned(pid));
            let ready = up.after(StartEvent::BecameReady);
            &&& start.action() == StartAction::CheckDirectory(dir)
            &&& there.action() == StartAction::OpenLog
            &&& logged.action() == StartAction::ShareLog
            &&& shared.action() == StartAction::Spawn { cmd: config.cmd, dir }
            &&& up.action() == StartAction::AwaitReady(pid)
            &&& ready.action() == StartAction::SaveState
            &&& ready.after(StartEvent::StateSaved(true)).action() == StartAction::Succeed(pid)
        }),
{
}

/// How each step of a start fails: the reason is kept, and from the opening of
/// the log on the log is dropped first, unless the project runs.
pub proof fn law_start_fails_step_by_step(
    name: String,
    config: ProjectConfig,
    dir: String,
    pid: u32,
    failure: StartupFailure,
    tail: Option<String>,
)
    ensures
        ({
            let start = ProjectStart { name, config, phase: StartPhase::CheckDirectory(dir) };
            let there = start.after(StartEvent::DirectoryExists(true));
            let logged = there.after(StartEvent::LogOpened(true));
            let unshared = logged.after(StartEvent::LogShared(false));
            let shared = logged.after(StartEvent::LogShared(true));
            let unspawned = shared.after(StartEvent::NotSpawned);
            let up = shared.after(StartEvent::Spawned(pid));
            let unready = up.after(StartEvent::NotReady(failure));
            let told = unready.after(StartEvent::TailRead(tail));
            let ready = up.after(StartEvent::BecameReady);
            &&& start.after(StartEvent::DirectoryExists(false)).phase == StartPhase::Refused(
                StartFailure::NoDirectory(dir),
            )
            &&& there.after(StartEvent::LogOpened(false)).phase == StartPhase::Refused(
                StartFailure::LogNotOpened,
            )
            &&& unshared.action() == StartAction::DropLog
            &&& unshared.after(StartEvent::LogDropped).phase == StartPhase::Refused(
                StartFailure::LogNotShared,
            )
            &&& unspawned.action() == StartAction::DropLog
            &&& unspawned.after(StartEvent::LogDropped).phase == StartPhase::Refused(
                StartFailure::NotSpawned(dir),
            )
            &&& unready.action() == StartAction::ReadTail
            &&& told.action() == StartAction::DropLog
            &&& told.after(StartEvent::LogDropped).phase == StartPhase::Refused(
                StartFailure::NotReady(failure, tail),
            )
            &&& ready.after(StartEvent::StateSaved(false)).phase == StartPhase::Refused(
                StartFailure::NotSaved,
            )
        }),
{
}

/// Only an answer to what was asked moves a start on; the project stays the
/// same; and it is recorded exactly at the word that it is ready, with the group
/// that was waited for. A refused start is a failure.
pub proof fn law_only_answers_move_a_start_on(start: ProjectStart, event: StartEvent)
    ensures
        start.after(event).name == start.name,
        start.after(event).config == start.config,
        start.after(event) != start ==> match start.action() {
            StartAction::CheckDirectory(_) => event is DirectoryExists,
            StartAction::OpenLog => event is LogOpened,
            StartAction::ShareLog => event is LogShared,
            StartAction::Spawn { .. } => event is Spawned || event is NotSpawned,
            StartAction::DropLog => event is LogDropped,
            StartAction::AwaitReady(_) => event is BecameReady || event is NotReady,
            StartAction::ReadTail => event is TailRead,
            StartAction::SaveState => event is StateSaved,
            _ => false,
        },
        start.records(event) <==> start.action() is AwaitReady && event is BecameReady,
        start.action() matches StartAction::AwaitReady(pid) ==> start.phase->AwaitReady_0 == pid,
        start.phase is Refused <==> start.action() is Fail,
{
}

/// What the state knows of a project that was recorded: its group and its port,
/// in the place of what it knew or at the end; of the others, what it knew.
pub proof fn law_recorded_project_is_known(
    before: Seq<(Seq<char>, ProcessState)>,
    after: Seq<(Seq<char>, ProcessState)>,
    name: Seq<char>,
    pid: u32,
    port: Option<u16>,
)
    requires
        no_name_twice(before),
        recorded(before, after, name, pid, port),
    ensures
        lookup(after, name) matches Some(ps) && ps.pid == pid && ps.port == port
            && ps.started_at.secs >= 0 && ps.started_at.nanos < 1_000_000_000,
        !stands_in(before, name) ==> after == before.push((name, lookup(after, name)->0)),
        forall|k: int|
            0 <= k < before.len() && (#[trigger] before[k]).0 == name ==> after == before.update(
                k,
                (name, lookup(after, name)->0),
            ),
{
    law_filing_touches_one_entry(before, name, lookup(after, name)->0);
}

/// What the user is told of a start that failed, by the reason alone.
pub proof fn law_failed_starts_are_told(
    start: ProjectStart,
    pid: u32,
    n: Seq<char>,
    dir: String,
    failure: StartupFailure,
    tail: Option<String>,
)
    requires
        numeral_of(n, pid as nat),
    ensures
        ({
            let told = |reason: StartFailure|
                start_failure_text(ProjectStart { phase: StartPhase::Refused(reason), ..start });
            &&& told(StartFailure::AlreadyRunning(pid)) == Some(
                "project '"@ + start.name@ + "' is already running (pid "@ + n + ")"@,
            )
            &&& told(StartFailure::NoDirectory(dir)) == Some(
                "project directory '"@ + dir@ + "' does not exist"@,
            )
            &&& told(StartFailure::LogNotOpened) is None
            &&& told(StartFailure::LogNotShared) == Some(
                "failed to clone log handle for project '"@ + start.name@ + "'"@,
            )
            &&& told(StartFailure::NotSpawned(dir)) == Some(
                "failed to start command '"@ + start.config.cmd@ + "' in "@ + dir@,
            )
            &&& told(StartFailure::NotReady(failure, tail)) == Some(
                diagnosis(
                    failure,
                    match tail {
                        Some(s) => Some(s@),
                        None => None,
                    },
                ),
            )
            &&& told(StartFailure::NotSaved) is None
        }),
{
    law_numerals_are_the_only_ones(n, pid as nat);
}

/// The word on readiness is what the waiting came to: success, or its failure,
/// and none before; a project that nothing is waited for is ready.
pub proof fn law_word_is_what_the_waiting_came_to(w: Startup)
    ensures
        word_on_readiness(None) == Some(StartEvent::BecameReady),
        word_on_readiness(Some(w)) == Some(StartEvent::BecameReady) <==> w.action()
            == StartupAction::Succeed,
        w.action() matches StartupAction::Fail(failure) ==> word_on_readiness(Some(w)) == Some(
            StartEvent::NotReady(failure),
        ),
        word_on_readiness(Some(w)) is Some ==> w.action() is Succeed || w.action() is Fail,
{
}

/// A stop, step by step: the group that the project was recorded with is looked
/// for and ended, and the project is saved as gone. A group that is gone already
/// is saved as gone too, and told.
pub proof fn law_stop_goes_step_by_step(name: String, pid: u32)
    ensures
        ({
            let stop = ProjectStop { name, phase: StopPhase::CheckGroup(pid) };
            let alive = stop.after(StopEvent::GroupAlive(true));
            let gone = stop.after(StopEvent::GroupAlive(false));
            let ended = alive.after(StopEvent::GroupKilled(true));
            &&& stop.action() == StopAction::ProbeGroup(pid)
            &&& alive.action() == StopAction::KillGroup(pid)
            &&& alive.after(StopEvent::GroupKilled(false)).phase == StopPhase::Refused(
                StopFailure::NotKilled,
            )
            &&& ended.action() == StopAction::SaveState
            &&& ended.after(StopEvent::StateSaved(true)).action() == StopAction::Succeed
            &&& ended.after(StopEvent::StateSaved(false)).phase == StopPhase::Refused(
                StopFailure::NotSaved,
            )
            &&& gone.action() == StopAction::SaveState
            &&& gone.after(StopEvent::StateSaved(true)).phase == StopPhase::Refused(
                StopFailure::GroupGone(pid),
            )
            &&& gone.after(StopEvent::StateSaved(false)).phase == StopPhase::Refused(
                StopFailure::NotSaved,
            )
        }),
{
}

/// Only an answer to what was asked moves a stop on, and the project is
/// forgotten exactly when its group was found gone or was ended.
pub proof fn law_only_answers_move_a_stop_on(stop: ProjectStop, event: StopEvent)
    ensures
        stop.after(event).name == stop.name,
        stop.after(event) != stop ==> match stop.action() {
            StopAction::ProbeGroup(_) => event is GroupAlive,
            StopAction::KillGroup(_) => event is GroupKilled,
            StopAction::SaveState => event is StateSaved,
            _ => false,
        },
        stop.forgets(event) <==> {
            ||| stop.action() is ProbeGroup && event == StopEvent::GroupAlive(false)
            ||| stop.action() is KillGroup && event == StopEvent::GroupKilled(true)
        },
        stop.phase is Refused <==> stop.action() is Fail,
{
}

/// What the user is told of a stop that failed, by the reason alone.
pub proof fn law_failed_stops_are_told(name: String, pid: u32, n: Seq<char>)
    requires
        numeral_of(n, pid as nat),
    ensures
        ({
            let told = |reason: StopFailure|
                stop_failure_text(ProjectStop { name, phase: StopPhase::Refused(reason) });
            &&& told(StopFailure::NotRunning) == Some("project '"@ + name@ + "' is not running"@)
            &&& told(StopFailure::GroupGone(pid)) == Some(
                "project '"@ + name@ + "' process group (pid "@ + n + ") is no longer alive"@,
            )
            &&& told(StopFailure::NotKilled) is None
            &&& told(StopFailure::NotSaved) is None
        }),
{
    law_numerals_are_the_only_ones(n, pid as nat);
}

} // verus!
