//! Waiting until a started project is ready.

use crate::config::ProjectConfig;
use crate::text::{decimal, decimal_text, signed_decimal, signed_decimal_text, text_of};
use vstd::prelude::*;
use vstd::string::*;

verus! {

/// How long to wait between two readiness probes, in nanoseconds.
pub const READINESS_POLL_NANOS: u128 = 250_000_000;

/// How long one readiness probe may take at most, in nanoseconds.
pub const PROBE_TIMEOUT_CAP_NANOS: u128 = 1_000_000_000;

/// How long to wait before asking again whether a readiness command has exited,
/// in nanoseconds.
pub const READY_CMD_PAUSE_NANOS: u128 = 25_000_000;

/// How long a port may take to accept a connection, in nanoseconds.
pub const TCP_CONNECT_TIMEOUT_NANOS: u128 = 250_000_000;

/// How a project tells that it is ready.
#[derive(Debug)]
pub enum Probe {
    /// This shell command exits with 0.
    Exec(String),
    /// This port of the local host takes connections.
    Tcp(u16),
}

/// How the project tells that it is ready: by its own command if it has one,
/// else by its port if it has one, else not at all.
pub open spec fn probe_of(config: ProjectConfig) -> Option<Probe> {
    match (config.ready_cmd, config.port) {
        (Some(cmd), _) => Some(Probe::Exec(cmd)),
        (None, Some(port)) => Some(Probe::Tcp(port)),
        (None, None) => None,
    }
}

/// How the project tells that it is ready.
pub fn readiness_probe(config: &ProjectConfig) -> (probe: Option<Probe>)
    ensures
        probe == probe_of(*config),
{
    match &config.ready_cmd {
        Some(cmd) => Some(Probe::Exec(cmd.clone())),
        None => match config.port {
            Some(port) => Some(Probe::Tcp(port)),
            None => None,
        },
    }
}

/// How a way to tell readiness is shown.
pub open spec fn readiness_text(probe: Option<Probe>) -> Seq<char> {
    match probe {
        Some(Probe::Exec(cmd)) => "exec `"@ + cmd@ + "`"@,
        Some(Probe::Tcp(port)) => "tcp 127.0.0.1:"@ + decimal(port as nat),
        None => "none (spawn only)"@,
    }
}

/// How the project's way to tell readiness is shown.
pub fn describe_readiness(config: &ProjectConfig) -> (s: String)
    ensures
        s@ == readiness_text(probe_of(*config)),
{
    match readiness_probe(config) {
        Some(Probe::Exec(cmd)) => {
            let mut s = "exec `".to_owned();
            s.append(cmd.as_str());
            s.append("`");
            s
        },
        Some(Probe::Tcp(port)) => {
            let mut s = "tcp 127.0.0.1:".to_owned();
            s.append(decimal_text(port as u64).as_str());
            s
        },
        None => "none (spawn only)".to_owned(),
    }
}

/// How far the waiting has come.
#[derive(Debug)]
pub enum StartupPhase {
    /// The first process is to be asked for its exit status.
    TryWait,
    /// The first process exited, with this code if with any: the group is to
    /// be looked for.
    ConfirmExit(Option<i32>),
    /// The group is to be looked for.
    CheckGroup,
    /// The clock is to be read before a probe.
    CheckClock,
    /// The probe is to run, for that many nanoseconds at most.
    RunProbe(u128),
    /// The probe did not pass: the clock is to be read again.
    RecheckClock,
    /// A moment is to pass before the next round.
    Pause,
    /// Time is up: the group is to be looked for.
    ConfirmTimeout,
    /// Time is up and the group is alive: it is to be ended.
    KillGroup,
    /// The project is ready.
    Ready,
    /// The project exited first, its first process with this code if with any.
    Exited(Option<i32>),
    /// Time was up first.
    TimedOut,
    /// The machine failed to answer, for this cause.
    Broken(String),
}

/// The waiting for one project.
#[derive(Debug)]
pub struct Startup {
    pub probe: Probe,
    pub timeout_ms: u64,
    pub phase: StartupPhase,
}

/// What is to be done next.
#[derive(Debug)]
pub enum StartupAction {
    /// Ask for the exit status of the first process, without waiting for it.
    TryWait,
    /// Find out whether the group is alive.
    ProbeGroup,
    /// Read how many nanoseconds have passed since the waiting began.
    ReadClock,
    /// Run the probe, for that many nanoseconds at most.
    RunProbe(u128),
    /// Wait that many nanoseconds.
    Sleep(u128),
    /// End the group, as far as that can be done.
    KillGroup,
    /// Nothing: the project is ready.
    Succeed,
    /// Nothing: the project did not become ready.
    Fail(StartupFailure),
}

/// Why a project did not become ready.
#[derive(Debug)]
pub enum StartupFailure {
    /// It exited first, with this code if with any.
    Exited(Option<i32>),
    /// It took longer than that many milliseconds.
    TimedOut(u64),
    /// Whether it is ready could not be found out, for this cause.
    Broken(String),
}

/// What came of an action.
#[derive(Debug)]
pub enum StartupEvent {
    /// The first process has not exited.
    ChildRunning,
    /// The first process has exited, with this code if with any.
    ChildExited(Option<i32>),
    /// Whether the group is alive.
    GroupAlive(bool),
    /// How many nanoseconds have passed since the waiting began.
    Clock(u128),
    /// Whether the probe passed.
    ProbePassed(bool),
    /// The moment has passed.
    Slept,
    /// The group was ended, as far as that could be done.
    Killed,
    /// The action could not be performed, for this cause.
    Broken(String),
}

/// How long the waiting may take, in nanoseconds.
pub open spec fn timeout_nanos(timeout_ms: u64) -> u128 {
    (timeout_ms * 1_000_000) as u128
}

/// How long a probe may take that starts when `now` nanoseconds have passed:
/// no longer than the time that is left, and no longer than the cap.
pub open spec fn allotted(timeout_ms: u64, now: u128) -> u128 {
    let left = (timeout_nanos(timeout_ms) - now) as u128;
    if left < PROBE_TIMEOUT_CAP_NANOS {
        left
    } else {
        PROBE_TIMEOUT_CAP_NANOS
    }
}

impl Startup {
    /// What is to be done in this phase.
    pub open spec fn action(self) -> StartupAction {
        match self.phase {
            StartupPhase::TryWait => StartupAction::TryWait,
            StartupPhase::ConfirmExit(_) => StartupAction::ProbeGroup,
            StartupPhase::CheckGroup => StartupAction::ProbeGroup,
            StartupPhase::CheckClock => StartupAction::ReadClock,
            StartupPhase::RunProbe(nanos) => StartupAction::RunProbe(nanos),
            StartupPhase::RecheckClock => StartupAction::ReadClock,
            StartupPhase::Pause => StartupAction::Sleep(READINESS_POLL_NANOS),
            StartupPhase::ConfirmTimeout => StartupAction::ProbeGroup,
            StartupPhase::KillGroup => StartupAction::KillGroup,
            StartupPhase::Ready => StartupAction::Succeed,
            StartupPhase::Exited(code) => StartupAction::Fail(StartupFailure::Exited(code)),
            StartupPhase::TimedOut => StartupAction::Fail(StartupFailure::TimedOut(self.timeout_ms)),
            StartupPhase::Broken(cause) => StartupAction::Fail(StartupFailure::Broken(cause)),
        }
    }

    /// The phase that follows when `event` came of the action of this one. An
    /// event that is no answer to the action changes nothing.
    pub open spec fn phase_after(self, event: StartupEvent) -> StartupPhase {
        match (self.phase, event) {
            (StartupPhase::TryWait, StartupEvent::ChildRunning) => StartupPhase::CheckGroup,
            (StartupPhase::TryWait, StartupEvent::ChildExited(code)) => StartupPhase::ConfirmExit(
                code,
            ),
            (StartupPhase::TryWait, StartupEvent::Broken(cause)) => StartupPhase::Broken(cause),
            (StartupPhase::ConfirmExit(code), StartupEvent::GroupAlive(alive)) => if alive {
                StartupPhase::CheckGroup
            } else {
                StartupPhase::Exited(code)
            },
            (StartupPhase::CheckGroup, StartupEvent::GroupAlive(alive)) => if alive {
                StartupPhase::CheckClock
            } else {
                StartupPhase::Exited(None)
            },
            (StartupPhase::CheckClock, StartupEvent::Clock(now)) => if now >= timeout_nanos(
                self.timeout_ms,
            ) {
                StartupPhase::ConfirmTimeout
            } else {
                StartupPhase::RunProbe(allotted(self.timeout_ms, now))
            },
            (StartupPhase::RunProbe(_), StartupEvent::ProbePassed(passed)) => if passed {
                StartupPhase::Ready
            } else {
                StartupPhase::RecheckClock
            },
            (StartupPhase::RunProbe(_), StartupEvent::Broken(cause)) => StartupPhase::Broken(cause),
            (StartupPhase::RecheckClock, StartupEvent::Clock(now)) => if now >= timeout_nanos(
                self.timeout_ms,
            ) {
                StartupPhase::ConfirmTimeout
            } else {
                StartupPhase::Pause
            },
            (StartupPhase::Pause, StartupEvent::Slept) => StartupPhase::TryWait,
            (StartupPhase::ConfirmTimeout, StartupEvent::GroupAlive(alive)) => if alive {
                StartupPhase::KillGroup
            } else {
                StartupPhase::TimedOut
            },
            (StartupPhase::KillGroup, StartupEvent::Killed) => StartupPhase::TimedOut,
            (phase, _) => phase,
        }
    }

    /// The waiting after `event`.
    pub open spec fn after(self, event: StartupEvent) -> Startup {
        Startup { phase: self.phase_after(event), ..self }
    }

    /// The waiting after all of `events`.
    pub open spec fn run(self, events: Seq<StartupEvent>) -> Startup
        decreases events.len(),
    {
        if events.len() == 0 {
            self
        } else {
            self.run(events.drop_last()).after(events.last())
        }
    }

    /// What is to be done next.
    pub fn next_action(&self) -> (action: StartupAction)
        ensures
            action == self.action(),
    {
        match &self.phase {
            StartupPhase::TryWait => StartupAction::TryWait,
            StartupPhase::ConfirmExit(_) => StartupAction::ProbeGroup,
            StartupPhase::CheckGroup => StartupAction::ProbeGroup,
            StartupPhase::CheckClock => StartupAction::ReadClock,
            StartupPhase::RunProbe(nanos) => StartupAction::RunProbe(*nanos),
            StartupPhase::RecheckClock => StartupAction::ReadClock,
            StartupPhase::Pause => StartupAction::Sleep(READINESS_POLL_NANOS),
            StartupPhase::ConfirmTimeout => StartupAction::ProbeGroup,
            StartupPhase::KillGroup => StartupAction::KillGroup,
            StartupPhase::Ready => StartupAction::Succeed,
            StartupPhase::Exited(code) => StartupAction::Fail(StartupFailure::Exited(*code)),
            StartupPhase::TimedOut => StartupAction::Fail(StartupFailure::TimedOut(self.timeout_ms)),
            StartupPhase::Broken(cause) => StartupAction::Fail(
                StartupFailure::Broken(cause.clone()),
            ),
        }
    }

    /// Takes in what came of the last action, and says what is to be done next.
    pub fn advance(&mut self, event: StartupEvent) -> (action: StartupAction)
        ensures
            *final(self) == old(self).after(event),
            action == final(self).action(),
    {
        let timeout: u128 = self.timeout_ms as u128 * 1_000_000;
        let mut phase = StartupPhase::TimedOut;
        std::mem::swap(&mut phase, &mut self.phase);
        self.phase = match (phase, event) {
            (StartupPhase::TryWait, StartupEvent::ChildRunning) => StartupPhase::CheckGroup,
            (StartupPhase::TryWait, StartupEvent::ChildExited(code)) => StartupPhase::ConfirmExit(
                code,
            ),
            (StartupPhase::TryWait, StartupEvent::Broken(cause)) => StartupPhase::Broken(cause),
            (StartupPhase::ConfirmExit(_), StartupEvent::GroupAlive(true)) => StartupPhase::CheckGroup,
            (StartupPhase::ConfirmExit(code), StartupEvent::GroupAlive(false)) => StartupPhase::Exited(
                code,
            ),
            (StartupPhase::CheckGroup, StartupEvent::GroupAlive(true)) => StartupPhase::CheckClock,
            (StartupPhase::CheckGroup, StartupEvent::GroupAlive(false)) => StartupPhase::Exited(None),
            (StartupPhase::CheckClock, StartupEvent::Clock(now)) => {
                if now >= timeout {
                    StartupPhase::ConfirmTimeout
                } else {
                    let left: u128 = timeout - now;
                    if left < PROBE_TIMEOUT_CAP_NANOS {
                        StartupPhase::RunProbe(left)
                    } else {
                        StartupPhase::RunProbe(PROBE_TIMEOUT_CAP_NANOS)
                    }
                }
            },
            (StartupPhase::RunProbe(_), StartupEvent::ProbePassed(true)) => StartupPhase::Ready,
            (StartupPhase::RunProbe(_), StartupEvent::ProbePassed(false)) => StartupPhase::RecheckClock,
            (StartupPhase::RunProbe(_), StartupEvent::Broken(cause)) => StartupPhase::Broken(cause),
            (StartupPhase::RecheckClock, StartupEvent::Clock(now)) => {
                if now >= timeout {
                    StartupPhase::ConfirmTimeout
                } else {
                    StartupPhase::Pause
                }
            },
            (StartupPhase::Pause, StartupEvent::Slept) => StartupPhase::TryWait,
            (StartupPhase::ConfirmTimeout, StartupEvent::GroupAlive(true)) => StartupPhase::KillGroup,
            (StartupPhase::ConfirmTimeout, StartupEvent::GroupAlive(false)) => StartupPhase::TimedOut,
            (StartupPhase::KillGroup, StartupEvent::Killed) => StartupPhase::TimedOut,
            (phase, _) => phase,
        };
        self.next_action()
    }
}

/// Begins to wait for a project; there is nothing to wait for where the
/// project has no way to tell that it is ready.
pub fn wait_for_startup(config: &ProjectConfig) -> (w: Option<Startup>)
    ensures
        w == match probe_of(*config) {
            Some(probe) => Some(
                Startup {
                    probe,
                    timeout_ms: config.startup_timeout_ms,
                    phase: StartupPhase::TryWait,
                },
            ),
            None => None,
        },
{
    match readiness_probe(config) {
        Some(probe) => Some(
            Startup {
                probe,
                timeout_ms: config.startup_timeout_ms,
                phase: StartupPhase::TryWait,
            },
        ),
        None => None,
    }
}

/// How the exit code of a process is shown, if it left one.
pub open spec fn exit_status_text(code: Option<i32>) -> Seq<char> {
    match code {
        Some(c) => " (code "@ + signed_decimal(c as int) + ")"@,
        None => seq![],
    }
}

/// How the exit code of a process is shown, if it left one.
pub fn format_exit_status(code: Option<i32>) -> (s: String)
    ensures
        s@ == exit_status_text(code),
{
    match code {
        Some(c) => {
            let mut s = " (code ".to_owned();
            s.append(signed_decimal_text(c).as_str());
            s.append(")");
            s
        },
        None => String::new(),
    }
}

/// What the user is told of a project that did not become ready.
pub open spec fn failure_text(failure: StartupFailure) -> Seq<char> {
    match failure {
        StartupFailure::Exited(code) => "project exited before becoming ready"@ + exit_status_text(
            code,
        ),
        StartupFailure::TimedOut(ms) => "startup timed out after "@ + decimal(ms as nat) + "ms"@,
        StartupFailure::Broken(cause) => cause@,
    }
}

/// What the user is told of a project that did not become ready, with the last
/// lines of its log if there are any.
pub open spec fn diagnosis(failure: StartupFailure, tail: Option<Seq<char>>) -> Seq<char> {
    match tail {
        Some(t) => failure_text(failure) + "\n\nLast log lines:\n"@ + t,
        None => failure_text(failure),
    }
}

/// What the user is told of a project that did not become ready, with the last
/// lines of its log if there are any.
pub fn startup_failure(failure: &StartupFailure, tail: &Option<String>) -> (s: String)
    ensures
        s@ == diagnosis(*failure, text_of(*tail)),
{
    let mut s = match failure {
        StartupFailure::Exited(code) => {
            let mut m = "project exited before becoming ready".to_owned();
            m.append(format_exit_status(*code).as_str());
            m
        },
        StartupFailure::TimedOut(ms) => {
            let mut m = "startup timed out after ".to_owned();
            m.append(decimal_text(*ms).as_str());
            m.append("ms");
            m
        },
        StartupFailure::Broken(cause) => cause.clone(),
    };
    match tail {
        Some(t) => {
            s.append("\n\nLast log lines:\n");
            s.append(t.as_str());
            s
        },
        None => s,
    }
}

/// What to do about a child process that is waited for only so long.
#[derive(Debug, Clone, Copy, PartialEq, Eq, Structural)]
pub enum Poll {
    /// It has exited: its status is there.
    Exited,
    /// Time is up.
    GiveUp,
    /// Ask again after a moment.
    Again,
}

/// What to do about a child process that is waited for `timeout` nanoseconds,
/// of which `elapsed` have passed. An exit counts even when time is up.
pub fn wait_timeout(exited: bool, elapsed: u128, timeout: u128) -> (poll: Poll)
    ensures
        poll == if exited {
            Poll::Exited
        } else if elapsed >= timeout {
            Poll::GiveUp
        } else {
            Poll::Again
        },
{
    if exited {
        Poll::Exited
    } else if elapsed >= timeout {
        Poll::GiveUp
    } else {
        Poll::Again
    }
}

/// Whether a readiness command passed: it exited in time, and with success.
/// One that did not exit in time is to be ended.
pub fn exec_readiness_probe(success: Option<bool>) -> (passed: bool)
    ensures
        passed == (success == Some(true)),
{
    match success {
        Some(s) => s,
        None => false,
    }
}

/// Whether a clock was read at `limit` nanoseconds or later.
pub open spec fn clock_past(event: StartupEvent, limit: u128) -> bool {
    event matches StartupEvent::Clock(now) && now >= limit
}

/// Whether a clock was read before the timeout, and leaves this much for a probe.
pub open spec fn clock_allots(event: StartupEvent, timeout_ms: u64, nanos: u128) -> bool {
    event matches StartupEvent::Clock(now) && now < timeout_nanos(timeout_ms) && nanos == allotted(
        timeout_ms,
        now,
    )
}

/// What must have happened before each phase.
pub open spec fn startup_history(start: Startup, events: Seq<StartupEvent>) -> bool {
    let limit = timeout_nanos(start.timeout_ms);
    match start.run(events).phase {
        StartupPhase::Ready => exists|i: int|
            0 <= i < events.len() && #[trigger] events[i] == StartupEvent::ProbePassed(true)
                && start.run(events.take(i)).phase is RunProbe,
        StartupPhase::ConfirmExit(code) => exists|i: int|
            0 <= i < events.len() && #[trigger] events[i] == StartupEvent::ChildExited(code),
        StartupPhase::Exited(code) => {
            &&& exists|i: int|
                0 <= i < events.len() && #[trigger] events[i] == StartupEvent::GroupAlive(false)
            &&& code is Some ==> exists|i: int|
                0 <= i < events.len() && #[trigger] events[i] == StartupEvent::ChildExited(code)
        },
        StartupPhase::RunProbe(nanos) => exists|i: int|
            0 <= i < events.len() && clock_allots(#[trigger] events[i], start.timeout_ms, nanos),
        StartupPhase::ConfirmTimeout | StartupPhase::KillGroup | StartupPhase::TimedOut => exists|
            i: int,
        |
            0 <= i < events.len() && clock_past(#[trigger] events[i], limit),
        StartupPhase::Broken(cause) => exists|i: int|
            0 <= i < events.len() && #[trigger] events[i] == StartupEvent::Broken(cause),
        _ => true,
    }
}

proof fn lemma_startup_history(start: Startup, events: Seq<StartupEvent>)
    requires
        start.phase is TryWait,
    ensures
        startup_history(start, events),
        start.run(events).timeout_ms == start.timeout_ms,
    decreases events.len(),
{
    if events.len() > 0 {
        let front = events.drop_last();
        let n = events.len() - 1;
        lemma_startup_history(start, front);
        assert(events[n] == events.last());
        assert(events.take(n) =~= front);
        assert forall|i: int| 0 <= i < n implies #[trigger] events[i] == front[i] && events.take(i)
            == front.take(i) by {
            assert(events.take(i) =~= front.take(i));
        }
    }
}

/// A start succeeds only when the project told that it is ready: where there is
/// something to wait for, the probe passed.
pub proof fn law_success_means_ready(start: Startup, events: Seq<StartupEvent>)
    requires
        start.phase is TryWait,
    ensures
        start.run(events).action() is Succeed ==> exists|i: int|
            0 <= i < events.len() && #[trigger] events[i] == StartupEvent::ProbePassed(true)
                && start.run(events.take(i)).phase is RunProbe,
{
    lemma_startup_history(start, events);
}

/// A start fails with an exit only when the group was found dead, and tells an
/// exit code only when the first process left that code.
pub proof fn law_exit_was_seen(start: Startup, events: Seq<StartupEvent>)
    requires
        start.phase is TryWait,
    ensures
        start.run(events).action() matches StartupAction::Fail(StartupFailure::Exited(code)) ==> {
            &&& exists|i: int|
                0 <= i < events.len() && #[trigger] events[i] == StartupEvent::GroupAlive(false)
            &&& code is Some ==> exists|i: int|
                0 <= i < events.len() && #[trigger] events[i] == StartupEvent::ChildExited(code)
        },
{
    lemma_startup_history(start, events);
}

/// A start times out only when the configured time has passed, and tells that
/// time.
pub proof fn law_timeout_was_seen(start: Startup, events: Seq<StartupEvent>)
    requires
        start.phase is TryWait,
    ensures
        start.run(events).action() matches StartupAction::Fail(StartupFailure::TimedOut(ms)) ==> ms
            == start.timeout_ms && exists|i: int|
            0 <= i < events.len() && clock_past(
                #[trigger] events[i],
                timeout_nanos(start.timeout_ms),
            ),
{
    lemma_startup_history(start, events);
}

/// A start fails for want of an answer only when the machine failed to answer,
/// and tells its cause.
pub proof fn law_breakage_was_seen(start: Startup, events: Seq<StartupEvent>)
    requires
        start.phase is TryWait,
    ensures
        start.run(events).action() matches StartupAction::Fail(StartupFailure::Broken(cause))
            ==> exists|i: int|
            0 <= i < events.len() && #[trigger] events[i] == StartupEvent::Broken(cause),
{
    lemma_startup_history(start, events);
}

/// No probe may take longer than the time that was left when it was begun, nor
/// longer than the cap: a readiness command that hangs does not hold up the
/// timeout.
pub proof fn law_probe_keeps_the_deadline(start: Startup, events: Seq<StartupEvent>)
    requires
        start.phase is TryWait,
    ensures
        start.run(events).action() matches StartupAction::RunProbe(nanos) ==> {
            &&& 0 < nanos <= PROBE_TIMEOUT_CAP_NANOS
            &&& exists|i: int|
                0 <= i < events.len() && clock_allots(#[trigger] events[i], start.timeout_ms, nanos)
        },
{
    lemma_startup_history(start, events);
    if let StartupPhase::RunProbe(nanos) = start.run(events).phase {
        let i = choose|i: int|
            0 <= i < events.len() && clock_allots(#[trigger] events[i], start.timeout_ms, nanos);
        assert(clock_allots(events[i], start.timeout_ms, nanos));
    }
}

/// The timeout is an upper bound: once the clock has shown it, the project can
/// no longer become ready, and no more probes run.
pub proof fn law_timeout_is_an_upper_bound(w: Startup, events: Seq<StartupEvent>)
    requires
        w.phase is ConfirmTimeout || w.phase is KillGroup || w.phase is TimedOut,
    ensures
        ({
            let end = w.run(events);
            end.phase is ConfirmTimeout || end.phase is KillGroup || end.phase is TimedOut
        }),
    decreases events.len(),
{
    if events.len() > 0 {
        law_timeout_is_an_upper_bound(w, events.drop_last());
    }
}

/// A clock that shows the timeout ends the waiting, wherever the clock is read.
pub proof fn law_clock_ends_the_waiting(w: Startup, now: u128)
    requires
        w.action() is ReadClock,
        now >= timeout_nanos(w.timeout_ms),
    ensures
        w.after(StartupEvent::Clock(now)).phase is ConfirmTimeout,
{
}

/// A project that times out is not left running: before the failure is told,
/// its group was found dead or was ended.
pub proof fn law_timeout_leaves_nothing_running(w: Startup, event: StartupEvent)
    requires
        !(w.phase is TimedOut),
        w.after(event).phase is TimedOut,
    ensures
        w.action() is ProbeGroup && event == StartupEvent::GroupAlive(false) || w.action()
            is KillGroup && event == StartupEvent::Killed,
{
}

/// Once the outcome is told it stays.
pub proof fn law_outcome_is_final(w: Startup, event: StartupEvent)
    requires
        w.action() is Succeed || w.action() is Fail,
    ensures
        w.after(event) == w,
{
}

/// A project's own command goes before its port, and where it has neither
/// there is nothing to wait for.
pub proof fn law_own_command_goes_first(config: ProjectConfig)
    ensures
        config.ready_cmd matches Some(cmd) ==> probe_of(config) == Some(Probe::Exec(cmd)),
        config.ready_cmd is None && config.port is Some ==> probe_of(config) == Some(
            Probe::Tcp(config.port->0),
        ),
        probe_of(config) is None <==> config.ready_cmd is None && config.port is None,
{
}

} // verus!
