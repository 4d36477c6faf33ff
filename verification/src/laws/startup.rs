//! How long a project is waited for, and what is told of it.

use crate::config::ProjectConfig;
use crate::laws::text::{
    law_numerals_are_the_only_ones, law_signs_go_in_front, numeral_of,
};
use crate::startup::{
    diagnosis, exit_status_text, failure_text, probe_of, readiness_text, Probe, Startup,
    StartupAction, StartupEvent, StartupFailure, StartupPhase, READY_CMD_PAUSE_NANOS,
    TCP_CONNECT_TIMEOUT_NANOS,
};
use crate::text::signed_decimal;
use vstd::prelude::*;

verus! {

/// Where the clock is read, the waiting ends by timeout exactly if as many
/// milliseconds have passed as the project is given. Before a probe, what is
/// left of them, but no more than a second, is what the probe may take; after
/// one, the next round begins in a quarter of a second.
pub proof fn law_project_gets_all_its_time(w: Startup, now: u128)
    requires
        w.action() is ReadClock,
    ensures
        w.after(StartupEvent::Clock(now)).phase is ConfirmTimeout <==> now as int
            >= w.timeout_ms as int * 1_000_000,
        (now as int) < w.timeout_ms as int * 1_000_000 && w.phase is CheckClock ==> w.after(
            StartupEvent::Clock(now),
        ).action() == StartupAction::RunProbe(
            if w.timeout_ms as int * 1_000_000 - now <= 1_000_000_000 {
                (w.timeout_ms as int * 1_000_000 - now) as u128
            } else {
                1_000_000_000
            },
        ),
        (now as int) < w.timeout_ms as int * 1_000_000 && !(w.phase is CheckClock) ==> w.after(
            StartupEvent::Clock(now),
        ).action() == StartupAction::Sleep(250_000_000),
{
}

/// One round of the waiting: the first process is asked for and its group looked
/// for, the clock is read, the probe runs; and if it does not pass in time, all
/// begins anew where it began.
pub proof fn law_round_of_waiting(
    probe: Probe,
    timeout_ms: u64,
    code: Option<i32>,
    now: u128,
    later: u128,
)
    requires
        (now as int) < timeout_ms as int * 1_000_000,
        (later as int) < timeout_ms as int * 1_000_000,
    ensures
        ({
            let start = Startup { probe, timeout_ms, phase: StartupPhase::TryWait };
            let running = start.after(StartupEvent::ChildRunning);
            let exited = start.after(StartupEvent::ChildExited(code));
            let clock = running.after(StartupEvent::GroupAlive(true));
            let probing = clock.after(StartupEvent::Clock(now));
            let failed = probing.after(StartupEvent::ProbePassed(false));
            let pause = failed.after(StartupEvent::Clock(later));
            &&& start.action() == StartupAction::TryWait
            &&& running.action() == StartupAction::ProbeGroup
            &&& exited.action() == StartupAction::ProbeGroup
            &&& exited.after(StartupEvent::GroupAlive(true)) == running
            &&& exited.after(StartupEvent::GroupAlive(false)).action() == StartupAction::Fail(
                StartupFailure::Exited(code),
            )
            &&& running.after(StartupEvent::GroupAlive(false)).action() == StartupAction::Fail(
                StartupFailure::Exited(None),
            )
            &&& clock.action() == StartupAction::ReadClock
            &&& clock.phase is CheckClock
            &&& probing.action() is RunProbe
            &&& probing.after(StartupEvent::ProbePassed(true)).action() == StartupAction::Succeed
            &&& failed.action() == StartupAction::ReadClock
            &&& !(failed.phase is CheckClock)
            &&& pause.action() == StartupAction::Sleep(250_000_000)
            &&& pause.after(StartupEvent::Slept) == start
        }),
{
}

/// A project whose time is up is looked for and, if it is alive, ended; then it
/// is told how long it was given.
pub proof fn law_late_project_is_ended(w: Startup, now: u128)
    requires
        w.action() is ReadClock,
        now as int >= w.timeout_ms as int * 1_000_000,
    ensures
        ({
            let late = w.after(StartupEvent::Clock(now));
            let alive = late.after(StartupEvent::GroupAlive(true));
            let told = StartupAction::Fail(StartupFailure::TimedOut(w.timeout_ms));
            &&& late.action() == StartupAction::ProbeGroup
            &&& late.after(StartupEvent::GroupAlive(false)).action() == told
            &&& alive.action() == StartupAction::KillGroup
            &&& alive.after(StartupEvent::Killed).action() == told
        }),
{
}

/// A process that cannot be asked for, or a probe that cannot be run, ends the
/// waiting, and its cause is told.
pub proof fn law_broken_machine_is_told(w: Startup, cause: String)
    requires
        w.action() is TryWait || w.action() is RunProbe,
    ensures
        w.after(StartupEvent::Broken(cause)).action() == StartupAction::Fail(
            StartupFailure::Broken(cause),
        ),
{
}

/// Only an answer to what was asked moves the waiting on, and nothing changes
/// what is probed or how long it may take.
pub proof fn law_only_answers_move_the_waiting_on(w: Startup, event: StartupEvent)
    ensures
        w.after(event).probe == w.probe,
        w.after(event).timeout_ms == w.timeout_ms,
        w.after(event) != w ==> match w.action() {
            StartupAction::TryWait => event is ChildRunning || event is ChildExited || event
                is Broken,
            StartupAction::ProbeGroup => event is GroupAlive,
            StartupAction::ReadClock => event is Clock,
            StartupAction::RunProbe(_) => event is ProbePassed || event is Broken,
            StartupAction::Sleep(_) => event is Slept,
            StartupAction::KillGroup => event is Killed,
            _ => false,
        },
{
}

/// How readiness is told is shown by the command or the port that tells it; the
/// command goes first.
pub proof fn law_readiness_is_shown(config: ProjectConfig, n: Seq<char>)
    requires
        config.port matches Some(port) ==> numeral_of(n, port as nat),
    ensures
        readiness_text(probe_of(config)) == match (config.ready_cmd, config.port) {
            (Some(cmd), _) => "exec `"@ + cmd@ + "`"@,
            (None, Some(_)) => "tcp 127.0.0.1:"@ + n,
            (None, None) => "none (spawn only)"@,
        },
        config.ready_cmd matches Some(cmd) ==> probe_of(config) == Some(Probe::Exec(cmd)),
        config.ready_cmd is None ==> match config.port {
            Some(port) => probe_of(config) == Some(Probe::Tcp(port)),
            None => probe_of(config) is None,
        },
{
    if let Some(port) = config.port {
        law_numerals_are_the_only_ones(n, port as nat);
    }
}

/// An exit code is shown as its numeral, with its sign, and no code not at all.
pub proof fn law_exit_codes_are_shown(code: i32, n: Seq<char>)
    requires
        numeral_of(
            n,
            if code < 0 {
                -(code as int)
            } else {
                code as int
            } as nat,
        ),
    ensures
        code >= 0 ==> exit_status_text(Some(code)) == " (code "@ + n + ")"@,
        code < 0 ==> exit_status_text(Some(code)) == " (code "@ + (seq!['-'] + n) + ")"@,
        exit_status_text(None) == Seq::<char>::empty(),
{
    law_signs_go_in_front(code as int);
    if code < 0 {
        let s = signed_decimal(code as int);
        law_numerals_are_the_only_ones(n, (-(code as int)) as nat);
        law_numerals_are_the_only_ones(s.skip(1), (-(code as int)) as nat);
        assert(s =~= seq!['-'] + n);
    } else {
        law_numerals_are_the_only_ones(n, code as nat);
        law_numerals_are_the_only_ones(signed_decimal(code as int), code as nat);
    }
}

/// A failure is told with its number or its cause, and all of the log's tail
/// stands behind it.
pub proof fn law_failures_are_told(
    code: Option<i32>,
    ms: u64,
    n: Seq<char>,
    cause: String,
    failure: StartupFailure,
    tail: Seq<char>,
)
    requires
        numeral_of(n, ms as nat),
    ensures
        failure_text(StartupFailure::Exited(code)) == "project exited before becoming ready"@
            + exit_status_text(code),
        failure_text(StartupFailure::TimedOut(ms)) == "startup timed out after "@ + n + "ms"@,
        failure_text(StartupFailure::Broken(cause)) == cause@,
        diagnosis(failure, None) == failure_text(failure),
        diagnosis(failure, Some(tail)) == failure_text(failure) + "\n\nLast log lines:\n"@ + tail,
{
    law_numerals_are_the_only_ones(n, ms as nat);
}

/// A readiness command is asked for every 25 milliseconds, and a port has 250 to
/// take a connection.
pub proof fn law_probe_times()
    ensures
        READY_CMD_PAUSE_NANOS == 25 * 1_000_000,
        TCP_CONNECT_TIMEOUT_NANOS == 250 * 1_000_000,
{
}

} // verus!
