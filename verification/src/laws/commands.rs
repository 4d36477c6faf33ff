//! What the commands say, column by column, and what they do, step by step.

use crate::commands::{
    list_table, status_table, warning_text, Housekeeping, RunEvent, RunPhase,
    StartCommand, StartCommandEvent, StartCommandPhase, StopCommand, StopCommandEvent,
    StopCommandPhase, Trouble,
};
use crate::config::ProjectConfig;
use crate::laws::names::{law_entries_are_found, no_name_twice, stands_in};
use crate::laws::state::{
    found, law_pruning_goes_by_what_was_found, law_running_is_started_and_alive,
};
use crate::laws::text::{
    fills, law_columns_are_filled, law_numerals_are_the_only_ones, numeral_of,
};
use crate::names::names_of;
use crate::startup::{probe_of, readiness_text};
use crate::state::{entry_alive, entry_dead, LiveGroups, ProcessState};
use vstd::prelude::*;

verus! {

/// The four columns of a row, and a space between each two.
pub open spec fn side_by_side(a: Seq<char>, b: Seq<char>, c: Seq<char>, d: Seq<char>) -> Seq<char> {
    a + " "@ + b + " "@ + c + " "@ + d
}

/// The list has a row for each project, in order, below one for the headings:
/// its name, its path, its port if it has one, and its command, none cut off.
pub proof fn law_list_shows_every_project(
    projects: Seq<(Seq<char>, ProjectConfig)>,
    i: int,
    n: Seq<char>,
    a: Seq<char>,
    b: Seq<char>,
    c: Seq<char>,
)
    requires
        0 <= i < projects.len(),
        match projects[i].1.port {
            Some(port) => numeral_of(n, port as nat),
            None => n == "-"@,
        },
        fills(a, projects[i].0, 20),
        fills(b, projects[i].1.path@, 40),
        fills(c, n, 10),
    ensures
        list_table(projects).len() == projects.len() + 1,
        list_table(projects)[i + 1] == side_by_side(a, b, c, projects[i].1.cmd@),
{
    if let Some(port) = projects[i].1.port {
        law_numerals_are_the_only_ones(n, port as nat);
    }
    law_columns_are_filled(projects[i].0, 20);
    law_columns_are_filled(projects[i].1.path@, 40);
    law_columns_are_filled(n, 10);
}

/// The headings of the list, and what is said where there is nothing to list.
pub proof fn law_list_has_headings(
    projects: Seq<(Seq<char>, ProjectConfig)>,
    a: Seq<char>,
    b: Seq<char>,
    c: Seq<char>,
)
    requires
        fills(a, "PROJECT"@, 20),
        fills(b, "PATH"@, 40),
        fills(c, "PORT"@, 10),
    ensures
        projects.len() > 0 ==> list_table(projects)[0] == side_by_side(a, b, c, "COMMAND"@),
        projects.len() == 0 ==> list_table(projects) == seq![
            "No projects configured."@,
            "Add projects to ~/.devhub/proj.json"@,
        ],
{
    law_columns_are_filled("PROJECT"@, 20);
    law_columns_are_filled("PATH"@, 40);
    law_columns_are_filled("PORT"@, 10);
}

/// The status has a row for each configured project, in order, below one for the
/// headings. A project that was started and whose group was found alive shows as
/// running, with its group, and with where it is reached if it has a port.
pub proof fn law_status_shows_what_runs(
    projects: Seq<(Seq<char>, ProjectConfig)>,
    i: int,
    processes: Seq<(Seq<char>, ProcessState)>,
    k: int,
    live: LiveGroups,
    pid: Seq<char>,
    port: Seq<char>,
    a: Seq<char>,
    b: Seq<char>,
    c: Seq<char>,
)
    requires
        no_name_twice(processes),
        0 <= i < projects.len(),
        0 <= k < processes.len(),
        processes[k].0 == projects[i].0,
        found(live, processes[k].1.pid),
        numeral_of(pid, processes[k].1.pid as nat),
        processes[k].1.port matches Some(p) ==> numeral_of(port, p as nat),
        fills(a, projects[i].0, 20),
        fills(b, "running"@, 12),
        fills(c, pid, 8),
    ensures
        status_table(projects, processes, live).len() == projects.len() + 1,
        status_table(projects, processes, live)[i + 1] == side_by_side(
            a,
            b,
            c,
            if processes[k].1.port is Some {
                "http://"@ + projects[i].0 + ".localhost:1300 (→ :"@ + port + ")"@
            } else {
                "-"@
            },
        ),
{
    let name = projects[i].0;
    law_running_is_started_and_alive(processes, live, name);
    law_entries_are_found(processes, name);
    assert(processes[k].0 == name);
    law_numerals_are_the_only_ones(pid, processes[k].1.pid as nat);
    if let Some(p) = processes[k].1.port {
        law_numerals_are_the_only_ones(port, p as nat);
    }
    law_columns_are_filled(name, 20);
    law_columns_are_filled("running"@, 12);
    law_columns_are_filled(pid, 8);
}

/// Every other configured project shows as stopped.
pub proof fn law_status_shows_what_does_not_run(
    projects: Seq<(Seq<char>, ProjectConfig)>,
    i: int,
    processes: Seq<(Seq<char>, ProcessState)>,
    live: LiveGroups,
    a: Seq<char>,
    b: Seq<char>,
    c: Seq<char>,
)
    requires
        no_name_twice(processes),
        0 <= i < projects.len(),
        forall|k: int|
            0 <= k < processes.len() && (#[trigger] processes[k]).0 == projects[i].0 ==> !found(
                live,
                processes[k].1.pid,
            ),
        fills(a, projects[i].0, 20),
        fills(b, "stopped"@, 12),
        fills(c, "-"@, 8),
    ensures
        status_table(projects, processes, live).len() == projects.len() + 1,
        status_table(projects, processes, live)[i + 1] == side_by_side(a, b, c, "-"@),
{
    let name = projects[i].0;
    law_running_is_started_and_alive(processes, live, name);
    if stands_in(processes, name) {
        let k = choose|k: int| 0 <= k < processes.len() && (#[trigger] processes[k]).0 == name;
        assert(processes[k].0 == name);
    }
    law_columns_are_filled(name, 20);
    law_columns_are_filled("stopped"@, 12);
    law_columns_are_filled("-"@, 8);
}

/// The headings of the status, and what is said where there is nothing to show.
pub proof fn law_status_has_headings(
    projects: Seq<(Seq<char>, ProjectConfig)>,
    processes: Seq<(Seq<char>, ProcessState)>,
    live: LiveGroups,
    a: Seq<char>,
    b: Seq<char>,
    c: Seq<char>,
)
    requires
        fills(a, "PROJECT"@, 20),
        fills(b, "STATUS"@, 12),
        fills(c, "PID"@, 8),
    ensures
        projects.len() > 0 ==> status_table(projects, processes, live)[0] == side_by_side(
            a,
            b,
            c,
            "URL"@,
        ),
        projects.len() == 0 ==> status_table(projects, processes, live) == seq![
            "No projects configured."@,
        ],
{
    law_columns_are_filled("PROJECT"@, 20);
    law_columns_are_filled("STATUS"@, 12);
    law_columns_are_filled("PID"@, 8);
}

/// A warning names what went wrong and its whole cause.
pub proof fn law_warnings_name_their_cause(cause: Seq<char>)
    ensures
        warning_text(Trouble::LogCleanup, false, cause) == "warning: log cleanup failed: "@ + cause,
        warning_text(Trouble::ProxyReload, false, cause) == "warning: caddy reload failed: "@
            + cause,
        warning_text(Trouble::LogCleanup, true, cause) == "  "@ + "warning: log cleanup failed: "@
            + cause,
        warning_text(Trouble::ProxyReload, true, cause) == "  "@ + "warning: caddy reload failed: "@
            + cause,
{
    assert(Seq::<char>::empty() + "warning: log cleanup failed: "@
        =~= "warning: log cleanup failed: "@);
    assert(Seq::<char>::empty() + "warning: caddy reload failed: "@
        =~= "warning: caddy reload failed: "@);
}

/// The command to start a project, step by step: what it says of the log and the
/// readiness, then of the group that the project got, and of where the project
/// is reached if it has a port, of which the proxy is then told.
pub proof fn law_start_command_says_what_it_does(
    name: String,
    project: ProjectConfig,
    path: String,
    pid: u32,
    p: Seq<char>,
    n: Seq<char>,
    reloaded: bool,
)
    requires
        numeral_of(p, pid as nat),
        project.port matches Some(port) ==> numeral_of(n, port as nat),
    ensures
        ({
            let find = StartCommand { name, project, phase: StartCommandPhase::FindLog };
            let start = find.after(StartCommandEvent::LogFound(path));
            let up = start.after(StartCommandEvent::Started(pid));
            let done = StartCommand { name, project, phase: StartCommandPhase::Done };
            let failed = StartCommand { name, project, phase: StartCommandPhase::Failed };
            &&& find.said(StartCommandEvent::LogFound(path)) == seq![
                "  log:  "@ + path@,
                "  readiness:  "@ + readiness_text(probe_of(project)),
            ]
            &&& find.after(StartCommandEvent::LogLost) == failed
            &&& start.phase == StartCommandPhase::Start
            &&& start.after(StartCommandEvent::NotStarted) == failed
            &&& project.port is Some ==> {
                &&& start.said(StartCommandEvent::Started(pid)) == seq![
                    "  pid:  "@ + p,
                    "  url:  http://"@ + name@ + ".localhost:1300 (→ localhost:"@ + n + ")"@,
                ]
                &&& up.phase == StartCommandPhase::Reload
                &&& up.said(StartCommandEvent::ProxyReloaded(reloaded)) == seq!["Started."@]
                &&& up.after(StartCommandEvent::ProxyReloaded(reloaded)) == done
            }
            &&& project.port is None ==> {
                &&& start.said(StartCommandEvent::Started(pid)) == seq![
                    "  pid:  "@ + p,
                    "Started."@,
                ]
                &&& up == done
            }
        }),
{
    law_numerals_are_the_only_ones(p, pid as nat);
    if let Some(port) = project.port {
        law_numerals_are_the_only_ones(n, port as nat);
    }
}

/// Nothing is said or done by the command to start a project but in answer to
/// what it asked for.
pub proof fn law_only_answers_move_a_start_command_on(
    command: StartCommand,
    event: StartCommandEvent,
)
    ensures
        command.after(event).name == command.name,
        command.after(event).project == command.project,
        command.after(event) != command || command.said(event).len() > 0
            ==> match command.phase {
            StartCommandPhase::FindLog => event is LogFound || event is LogLost,
            StartCommandPhase::Start => event is Started || event is NotStarted,
            StartCommandPhase::Reload => event is ProxyReloaded,
            _ => false,
        },
{
}

/// The command to stop a project, step by step: once the project is stopped its
/// log is removed, and then the proxy is told if it had a port.
pub proof fn law_stop_command_goes_step_by_step(
    name: String,
    had_port: bool,
    removed: bool,
    reloaded: bool,
    command: StopCommand,
    event: StopCommandEvent,
)
    ensures
        ({
            let stop = StopCommand { name, had_port, phase: StopCommandPhase::Stop };
            let stopped = stop.after(StopCommandEvent::Stopped(true));
            let cleaned = stopped.after(StopCommandEvent::LogRemoved(removed));
            &&& stop.after(StopCommandEvent::Stopped(false)).phase == StopCommandPhase::Failed
            &&& stopped.phase == StopCommandPhase::RemoveLog
            &&& had_port ==> {
                &&& cleaned.phase == StopCommandPhase::Reload
                &&& cleaned.after(StopCommandEvent::ProxyReloaded(reloaded)).phase
                    == StopCommandPhase::Done
            }
            &&& !had_port ==> cleaned.phase == StopCommandPhase::Done
        }),
        command.after(event).name == command.name,
        command.after(event).had_port == command.had_port,
        command.after(event) != command ==> match command.phase {
            StopCommandPhase::Stop => event is Stopped,
            StopCommandPhase::RemoveLog => event is LogRemoved,
            StopCommandPhase::Reload => event is ProxyReloaded,
            _ => false,
        },
{
}

/// What is done before every command, step by step: the config and the state are
/// loaded, the groups looked for, the state saved exactly if some project's
/// group was not found, the logs cleaned, the proxy reconciled; then the command
/// is carried out.
pub proof fn law_housekeeping_goes_step_by_step(
    processes: Seq<(Seq<char>, ProcessState)>,
    live: LiveGroups,
    cleaned: bool,
    reconciled: bool,
)
    ensures
        ({
            let at = |phase: RunPhase, event: RunEvent|
                (Housekeeping { phase }).phase_after(event, processes);
            &&& at(RunPhase::LoadConfig, RunEvent::ConfigLoaded(true)) == RunPhase::LoadState
            &&& at(RunPhase::LoadConfig, RunEvent::ConfigLoaded(false)) == RunPhase::Failed
            &&& at(RunPhase::LoadState, RunEvent::StateLoaded(true)) == RunPhase::ProbeGroups
            &&& at(RunPhase::LoadState, RunEvent::StateLoaded(false)) == RunPhase::Failed
            &&& at(RunPhase::SaveState, RunEvent::StateSaved(true)) == RunPhase::CleanLogs
            &&& at(RunPhase::SaveState, RunEvent::StateSaved(false)) == RunPhase::Failed
            &&& at(RunPhase::CleanLogs, RunEvent::LogsCleaned(cleaned)) == RunPhase::Reconcile
            &&& at(RunPhase::Reconcile, RunEvent::Reconciled(reconciled)) == RunPhase::Execute
            &&& at(RunPhase::ProbeGroups, RunEvent::GroupsProbed(live)) == RunPhase::SaveState
                || at(RunPhase::ProbeGroups, RunEvent::GroupsProbed(live)) == RunPhase::CleanLogs
            &&& at(RunPhase::ProbeGroups, RunEvent::GroupsProbed(live)) == RunPhase::SaveState
                <==> exists|i: int|
                0 <= i < processes.len() && !found(live, (#[trigger] processes[i]).1.pid)
        }),
{
    let dead = processes.filter(entry_dead(live));
    if exists|i: int| 0 <= i < processes.len() && !found(live, (#[trigger] processes[i]).1.pid) {
        let i = choose|i: int|
            0 <= i < processes.len() && !found(live, (#[trigger] processes[i]).1.pid);
        law_pruning_goes_by_what_was_found(processes, live, i);
        assert(names_of(dead).len() > 0);
    }
    if dead.len() > 0 {
        assert(dead.contains(dead[0]));
        processes.lemma_filter_contains_rev(entry_dead(live), dead[0]);
        let i = choose|i: int| 0 <= i < processes.len() && processes[i] == dead[0];
        law_pruning_goes_by_what_was_found(processes, live, i);
        assert(!found(live, dead[0].1.pid));
        assert(!found(live, processes[i].1.pid));
    }
}

/// Only an answer to what was asked moves the housekeeping on, and the state is
/// touched by nothing but the word on the groups: of it every entry stays whose
/// group was found, in its order, and no other.
pub proof fn law_only_answers_move_the_housekeeping_on(
    h: Housekeeping,
    event: RunEvent,
    processes: Seq<(Seq<char>, ProcessState)>,
    live: LiveGroups,
)
    ensures
        h.phase_after(event, processes) != h.phase ==> match h.phase {
            RunPhase::LoadConfig => event is ConfigLoaded,
            RunPhase::LoadState => event is StateLoaded,
            RunPhase::ProbeGroups => event is GroupsProbed,
            RunPhase::SaveState => event is StateSaved,
            RunPhase::CleanLogs => event is LogsCleaned,
            RunPhase::Reconcile => event is Reconciled,
            _ => false,
        },
        !(h.phase is ProbeGroups && event is GroupsProbed) ==> h.processes_after(event, processes)
            == processes,
        h.phase is ProbeGroups ==> {
            let kept = h.processes_after(RunEvent::GroupsProbed(live), processes);
            &&& forall|i: int|
                0 <= i < processes.len() ==> (kept.contains(#[trigger] processes[i]) <==> found(
                    live,
                    processes[i].1.pid,
                ))
            &&& forall|k: int| 0 <= k < kept.len() ==> processes.contains(#[trigger] kept[k])
            &&& kept == processes.filter(entry_alive(live))
        },
{
    if h.phase is ProbeGroups {
        let kept = h.processes_after(RunEvent::GroupsProbed(live), processes);
        assert forall|i: int| 0 <= i < processes.len() implies (kept.contains(
            #[trigger] processes[i],
        ) <==> found(live, processes[i].1.pid)) by {
            law_pruning_goes_by_what_was_found(processes, live, i);
        }
        if processes.len() > 0 {
            law_pruning_goes_by_what_was_found(processes, live, 0);
        } else {
            reveal(Seq::filter);
        }
    }
}

} // verus!
