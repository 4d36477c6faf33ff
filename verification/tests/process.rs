use devhub::config::ProjectConfig;
use devhub::dirs::FilePath;
use devhub::logs::{log_tail, log_tail_start};
use devhub::process::{
    readiness_event, start_project, start_project_in, start_project_of, stop_project, ProjectStart,
    StartAction, StartEvent, StopAction, StopEvent,
};
use devhub::signals::{
    answers, kill_failure, kill_number, kill_process_group, KillAction, KillEvent, Signal, Target,
};
use devhub::startup::{
    describe_readiness, exec_readiness_probe, format_exit_status, startup_failure,
    wait_for_startup, wait_timeout, Poll, StartupAction, StartupEvent, StartupFailure,
};
use devhub::state::{AppState, LiveGroups};

fn config(path: &str, cmd: &str) -> ProjectConfig {
    ProjectConfig {
        path: path.to_string(),
        cmd: cmd.to_string(),
        port: None,
        startup_timeout_ms: 60_000,
        ready_cmd: None,
    }
}

fn nobody() -> LiveGroups {
    LiveGroups { ids: Vec::new() }
}

/// Answers every step of a start as if all went well.
fn start_well(start: &mut ProjectStart, state: &mut AppState, pid: u32) -> Option<u32> {
    let mut action = start.next_action();
    loop {
        let event = match action {
            StartAction::CheckDirectory(_) => StartEvent::DirectoryExists(true),
            StartAction::OpenLog => StartEvent::LogOpened(true),
            StartAction::ShareLog => StartEvent::LogShared(true),
            StartAction::Spawn { .. } => StartEvent::Spawned(pid),
            StartAction::DropLog => StartEvent::LogDropped,
            StartAction::AwaitReady(_) => StartEvent::BecameReady,
            StartAction::ReadTail => StartEvent::TailRead(None),
            StartAction::SaveState => StartEvent::StateSaved(true),
            StartAction::Succeed(pid) => return Some(pid),
            StartAction::Fail => return None,
        };
        action = start.advance(event, state);
    }
}

#[test]
fn start_and_stop_process() {
    let mut state = AppState::default();
    let config = ProjectConfig {
        path: "/tmp".to_string(),
        cmd: "sleep 10".to_string(),
        port: None,
        startup_timeout_ms: 60_000,
        ready_cmd: None,
    };

    let mut start = start_project("test-sleep", &config, &state, &nobody());
    let pid = start_well(&mut start, &mut state, 31).unwrap();
    assert!(pid > 0);
    let live = LiveGroups { ids: vec![pid] };
    assert!(state.is_running("test-sleep", &live));

    // Stop the project
    let mut stop = stop_project("test-sleep", &state);
    assert_eq!(stop.next_action(), StopAction::ProbeGroup(pid));
    assert_eq!(stop.advance(StopEvent::GroupAlive(true), &mut state), StopAction::KillGroup(pid));
    assert_eq!(stop.advance(StopEvent::GroupKilled(true), &mut state), StopAction::SaveState);
    assert_eq!(stop.advance(StopEvent::StateSaved(true), &mut state), StopAction::Succeed);
    assert!(!state.is_running("test-sleep", &live));
}

#[test]
fn start_nonexistent_dir() {
    let mut state = AppState::default();
    let config = ProjectConfig {
        path: "/nonexistent/path".to_string(),
        cmd: "echo hello".to_string(),
        port: None,
        startup_timeout_ms: 60_000,
        ready_cmd: None,
    };

    let mut start = start_project("bad-path", &config, &state, &nobody());
    assert!(matches!(
        start.next_action(),
        StartAction::CheckDirectory(dir) if dir == "/nonexistent/path"
    ));
    let result = start.advance(StartEvent::DirectoryExists(false), &mut state);
    assert!(matches!(result, StartAction::Fail));
    assert!(start.failure_message().unwrap().contains("does not exist"));
    assert_eq!(
        start.failure_message().unwrap(),
        "project directory '/nonexistent/path' does not exist"
    );
}

#[test]
fn start_already_running() {
    let mut state = AppState::default();
    let config = ProjectConfig {
        path: "/tmp".to_string(),
        cmd: "sleep 30".to_string(),
        port: None,
        startup_timeout_ms: 60_000,
        ready_cmd: None,
    };

    let mut start = start_project("dup", &config, &state, &nobody());
    let pid = start_well(&mut start, &mut state, 77).unwrap();

    // Try to start again
    let again = start_project("dup", &config, &state, &LiveGroups { ids: vec![pid] });
    assert!(matches!(again.next_action(), StartAction::Fail));
    assert!(again.failure_message().unwrap().contains("already running"));
    assert_eq!(again.failure_message().unwrap(), "project 'dup' is already running (pid 77)");
}

#[test]
fn stop_not_running() {
    let state = AppState::default();
    let stop = stop_project("nonexistent", &state);
    assert_eq!(stop.next_action(), StopAction::Fail);
    assert_eq!(stop.failure_message().unwrap(), "project 'nonexistent' is not running");
}

#[test]
fn dead_project_can_be_started_anew() {
    let mut state = AppState::default();
    state.add("a".to_string(), 5, None);
    let mut start = start_project("a", &config("/tmp", "true"), &state, &nobody());
    assert_eq!(start_well(&mut start, &mut state, 6), Some(6));
    assert_eq!(state.groups(), vec![6]);
}

#[test]
fn home_is_expanded_for_the_directory() {
    let home = dirs::home_dir().unwrap();
    let start = start_project("a", &config("~/p", "true"), &AppState::default(), &nobody());
    assert!(matches!(
        start.next_action(),
        StartAction::CheckDirectory(dir) if dir == format!("{}/p", home.display())
    ));
}

#[test]
fn directory_follows_from_the_home_directory() {
    let c = config("~/p", "true");
    let home = FilePath { bytes: b"/home/you".to_vec() };
    let start = start_project_of("a", &c, &AppState::default(), &nobody(), Some(home));
    assert!(matches!(
        start.next_action(),
        StartAction::CheckDirectory(dir) if dir == "/home/you/p"
    ));
    let homeless = start_project_of("a", &c, &AppState::default(), &nobody(), None);
    assert!(matches!(homeless.next_action(), StartAction::CheckDirectory(dir) if dir == "~/p"));

    let mut state = AppState::default();
    state.add("a".to_string(), 5, None);
    let again = start_project_of("a", &c, &state, &LiveGroups { ids: vec![5] }, None);
    assert!(matches!(again.next_action(), StartAction::Fail));
}

#[test]
fn failed_start_leaves_the_state_alone() {
    let mut state = AppState::default();
    let c = config("/p", "serve");
    let begin = || start_project_in("a", &c, &AppState::default(), &nobody(), "/p".to_string());

    let mut start = begin();
    start.advance(StartEvent::DirectoryExists(true), &mut state);
    assert!(matches!(
        start.advance(StartEvent::LogOpened(false), &mut state),
        StartAction::Fail
    ));
    assert_eq!(start.failure_message(), None);

    let mut start = begin();
    start.advance(StartEvent::DirectoryExists(true), &mut state);
    start.advance(StartEvent::LogOpened(true), &mut state);
    assert!(matches!(
        start.advance(StartEvent::LogShared(false), &mut state),
        StartAction::DropLog
    ));
    assert!(matches!(start.advance(StartEvent::LogDropped, &mut state), StartAction::Fail));
    assert_eq!(
        start.failure_message().as_deref(),
        Some("failed to clone log handle for project 'a'")
    );

    let mut start = begin();
    start.advance(StartEvent::DirectoryExists(true), &mut state);
    start.advance(StartEvent::LogOpened(true), &mut state);
    let spawn = start.advance(StartEvent::LogShared(true), &mut state);
    assert!(matches!(
        spawn,
        StartAction::Spawn { cmd, dir } if cmd == "serve" && dir == "/p"
    ));
    assert!(matches!(
        start.advance(StartEvent::NotSpawned, &mut state),
        StartAction::DropLog
    ));
    assert!(matches!(start.advance(StartEvent::LogDropped, &mut state), StartAction::Fail));
    assert_eq!(
        start.failure_message().as_deref(),
        Some("failed to start command 'serve' in /p")
    );

    let mut start = begin();
    start.advance(StartEvent::DirectoryExists(true), &mut state);
    start.advance(StartEvent::LogOpened(true), &mut state);
    start.advance(StartEvent::LogShared(true), &mut state);
    start.advance(StartEvent::Spawned(8), &mut state);
    let broken = StartupFailure::Broken("failed to run readiness command 'x'".to_string());
    assert!(matches!(
        start.advance(StartEvent::NotReady(broken), &mut state),
        StartAction::ReadTail
    ));
    assert!(matches!(
        start.advance(StartEvent::TailRead(Some("booting".to_string())), &mut state),
        StartAction::DropLog
    ));
    assert!(matches!(start.advance(StartEvent::LogDropped, &mut state), StartAction::Fail));
    assert_eq!(
        start.failure_message().as_deref(),
        Some("failed to run readiness command 'x'\n\nLast log lines:\nbooting")
    );
    assert!(state.processes.is_empty());

    let mut start = begin();
    start.advance(StartEvent::DirectoryExists(true), &mut state);
    start.advance(StartEvent::LogOpened(true), &mut state);
    start.advance(StartEvent::LogShared(true), &mut state);
    start.advance(StartEvent::Spawned(8), &mut state);
    start.advance(StartEvent::BecameReady, &mut state);
    assert!(matches!(
        start.advance(StartEvent::StateSaved(false), &mut state),
        StartAction::Fail
    ));
    assert_eq!(state.groups(), vec![8]);
}

#[test]
fn failed_start_prints_log_tail_and_removes_log() {
    let mut state = AppState::default();
    let config = ProjectConfig {
        path: "/project".to_string(),
        cmd: "./fail-service.sh".to_string(),
        port: None,
        startup_timeout_ms: 3000,
        ready_cmd: Some("test -f ready".to_string()),
    };
    // What the service leaves before it exits with 7.
    let mut log: Option<Vec<u8>> = None;

    let mut start = start_project("broken", &config, &state, &nobody());
    let mut action = start.next_action();
    loop {
        let event = match action {
            StartAction::CheckDirectory(_) => StartEvent::DirectoryExists(true),
            StartAction::OpenLog => {
                log = Some(Vec::new());
                StartEvent::LogOpened(true)
            }
            StartAction::ShareLog => StartEvent::LogShared(true),
            StartAction::Spawn { cmd, .. } => {
                assert_eq!(cmd, "./fail-service.sh");
                log = Some(b"booting\nfatal: boom\n".to_vec());
                StartEvent::Spawned(4711)
            }
            StartAction::AwaitReady(_) => {
                let mut waiting = wait_for_startup(&config);
                loop {
                    if let Some(word) = readiness_event(&waiting) {
                        break word;
                    }
                    let going_on = waiting.as_mut().unwrap();
                    let seen = match going_on.next_action() {
                        StartupAction::TryWait => StartupEvent::ChildExited(Some(7)),
                        StartupAction::ProbeGroup => StartupEvent::GroupAlive(false),
                        other => panic!("{other:?}"),
                    };
                    going_on.advance(seen);
                }
            }
            StartAction::ReadTail => {
                let content = log.clone().unwrap();
                let start = log_tail_start(content.len() as u64).unwrap();
                StartEvent::TailRead(log_tail(start, content))
            }
            StartAction::DropLog => {
                log = None;
                StartEvent::LogDropped
            }
            StartAction::SaveState | StartAction::Succeed(_) => panic!("it did not start"),
            StartAction::Fail => break,
        };
        action = start.advance(event, &mut state);
    }

    let stderr = start.failure_message().unwrap();
    assert!(stderr.contains("project exited before becoming ready"));
    assert!(stderr.contains("Last log lines:"));
    assert!(stderr.contains("booting"));
    assert!(stderr.contains("fatal: boom"));
    assert!(log.is_none());
    assert!(state.processes.is_empty());
}

#[test]
fn answers_to_other_questions_change_nothing() {
    let mut state = AppState::default();
    let mut start = start_project("a", &config("/p", "x"), &state, &nobody());
    assert!(matches!(
        start.advance(StartEvent::BecameReady, &mut state),
        StartAction::CheckDirectory(_)
    ));
    assert!(state.processes.is_empty());
}

#[test]
fn group_that_is_gone_is_forgotten_with_an_error() {
    let mut state = AppState::default();
    state.add("a".to_string(), 5, None);
    let mut stop = stop_project("a", &state);
    assert_eq!(stop.advance(StopEvent::GroupAlive(false), &mut state), StopAction::SaveState);
    assert!(state.processes.is_empty());
    assert_eq!(stop.advance(StopEvent::StateSaved(true), &mut state), StopAction::Fail);
    assert_eq!(
        stop.failure_message().as_deref(),
        Some("project 'a' process group (pid 5) is no longer alive")
    );
}

#[test]
fn group_that_cannot_be_ended_stays_known() {
    let mut state = AppState::default();
    state.add("a".to_string(), 5, None);
    let mut stop = stop_project("a", &state);
    stop.advance(StopEvent::GroupAlive(true), &mut state);
    assert_eq!(stop.advance(StopEvent::GroupKilled(false), &mut state), StopAction::Fail);
    assert_eq!(stop.failure_message(), None);
    assert_eq!(state.groups(), vec![5]);
}

#[test]
fn stop_that_cannot_be_written_down_fails() {
    let mut state = AppState::default();
    state.add("a".to_string(), 5, None);
    let mut stop = stop_project("a", &state);
    stop.advance(StopEvent::GroupAlive(true), &mut state);
    stop.advance(StopEvent::GroupKilled(true), &mut state);
    assert_eq!(stop.advance(StopEvent::StateSaved(false), &mut state), StopAction::Fail);
    assert_eq!(stop.failure_message(), None);
}

#[test]
fn kill_group_when_leader_has_exited() {
    // The leader is gone, so it takes no signal; its group is still there.
    let mut kill = kill_process_group(42000);
    assert_eq!(
        kill.next_action(),
        KillAction::Send(Target::Group(42000), Signal::Term)
    );
    assert_eq!(kill.advance(KillEvent::Delivered(true)), KillAction::Sleep(100_000_000));
    assert_eq!(kill.advance(KillEvent::Slept), KillAction::ProbeGroup(42000));
    assert_eq!(kill.advance(KillEvent::GroupAlive(false)), KillAction::Succeed);
}

#[test]
fn group_that_does_not_end_is_forced() {
    let mut kill = kill_process_group(7);
    kill.advance(KillEvent::Delivered(true));
    kill.advance(KillEvent::Slept);
    assert_eq!(
        kill.advance(KillEvent::GroupAlive(true)),
        KillAction::Send(Target::Group(7), Signal::Kill)
    );
    assert_eq!(
        kill.advance(KillEvent::Delivered(true)),
        KillAction::Send(Target::Process(7), Signal::Kill)
    );
    assert_eq!(kill.advance(KillEvent::Delivered(false)), KillAction::Succeed);
}

#[test]
fn group_that_cannot_be_asked_is_asked_through_its_leader() {
    let mut kill = kill_process_group(7);
    assert_eq!(
        kill.advance(KillEvent::Delivered(false)),
        KillAction::Send(Target::Process(7), Signal::Term)
    );
    assert_eq!(kill.advance(KillEvent::Delivered(false)), KillAction::Fail);
    assert_eq!(
        kill_failure(7, "No such process"),
        "failed to send SIGTERM to process 7: No such process"
    );
}

#[test]
fn groups_are_known_by_negative_numbers() {
    assert_eq!(kill_number(Target::Process(42000)), 42000);
    assert_eq!(kill_number(Target::Group(42000)), -42000);
    assert_eq!(kill_number(Target::Process(u32::MAX)), -1);
    assert_eq!(kill_number(Target::Group(u32::MAX)), 1);
    assert_eq!(kill_number(Target::Process(0x8000_0000)), i32::MIN);
    assert!(answers(0));
    assert!(!answers(-1));
}

#[test]
fn readiness_description_prefers_ready_cmd() {
    let config = ProjectConfig {
        path: "/tmp".to_string(),
        cmd: "sleep 1".to_string(),
        port: Some(3000),
        startup_timeout_ms: 60_000,
        ready_cmd: Some("curl -f http://127.0.0.1:3000/healthz".to_string()),
    };

    assert_eq!(
        describe_readiness(&config),
        "exec `curl -f http://127.0.0.1:3000/healthz`"
    );
}

#[test]
fn readiness_description_without_a_command() {
    let mut c = config("/p", "x");
    assert_eq!(describe_readiness(&c), "none (spawn only)");
    assert!(wait_for_startup(&c).is_none());
    assert!(matches!(
        readiness_event(&wait_for_startup(&c)),
        Some(StartEvent::BecameReady)
    ));
    c.port = Some(65535);
    assert!(readiness_event(&wait_for_startup(&c)).is_none());
    assert_eq!(describe_readiness(&c), "tcp 127.0.0.1:65535");
}

#[test]
fn hanging_ready_cmd_respects_startup_timeout() {
    let config = ProjectConfig {
        path: "/tmp".to_string(),
        cmd: "sleep 5".to_string(),
        port: None,
        startup_timeout_ms: 300,
        ready_cmd: Some("sleep 5".to_string()),
    };

    // A clock that only moves while the readiness command hangs or a pause
    // goes by.
    let mut elapsed: u128 = 0;
    let mut state = AppState::default();
    let mut start = start_project("hang-probe", &config, &state, &nobody());
    let mut action = start.next_action();
    loop {
        let event = match action {
            StartAction::CheckDirectory(_) => StartEvent::DirectoryExists(true),
            StartAction::OpenLog => StartEvent::LogOpened(true),
            StartAction::ShareLog => StartEvent::LogShared(true),
            StartAction::Spawn { .. } => StartEvent::Spawned(99),
            StartAction::AwaitReady(_) => {
                let mut waiting = wait_for_startup(&config);
                loop {
                    if let Some(word) = readiness_event(&waiting) {
                        break word;
                    }
                    let going_on = waiting.as_mut().unwrap();
                    let seen = match going_on.next_action() {
                        StartupAction::TryWait => StartupEvent::ChildRunning,
                        StartupAction::ProbeGroup => StartupEvent::GroupAlive(true),
                        StartupAction::ReadClock => StartupEvent::Clock(elapsed),
                        StartupAction::RunProbe(nanos) => {
                            elapsed += nanos;
                            StartupEvent::ProbePassed(exec_readiness_probe(None))
                        }
                        StartupAction::Sleep(nanos) => {
                            elapsed += nanos;
                            StartupEvent::Slept
                        }
                        StartupAction::KillGroup => StartupEvent::Killed,
                        other => panic!("{other:?}"),
                    };
                    going_on.advance(seen);
                }
            }
            StartAction::ReadTail => StartEvent::TailRead(None),
            StartAction::DropLog => StartEvent::LogDropped,
            StartAction::SaveState | StartAction::Succeed(_) => panic!("it did not start"),
            StartAction::Fail => break,
        };
        action = start.advance(event, &mut state);
    }

    let error = start.failure_message().unwrap();
    assert!(error.contains("startup timed out after 300ms"));
    assert!(
        elapsed < 2_000_000_000,
        "startup timeout should not be blocked by a hanging readiness command"
    );
}

#[test]
fn slow_project_becomes_ready_in_the_second_round() {
    let mut c = config("/p", "x");
    c.port = Some(80);
    c.startup_timeout_ms = 5_000;
    let mut waiting = wait_for_startup(&c).unwrap();
    waiting.advance(StartupEvent::ChildExited(Some(0)));
    waiting.advance(StartupEvent::GroupAlive(true));
    assert!(matches!(
        waiting.advance(StartupEvent::GroupAlive(true)),
        StartupAction::ReadClock
    ));
    assert!(matches!(
        waiting.advance(StartupEvent::Clock(0)),
        StartupAction::RunProbe(1_000_000_000)
    ));
    waiting.advance(StartupEvent::ProbePassed(false));
    assert!(matches!(
        waiting.advance(StartupEvent::Clock(10)),
        StartupAction::Sleep(250_000_000)
    ));
    assert!(matches!(waiting.advance(StartupEvent::Slept), StartupAction::TryWait));
    waiting.advance(StartupEvent::ChildRunning);
    waiting.advance(StartupEvent::GroupAlive(true));
    assert!(matches!(
        waiting.advance(StartupEvent::Clock(4_999_999_999)),
        StartupAction::RunProbe(1)
    ));
    let action = waiting.advance(StartupEvent::ProbePassed(true));
    assert!(matches!(action, StartupAction::Succeed));
    assert!(matches!(readiness_event(&Some(waiting)), Some(StartEvent::BecameReady)));
}

#[test]
fn early_exit_is_told_with_its_code() {
    let mut c = config("/p", "x");
    c.port = Some(80);
    let mut waiting = wait_for_startup(&c).unwrap();
    waiting.advance(StartupEvent::ChildExited(Some(7)));
    let action = waiting.advance(StartupEvent::GroupAlive(false));
    assert!(matches!(action, StartupAction::Fail(StartupFailure::Exited(Some(7)))));
    assert!(matches!(
        readiness_event(&Some(waiting)),
        Some(StartEvent::NotReady(StartupFailure::Exited(Some(7))))
    ));

    let mut unseen = wait_for_startup(&c).unwrap();
    unseen.advance(StartupEvent::ChildRunning);
    assert!(matches!(
        unseen.advance(StartupEvent::GroupAlive(false)),
        StartupAction::Fail(StartupFailure::Exited(None))
    ));
}

#[test]
fn readiness_that_cannot_be_found_out_is_a_failure_with_its_cause() {
    let mut c = config("/p", "x");
    c.ready_cmd = Some("true".to_string());

    let mut unwaited = wait_for_startup(&c).unwrap();
    unwaited.advance(StartupEvent::Broken("no child".to_string()));
    assert!(matches!(
        readiness_event(&Some(unwaited)),
        Some(StartEvent::NotReady(StartupFailure::Broken(cause))) if cause == "no child"
    ));

    let mut unprobed = wait_for_startup(&c).unwrap();
    unprobed.advance(StartupEvent::ChildRunning);
    unprobed.advance(StartupEvent::GroupAlive(true));
    unprobed.advance(StartupEvent::Clock(0));
    let action = unprobed.advance(StartupEvent::Broken("no shell".to_string()));
    assert!(matches!(
        action,
        StartupAction::Fail(StartupFailure::Broken(cause)) if cause == "no shell"
    ));
    assert!(matches!(unprobed.advance(StartupEvent::Slept), StartupAction::Fail(_)));
}

#[test]
fn timeout_of_a_dead_group_needs_no_kill() {
    let mut c = config("/p", "x");
    c.port = Some(80);
    c.startup_timeout_ms = 0;
    let mut waiting = wait_for_startup(&c).unwrap();
    waiting.advance(StartupEvent::ChildRunning);
    waiting.advance(StartupEvent::GroupAlive(true));
    assert!(matches!(
        waiting.advance(StartupEvent::Clock(0)),
        StartupAction::ProbeGroup
    ));
    assert!(matches!(
        waiting.advance(StartupEvent::GroupAlive(false)),
        StartupAction::Fail(StartupFailure::TimedOut(0))
    ));
}

#[test]
fn failures_are_told_with_the_last_lines() {
    assert_eq!(
        startup_failure(&StartupFailure::Exited(Some(7)), &Some("booting\nfatal: boom".to_string())),
        "project exited before becoming ready (code 7)\n\nLast log lines:\nbooting\nfatal: boom"
    );
    assert_eq!(
        startup_failure(&StartupFailure::Exited(None), &None),
        "project exited before becoming ready"
    );
    assert_eq!(
        startup_failure(&StartupFailure::TimedOut(300), &None),
        "startup timed out after 300ms"
    );
    assert_eq!(startup_failure(&StartupFailure::Broken("why".to_string()), &None), "why");
    assert_eq!(format_exit_status(Some(i32::MIN)), " (code -2147483648)");
    assert_eq!(format_exit_status(Some(-1)), " (code -1)");
    assert_eq!(format_exit_status(None), "");
}

#[test]
fn children_are_waited_for_only_so_long() {
    assert_eq!(wait_timeout(true, 10, 5), Poll::Exited);
    assert_eq!(wait_timeout(false, 5, 5), Poll::GiveUp);
    assert_eq!(wait_timeout(false, 4, 5), Poll::Again);
    assert!(exec_readiness_probe(Some(true)));
    assert!(!exec_readiness_probe(Some(false)));
}
