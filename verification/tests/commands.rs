use devhub::commands::{
    cmd_list, cmd_start, cmd_status, cmd_stop, run, warning, RunEvent, RunPhase,
    StartCommandEvent, StartCommandPhase, StopCommandEvent, StopCommandPhase, Trouble,
};
use devhub::config::{Config, ProjectConfig};
use devhub::names::NameMap;
use devhub::state::{AppState, LiveGroups};

fn project(path: &str, cmd: &str, port: Option<u16>) -> ProjectConfig {
    ProjectConfig {
        path: path.to_string(),
        cmd: cmd.to_string(),
        port,
        startup_timeout_ms: 60_000,
        ready_cmd: None,
    }
}

fn example() -> Config {
    let mut projects = NameMap::new();
    let mut worth = project("~/Projects/worth_meter", "pnpm dev", Some(3000));
    worth.ready_cmd = Some("curl -fsS http://127.0.0.1:3000/healthz".to_string());
    projects.insert("worth".to_string(), worth);
    projects.insert("blog".to_string(), project("~/Code/blogs", "pnpm dev", Some(4000)));
    projects.insert(
        "tauri-demo".to_string(),
        project("~/playground/tauri-demo", "pnpm tauri dev", None),
    );
    Config { projects }
}

fn nothing() -> Config {
    Config { projects: NameMap::new() }
}

#[test]
fn list_shows_the_projects_in_the_order_of_the_config() {
    assert_eq!(
        cmd_list(&example()),
        vec![
            "PROJECT              PATH                                     PORT       COMMAND",
            "worth                ~/Projects/worth_meter                   3000       pnpm dev",
            "blog                 ~/Code/blogs                             4000       pnpm dev",
            "tauri-demo           ~/playground/tauri-demo                  -          pnpm tauri dev",
        ]
    );
}

#[test]
fn copied_config_lists_the_same() {
    assert_eq!(cmd_list(&example().clone()), cmd_list(&example()));
}

#[test]
fn list_of_nothing_tells_where_to_add() {
    assert_eq!(
        cmd_list(&nothing()),
        vec!["No projects configured.", "Add projects to ~/.devhub/proj.json"]
    );
}

#[test]
fn wide_names_push_their_row() {
    let mut projects = NameMap::new();
    let name = "n".repeat(21);
    projects.insert(name.clone(), project("\u{e4}", "c", None));
    let rows = cmd_list(&Config { projects });
    assert_eq!(rows[1], format!("{name} {:<40} {:<10} c", "\u{e4}", "-"));
}

#[test]
fn status_shows_what_runs() {
    let mut state = AppState::default();
    state.add("worth".to_string(), 93128, Some(3000));
    state.add("blog".to_string(), 5, Some(4000));
    state.add("tauri-demo".to_string(), 6, None);
    state.add("unknown".to_string(), 6, None);
    let live = LiveGroups { ids: vec![93128, 6] };
    assert_eq!(
        cmd_status(&example(), &state, &live),
        vec![
            "PROJECT              STATUS       PID      URL",
            "worth                running      93128    http://worth.localhost:1300 (\u{2192} :3000)",
            "blog                 stopped      -        -",
            "tauri-demo           running      6        -",
        ]
    );
    state.remove("worth");
    assert_eq!(
        cmd_status(&example(), &state, &live)[1],
        "worth                stopped      -        -"
    );
    assert_eq!(cmd_status(&nothing(), &state, &live), vec!["No projects configured."]);
}

#[test]
fn start_command_says_what_it_does() {
    let mut command = cmd_start("worth", &example()).unwrap();
    assert_eq!(command.opening(), "Starting 'worth'...");
    assert_eq!(
        command.advance(StartCommandEvent::LogFound("/h/.devhub/logs/worth.log".to_string())),
        vec![
            "  log:  /h/.devhub/logs/worth.log",
            "  readiness:  exec `curl -fsS http://127.0.0.1:3000/healthz`",
        ]
    );
    assert_eq!(command.phase, StartCommandPhase::Start);
    assert_eq!(
        command.advance(StartCommandEvent::Started(93128)),
        vec![
            "  pid:  93128",
            "  url:  http://worth.localhost:1300 (\u{2192} localhost:3000)",
        ]
    );
    assert_eq!(command.phase, StartCommandPhase::Reload);
    assert_eq!(command.advance(StartCommandEvent::ProxyReloaded(false)), vec!["Started."]);
    assert_eq!(command.phase, StartCommandPhase::Done);
}

#[test]
fn start_without_a_port_leaves_the_proxy_alone() {
    let mut command = cmd_start("tauri-demo", &example()).unwrap();
    assert_eq!(
        command.advance(StartCommandEvent::LogFound("x".to_string()))[1],
        "  readiness:  none (spawn only)"
    );
    assert_eq!(command.advance(StartCommandEvent::Started(7)), vec!["  pid:  7", "Started."]);
    assert_eq!(command.phase, StartCommandPhase::Done);
}

#[test]
fn start_command_fails_with_its_steps() {
    let mut unlogged = cmd_start("blog", &example()).unwrap();
    assert!(unlogged.advance(StartCommandEvent::LogLost).is_empty());
    assert_eq!(unlogged.phase, StartCommandPhase::Failed);

    let mut command = cmd_start("blog", &example()).unwrap();
    command.advance(StartCommandEvent::LogFound("x".to_string()));
    assert!(command.advance(StartCommandEvent::NotStarted).is_empty());
    assert_eq!(command.phase, StartCommandPhase::Failed);
    assert!(command.advance(StartCommandEvent::Started(7)).is_empty());
    assert_eq!(command.phase, StartCommandPhase::Failed);
}

#[test]
fn unknown_project_cannot_be_started() {
    assert_eq!(
        cmd_start("shop", &example()).unwrap_err(),
        "project 'shop' not found in config"
    );
}

#[test]
fn stop_command_removes_log_and_route() {
    let mut state = AppState::default();
    state.add("worth".to_string(), 5, Some(3000));
    let mut command = cmd_stop("worth", &state);
    assert_eq!(command.opening(), "Stopping 'worth'...");
    assert_eq!(command.advance(StopCommandEvent::Stopped(true)), None);
    assert_eq!(command.phase, StopCommandPhase::RemoveLog);
    assert_eq!(command.advance(StopCommandEvent::LogRemoved(false)), None);
    assert_eq!(command.phase, StopCommandPhase::Reload);
    assert_eq!(
        command.advance(StopCommandEvent::ProxyReloaded(false)).as_deref(),
        Some("Stopped.")
    );
    assert_eq!(command.phase, StopCommandPhase::Done);
}

#[test]
fn stop_without_a_port_leaves_the_proxy_alone() {
    let mut state = AppState::default();
    state.add("a".to_string(), 5, None);
    let mut command = cmd_stop("a", &state);
    command.advance(StopCommandEvent::Stopped(true));
    assert_eq!(
        command.advance(StopCommandEvent::LogRemoved(true)).as_deref(),
        Some("Stopped.")
    );

    let mut failed = cmd_stop("nobody", &state);
    assert!(!failed.had_port);
    assert_eq!(failed.advance(StopCommandEvent::Stopped(false)), None);
    assert_eq!(failed.phase, StopCommandPhase::Failed);
}

#[test]
fn every_command_prunes_first() {
    let mut state = AppState::default();
    state.add("alive".to_string(), 1, None);
    state.add("dead".to_string(), 2, None);
    let mut h = run();
    assert_eq!(h.phase, RunPhase::LoadConfig);
    h.advance(RunEvent::ConfigLoaded(true), &mut state);
    h.advance(RunEvent::StateLoaded(true), &mut state);
    assert_eq!(h.phase, RunPhase::ProbeGroups);
    h.advance(RunEvent::GroupsProbed(LiveGroups { ids: vec![1] }), &mut state);
    assert_eq!(h.phase, RunPhase::SaveState);
    assert_eq!(state.groups(), vec![1]);
    h.advance(RunEvent::StateSaved(true), &mut state);
    h.advance(RunEvent::LogsCleaned(false), &mut state);
    assert_eq!(h.phase, RunPhase::Reconcile);
    h.advance(RunEvent::Reconciled(false), &mut state);
    assert_eq!(h.phase, RunPhase::Execute);
}

#[test]
fn state_is_not_written_when_nothing_died() {
    let mut state = AppState::default();
    state.add("alive".to_string(), 1, None);
    let mut h = run();
    h.advance(RunEvent::ConfigLoaded(true), &mut state);
    h.advance(RunEvent::StateLoaded(true), &mut state);
    h.advance(RunEvent::GroupsProbed(LiveGroups { ids: vec![1] }), &mut state);
    assert_eq!(h.phase, RunPhase::CleanLogs);
}

#[test]
fn lost_files_stop_every_command() {
    let mut state = AppState::default();
    let mut h = run();
    h.advance(RunEvent::ConfigLoaded(false), &mut state);
    assert_eq!(h.phase, RunPhase::Failed);

    let mut h = run();
    h.advance(RunEvent::ConfigLoaded(true), &mut state);
    h.advance(RunEvent::StateLoaded(false), &mut state);
    assert_eq!(h.phase, RunPhase::Failed);

    let mut h = run();
    state.add("dead".to_string(), 2, None);
    h.advance(RunEvent::ConfigLoaded(true), &mut state);
    h.advance(RunEvent::StateLoaded(true), &mut state);
    h.advance(RunEvent::GroupsProbed(LiveGroups { ids: vec![] }), &mut state);
    h.advance(RunEvent::StateSaved(false), &mut state);
    assert_eq!(h.phase, RunPhase::Failed);
}

#[test]
fn warnings_name_their_cause() {
    assert_eq!(
        warning(Trouble::LogCleanup, false, "no"),
        "warning: log cleanup failed: no"
    );
    assert_eq!(
        warning(Trouble::ProxyReload, true, "no"),
        "  warning: caddy reload failed: no"
    );
}
