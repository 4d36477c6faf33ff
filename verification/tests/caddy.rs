use devhub::caddy::{
    caddy_args, generate_caddyfile, reconcile_caddy, reload_caddy, run_caddy, CaddyCommand,
    ReloadAction, ReloadEvent, ReloadFailure,
};
use devhub::state::{AppState, LiveGroups, Timestamp};

fn make_state(entries: Vec<(&str, u32, Option<u16>)>) -> AppState {
    let mut state = AppState::default();
    for (name, pid, port) in entries {
        state.add(name.to_string(), pid, port);
    }
    state
}

const APP: &str = "http://app.localhost:1300 {\n    reverse_proxy localhost:8080\n}";

#[test]
fn generate_empty_caddyfile() {
    let state = AppState::default();
    let content = generate_caddyfile(&state);
    assert!(content.is_empty());
}

#[test]
fn generate_caddyfile_with_ports() {
    let state = make_state(vec![
        ("worth", 100, Some(3000)),
        ("blog", 101, Some(4000)),
        ("noport", 102, None),
    ]);

    let content = generate_caddyfile(&state);

    assert!(content.contains("http://worth.localhost:1300"));
    assert!(content.contains("reverse_proxy localhost:3000"));
    assert!(content.contains("http://blog.localhost:1300"));
    assert!(content.contains("reverse_proxy localhost:4000"));
    assert!(!content.contains("noport.local"));
}

#[test]
fn caddyfile_format() {
    let state = make_state(vec![("app", 100, Some(8080))]);

    let content = generate_caddyfile(&state);
    let expected = "http://app.localhost:1300 {\n    reverse_proxy localhost:8080\n}";
    assert_eq!(content, expected);
}

#[test]
fn routes_are_parted_by_an_empty_line() {
    let state = make_state(vec![("app", 100, Some(8080)), ("b", 7, None), ("c", 9, Some(0))]);
    let second = "http://c.localhost:1300 {\n    reverse_proxy localhost:0\n}";
    assert_eq!(generate_caddyfile(&state), format!("{APP}\n\n{second}"));
}

#[test]
fn projects_without_ports_leave_the_config_empty() {
    assert_eq!(generate_caddyfile(&make_state(vec![("a", 1, None), ("b", 2, None)])), "");
}

#[test]
fn route_goes_with_its_project() {
    let mut state = make_state(vec![("app", 100, Some(8080)), ("blog", 101, Some(4000))]);
    state.remove("blog");
    assert_eq!(generate_caddyfile(&state), APP);
}

#[test]
fn pruned_projects_lose_their_routes() {
    let mut state = make_state(vec![("blog", 101, Some(4000)), ("app", 100, Some(8080))]);
    state.prune_dead(&LiveGroups { ids: vec![100] });
    assert_eq!(generate_caddyfile(&state), APP);
}

#[test]
fn config_does_not_depend_on_group_or_time() {
    let mut state = AppState::default();
    state.add_at("app".to_string(), 4711, Some(8080), Timestamp { secs: 5, nanos: 6 });
    assert_eq!(generate_caddyfile(&state), APP);
}

#[test]
fn reconciling_settles_on_what_was_generated() {
    let state = make_state(vec![("app", 100, Some(8080))]);
    assert!(!reconcile_caddy(&state, Some(APP.as_bytes().to_vec())));
    assert!(reconcile_caddy(&state, Some(format!("{APP}\n").into_bytes())));
    assert!(reconcile_caddy(&state, Some(vec![0xff])));
    assert!(reconcile_caddy(&state, None));

    let empty = AppState::default();
    assert!(!reconcile_caddy(&empty, None));
    assert!(!reconcile_caddy(&empty, Some(Vec::new())));
    assert!(reconcile_caddy(&empty, Some(APP.as_bytes().to_vec())));
}

#[test]
fn routes_are_written_before_a_reload() {
    let mut reload = reload_caddy(&make_state(vec![("app", 100, Some(8080))]));
    assert!(matches!(reload.next_action(), ReloadAction::WriteFile(content) if content == APP));
    assert!(matches!(
        reload.advance(ReloadEvent::FileWritten(true)),
        ReloadAction::RunCaddy(CaddyCommand::Reload)
    ));
    assert!(matches!(reload.advance(ReloadEvent::CaddyRan(true)), ReloadAction::Succeed));
    assert!(matches!(reload.advance(ReloadEvent::CaddyBroken), ReloadAction::Succeed));
}

#[test]
fn proxy_that_does_not_reload_is_started() {
    for refusal in [ReloadEvent::CaddyRan(false), ReloadEvent::CaddyBroken] {
        let mut reload = reload_caddy(&make_state(vec![("app", 100, Some(8080))]));
        reload.advance(ReloadEvent::FileWritten(true));
        assert!(matches!(
            reload.advance(refusal),
            ReloadAction::RunCaddy(CaddyCommand::Start)
        ));
        assert!(matches!(reload.advance(ReloadEvent::CaddyRan(true)), ReloadAction::Succeed));
    }
}

#[test]
fn proxy_failures_are_told() {
    let state = make_state(vec![("app", 100, Some(8080))]);

    let mut unwritten = reload_caddy(&state);
    assert!(matches!(
        unwritten.advance(ReloadEvent::FileWritten(false)),
        ReloadAction::Fail(ReloadFailure::NotWritten)
    ));
    assert_eq!(
        unwritten.failure_message("/h/Caddyfile").as_deref(),
        Some("failed to write Caddyfile to /h/Caddyfile")
    );

    let mut slow = reload_caddy(&state);
    slow.advance(ReloadEvent::FileWritten(true));
    slow.advance(ReloadEvent::CaddyRan(false));
    assert!(matches!(
        slow.advance(ReloadEvent::CaddyRan(false)),
        ReloadAction::Fail(ReloadFailure::NotStarted)
    ));
    assert_eq!(
        slow.failure_message("/h/Caddyfile").as_deref(),
        Some("caddy start did not complete in time")
    );

    let mut missing = reload_caddy(&state);
    missing.advance(ReloadEvent::FileWritten(true));
    missing.advance(ReloadEvent::CaddyBroken);
    assert!(matches!(
        missing.advance(ReloadEvent::CaddyBroken),
        ReloadAction::Fail(ReloadFailure::NotRun)
    ));
    assert_eq!(missing.failure_message("/h/Caddyfile"), None);
}

#[test]
fn proxy_without_routes_is_stopped_and_its_config_removed() {
    let mut reload = reload_caddy(&AppState::default());
    assert!(matches!(reload.next_action(), ReloadAction::LookForFile));
    assert!(matches!(
        reload.advance(ReloadEvent::FileExists(true)),
        ReloadAction::RunCaddy(CaddyCommand::Stop)
    ));
    assert!(matches!(reload.advance(ReloadEvent::CaddyBroken), ReloadAction::RemoveFile));
    assert!(matches!(reload.advance(ReloadEvent::FileRemoved(true)), ReloadAction::Succeed));

    let mut stuck = reload_caddy(&AppState::default());
    stuck.advance(ReloadEvent::FileExists(true));
    stuck.advance(ReloadEvent::CaddyRan(true));
    assert!(matches!(
        stuck.advance(ReloadEvent::FileRemoved(false)),
        ReloadAction::Fail(ReloadFailure::NotRemoved)
    ));

    let mut nothing = reload_caddy(&AppState::default());
    assert!(matches!(nothing.advance(ReloadEvent::FileExists(false)), ReloadAction::Succeed));
}

#[test]
fn caddy_is_told_a_word_and_its_config() {
    assert_eq!(
        caddy_args(CaddyCommand::Stop, "/h/Caddyfile"),
        vec!["stop", "--config", "/h/Caddyfile"]
    );
    assert_eq!(caddy_args(CaddyCommand::Reload, "x")[0], "reload");
    assert_eq!(caddy_args(CaddyCommand::Start, "x")[0], "start");
    assert!(run_caddy(Some(true)));
    assert!(!run_caddy(Some(false)));
    assert!(!run_caddy(None));
}
