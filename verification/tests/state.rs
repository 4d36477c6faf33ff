use devhub::names::NameMap;
use devhub::state::{AppState, LiveGroups, Timestamp};

#[test]
fn state_add_and_remove() {
    let mut state = AppState::default();
    state.add("test".to_string(), 9999, Some(8080));
    assert!(state.processes.contains_key("test"));

    let removed = state.remove("test");
    assert!(removed.is_some());
    assert_eq!(removed.unwrap().pid, 9999);
    assert!(state.processes.is_empty());
}

#[test]
fn prune_dead_processes() {
    let mut state = AppState::default();
    let current_pid = 4242;
    state.add("alive".to_string(), current_pid, None);
    state.add("dead".to_string(), 99999999, None);

    let dead = state.prune_dead(&LiveGroups { ids: vec![current_pid] });
    assert_eq!(dead, vec!["dead".to_string()]);
    assert_eq!(state.processes.len(), 1);
    assert!(state.processes.contains_key("alive"));
}

#[test]
fn added_projects_are_dated_now() {
    let before = chrono::Utc::now().timestamp();
    let mut state = AppState::default();
    state.add("test".to_string(), 1, None);
    let after = chrono::Utc::now().timestamp();
    let started = state.processes.get("test").unwrap().started_at;
    assert!(before <= started.secs && started.secs <= after);
    assert!(started.nanos < 1_000_000_000);
}

#[test]
fn adding_again_replaces_in_place() {
    let at = Timestamp { secs: 9, nanos: 1 };
    let mut state = AppState::default();
    state.add_at("a".to_string(), 1, None, at);
    state.add_at("b".to_string(), 2, Some(80), at);
    state.add_at("a".to_string(), 3, Some(81), at);
    assert_eq!(state.processes.len(), 2);
    assert_eq!(state.processes.name_at(0), "a");
    assert_eq!(state.processes.value_at(0).pid, 3);
    assert_eq!(state.processes.get("a").unwrap().port, Some(81));
    assert_eq!(state.processes.get("b").unwrap().started_at, at);
    assert_eq!(state.groups(), vec![3, 2]);
}

#[test]
fn running_means_known_and_alive() {
    let mut state = AppState::default();
    state.add("a".to_string(), 10, None);
    assert!(state.is_running("a", &LiveGroups { ids: vec![9, 10] }));
    assert!(!state.is_running("a", &LiveGroups { ids: vec![9] }));
    assert!(!state.is_running("b", &LiveGroups { ids: vec![9, 10] }));
}

#[test]
fn pruning_again_finds_nothing() {
    let live = LiveGroups { ids: vec![2, 4] };
    let mut state = AppState::default();
    for (name, pid) in [("a", 1), ("b", 2), ("c", 3), ("d", 4)] {
        state.add(name.to_string(), pid, None);
    }
    assert_eq!(state.prune_dead(&live), vec!["a", "c"]);
    assert_eq!(state.groups(), vec![2, 4]);
    assert!(state.prune_dead(&live).is_empty());
    assert_eq!(state.groups(), vec![2, 4]);
    assert!(state.is_running("b", &live));
}

#[test]
fn removing_what_was_added_restores_the_rest() {
    let mut state = AppState::default();
    state.add("a".to_string(), 1, None);
    state.add("b".to_string(), 2, None);
    assert!(state.remove("nobody").is_none());
    state.add("c".to_string(), 3, None);
    state.remove("c");
    assert_eq!(state.groups(), vec![1, 2]);
}

#[test]
fn names_keep_their_order() {
    let mut m: NameMap<u32> = NameMap::new();
    assert!(m.is_empty());
    m.insert("z".to_string(), 1);
    m.insert("a".to_string(), 2);
    m.insert("m".to_string(), 3);
    m.insert("z".to_string(), 4);
    assert_eq!(m.len(), 3);
    assert_eq!((m.name_at(0).as_str(), *m.value_at(0)), ("z", 4));
    assert_eq!(m.remove("a"), Some(2));
    assert_eq!(m.remove("a"), None);
    assert_eq!((m.name_at(1).as_str(), *m.value_at(1)), ("m", 3));
    assert_eq!(m.get("z"), Some(&4));
    assert_eq!(m.get("a"), None);
    assert!(!m.contains_key("a"));
}

#[test]
fn copies_are_independent() {
    let mut state = AppState::default();
    state.add_at("a".to_string(), 1, Some(80), Timestamp { secs: 9, nanos: 1 });
    let copy = state.clone();
    state.add("b".to_string(), 2, None);
    assert_eq!(copy.groups(), vec![1]);
    assert_eq!(copy.processes.get("a"), state.processes.get("a"));
}
