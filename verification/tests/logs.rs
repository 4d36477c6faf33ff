use devhub::dirs::FilePath;
use devhub::logs::{
    cleanup_outdated_logs, is_outdated, log_file_name, log_tail_start, open_failure,
    project_log_path, project_log_path_in, project_log_path_of, read_log_tail,
    read_project_log_tail, read_project_log_tail_of, remove_if_exists, remove_project_log,
    remove_project_log_of, tail_of_text, FileFault, LogEntry, LogReading, ReadEvent,
    ReadPhase, LOG_RETENTION_NANOS,
};
use devhub::state::AppState;

fn path(text: &str) -> FilePath {
    FilePath { bytes: text.as_bytes().to_vec() }
}

fn entry(name: &str, modified: i128) -> LogEntry {
    LogEntry { is_file: true, file_name: name.to_string(), modified: Some(modified) }
}

/// What is shown of a log with this content.
fn shown(content: &[u8]) -> Option<String> {
    let mut reading = read_log_tail(path("/x.log"));
    reading.advance(ReadEvent::Opened(Ok(())));
    reading.advance(ReadEvent::Measured(Some(content.len() as u64)));
    if let ReadPhase::Read(start) = reading.phase {
        reading.advance(ReadEvent::Got(Some(content[start as usize..].to_vec())));
    }
    match reading.phase {
        ReadPhase::Shown(tail) => tail,
        _ => panic!("the log was not read"),
    }
}

#[test]
fn cleanup_outdated_logs_removes_only_inactive_old_logs() {
    let mut state = AppState::default();
    state.add("active".to_string(), 1, None);

    let now: i128 = 1_700_000_000_000_000_000;
    let stale_time = now - (LOG_RETENTION_NANOS + 1_000_000_000);
    let fresh_time = now - 60 * 1_000_000_000;

    let entries = vec![
        entry("active.log", stale_time),
        entry("stale.log", stale_time),
        entry("fresh.log", fresh_time),
    ];

    let removed = cleanup_outdated_logs(&state, &entries, now);

    assert_eq!(removed.len(), 1);
    assert_eq!(entries[removed[0]].file_name, "stale.log");
}

#[test]
fn cleanup_keeps_what_is_no_old_log() {
    let now: i128 = 2 * LOG_RETENTION_NANOS;
    let none: Vec<String> = Vec::new();
    assert!(is_outdated(&entry("a.log", LOG_RETENTION_NANOS), &none, now));
    assert!(!is_outdated(&entry("a.log", LOG_RETENTION_NANOS + 1), &none, now));
    assert!(!is_outdated(&entry("a.log", i128::MAX), &none, now));
    assert!(is_outdated(&entry(".log", 0), &none, now));
    assert!(!is_outdated(&entry("a.txt", 0), &none, now));
    assert!(!is_outdated(&entry("log", 0), &none, now));
    assert!(!is_outdated(&entry("a.log", 0), &vec!["a.log".to_string()], now));
    assert!(is_outdated(&entry("a.log", 0), &none, now + 1));
    let directory = LogEntry { is_file: false, file_name: "a.log".to_string(), modified: Some(0) };
    assert!(!is_outdated(&directory, &none, now));
    let undated = LogEntry { is_file: true, file_name: "a.log".to_string(), modified: None };
    assert!(!is_outdated(&undated, &none, now));
}

#[test]
fn cleanup_goes_through_the_entries_in_order() {
    let entries =
        vec![entry("b.log", 0), entry("b.txt", 0), entry("a.log", 0), entry("x_y.log", 0)];
    let mut state = AppState::default();
    assert_eq!(cleanup_outdated_logs(&state, &entries, LOG_RETENTION_NANOS), vec![0, 2, 3]);
    state.add("x/y".to_string(), 1, None);
    assert_eq!(cleanup_outdated_logs(&state, &entries, LOG_RETENTION_NANOS), vec![0, 2]);
}

#[test]
fn read_log_tail_returns_last_lines() {
    let content = (0..60)
        .map(|idx| format!("line-{idx}"))
        .collect::<Vec<_>>()
        .join("\n");

    let tail = shown(content.as_bytes()).unwrap();
    assert!(tail.contains("line-59"));
    assert!(!tail.contains("line-0"));
    assert!(tail.starts_with("line-20\n"));
    assert_eq!(tail.lines().count(), 40);
}

#[test]
fn first_line_of_a_long_log_is_dropped() {
    let mut content = vec![b'x'; 8192];
    content.extend_from_slice(b"\nsecond\nthird\n");
    assert_eq!(log_tail_start(content.len() as u64), Some(14));
    assert_eq!(shown(&content).as_deref(), Some("second\nthird"));

    let unbroken = vec![b'y'; 9000];
    assert_eq!(shown(&unbroken).map(|s| s.len()), Some(8192));
}

#[test]
fn short_log_is_read_from_its_start() {
    assert_eq!(log_tail_start(0), None);
    assert_eq!(log_tail_start(8192), Some(0));
    assert_eq!(log_tail_start(8193), Some(1));
    assert_eq!(shown(b"one\r\ntwo\r\n").as_deref(), Some("one\ntwo"));
    assert_eq!(shown(b"one\n\n").as_deref(), Some("one\n"));
    assert_eq!(shown(b"one\r").as_deref(), Some("one\r"));
}

#[test]
fn blank_or_empty_log_shows_nothing() {
    assert_eq!(shown(b""), None);
    assert_eq!(shown(b" \n\t\r\n\xe2\x80\x83\n"), None);
    assert_eq!(tail_of_text("\u{3000}x").as_deref(), Some("\u{3000}x"));
}

#[test]
fn bytes_that_are_no_text_are_replaced() {
    assert_eq!(shown(b"a\xffb").as_deref(), Some("a\u{fffd}b"));
    assert_eq!(shown("gr\u{fc}n".as_bytes()).as_deref(), Some("gr\u{fc}n"));
}

#[test]
fn log_that_is_not_there_shows_nothing() {
    let mut absent = read_log_tail(path("/x.log"));
    absent.advance(ReadEvent::Opened(Err(FileFault::NotFound)));
    assert!(matches!(absent.phase, ReadPhase::Shown(None)));

    let mut closed = read_log_tail(path("/x.log"));
    closed.advance(ReadEvent::Opened(Err(FileFault::Other)));
    assert!(matches!(closed.phase, ReadPhase::NotOpened));
    assert_eq!(open_failure(&closed.path), "failed to open log file /x.log");

    let mut unmeasured = read_log_tail(path("/x.log"));
    unmeasured.advance(ReadEvent::Opened(Ok(())));
    unmeasured.advance(ReadEvent::Measured(None));
    assert!(matches!(unmeasured.phase, ReadPhase::NotRead));

    let mut unread: LogReading = read_log_tail(path("/x.log"));
    unread.advance(ReadEvent::Got(Some(vec![65])));
    assert!(matches!(unread.phase, ReadPhase::Open));
    unread.advance(ReadEvent::Opened(Ok(())));
    unread.advance(ReadEvent::Measured(Some(3)));
    unread.advance(ReadEvent::Got(None));
    assert!(matches!(unread.phase, ReadPhase::NotRead));
}

#[test]
fn logs_are_named_after_their_projects() {
    assert_eq!(log_file_name("worth"), "worth.log");
    assert_eq!(log_file_name("A-z_0.9"), "A-z_0.9.log");
    assert_eq!(log_file_name("../a b/\u{e4}"), ".._a_b__.log");
    assert_eq!(log_file_name(""), ".log");
}

#[test]
fn logs_lie_in_their_directory() {
    assert_eq!(
        project_log_path_in(&path("/h/.devhub"), "/etc/x").display(),
        "/h/.devhub/logs/_etc_x.log"
    );
    let home = dirs::home_dir().unwrap();
    let expected = home.join(".devhub").join("logs").join("worth.log");
    assert_eq!(project_log_path("worth").unwrap().display(), expected.display().to_string());
    assert_eq!(
        remove_project_log("worth").unwrap().path.display(),
        expected.display().to_string()
    );
    assert_eq!(
        read_project_log_tail("worth").unwrap().path.display(),
        expected.display().to_string()
    );
}

#[test]
fn logs_follow_from_the_home_directory_and_the_name() {
    let expected = "/home/you/.devhub/logs/worth.log";
    let home = || Some(path("/home/you"));
    assert_eq!(project_log_path_of(home(), "worth").unwrap().display(), expected);
    assert_eq!(remove_project_log_of(home(), "worth").unwrap().path.display(), expected);
    let reading = read_project_log_tail_of(home(), "worth").unwrap();
    assert_eq!(reading.path.display(), expected);
    assert!(matches!(reading.phase, ReadPhase::Open));
    assert!(project_log_path_of(None, "worth").is_err());
    assert!(remove_project_log_of(None, "worth").is_err());
    assert!(read_project_log_tail_of(None, "worth").is_err());
}

#[test]
fn removing_a_log_that_is_not_there_is_no_fault() {
    assert_eq!(remove_if_exists(Ok(())), Ok(()));
    assert_eq!(remove_if_exists(Err(FileFault::NotFound)), Ok(()));
    assert_eq!(remove_if_exists(Err(FileFault::Other)), Err(FileFault::Other));

    let removal = remove_project_log("worth").unwrap();
    assert_eq!(removal.conclude(Ok(())), Ok(()));
    assert_eq!(removal.conclude(Err(FileFault::NotFound)), Ok(()));
    let message = removal.conclude(Err(FileFault::Other)).unwrap_err();
    assert!(message.starts_with("failed to remove log file "));
    assert!(message.ends_with("/.devhub/logs/worth.log"));
}
