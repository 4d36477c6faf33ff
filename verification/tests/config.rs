use devhub::config::{
    default_startup_timeout_ms, expand_path, expand_path_of, expand_path_with,
};
use devhub::dirs::{
    caddyfile_path, caddyfile_path_in, caddyfile_path_of, devhub_dir_of, logs_dir, logs_dir_in,
    logs_dir_of, proj_path, proj_path_in, proj_path_of, resolved_devhub_dir, state_path,
    state_path_in, state_path_of, FilePath,
};

fn path(bytes: &[u8]) -> FilePath {
    FilePath { bytes: bytes.to_vec() }
}

#[test]
fn expand_tilde_in_path() {
    let home = dirs::home_dir().unwrap();
    let expanded = expand_path("~/Projects/test");
    assert_eq!(expanded, format!("{}/Projects/test", home.display()));
}

#[test]
fn no_expand_for_absolute_path() {
    let expanded = expand_path("/absolute/path");
    assert_eq!(expanded, "/absolute/path");
}

#[test]
fn only_a_leading_tilde_is_expanded() {
    assert_eq!(expand_path_with("~/a/~/b", Some("/h")), "/h/a/~/b");
    assert_eq!(expand_path_with("~/", Some("/h")), "/h/");
    assert_eq!(expand_path_with("~//x", Some("/h")), "/h//x");
    assert_eq!(expand_path_with("~", Some("/h")), "~");
    assert_eq!(expand_path_with("~you/x", Some("/h")), "~you/x");
    assert_eq!(expand_path_with("", Some("/h")), "");
    assert_eq!(expand_path_with("~/x", None), "~/x");
}

#[test]
fn paths_follow_from_the_home_directory() {
    assert_eq!(expand_path_of("~/a", Some(path(b"/home/you"))), "/home/you/a");
    assert_eq!(expand_path_of("~/a", Some(path(b"/\xff"))), "/\u{fffd}/a");
    assert_eq!(expand_path_of("~/a", None), "~/a");
    assert_eq!(expand_path_of("/a", Some(path(b"/home/you"))), "/a");
}

#[test]
fn readiness_is_awaited_for_a_minute() {
    assert_eq!(default_startup_timeout_ms(), 60_000);
}

#[test]
fn files_lie_below_the_home_directory() {
    let dir = devhub_dir_of(Some(path(b"/home/you"))).unwrap();
    assert_eq!(dir.display(), "/home/you/.devhub");
    assert_eq!(proj_path_in(&dir).display(), "/home/you/.devhub/proj.json");
    assert_eq!(state_path_in(&dir).display(), "/home/you/.devhub/state.json");
    assert_eq!(caddyfile_path_in(&dir).display(), "/home/you/.devhub/Caddyfile");
    assert_eq!(logs_dir_in(&dir).display(), "/home/you/.devhub/logs");
}

#[test]
fn files_lie_below_the_home_directory_of_the_user() {
    let dir = dirs::home_dir().unwrap().join(".devhub");
    assert_eq!(resolved_devhub_dir().unwrap().display(), dir.display().to_string());
    assert_eq!(proj_path().unwrap().display(), dir.join("proj.json").display().to_string());
    assert_eq!(state_path().unwrap().display(), dir.join("state.json").display().to_string());
    assert_eq!(caddyfile_path().unwrap().display(), dir.join("Caddyfile").display().to_string());
    assert_eq!(logs_dir().unwrap().display(), dir.join("logs").display().to_string());
}

#[test]
fn files_follow_from_the_home_directory_alone() {
    let home = || Some(path(b"/home/you"));
    assert_eq!(proj_path_of(home()).unwrap().display(), "/home/you/.devhub/proj.json");
    assert_eq!(state_path_of(home()).unwrap().display(), "/home/you/.devhub/state.json");
    assert_eq!(caddyfile_path_of(home()).unwrap().display(), "/home/you/.devhub/Caddyfile");
    assert_eq!(logs_dir_of(home()).unwrap().display(), "/home/you/.devhub/logs");
    assert!(proj_path_of(None).is_err());
    assert!(state_path_of(None).is_err());
    assert!(caddyfile_path_of(None).is_err());
    assert!(logs_dir_of(None).is_err());
}

#[test]
fn no_home_no_directory() {
    let error = devhub_dir_of(None).unwrap_err();
    assert_eq!(error.message(), "could not determine home directory");
}

#[test]
fn paths_are_joined_as_the_system_does() {
    assert_eq!(path(b"/a").join("b").bytes, b"/a/b");
    assert_eq!(path(b"/a/").join("b").bytes, b"/a/b");
    assert_eq!(path(b"").join("b").bytes, b"b");
    assert_eq!(path(b"/a").join("/b").bytes, b"/b");
    assert_eq!(path(b"/a").join("").bytes, b"/a/");
    assert_eq!(path(b"/\xff").join("\u{e4}").display(), "/\u{fffd}/\u{e4}");
}
