//! The user's projects.

use crate::dirs::{home_dir, FilePath};
use crate::names::NameMap;
use crate::text::{chars_of, slice_text, utf8_lossy};
use vstd::prelude::*;
use vstd::string::*;
use vstd::utf8::{decode_utf8, valid_utf8};

verus! {

/// How long a start waits for readiness where the config does not say, in
/// milliseconds.
pub fn default_startup_timeout_ms() -> (ms: u64)
    ensures
        ms == 60_000,
{
    60_000
}

/// A project as the user configures it.
#[derive(Debug)]
pub struct ProjectConfig {
    /// The project's directory; a leading `~/` stands for the home directory.
    pub path: String,
    /// The shell command that starts the project.
    pub cmd: String,
    /// The port that the project listens on.
    pub port: Option<u16>,
    /// How long a start waits for readiness, in milliseconds.
    pub startup_timeout_ms: u64,
    /// The shell command that tells whether the project is ready.
    pub ready_cmd: Option<String>,
}

impl Clone for ProjectConfig {
    fn clone(&self) -> (c: Self)
        ensures
            c == *self,
    {
        ProjectConfig {
            path: self.path.clone(),
            cmd: self.cmd.clone(),
            port: self.port,
            startup_timeout_ms: self.startup_timeout_ms,
            ready_cmd: match &self.ready_cmd {
                Some(cmd) => Some(cmd.clone()),
                None => None,
            },
        }
    }
}

/// The projects that the user configured, by name.
#[derive(Debug)]
pub struct Config {
    pub projects: NameMap<ProjectConfig>,
}

impl Clone for Config {
    fn clone(&self) -> (copy: Self)
        ensures
            copy.projects@ == self.projects@,
    {
        let copy = Config { projects: self.projects.clone() };
        assert(copy.projects@ =~= self.projects@);
        copy
    }
}

/// Whether `path` starts below the home directory.
pub open spec fn below_home(path: Seq<char>) -> bool {
    path.len() >= 2 && path[0] == '~' && path[1] == '/'
}

/// `path` with the home directory `home` in place of a leading `~`. A path
/// that does not start with `~/` stays as it is, and so does every path where
/// no home directory is known.
pub open spec fn expanded(path: Seq<char>, home: Option<Seq<char>>) -> Seq<char> {
    match home {
        Some(h) if below_home(path) => h + "/"@ + path.skip(2),
        _ => path,
    }
}

/// `path` with the home directory `home` in place of a leading `~`.
pub fn expand_path_with(path: &str, home: Option<&str>) -> (s: String)
    ensures
        s@ == expanded(
            path@,
            match home {
                Some(h) => Some(h@),
                None => None,
            },
        ),
{
    let chars = chars_of(path);
    if chars.len() >= 2 && chars[0] == '~' && chars[1] == '/' {
        if let Some(h) = home {
            let mut s = h.to_owned();
            s.append("/");
            s.append(slice_text(&chars, 2, chars.len()).as_str());
            assert(path@.subrange(2, path@.len() as int) =~= path@.skip(2));
            return s;
        }
    }
    path.to_owned()
}

/// How the home directory `home` is written in an expanded path; what is not
/// UTF-8 in it shows as U+FFFD.
pub open spec fn shown_home(home: Option<FilePath>) -> Option<Seq<char>> {
    match home {
        Some(h) => Some(utf8_lossy(h@)),
        None => None,
    }
}

/// `path` with the home directory in place of a leading `~`, for a user with
/// this home directory.
pub fn expand_path_of(path: &str, home: Option<FilePath>) -> (s: String)
    ensures
        s@ == expanded(path@, shown_home(home)),
        home matches Some(h) ==> valid_utf8(h@) ==> s@ == expanded(path@, Some(decode_utf8(h@))),
{
    match home {
        Some(h) => {
            let shown = h.display();
            expand_path_with(path, Some(shown.as_str()))
        },
        None => expand_path_with(path, None),
    }
}

/// `path` with the user's home directory in place of a leading `~`.
pub fn expand_path(path: &str) -> (s: String)
    ensures
        !below_home(path@) ==> s@ == path@,
        exists|home: Option<FilePath>| s@ == expanded(path@, #[trigger] shown_home(home)),
{
    let home = home_dir();
    expand_path_of(path, home)
}

} // verus!
