//! Where the files of the program lie.

use crate::text::{decode_lossy, utf8_lossy};
use vstd::prelude::*;
use vstd::string::*;

verus! {

/// A path, as the bytes that the operating system knows it by. They need not
/// be UTF-8.
#[derive(Debug)]
pub struct FilePath {
    pub bytes: Vec<u8>,
}

impl View for FilePath {
    type V = Seq<u8>;

    open spec fn view(&self) -> Seq<u8> {
        self.bytes@
    }
}

/// The path of `leaf` seen from the directory `base`: an absolute `leaf` stands
/// for itself; any other follows `base`, behind one slash if `base` does not
/// end with one. Nothing parts `leaf` from an empty `base`.
pub open spec fn path_join(base: Seq<u8>, leaf: Seq<u8>) -> Seq<u8> {
    if leaf.len() > 0 && leaf[0] == 47 {
        leaf
    } else if base.len() == 0 || base.last() == 47 {
        base + leaf
    } else {
        base.push(47) + leaf
    }
}

/// The bytes of the path that a text writes down.
pub open spec fn path_bytes(text: Seq<char>) -> Seq<u8> {
    vstd::utf8::encode_utf8(text)
}

impl FilePath {
    /// The path of `leaf` seen from the directory `self`.
    pub fn join(&self, leaf: &str) -> (p: FilePath)
        ensures
            p@ == path_join(self@, path_bytes(leaf@)),
    {
        let tail = leaf.as_bytes();
        let mut bytes: Vec<u8> = Vec::new();
        if !(tail.len() > 0 && tail[0] == 47) {
            bytes.extend_from_slice(self.bytes.as_slice());
            if bytes.len() > 0 && bytes[bytes.len() - 1] != 47 {
                bytes.push(47);
            }
        }
        bytes.extend_from_slice(tail);
        assert(bytes@ =~= path_join(self@, path_bytes(leaf@)));
        FilePath { bytes }
    }

    /// The path as a text to show; what is not UTF-8 in it shows as U+FFFD.
    pub fn display(&self) -> (s: String)
        ensures
            s@ == utf8_lossy(self@),
            vstd::utf8::valid_utf8(self@) ==> s@ == vstd::utf8::decode_utf8(self@),
    {
        decode_lossy(&self.bytes)
    }
}

/// The home directory of the user is not known.
#[derive(Debug, Clone, Copy, PartialEq, Eq, Structural)]
pub struct NoHome;

impl NoHome {
    /// What the user is told.
    pub fn message(&self) -> (s: String)
        ensures
            s@ == "could not determine home directory"@,
    {
        "could not determine home directory".to_owned()
    }
}

/// `dirs::home_dir`: the user's home directory, as far as `$HOME` or the user
/// database gives one. Nothing is claimed of it: it is the machine's to say.
#[verifier::external_body]
pub(crate) fn home_dir() -> (home: Option<FilePath>) {
    ::dirs::home_dir().map(|p| FilePath { bytes: p.into_os_string().into_encoded_bytes() })
}

/// The directory of the program below the home directory `home`.
pub open spec fn devhub_dir_below(home: Seq<u8>) -> Seq<u8> {
    path_join(home, path_bytes(".devhub"@))
}

/// The directory of the program, for a user with this home directory.
pub fn devhub_dir_of(home: Option<FilePath>) -> (r: Result<FilePath, NoHome>)
    ensures
        match home {
            Some(h) => r matches Ok(p) && p@ == devhub_dir_below(h@),
            None => r == Err::<FilePath, NoHome>(NoHome),
        },
{
    match home {
        Some(h) => Ok(h.join(".devhub")),
        None => Err(NoHome),
    }
}

/// The directory of the program. It may not exist yet.
pub fn resolved_devhub_dir() -> (r: Result<FilePath, NoHome>)
    ensures
        r matches Ok(p) ==> exists|home: Seq<u8>| p@ == #[trigger] devhub_dir_below(home),
{
    let home = home_dir();
    devhub_dir_of(home)
}

/// The config file in the directory `dir` of the program.
pub fn proj_path_in(dir: &FilePath) -> (p: FilePath)
    ensures
        p@ == path_join(dir@, path_bytes("proj.json"@)),
{
    dir.join("proj.json")
}

/// The state file in the directory `dir` of the program.
pub fn state_path_in(dir: &FilePath) -> (p: FilePath)
    ensures
        p@ == path_join(dir@, path_bytes("state.json"@)),
{
    dir.join("state.json")
}

/// The generated Caddy config in the directory `dir` of the program.
pub fn caddyfile_path_in(dir: &FilePath) -> (p: FilePath)
    ensures
        p@ == path_join(dir@, path_bytes("Caddyfile"@)),
{
    dir.join("Caddyfile")
}

/// The directory of the logs in the directory `dir` of the program.
pub fn logs_dir_in(dir: &FilePath) -> (p: FilePath)
    ensures
        p@ == path_join(dir@, path_bytes("logs"@)),
{
    dir.join("logs")
}

/// The user's config file, for a user with this home directory.
pub fn proj_path_of(home: Option<FilePath>) -> (r: Result<FilePath, NoHome>)
    ensures
        match home {
            Some(h) => r matches Ok(p) && p@ == path_join(
                devhub_dir_below(h@),
                path_bytes("proj.json"@),
            ),
            None => r == Err::<FilePath, NoHome>(NoHome),
        },
{
    match devhub_dir_of(home) {
        Ok(dir) => Ok(proj_path_in(&dir)),
        Err(e) => Err(e),
    }
}

/// The user's config file: what can be run.
pub fn proj_path() -> (r: Result<FilePath, NoHome>)
    ensures
        r matches Ok(p) ==> exists|home: Seq<u8>|
            p@ == path_join(#[trigger] devhub_dir_below(home), path_bytes("proj.json"@)),
{
    let home = home_dir();
    proj_path_of(home)
}

/// The state file, for a user with this home directory.
pub fn state_path_of(home: Option<FilePath>) -> (r: Result<FilePath, NoHome>)
    ensures
        match home {
            Some(h) => r matches Ok(p) && p@ == path_join(
                devhub_dir_below(h@),
                path_bytes("state.json"@),
            ),
            None => r == Err::<FilePath, NoHome>(NoHome),
        },
{
    match devhub_dir_of(home) {
        Ok(dir) => Ok(state_path_in(&dir)),
        Err(e) => Err(e),
    }
}

/// The state file: what runs.
pub fn state_path() -> (r: Result<FilePath, NoHome>)
    ensures
        r matches Ok(p) ==> exists|home: Seq<u8>|
            p@ == path_join(#[trigger] devhub_dir_below(home), path_bytes("state.json"@)),
{
    let home = home_dir();
    state_path_of(home)
}

/// The generated Caddy config, for a user with this home directory.
pub fn caddyfile_path_of(home: Option<FilePath>) -> (r: Result<FilePath, NoHome>)
    ensures
        match home {
            Some(h) => r matches Ok(p) && p@ == path_join(
                devhub_dir_below(h@),
                path_bytes("Caddyfile"@),
            ),
            None => r == Err::<FilePath, NoHome>(NoHome),
        },
{
    match devhub_dir_of(home) {
        Ok(dir) => Ok(caddyfile_path_in(&dir)),
        Err(e) => Err(e),
    }
}

/// The generated Caddy config: what is proxied.
pub fn caddyfile_path() -> (r: Result<FilePath, NoHome>)
    ensures
        r matches Ok(p) ==> exists|home: Seq<u8>|
            p@ == path_join(#[trigger] devhub_dir_below(home), path_bytes("Caddyfile"@)),
{
    let home = home_dir();
    caddyfile_path_of(home)
}

/// The directory of the logs, for a user with this home directory.
pub fn logs_dir_of(home: Option<FilePath>) -> (r: Result<FilePath, NoHome>)
    ensures
        match home {
            Some(h) => r matches Ok(p) && p@ == path_join(
                devhub_dir_below(h@),
                path_bytes("logs"@),
            ),
            None => r == Err::<FilePath, NoHome>(NoHome),
        },
{
    match devhub_dir_of(home) {
        Ok(dir) => Ok(logs_dir_in(&dir)),
        Err(e) => Err(e),
    }
}

/// The directory of the logs. It may not exist yet.
pub fn logs_dir() -> (r: Result<FilePath, NoHome>)
    ensures
        r matches Ok(p) ==> exists|home: Seq<u8>|
            p@ == path_join(#[trigger] devhub_dir_below(home), path_bytes("logs"@)),
{
    let home = home_dir();
    logs_dir_of(home)
}

} // verus!
