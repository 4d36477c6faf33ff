//! The logs of the projects: where they lie, what is shown of them, and when
//! they go.

use crate::dirs::{
    devhub_dir_below, devhub_dir_of, home_dir, logs_dir_in, path_bytes, path_join, FilePath, NoHome,
};
use crate::names::{lemma_lookup, lookup};
use crate::seqs::{first_index, lemma_first_index, occurrences};
use crate::state::{AppState, ProcessState};
use crate::text::{
    blank, chars_of, decode_lossy, ends_with, has_suffix, is_blank, join_from, joined,
    lemma_breaks_of_joined, lemma_lines_have_no_breaks, lines, split_lines, text_of, texts,
    utf8_lossy,
};
use vstd::prelude::*;
use vstd::string::*;
use vstd::utf8::{decode_utf8, valid_utf8};

verus! {

/// How long an inactive log is kept, in nanoseconds: one day.
pub const LOG_RETENTION_NANOS: i128 = 86_400_000_000_000;

/// How many bytes at the end of a log are looked at.
pub const LOG_TAIL_MAX_BYTES: u64 = 8192;

/// How many lines at the end of a log are shown.
pub const LOG_TAIL_MAX_LINES: usize = 40;

/// The characters that a file name takes over from a project's name.
pub open spec fn file_name_char(c: char) -> bool {
    ||| '0' <= c <= '9'
    ||| 'A' <= c <= 'Z'
    ||| 'a' <= c <= 'z'
    ||| c == '-'
    ||| c == '_'
    ||| c == '.'
}

/// The project's name, with an underscore for each character that a file
/// name does not take over.
pub open spec fn sanitized(name: Seq<char>) -> Seq<char> {
    name.map_values(
        |c: char|
            if file_name_char(c) {
                c
            } else {
                '_'
            },
    )
}

/// The file name of a project's log.
pub open spec fn log_name_of(name: Seq<char>) -> Seq<char> {
    sanitized(name) + ".log"@
}

/// The file name of a project's log.
pub fn log_file_name(name: &str) -> (s: String)
    ensures
        s@ == log_name_of(name@),
{
    let chars = chars_of(name);
    let mut s = String::new();
    for i in 0..chars.len()
        invariant
            chars@ == name@,
            s@ == sanitized(name@).take(i as int),
    {
        let c: char = chars[i];
        if ('0' <= c && c <= '9') || ('A' <= c && c <= 'Z') || ('a' <= c && c <= 'z') || c == '-'
            || c == '_' || c == '.' {
            s.push(c);
        } else {
            s.push('_');
        }
        assert(sanitized(name@).take(i + 1) =~= sanitized(name@).take(i as int).push(
            sanitized(name@)[i as int],
        ));
    }
    assert(sanitized(name@).take(name@.len() as int) =~= sanitized(name@));
    s.append(".log");
    s
}

/// The path of a project's log, in the directory `dir` of the program.
pub open spec fn log_path_below(dir: Seq<u8>, name: Seq<char>) -> Seq<u8> {
    path_join(path_join(dir, path_bytes("logs"@)), path_bytes(log_name_of(name)))
}

/// The path of a project's log, in the directory `dir` of the program.
pub fn project_log_path_in(dir: &FilePath, name: &str) -> (p: FilePath)
    ensures
        p@ == log_path_below(dir@, name@),
{
    logs_dir_in(dir).join(log_file_name(name).as_str())
}

/// The path of a project's log, for a user with this home directory.
pub fn project_log_path_of(home: Option<FilePath>, name: &str) -> (r: Result<FilePath, NoHome>)
    ensures
        match home {
            Some(h) => r matches Ok(p) && p@ == log_path_below(devhub_dir_below(h@), name@),
            None => r == Err::<FilePath, NoHome>(NoHome),
        },
{
    match devhub_dir_of(home) {
        Ok(dir) => Ok(project_log_path_in(&dir, name)),
        Err(e) => Err(e),
    }
}

/// The path of a project's log.
pub fn project_log_path(name: &str) -> (r: Result<FilePath, NoHome>)
    ensures
        r matches Ok(p) ==> exists|home: Seq<u8>|
            p@ == log_path_below(#[trigger] devhub_dir_below(home), name@),
{
    let home = home_dir();
    project_log_path_of(home, name)
}

/// Where in a log of `size` bytes the part starts that is looked at.
pub open spec fn tail_start(size: u64) -> u64 {
    if size <= LOG_TAIL_MAX_BYTES {
        0
    } else {
        (size - LOG_TAIL_MAX_BYTES) as u64
    }
}

/// Where to start reading a log of `size` bytes; nowhere if it is empty.
pub fn log_tail_start(size: u64) -> (start: Option<u64>)
    ensures
        start == if size == 0 {
            None
        } else {
            Some(tail_start(size))
        },
{
    if size == 0 {
        None
    } else if size <= LOG_TAIL_MAX_BYTES {
        Some(0)
    } else {
        Some(size - LOG_TAIL_MAX_BYTES)
    }
}

/// What was read of a log, from `start` on, without the line whose beginning
/// may not have been read. A part without any line break stays as it is.
pub open spec fn whole_lines(start: u64, buf: Seq<u8>) -> Seq<u8> {
    let end = first_index(buf, 10u8);
    if start > 0 && 0 <= end < buf.len() {
        buf.skip(end + 1)
    } else {
        buf
    }
}

/// What was read of a log, without a first line that may be cut off.
fn drop_cut_line(start: u64, buf: Vec<u8>) -> (rest: Vec<u8>)
    ensures
        rest@ == whole_lines(start, buf@),
{
    if start > 0 {
        for i in 0..buf.len()
            invariant
                start > 0,
                forall|j: int| 0 <= j < i ==> buf@[j] != 10,
        {
            if buf[i] == 10 {
                proof {
                    lemma_first_index(buf@, 10u8, i as int);
                }
                let ghost all = buf@;
                let mut front = buf;
                let rest = front.split_off(i + 1);
                assert(rest@ =~= all.skip(i + 1));
                return rest;
            }
        }
        proof {
            lemma_first_index(buf@, 10u8, buf@.len() as int);
        }
    }
    buf
}

/// The last lines of a text, as many as are shown.
pub open spec fn last_lines(text: Seq<char>) -> Seq<Seq<char>> {
    let all = lines(text);
    if all.len() <= LOG_TAIL_MAX_LINES {
        all
    } else {
        all.skip(all.len() - LOG_TAIL_MAX_LINES)
    }
}

/// What is shown of a text: its last lines, unless they are blank.
pub open spec fn shown_tail(text: Seq<char>) -> Option<Seq<char>> {
    let tail = joined(last_lines(text), "\n"@);
    if blank(tail) {
        None
    } else {
        Some(tail)
    }
}

/// What is shown of a text: its last lines, unless they are blank.
pub fn tail_of_text(text: &str) -> (tail: Option<String>)
    ensures
        text_of(tail) == shown_tail(text@),
{
    let all = split_lines(text);
    let mut from: usize = 0;
    if all.len() > LOG_TAIL_MAX_LINES {
        from = all.len() - LOG_TAIL_MAX_LINES;
    }
    let tail = join_from(&all, from, "\n");
    assert(texts(all@).skip(0) =~= texts(all@));
    if is_blank(tail.as_str()) {
        None
    } else {
        Some(tail)
    }
}

/// What is shown of a log, of which `buf` was read from `start` on.
pub fn log_tail(start: u64, buf: Vec<u8>) -> (tail: Option<String>)
    ensures
        text_of(tail) == shown_tail(utf8_lossy(whole_lines(start, buf@))),
        valid_utf8(whole_lines(start, buf@)) ==> text_of(tail) == shown_tail(
            decode_utf8(whole_lines(start, buf@)),
        ),
{
    let content = decode_lossy(&drop_cut_line(start, buf));
    tail_of_text(content.as_str())
}

/// What kept a file from being opened or removed.
#[derive(Debug, Clone, Copy, PartialEq, Eq, Structural)]
pub enum FileFault {
    NotFound,
    Other,
}

/// How the removal of a log ends that was tried with this outcome: a log that
/// is not there is as good as removed.
pub fn remove_if_exists(outcome: Result<(), FileFault>) -> (r: Result<(), FileFault>)
    ensures
        r == match outcome {
            Err(FileFault::Other) => Err::<(), FileFault>(FileFault::Other),
            _ => Ok::<(), FileFault>(()),
        },
{
    match outcome {
        Err(FileFault::Other) => Err(FileFault::Other),
        _ => Ok(()),
    }
}

/// The removal of a log.
#[derive(Debug)]
pub struct LogRemoval {
    /// The file to remove.
    pub path: FilePath,
}

impl LogRemoval {
    /// How the removal ends that was tried with this outcome, and what the user
    /// is told of a failure, besides what the machine had to say.
    pub fn conclude(&self, outcome: Result<(), FileFault>) -> (r: Result<(), String>)
        ensures
            match outcome {
                Err(FileFault::Other) => r matches Err(s) && {
                    &&& s@ == "failed to remove log file "@ + utf8_lossy(self.path@)
                    &&& valid_utf8(self.path@) ==> s@ == "failed to remove log file "@
                        + decode_utf8(self.path@)
                },
                _ => r is Ok,
            },
    {
        match remove_if_exists(outcome) {
            Ok(()) => Ok(()),
            Err(_) => {
                let mut s = "failed to remove log file ".to_owned();
                s.append(self.path.display().as_str());
                Err(s)
            },
        }
    }
}

/// Begins to remove the log of a project, for a user with this home directory.
pub fn remove_project_log_of(home: Option<FilePath>, name: &str) -> (r: Result<LogRemoval, NoHome>)
    ensures
        match home {
            Some(h) => r matches Ok(removal) && removal.path@ == log_path_below(
                devhub_dir_below(h@),
                name@,
            ),
            None => r == Err::<LogRemoval, NoHome>(NoHome),
        },
{
    match project_log_path_of(home, name) {
        Ok(path) => Ok(LogRemoval { path }),
        Err(e) => Err(e),
    }
}

/// Begins to remove the log of a project.
pub fn remove_project_log(name: &str) -> (r: Result<LogRemoval, NoHome>)
    ensures
        r matches Ok(removal) ==> exists|home: Seq<u8>|
            removal.path@ == log_path_below(#[trigger] devhub_dir_below(home), name@),
{
    let home = home_dir();
    remove_project_log_of(home, name)
}

/// What the user is told of a log that cannot be opened, besides what the
/// machine had to say.
pub fn open_failure(path: &FilePath) -> (s: String)
    ensures
        s@ == "failed to open log file "@ + utf8_lossy(path@),
        valid_utf8(path@) ==> s@ == "failed to open log file "@ + decode_utf8(path@),
{
    let mut s = "failed to open log file ".to_owned();
    s.append(path.display().as_str());
    s
}

/// How far the reading of a log has come.
#[derive(Debug)]
pub enum ReadPhase {
    Open,
    /// The log is open: how many bytes does it hold?
    Measure,
    /// The log is to be read from this byte on.
    Read(u64),
    /// This is to be shown of the log, if anything.
    Shown(Option<String>),
    /// The log is there, but could not be opened.
    NotOpened,
    /// The log is open, but could not be read.
    NotRead,
}

/// The reading of a log.
#[derive(Debug)]
pub struct LogReading {
    pub path: FilePath,
    pub phase: ReadPhase,
}

/// What came of a step of the reading.
#[derive(Debug)]
pub enum ReadEvent {
    Opened(Result<(), FileFault>),
    /// How many bytes the log holds, if that can be told.
    Measured(Option<u64>),
    /// What was read, if that could be done.
    Got(Option<Vec<u8>>),
}

impl LogReading {
    /// Whether `after` is the phase that follows when `event` came of this one.
    /// A log that is not there, or is empty, or shows nothing but white space,
    /// has nothing to show. An event that is no answer to this phase changes
    /// nothing.
    pub open spec fn leads_to(self, event: ReadEvent, after: ReadPhase) -> bool {
        match (self.phase, event) {
            (ReadPhase::Open, ReadEvent::Opened(Ok(()))) => after == ReadPhase::Measure,
            (ReadPhase::Open, ReadEvent::Opened(Err(FileFault::NotFound))) => after
                == ReadPhase::Shown(None),
            (ReadPhase::Open, ReadEvent::Opened(Err(FileFault::Other))) => after
                == ReadPhase::NotOpened,
            (ReadPhase::Measure, ReadEvent::Measured(Some(size))) => if size == 0 {
                after == ReadPhase::Shown(None)
            } else {
                after == ReadPhase::Read(tail_start(size))
            },
            (ReadPhase::Measure, ReadEvent::Measured(None)) => after == ReadPhase::NotRead,
            (ReadPhase::Read(start), ReadEvent::Got(Some(buf))) => after matches ReadPhase::Shown(
                tail,
            ) && text_of(tail) == shown_tail(utf8_lossy(whole_lines(start, buf@))) && (valid_utf8(
                whole_lines(start, buf@),
            ) ==> text_of(tail) == shown_tail(decode_utf8(whole_lines(start, buf@)))),
            (ReadPhase::Read(_), ReadEvent::Got(None)) => after == ReadPhase::NotRead,
            (phase, _) => after == phase,
        }
    }

    /// Takes in what came of the last step.
    pub fn advance(&mut self, event: ReadEvent)
        ensures
            final(self).path == old(self).path,
            old(self).leads_to(event, final(self).phase),
    {
        let mut phase = ReadPhase::NotRead;
        std::mem::swap(&mut phase, &mut self.phase);
        self.phase = match (phase, event) {
            (ReadPhase::Open, ReadEvent::Opened(Ok(()))) => ReadPhase::Measure,
            (ReadPhase::Open, ReadEvent::Opened(Err(FileFault::NotFound))) => ReadPhase::Shown(
                None,
            ),
            (ReadPhase::Open, ReadEvent::Opened(Err(FileFault::Other))) => ReadPhase::NotOpened,
            (ReadPhase::Measure, ReadEvent::Measured(Some(size))) => {
                match log_tail_start(size) {
                    Some(start) => ReadPhase::Read(start),
                    None => ReadPhase::Shown(None),
                }
            },
            (ReadPhase::Measure, ReadEvent::Measured(None)) => ReadPhase::NotRead,
            (ReadPhase::Read(start), ReadEvent::Got(Some(buf))) => ReadPhase::Shown(
                log_tail(start, buf),
            ),
            (ReadPhase::Read(_), ReadEvent::Got(None)) => ReadPhase::NotRead,
            (phase, _) => phase,
        };
    }
}

/// Begins to read the log at `path`.
pub fn read_log_tail(path: FilePath) -> (r: LogReading)
    ensures
        r == (LogReading { path, phase: ReadPhase::Open }),
{
    LogReading { path, phase: ReadPhase::Open }
}

/// Begins to read the log of a project, for a user with this home directory.
pub fn read_project_log_tail_of(home: Option<FilePath>, name: &str) -> (r: Result<
    LogReading,
    NoHome,
>)
    ensures
        match home {
            Some(h) => r matches Ok(reading) && reading.phase == ReadPhase::Open
                && reading.path@ == log_path_below(devhub_dir_below(h@), name@),
            None => r == Err::<LogReading, NoHome>(NoHome),
        },
{
    match project_log_path_of(home, name) {
        Ok(path) => Ok(read_log_tail(path)),
        Err(e) => Err(e),
    }
}

/// Begins to read the log of a project.
pub fn read_project_log_tail(name: &str) -> (r: Result<LogReading, NoHome>)
    ensures
        r matches Ok(reading) ==> reading.phase == ReadPhase::Open && exists|home: Seq<u8>|
            reading.path@ == log_path_below(#[trigger] devhub_dir_below(home), name@),
{
    let home = home_dir();
    read_project_log_tail_of(home, name)
}

/// What the directory of the logs holds under one name.
#[derive(Debug)]
pub struct LogEntry {
    pub is_file: bool,
    pub file_name: String,
    /// When the file was last written, in nanoseconds since the start of 1970,
    /// if that can be told.
    pub modified: Option<i128>,
}

/// Whether a log is to go at the moment `now`: it is a log, no running project
/// writes to it, and it was last written a day ago or earlier. A file that was
/// written in the future, or nobody knows when, stays.
pub open spec fn outdated(entry: LogEntry, active_logs: Seq<Seq<char>>, now: i128) -> bool {
    &&& entry.is_file
    &&& ends_with(entry.file_name@, ".log"@)
    &&& !active_logs.contains(entry.file_name@)
    &&& entry.modified matches Some(m) && m <= now && now - m >= LOG_RETENTION_NANOS
}

/// Whether a log is to go at the moment `now`.
pub fn is_outdated(entry: &LogEntry, active_logs: &Vec<String>, now: i128) -> (b: bool)
    ensures
        b == outdated(*entry, texts(active_logs@), now),
{
    if !entry.is_file || !has_suffix(entry.file_name.as_str(), ".log") {
        return false;
    }
    for i in 0..active_logs.len()
        invariant
            forall|j: int| 0 <= j < i ==> texts(active_logs@)[j] != entry.file_name@,
    {
        if active_logs[i] == entry.file_name {
            assert(texts(active_logs@)[i as int] == entry.file_name@);
            return false;
        }
    }
    match entry.modified {
        Some(m) => m <= i128::MAX - LOG_RETENTION_NANOS && m + LOG_RETENTION_NANOS <= now,
        None => false,
    }
}

/// The file names of the logs that the started projects write to.
pub open spec fn active_log_names(entries: Seq<(Seq<char>, ProcessState)>) -> Seq<Seq<char>> {
    entries.map_values(|e: (Seq<char>, ProcessState)| log_name_of(e.0))
}

/// The file names of the logs that the started projects write to.
pub fn active_logs(state: &AppState) -> (v: Vec<String>)
    ensures
        texts(v@) == active_log_names(state.processes@),
{
    let n: usize = state.processes.len();
    let mut v: Vec<String> = Vec::new();
    for i in 0..n
        invariant
            n == state.processes@.len(),
            texts(v@) == active_log_names(state.processes@).take(i as int),
    {
        let ghost before = v@;
        v.push(log_file_name(state.processes.name_at(i).as_str()));
        proof {
            let all = active_log_names(state.processes@);
            assert(texts(v@) =~= texts(before).push(all[i as int]));
            assert(all.take(i + 1) =~= all.take(i as int).push(all[i as int]));
        }
    }
    assert(active_log_names(state.processes@).take(n as int) =~= active_log_names(
        state.processes@,
    ));
    v
}

/// Which of the `entries` of the directory of the logs are to go at the moment
/// `now`, by their numbers, in ascending order.
pub fn cleanup_outdated_logs(state: &AppState, entries: &Vec<LogEntry>, now: i128) -> (gone: Vec<
    usize,
>)
    ensures
        forall|k: int|
            0 <= k < gone@.len() ==> (#[trigger] gone@[k]) < entries@.len() && outdated(
                entries@[gone@[k] as int],
                active_log_names(state.processes@),
                now,
            ),
        forall|i: usize|
            i < entries@.len() && outdated(
                entries@[i as int],
                active_log_names(state.processes@),
                now,
            ) ==> #[trigger] gone@.contains(i),
        forall|j: int, k: int| 0 <= j < k < gone@.len() ==> gone@[j] < gone@[k],
{
    let active = active_logs(state);
    let mut gone: Vec<usize> = Vec::new();
    for n in 0..entries.len()
        invariant
            texts(active@) == active_log_names(state.processes@),
            forall|k: int|
                0 <= k < gone@.len() ==> (#[trigger] gone@[k]) < n && outdated(
                    entries@[gone@[k] as int],
                    active_log_names(state.processes@),
                    now,
                ),
            forall|i: usize|
                i < n && outdated(
                    entries@[i as int],
                    active_log_names(state.processes@),
                    now,
                ) ==> #[trigger] gone@.contains(i),
            forall|j: int, k: int| 0 <= j < k < gone@.len() ==> gone@[j] < gone@[k],
    {
        if is_outdated(&entries[n], &active, now) {
            let ghost before = gone@;
            gone.push(n);
            assert(gone@[before.len() as int] == n);
            assert forall|i: usize|
                i < n + 1 && outdated(
                    entries@[i as int],
                    active_log_names(state.processes@),
                    now,
                ) implies #[trigger] gone@.contains(i) by {
                if i < n {
                    assert(before.contains(i));
                    let k = choose|k: int| 0 <= k < before.len() && before[k] == i;
                    assert(gone@[k] == i);
                }
            }
        }
    }
    gone
}

/// A log lies right in the directory of the logs, whatever the project is
/// called: its file name holds no slash and nothing else that leads elsewhere.
pub proof fn law_log_stays_in_its_directory(dir: Seq<u8>, name: Seq<char>)
    ensures
        forall|i: int|
            0 <= i < log_name_of(name).len() ==> file_name_char(#[trigger] log_name_of(name)[i]),
        ({
            let logs = path_join(dir, path_bytes("logs"@));
            let file = path_bytes(log_name_of(name));
            &&& log_path_below(dir, name) == logs.push(47) + file
            &&& !file.contains(47)
        }),
{
    reveal_strlit(".log");
    reveal_strlit("logs");
    let log_name = log_name_of(name);
    assert forall|i: int| 0 <= i < log_name.len() implies file_name_char(#[trigger] log_name[i]) by {
        if i < name.len() {
            assert(log_name[i] == sanitized(name)[i]);
        } else {
            assert(log_name[i] == ".log"@[i - name.len()]);
        }
    }
    let file = path_bytes(log_name);
    vstd::utf8::is_ascii_chars_encode_utf8(log_name);
    vstd::utf8::is_ascii_chars_encode_utf8("logs"@);
    assert forall|i: int| 0 <= i < file.len() implies file[i] != 47 by {
        assert(file_name_char(log_name[i]));
        assert(log_name[i] as u8 == file[i]);
    }
    let leaf = path_bytes("logs"@);
    assert("logs"@[0] as u8 == leaf[0]);
    assert("logs"@[3] as u8 == leaf[3]);
    assert(log_name.len() >= 4);
    let logs = path_join(dir, leaf);
    assert(logs.last() == leaf[3]);
}

/// Projects whose names are made of letters, digits, `-`, `_` and `.` have
/// logs of their own.
pub proof fn law_plain_names_have_their_own_logs(a: Seq<char>, b: Seq<char>)
    requires
        forall|i: int| 0 <= i < a.len() ==> file_name_char(#[trigger] a[i]),
        forall|i: int| 0 <= i < b.len() ==> file_name_char(#[trigger] b[i]),
        log_name_of(a) == log_name_of(b),
    ensures
        a == b,
{
    assert(log_name_of(a).len() == a.len() + ".log"@.len());
    assert(log_name_of(b).len() == b.len() + ".log"@.len());
    assert(sanitized(a) =~= a);
    assert(sanitized(b) =~= b);
    assert forall|i: int| 0 <= i < a.len() implies a[i] == b[i] by {
        assert(log_name_of(a)[i] == a[i]);
        assert(log_name_of(b)[i] == b[i]);
    }
    assert(a =~= b);
}

/// The log of a started project never goes, however old it is.
pub proof fn law_active_logs_stay(
    processes: Seq<(Seq<char>, ProcessState)>,
    name: Seq<char>,
    entry: LogEntry,
    now: i128,
)
    requires
        lookup(processes, name) is Some,
        entry.file_name@ == log_name_of(name),
    ensures
        !outdated(entry, active_log_names(processes), now),
{
    lemma_lookup(processes, name);
    let i = choose|i: int|
        0 <= i < processes.len() && #[trigger] processes[i] == (name, lookup(processes, name)->0);
    assert(active_log_names(processes)[i] == log_name_of(name));
}

/// Once a log is outdated it stays so until a project writes to it or starts
/// under its name.
pub proof fn law_logs_only_grow_older(
    entry: LogEntry,
    active_logs: Seq<Seq<char>>,
    now: i128,
    later: i128,
)
    requires
        outdated(entry, active_logs, now),
        now <= later,
    ensures
        outdated(entry, active_logs, later),
{
}

/// What is shown of a log ends with the last line of the log.
pub proof fn law_tail_ends_with_the_last_line(text: Seq<char>)
    ensures
        shown_tail(text) matches Some(tail) ==> lines(text).len() > 0 && ends_with(
            tail,
            lines(text).last(),
        ),
{
    if shown_tail(text) is Some {
        let last = last_lines(text);
        let tail = joined(last, "\n"@);
        if last.len() > 0 {
            assert(last.last() == lines(text).last());
            assert(tail.skip(tail.len() - last.last().len()) =~= last.last());
        }
    }
}

/// No more lines of a log are shown than there may be: the line breaks are
/// fewer than the lines allowed.
pub proof fn law_tail_is_short(text: Seq<char>)
    ensures
        shown_tail(text) matches Some(tail) ==> occurrences(tail, '\n') < LOG_TAIL_MAX_LINES,
{
    let last = last_lines(text);
    let tail = joined(last, "\n"@);
    lemma_lines_have_no_breaks(text);
    assert forall|i: int| 0 <= i < last.len() implies occurrences(#[trigger] last[i], '\n') == 0 by {
        let all = lines(text);
        if all.len() > LOG_TAIL_MAX_LINES {
            assert(last[i] == all[i + all.len() - LOG_TAIL_MAX_LINES]);
        }
    }
    lemma_breaks_of_joined(last);
}

} // verus!
