//! What a log is called, what is shown of it, and when it goes.

use crate::dirs::path_join;
use crate::laws::dirs::law_leaf_comes_behind_the_directory;
use crate::laws::text::{law_blank_is_all_space, space_number};
use crate::logs::{
    active_log_names, law_log_stays_in_its_directory, last_lines, log_name_of, log_path_below,
    outdated, shown_tail, tail_start, whole_lines, FileFault, LogEntry, LogReading, ReadEvent,
    ReadPhase,
};
use crate::seqs::{first_index, lemma_first_index, lemma_first_index_bounds};
use crate::state::ProcessState;
use crate::text::{ends_with, joined, lines, text_of, utf8_lossy};
use vstd::prelude::*;
use vstd::utf8::{decode_utf8, encode_utf8, is_ascii_chars_encode_utf8, valid_utf8};

verus! {

/// Whether a character of this number may stand in a file name: a digit, a
/// letter of ASCII, a hyphen, an underscore or a full stop.
pub open spec fn plain_number(n: int) -> bool {
    ||| 48 <= n <= 57
    ||| 65 <= n <= 90
    ||| 97 <= n <= 122
    ||| n == 45
    ||| n == 95
    ||| n == 46
}

/// A log is called as its project, character by character, with an underscore
/// for each that may not stand in a file name, and `.log` behind.
pub proof fn law_log_is_called_as_its_project(name: Seq<char>)
    ensures
        log_name_of(name).len() == name.len() + 4,
        forall|i: int|
            0 <= i < name.len() ==> #[trigger] log_name_of(name)[i] == if plain_number(
                name[i] as int,
            ) {
                name[i]
            } else {
                '_'
            },
        log_name_of(name).skip(name.len() as int) == seq!['.', 'l', 'o', 'g'],
{
    reveal_strlit(".log");
    assert(log_name_of(name).skip(name.len() as int) =~= seq!['.', 'l', 'o', 'g']);
}

/// A log lies in the directory `logs` of the program's directory, under its
/// name.
pub proof fn law_log_lies_among_the_logs(dir: Seq<u8>, name: Seq<char>)
    requires
        dir.len() > 0,
        dir.last() != 47,
    ensures
        log_path_below(dir, name) == dir + seq![47u8, 108u8, 111u8, 103u8, 115u8, 47u8]
            + encode_utf8(log_name_of(name)),
{
    reveal_strlit("logs");
    let leaf = encode_utf8("logs"@);
    is_ascii_chars_encode_utf8("logs"@);
    assert(leaf =~= seq![108u8, 111u8, 103u8, 115u8]) by {
        assert("logs"@[0] as u8 == leaf[0]);
        assert("logs"@[1] as u8 == leaf[1]);
        assert("logs"@[2] as u8 == leaf[2]);
        assert("logs"@[3] as u8 == leaf[3]);
    }
    law_leaf_comes_behind_the_directory(dir, leaf);
    law_log_stays_in_its_directory(dir, name);
    assert(path_join(dir, leaf).push(47) =~= dir + seq![47u8, 108u8, 111u8, 103u8, 115u8, 47u8]);
}

/// Of a log the last 8 KiB are looked at, and all of one that is no longer.
pub proof fn law_last_bytes_are_looked_at(size: u64)
    ensures
        size <= 8192 ==> tail_start(size) == 0,
        size > 8192 ==> tail_start(size) + 8192 == size,
{
}

/// What is kept of the bytes that were read is always their end. Of a log that
/// is read from its first byte on nothing is dropped; else all goes up to the
/// first line break, if there is one.
pub proof fn law_only_a_cut_line_is_dropped(start: u64, cut: Seq<u8>, rest: Seq<u8>, buf: Seq<u8>)
    requires
        !cut.contains(10),
    ensures
        whole_lines(0, buf) == buf,
        start > 0 ==> whole_lines(start, cut) == cut,
        start > 0 ==> whole_lines(start, cut + seq![10u8] + rest) == rest,
        exists|k: int| 0 <= k <= buf.len() && whole_lines(start, buf) == #[trigger] buf.skip(k),
{
    assert forall|i: int| 0 <= i < cut.len() implies cut[i] != 10 by {
        assert(cut.contains(cut[i]));
    }
    let n = cut.len() as int;
    lemma_first_index(cut, 10u8, n);
    let all = cut + seq![10u8] + rest;
    assert(all[n] == 10);
    assert forall|i: int| 0 <= i < n implies all[i] != 10 by {
        assert(all[i] == cut[i]);
    }
    lemma_first_index(all, 10u8, n);
    assert(all.skip(n + 1) =~= rest);
    let end = first_index(buf, 10u8);
    lemma_first_index_bounds(buf, 10u8);
    assert(buf.skip(0) =~= buf);
    if start > 0 && end < buf.len() {
        assert(whole_lines(start, buf) == buf.skip(end + 1));
    } else {
        assert(whole_lines(start, buf) == buf.skip(0));
    }
}

/// The last 40 lines of a text are shown, or all if there are no more: they are
/// the end of its lines, as many as that.
pub proof fn law_forty_lines_are_shown(text: Seq<char>)
    ensures
        last_lines(text).len() == if lines(text).len() <= 40 {
            lines(text).len() as int
        } else {
            40
        },
        last_lines(text) == lines(text).skip(lines(text).len() - last_lines(text).len()),
{
    assert(lines(text).skip(0) =~= lines(text));
}

/// What is shown of a text is its last lines, put together again, exactly if
/// they hold anything but white space.
pub proof fn law_last_lines_are_shown(text: Seq<char>, shown: Seq<Seq<char>>)
    requires
        lines(text).len() <= 40 ==> shown == lines(text),
        lines(text).len() > 40 ==> shown == lines(text).skip(lines(text).len() - 40),
    ensures
        ({
            let tail = joined(shown, seq!['\n']);
            &&& shown_tail(text) is Some ==> shown_tail(text) == Some(tail)
            &&& shown_tail(text) is None <==> forall|i: int|
                0 <= i < tail.len() ==> space_number(#[trigger] tail[i] as int)
        }),
{
    reveal_strlit("\n");
    assert("\n"@ =~= seq!['\n']);
    let tail = joined(shown, seq!['\n']);
    law_blank_is_all_space(tail);
}

/// A log of at most 8 KiB that is text shows the last 40 of all its lines, so
/// that the last line that was written is the last that is shown.
pub proof fn law_short_log_is_shown_to_its_end(size: u64, buf: Seq<u8>, tail: Seq<char>)
    requires
        size == buf.len(),
        0 < size <= 8192,
        valid_utf8(buf),
        shown_tail(decode_utf8(whole_lines(tail_start(size), buf))) == Some(tail),
    ensures
        lines(decode_utf8(buf)).len() > 0,
        lines(decode_utf8(buf)).len() <= 40 ==> tail == joined(
            lines(decode_utf8(buf)),
            seq!['\n'],
        ),
        lines(decode_utf8(buf)).len() > 40 ==> tail == joined(
            lines(decode_utf8(buf)).skip(lines(decode_utf8(buf)).len() - 40),
            seq!['\n'],
        ),
        ends_with(tail, lines(decode_utf8(buf)).last()),
{
    let text = decode_utf8(buf);
    law_last_bytes_are_looked_at(size);
    law_only_a_cut_line_is_dropped(0, Seq::empty(), Seq::empty(), buf);
    let n = lines(text).len();
    let shown = if n <= 40 {
        lines(text)
    } else {
        lines(text).skip(n - 40)
    };
    law_last_lines_are_shown(text, shown);
    if shown.len() > 0 {
        assert(shown.last() == lines(text).last());
        assert(tail.skip(tail.len() - shown.last().len()) =~= shown.last());
    }
}

/// How a log is read: a log that is not there, or holds nothing, shows nothing;
/// any other is read from where its last 8 KiB start, and what is shown is the
/// tail of that. What the machine cannot do is told.
pub proof fn law_log_is_read_step_by_step(
    reading: LogReading,
    size: u64,
    start: u64,
    buf: Vec<u8>,
    after: ReadPhase,
)
    ensures
        reading.phase == ReadPhase::Open ==> {
            &&& reading.leads_to(ReadEvent::Opened(Ok(())), after) <==> after == ReadPhase::Measure
            &&& reading.leads_to(ReadEvent::Opened(Err(FileFault::NotFound)), after) <==> after
                == ReadPhase::Shown(None)
            &&& reading.leads_to(ReadEvent::Opened(Err(FileFault::Other)), after) <==> after
                == ReadPhase::NotOpened
        },
        reading.phase == ReadPhase::Measure ==> {
            &&& reading.leads_to(ReadEvent::Measured(Some(size)), after) <==> after == if size
                == 0 {
                ReadPhase::Shown(None)
            } else if size <= 8192 {
                ReadPhase::Read(0)
            } else {
                ReadPhase::Read((size - 8192) as u64)
            }
            &&& reading.leads_to(ReadEvent::Measured(None), after) <==> after == ReadPhase::NotRead
        },
        reading.phase == ReadPhase::Read(start) ==> {
            &&& reading.leads_to(ReadEvent::Got(Some(buf)), after) ==> {
                &&& after is Shown
                &&& text_of(after->Shown_0) == shown_tail(utf8_lossy(whole_lines(start, buf@)))
                &&& valid_utf8(whole_lines(start, buf@)) ==> text_of(after->Shown_0) == shown_tail(
                    decode_utf8(whole_lines(start, buf@)),
                )
            }
            &&& reading.leads_to(ReadEvent::Got(None), after) <==> after == ReadPhase::NotRead
        },
{
}

/// Only an answer to what was asked moves the reading on.
pub proof fn law_only_answers_move_the_reading_on(
    reading: LogReading,
    event: ReadEvent,
    after: ReadPhase,
)
    requires
        reading.leads_to(event, after),
    ensures
        after != reading.phase ==> match reading.phase {
            ReadPhase::Open => event is Opened,
            ReadPhase::Measure => event is Measured,
            ReadPhase::Read(_) => event is Got,
            _ => false,
        },
{
}

/// Whether `name` stands among `names`.
pub open spec fn named(names: Seq<Seq<char>>, name: Seq<char>) -> bool {
    exists|j: int| 0 <= j < names.len() && #[trigger] names[j] == name
}

/// A file goes exactly if it is a file called `.log` at the end, none of the
/// active logs is called so, and it was written a day ago or earlier; a file
/// that nobody knows when it was written stays.
pub proof fn law_old_inactive_logs_go(entry: LogEntry, active: Seq<Seq<char>>, now: i128)
    ensures
        outdated(entry, active, now) ==> {
            &&& entry.is_file
            &&& entry.file_name@.len() >= 4
            &&& entry.file_name@.skip(entry.file_name@.len() - 4) == seq!['.', 'l', 'o', 'g']
            &&& !named(active, entry.file_name@)
            &&& entry.modified is Some
            &&& now - entry.modified->0 >= 24 * 60 * 60 * 1_000_000_000
        },
        entry.is_file && entry.file_name@.len() >= 4 && entry.file_name@.skip(
            entry.file_name@.len() - 4,
        ) == seq!['.', 'l', 'o', 'g'] && !named(active, entry.file_name@) && entry.modified is Some
            && now - entry.modified->0 >= 24 * 60 * 60 * 1_000_000_000 ==> outdated(
            entry,
            active,
            now,
        ),
{
    reveal_strlit(".log");
    assert(".log"@ =~= seq!['.', 'l', 'o', 'g']);
    let name = entry.file_name@;
    if active.contains(name) {
        let j = choose|j: int| 0 <= j < active.len() && active[j] == name;
        assert(active[j] == name);
    }
}

/// The active logs are those of all started projects, in order.
pub proof fn law_every_started_project_has_an_active_log(
    entries: Seq<(Seq<char>, ProcessState)>,
)
    ensures
        active_log_names(entries).len() == entries.len(),
        forall|i: int|
            0 <= i < entries.len() ==> #[trigger] active_log_names(entries)[i] == log_name_of(
                entries[i].0,
            ),
{
}

} // verus!
