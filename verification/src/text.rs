//! Making and taking apart text.

use crate::seqs::{
    first_index, lemma_first_index, lemma_first_index_bounds, lemma_no_occurrence,
    lemma_occurrences_of_sum, occurrences,
};
use vstd::prelude::*;
use vstd::string::*;

verus! {

/// `String::push`: the character given becomes the last one of the string.
pub assume_specification[ String::push ](s: &mut String, c: char)
    ensures
        final(s)@ == old(s)@.push(c),
;

/// What `String::from_utf8_lossy` makes of some bytes.
pub uninterp spec fn utf8_lossy(bytes: Seq<u8>) -> Seq<char>;

/// `String::from_utf8_lossy`: the text depends on the bytes alone. Bytes that
/// are UTF-8 give the text that they encode. How many U+FFFD stand for bytes
/// that are not is left open.
#[verifier::external_body]
pub(crate) fn decode_lossy(bytes: &Vec<u8>) -> (s: String)
    ensures
        s@ == utf8_lossy(bytes@),
        vstd::utf8::valid_utf8(bytes@) ==> s@ == vstd::utf8::decode_utf8(bytes@),
{
    String::from_utf8_lossy(bytes).into_owned()
}

/// The characters of `s`, in order.
pub fn chars_of(s: &str) -> (v: Vec<char>)
    ensures
        v@ == s@,
{
    let mut v: Vec<char> = Vec::new();
    for c in it: s.chars()
        invariant
            v@ == it.seq().take(it.index() as int),
            it.seq() == s@,
    {
        v.push(c);
    }
    v
}

/// The string made of the characters `v`, in order.
pub fn string_of(v: &Vec<char>) -> (s: String)
    ensures
        s@ == v@,
{
    let mut s = String::new();
    for i in 0..v.len()
        invariant
            s@ == v@.take(i as int),
    {
        s.push(v[i]);
        assert(v@.take(i + 1) =~= v@.take(i as int).push(v@[i as int]));
    }
    assert(v@.take(v@.len() as int) =~= v@);
    s
}

/// The character of a decimal digit.
pub open spec fn digit(d: nat) -> char {
    (d + '0' as nat) as char
}

/// The usual decimal numeral of `n`: no sign, no leading zero.
pub open spec fn decimal(n: nat) -> Seq<char>
    decreases n,
{
    if n < 10 {
        seq![digit(n)]
    } else {
        decimal(n / 10).push(digit(n % 10))
    }
}

/// The decimal numeral of `n`.
pub fn decimal_text(n: u64) -> (s: String)
    ensures
        s@ == decimal(n as nat),
    decreases n,
{
    let last: u8 = (n % 10) as u8;
    let c: char = (48 + last) as char;
    if n < 10 {
        let mut s = String::new();
        s.push(c);
        s
    } else {
        let mut s = decimal_text(n / 10);
        s.push(c);
        s
    }
}

/// The decimal numeral of `n`, behind a minus sign where `n` is negative.
pub open spec fn signed_decimal(n: int) -> Seq<char> {
    if n < 0 {
        "-"@ + decimal((-n) as nat)
    } else {
        decimal(n as nat)
    }
}

/// The decimal numeral of `n`, behind a minus sign where `n` is negative.
pub fn signed_decimal_text(n: i32) -> (s: String)
    ensures
        s@ == signed_decimal(n as int),
{
    if n < 0 {
        let magnitude: u64 = (-(n as i64)) as u64;
        let mut s = "-".to_owned();
        s.append(decimal_text(magnitude).as_str());
        s
    } else {
        decimal_text(n as u64)
    }
}

/// `n` spaces.
pub open spec fn spaces(n: nat) -> Seq<char> {
    Seq::new(n, |i: int| ' ')
}

/// `s`, filled up with spaces on the right until it is `width` characters
/// wide. A text that is wider already stays as it is.
pub open spec fn padded(s: Seq<char>, width: nat) -> Seq<char> {
    if s.len() < width {
        s + spaces((width - s.len()) as nat)
    } else {
        s
    }
}

/// `s`, left-aligned in a column of `width` characters.
pub fn pad_right(s: &str, width: usize) -> (r: String)
    ensures
        r@ == padded(s@, width as nat),
{
    let mut chars = chars_of(s);
    while chars.len() < width
        invariant
            chars@.len() <= width || chars@ == s@,
            s@.len() <= chars@.len(),
            chars@ == s@ + spaces((chars@.len() - s@.len()) as nat),
        decreases width - chars@.len(),
    {
        chars.push(' ');
        assert(chars@ =~= s@ + spaces((chars@.len() - s@.len()) as nat));
    }
    assert(s@ + spaces(0) =~= s@);
    string_of(&chars)
}

/// The characters with Unicode's White_Space property.
pub open spec fn white_space(c: char) -> bool {
    ||| '\u{9}' <= c <= '\u{d}'
    ||| c == ' '
    ||| c == '\u{85}'
    ||| c == '\u{a0}'
    ||| c == '\u{1680}'
    ||| '\u{2000}' <= c <= '\u{200a}'
    ||| c == '\u{2028}'
    ||| c == '\u{2029}'
    ||| c == '\u{202f}'
    ||| c == '\u{205f}'
    ||| c == '\u{3000}'
}

/// Whether `s` holds nothing but white space.
pub open spec fn blank(s: Seq<char>) -> bool {
    forall|i: int| 0 <= i < s.len() ==> white_space(#[trigger] s[i])
}

/// Whether `c` has Unicode's White_Space property.
pub fn is_white_space(c: char) -> (b: bool)
    ensures
        b == white_space(c),
{
    ('\u{9}' <= c && c <= '\u{d}') || c == ' ' || c == '\u{85}' || c == '\u{a0}' || c == '\u{1680}'
        || ('\u{2000}' <= c && c <= '\u{200a}') || c == '\u{2028}' || c == '\u{2029}' || c
        == '\u{202f}' || c == '\u{205f}' || c == '\u{3000}'
}

/// Whether nothing is left of `s` once white space is trimmed away.
pub fn is_blank(s: &str) -> (b: bool)
    ensures
        b == blank(s@),
{
    let chars = chars_of(s);
    for i in 0..chars.len()
        invariant
            chars@ == s@,
            forall|j: int| 0 <= j < i ==> white_space(#[trigger] s@[j]),
    {
        if !is_white_space(chars[i]) {
            return false;
        }
    }
    true
}

/// A line without the carriage return that ends it, if one does.
pub open spec fn without_return(line: Seq<char>) -> Seq<char> {
    if line.len() > 0 && line.last() == '\r' {
        line.drop_last()
    } else {
        line
    }
}

/// The lines of `s`. A line ends with `\n` or `\r\n`, and its ending is no
/// part of it; the last line may do without one.
pub open spec fn lines(s: Seq<char>) -> Seq<Seq<char>>
    decreases s.len(),
{
    let end = first_index(s, '\n');
    if s.len() == 0 {
        seq![]
    } else if end < 0 || end >= s.len() {
        seq![s]
    } else {
        seq![without_return(s.take(end))] + lines(s.skip(end + 1))
    }
}

/// The texts that the strings of `v` hold.
pub open spec fn texts(v: Seq<String>) -> Seq<Seq<char>> {
    v.map_values(|s: String| s@)
}

/// The text that a string holds, if there is a string.
pub open spec fn text_of(s: Option<String>) -> Option<Seq<char>> {
    match s {
        Some(x) => Some(x@),
        None => None,
    }
}

/// The string made of the characters of `v` from `from` up to `to`.
pub fn slice_text(v: &Vec<char>, from: usize, to: usize) -> (s: String)
    requires
        from <= to <= v@.len(),
    ensures
        s@ == v@.subrange(from as int, to as int),
{
    let mut s = String::new();
    for i in from..to
        invariant
            from <= to <= v@.len(),
            s@ == v@.subrange(from as int, i as int),
    {
        s.push(v[i]);
        assert(v@.subrange(from as int, i + 1) =~= v@.subrange(from as int, i as int).push(
            v@[i as int],
        ));
    }
    s
}

/// The lines of `s`.
pub fn split_lines(s: &str) -> (v: Vec<String>)
    ensures
        texts(v@) == lines(s@),
{
    let chars = chars_of(s);
    let mut v: Vec<String> = Vec::new();
    let mut start: usize = 0;
    let mut i: usize = 0;
    assert(chars@.skip(0) =~= chars@);
    assert(texts(v@) + lines(chars@) =~= lines(chars@));
    while i < chars.len()
        invariant
            start <= i <= chars@.len(),
            chars@ == s@,
            forall|j: int| start <= j < i ==> chars@[j] != '\n',
            texts(v@) + lines(chars@.skip(start as int)) == lines(chars@),
        decreases chars@.len() - i,
    {
        if chars[i] == '\n' {
            let ghost before = v@;
            let ghost rest = chars@.skip(start as int);
            let mut end: usize = i;
            if start < i && chars[i - 1] == '\r' {
                end = i - 1;
            }
            v.push(slice_text(&chars, start, end));
            proof {
                lemma_first_index(rest, '\n', i - start);
                let line = rest.take(i - start);
                assert(line =~= chars@.subrange(start as int, i as int));
                assert(without_return(line) =~= chars@.subrange(start as int, end as int));
                assert(rest.skip(i - start + 1) =~= chars@.skip(i + 1));
                assert(texts(v@) =~= texts(before).push(without_return(line)));
                assert(texts(v@) + lines(chars@.skip(i + 1)) =~= texts(before) + (seq![
                    without_return(line),
                ] + lines(chars@.skip(i + 1))));
            }
            start = i + 1;
        }
        i += 1;
    }
    if start < chars.len() {
        let ghost before = v@;
        let ghost rest = chars@.skip(start as int);
        v.push(slice_text(&chars, start, chars.len()));
        proof {
            lemma_first_index(rest, '\n', rest.len() as int);
            assert(rest =~= chars@.subrange(start as int, chars@.len() as int));
            assert(texts(v@) =~= texts(before) + seq![rest]);
        }
    } else {
        assert(chars@.skip(start as int) =~= seq![]);
        assert(texts(v@) + seq![] =~= texts(v@));
    }
    v
}

/// The parts one after the other, with `sep` between each two of them.
pub open spec fn joined(parts: Seq<Seq<char>>, sep: Seq<char>) -> Seq<char>
    decreases parts.len(),
{
    if parts.len() == 0 {
        seq![]
    } else if parts.len() == 1 {
        parts[0]
    } else {
        joined(parts.drop_last(), sep) + sep + parts.last()
    }
}

/// The strings of `v` from `from` on, with `sep` between each two of them.
pub fn join_from(v: &Vec<String>, from: usize, sep: &str) -> (s: String)
    requires
        from <= v@.len(),
    ensures
        s@ == joined(texts(v@).skip(from as int), sep@),
{
    let mut s = String::new();
    let ghost parts = texts(v@).skip(from as int);
    for i in from..v.len()
        invariant
            from <= v@.len(),
            parts == texts(v@).skip(from as int),
            s@ == joined(parts.take(i - from), sep@),
    {
        if from < i {
            s.append(sep);
        }
        s.append(v[i].as_str());
        proof {
            let longer = parts.take(i + 1 - from);
            assert(longer.drop_last() =~= parts.take(i - from));
            assert(longer.last() == v@[i as int]@);
            if from == i {
                assert(s@ =~= longer[0]);
            }
        }
    }
    assert(parts.take(parts.len() as int) =~= parts);
    s
}

/// No line holds a line break.
pub proof fn lemma_lines_have_no_breaks(s: Seq<char>)
    ensures
        forall|i: int| 0 <= i < lines(s).len() ==> occurrences(#[trigger] lines(s)[i], '\n') == 0,
    decreases s.len(),
{
    let end = first_index(s, '\n');
    lemma_first_index_bounds(s, '\n');
    if s.len() == 0 {
    } else if end >= s.len() {
        lemma_no_occurrence(s, '\n');
    } else {
        lemma_lines_have_no_breaks(s.skip(end + 1));
        lemma_no_occurrence(without_return(s.take(end)), '\n');
        assert forall|i: int| 0 <= i < lines(s).len() implies occurrences(
            #[trigger] lines(s)[i],
            '\n',
        ) == 0 by {
            if i > 0 {
                assert(lines(s)[i] == lines(s.skip(end + 1))[i - 1]);
            }
        }
    }
}

/// Lines put together again hold a line break between each two of them, and no
/// others.
pub proof fn lemma_breaks_of_joined(parts: Seq<Seq<char>>)
    requires
        forall|i: int| 0 <= i < parts.len() ==> occurrences(#[trigger] parts[i], '\n') == 0,
    ensures
        occurrences(joined(parts, "\n"@), '\n') == if parts.len() == 0 {
            0
        } else {
            parts.len() - 1
        },
    decreases parts.len(),
{
    if parts.len() >= 2 {
        let front = parts.drop_last();
        let sep = "\n"@;
        reveal_strlit("\n");
        lemma_breaks_of_joined(front);
        lemma_occurrences_of_sum(joined(front, sep), sep, '\n');
        lemma_occurrences_of_sum(joined(front, sep) + sep, parts.last(), '\n');
        lemma_no_occurrence(sep.drop_last(), '\n');
        assert(occurrences(sep, '\n') == 1);
        assert(parts.last() == parts[parts.len() - 1]);
    }
}

/// Whether `part` stands in `s`, from the character number `at` on.
pub open spec fn stands_at(part: Seq<char>, s: Seq<char>, at: int) -> bool {
    0 <= at <= s.len() - part.len() && s.subrange(at, at + part.len()) == part
}

/// Whether `part` stands somewhere in `s`.
pub open spec fn occurs_in(part: Seq<char>, s: Seq<char>) -> bool {
    exists|at: int| #[trigger] stands_at(part, s, at)
}

/// Every part stands somewhere in what the parts make together.
pub proof fn lemma_part_of_joined(parts: Seq<Seq<char>>, sep: Seq<char>, k: int)
    requires
        0 <= k < parts.len(),
    ensures
        occurs_in(parts[k], joined(parts, sep)),
    decreases parts.len(),
{
    let all = joined(parts, sep);
    let part = parts[k];
    if parts.len() == 1 {
        assert(all.subrange(0, part.len() as int) =~= part);
        assert(stands_at(part, all, 0));
    } else if k == parts.len() - 1 {
        let at = all.len() - part.len();
        assert(all.subrange(at, at + part.len()) =~= part);
        assert(stands_at(part, all, at));
    } else {
        let front = parts.drop_last();
        lemma_part_of_joined(front, sep, k);
        let shorter = joined(front, sep);
        let at = choose|at: int| stands_at(front[k], shorter, at);
        assert(all.subrange(at, at + part.len()) =~= shorter.subrange(at, at + part.len()));
        assert(stands_at(part, all, at));
    }
}

/// Whether `s` ends with `suffix`.
pub open spec fn ends_with(s: Seq<char>, suffix: Seq<char>) -> bool {
    suffix.len() <= s.len() && s.skip(s.len() - suffix.len()) == suffix
}

/// Whether `s` ends with `suffix`.
pub fn has_suffix(s: &str, suffix: &str) -> (b: bool)
    ensures
        b == ends_with(s@, suffix@),
{
    let chars = chars_of(s);
    let tail = chars_of(suffix);
    if chars.len() < tail.len() {
        return false;
    }
    let from: usize = chars.len() - tail.len();
    for i in 0..tail.len()
        invariant
            chars@ == s@,
            tail@ == suffix@,
            from + tail.len() == chars.len(),
            forall|j: int| 0 <= j < i ==> chars@[from + j] == tail@[j],
    {
        if chars[from + i] != tail[i] {
            assert(s@.skip(from as int)[i as int] != suffix@[i as int]);
            return false;
        }
    }
    assert(s@.skip(from as int) =~= suffix@);
    true
}

} // verus!
