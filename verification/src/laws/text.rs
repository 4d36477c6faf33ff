//! What numerals, columns, lines and blanks are.

use crate::seqs::lemma_first_index;
use crate::text::{
    blank, decimal, ends_with, joined, lines, padded, signed_decimal, text_of, texts,
};
use vstd::prelude::*;

verus! {

/// The number that a row of digits stands for, read in base ten.
pub open spec fn number_read(s: Seq<char>) -> int
    decreases s.len(),
{
    if s.len() == 0 {
        0
    } else {
        number_read(s.drop_last()) * 10 + (s.last() as int - 48)
    }
}

/// Whether `s` is how `n` is written: digits, no leading zero, and reading them
/// gives `n`.
pub open spec fn numeral_of(s: Seq<char>, n: nat) -> bool {
    &&& s.len() > 0
    &&& forall|i: int| 0 <= i < s.len() ==> 48 <= #[trigger] s[i] as int <= 57
    &&& s.len() > 1 ==> s[0] as int != 48
    &&& number_read(s) == n
}

/// Reading the numeral of a number gives the number.
pub proof fn law_numerals_read_back(n: nat)
    ensures
        numeral_of(decimal(n), n),
    decreases n,
{
    let s = decimal(n);
    if n < 10 {
        assert(s.drop_last() =~= seq![]);
        assert(number_read(s.drop_last()) == 0);
    } else {
        law_numerals_read_back(n / 10);
        let front = decimal(n / 10);
        assert(s.drop_last() =~= front);
        assert forall|i: int| 0 <= i < s.len() implies 48 <= #[trigger] s[i] as int <= 57 by {
            if i < front.len() {
                assert(s[i] == front[i]);
            }
        }
        assert(s[0] == front[0]);
        if front.len() == 1 {
            assert(front.drop_last() =~= seq![]);
            assert(number_read(front.drop_last()) == 0);
            assert(number_read(front) == front[0] as int - 48);
        }
    }
}

/// A row of digits that does not start with zero stands for a number that is
/// not zero.
proof fn lemma_leading_digit_counts(s: Seq<char>)
    requires
        s.len() > 0,
        forall|i: int| 0 <= i < s.len() ==> 48 <= #[trigger] s[i] as int <= 57,
        s[0] as int != 48,
    ensures
        number_read(s) >= 1,
    decreases s.len(),
{
    let front = s.drop_last();
    if front.len() > 0 {
        assert forall|i: int| 0 <= i < front.len() implies 48 <= #[trigger] front[i] as int
            <= 57 by {
            assert(front[i] == s[i]);
        }
        lemma_leading_digit_counts(front);
        assert(48 <= s[s.len() - 1] as int);
    } else {
        assert(number_read(front) == 0);
    }
}

/// There is one way to write a number, and two numbers are never written alike.
pub proof fn law_numerals_are_the_only_ones(s: Seq<char>, n: nat)
    requires
        numeral_of(s, n),
    ensures
        s == decimal(n),
        forall|m: nat| numeral_of(s, m) ==> m == n,
    decreases s.len(),
{
    let front = s.drop_last();
    let last = s[s.len() - 1];
    assert(48 <= last as int <= 57);
    if s.len() == 1 {
        assert(number_read(front) == 0);
        assert(s =~= decimal(n));
    } else {
        assert forall|i: int| 0 <= i < front.len() implies 48 <= #[trigger] front[i] as int
            <= 57 by {
            assert(front[i] == s[i]);
        }
        lemma_leading_digit_counts(front);
        let m = number_read(front) as nat;
        law_numerals_are_the_only_ones(front, m);
        assert(n == m * 10 + (last as int - 48));
        assert(n / 10 == m);
        assert(n % 10 == last as int - 48);
        assert(s =~= front.push(last));
    }
}

/// A number below zero is written as a minus sign and its magnitude, any other
/// as it is.
pub proof fn law_signs_go_in_front(n: int)
    ensures
        n >= 0 ==> numeral_of(signed_decimal(n), n as nat),
        n < 0 ==> {
            &&& signed_decimal(n).len() > 1
            &&& signed_decimal(n)[0] == '-'
            &&& numeral_of(signed_decimal(n).skip(1), (-n) as nat)
        },
{
    if n < 0 {
        reveal_strlit("-");
        law_numerals_read_back((-n) as nat);
        assert(signed_decimal(n).skip(1) =~= decimal((-n) as nat));
    } else {
        law_numerals_read_back(n as nat);
    }
}

/// Whether `r` is `s` in a column of `width` characters: `s` comes first, only
/// spaces follow, and no more of them than the width asks for.
pub open spec fn fills(r: Seq<char>, s: Seq<char>, width: nat) -> bool {
    &&& s.len() <= r.len()
    &&& r.take(s.len() as int) == s
    &&& forall|i: int| s.len() <= i < r.len() ==> #[trigger] r[i] == ' '
    &&& r.len() == if s.len() < width {
        width
    } else {
        s.len()
    }
}

/// A column holds its text and spaces, and is as wide as asked for unless the
/// text is wider; nothing else fills it.
pub proof fn law_columns_are_filled(s: Seq<char>, width: nat)
    ensures
        fills(padded(s, width), s, width),
        forall|r: Seq<char>| #[trigger] fills(r, s, width) ==> r == padded(s, width),
{
    let p = padded(s, width);
    assert(p.take(s.len() as int) =~= s);
    assert forall|r: Seq<char>| #[trigger] fills(r, s, width) implies r == p by {
        assert forall|i: int| 0 <= i < r.len() implies r[i] == p[i] by {
            if i < s.len() {
                assert(r[i] == r.take(s.len() as int)[i]);
                assert(p[i] == p.take(s.len() as int)[i]);
            }
        }
        assert(r =~= p);
    }
}

/// Whether a character of this number is white space to Unicode.
pub open spec fn space_number(n: int) -> bool {
    ||| 9 <= n <= 13
    ||| n == 32
    ||| n == 133
    ||| n == 160
    ||| n == 5760
    ||| 8192 <= n <= 8202
    ||| n == 8232
    ||| n == 8233
    ||| n == 8239
    ||| n == 8287
    ||| n == 12288
}

/// A text is blank exactly if every character of it is white space.
pub proof fn law_blank_is_all_space(s: Seq<char>)
    ensures
        blank(s) <==> forall|i: int| 0 <= i < s.len() ==> space_number(#[trigger] s[i] as int),
{
    if blank(s) {
        assert forall|i: int| 0 <= i < s.len() implies space_number(#[trigger] s[i] as int) by {
            assert(crate::text::white_space(s[i]));
        }
    }
    if forall|i: int| 0 <= i < s.len() ==> space_number(#[trigger] s[i] as int) {
        assert forall|i: int| 0 <= i < s.len() implies crate::text::white_space(
            #[trigger] s[i],
        ) by {
            assert(space_number(s[i] as int));
        }
    }
}

/// The lines of a text, told from the front: nothing has none; what holds no
/// break is one line; and a line up to a break, which may be a return and a line
/// feed, comes before the lines of what follows.
pub proof fn law_lines_from_the_front(line: Seq<char>, rest: Seq<char>)
    requires
        !line.contains('\n'),
    ensures
        lines(Seq::<char>::empty()) == Seq::<Seq<char>>::empty(),
        line.len() > 0 ==> lines(line) == seq![line],
        lines(line + seq!['\r', '\n'] + rest) == seq![line] + lines(rest),
        !(line.len() > 0 && line.last() == '\r') ==> lines(line + seq!['\n'] + rest) == seq![line]
            + lines(rest),
{
    assert forall|i: int| 0 <= i < line.len() implies line[i] != '\n' by {
        assert(line.contains(line[i]));
    }
    lemma_first_index(line, '\n', line.len() as int);
    let n = line.len() as int;
    let a = line + seq!['\n'] + rest;
    assert(a[n] == '\n');
    assert forall|i: int| 0 <= i < n implies a[i] != '\n' by {
        assert(a[i] == line[i]);
    }
    lemma_first_index(a, '\n', n);
    assert(a.take(n) =~= line);
    assert(a.skip(n + 1) =~= rest);
    let b = line + seq!['\r', '\n'] + rest;
    assert(b[n] == '\r');
    assert(b[n + 1] == '\n');
    assert forall|i: int| 0 <= i < n + 1 implies b[i] != '\n' by {
        if i < n {
            assert(b[i] == line[i]);
        }
    }
    lemma_first_index(b, '\n', n + 1);
    assert(b.take(n + 1) =~= line.push('\r'));
    assert(b.take(n + 1).drop_last() =~= line);
    assert(b.skip(n + 2) =~= rest);
}

/// Parts are put together in order, with the separator between each two and
/// nowhere else.
pub proof fn law_parts_are_put_together(parts: Seq<Seq<char>>, last: Seq<char>, sep: Seq<char>)
    ensures
        joined(Seq::<Seq<char>>::empty(), sep) == Seq::<char>::empty(),
        joined(seq![last], sep) == last,
        parts.len() > 0 ==> joined(parts.push(last), sep) == joined(parts, sep) + sep + last,
{
    assert(parts.push(last).drop_last() =~= parts);
}

/// A text ends with exactly the texts that something can be put in front of to
/// make it.
pub proof fn law_ends_come_last(front: Seq<char>, suffix: Seq<char>, s: Seq<char>)
    ensures
        ends_with(front + suffix, suffix),
        ends_with(s, suffix) ==> s == s.take(s.len() - suffix.len()) + suffix,
{
    let whole = front + suffix;
    assert(whole.skip(whole.len() - suffix.len()) =~= suffix);
    if ends_with(s, suffix) {
        let n = s.len() - suffix.len();
        assert(s =~= s.take(n) + s.skip(n));
    }
}

/// A string stands for its characters, and a row of strings for the characters
/// of each.
pub proof fn law_strings_stand_for_their_characters(v: Seq<String>, s: String)
    ensures
        texts(v).len() == v.len(),
        forall|i: int| 0 <= i < v.len() ==> #[trigger] texts(v)[i] == v[i]@,
        text_of(Some(s)) == Some(s@),
        text_of(None) is None,
{
}

} // verus!
