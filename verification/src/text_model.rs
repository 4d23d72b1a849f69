//! A mathematical model of text as a sequence of chars: UTF-8 byte offsets,
//! `\n`-separated lines, and the facts about them that the rope and wrapper
//! code relies on.

use vstd::prelude::*;

verus! {

/// The number of bytes of `c` in UTF-8.
pub open spec fn char_width(c: char) -> nat {
    if (c as u32) < 0x80 {
        1
    } else if (c as u32) < 0x800 {
        2
    } else if (c as u32) < 0x10000 {
        3
    } else {
        4
    }
}

/// The number of bytes of `s` in UTF-8.
pub open spec fn utf8_len(s: Seq<char>) -> nat
    decreases s.len(),
{
    if s.len() == 0 {
        0
    } else {
        utf8_len(s.drop_last()) + char_width(s.last())
    }
}

/// The byte offset at which the char with index `i` starts.
pub open spec fn byte_offset(s: Seq<char>, i: int) -> nat {
    utf8_len(s.take(i))
}

/// Whether byte offset `b` falls on a char boundary (the end counts).
pub open spec fn is_char_boundary(s: Seq<char>, b: int) -> bool {
    exists|c: int| 0 <= c <= s.len() && byte_offset(s, c) == b
}

/// The index of the char that starts at byte offset `b`.
pub open spec fn char_index_at(s: Seq<char>, b: int) -> int {
    choose|c: int| 0 <= c <= s.len() && byte_offset(s, c) == b
}

/// The number of `\n` in `s`.
pub open spec fn count_newlines(s: Seq<char>) -> nat
    decreases s.len(),
{
    if s.len() == 0 {
        0
    } else {
        count_newlines(s.drop_last()) + if s.last() == '\n' {
            1nat
        } else {
            0nat
        }
    }
}

/// The number of `\n` among the first `i` chars.
pub open spec fn newlines_before(s: Seq<char>, i: int) -> nat {
    count_newlines(s.take(i))
}

/// The number of lines: one more than the number of `\n`.
pub open spec fn lines_count(s: Seq<char>) -> nat {
    count_newlines(s) + 1
}

/// The index of the first `\n` at or after `from`, or `s.len()` if none.
pub open spec fn next_newline(s: Seq<char>, from: int) -> int
    decreases s.len() - from,
{
    if from < 0 || from >= s.len() {
        s.len() as int
    } else if s[from] == '\n' {
        from
    } else {
        next_newline(s, from + 1)
    }
}

/// The index of the first char of line `row`; `s.len()` past the last line.
pub open spec fn line_start(s: Seq<char>, row: nat) -> int
    decreases row,
{
    if row == 0 {
        0
    } else {
        let prev_end = next_newline(s, line_start(s, (row - 1) as nat));
        if prev_end < s.len() {
            prev_end + 1
        } else {
            s.len() as int
        }
    }
}

/// The index just past the last char of line `row`, its `\n` excluded.
pub open spec fn line_end(s: Seq<char>, row: nat) -> int {
    next_newline(s, line_start(s, row))
}

/// The chars of line `row`, without its `\n`; empty past the last line.
pub open spec fn line_text(s: Seq<char>, row: nat) -> Seq<char> {
    s.subrange(line_start(s, row), line_end(s, row))
}

// ----------------------------------------------------------------------
// UTF-8 lengths

pub proof fn lemma_utf8_len_concat(a: Seq<char>, b: Seq<char>)
    ensures
        utf8_len(a + b) == utf8_len(a) + utf8_len(b),
    decreases b.len(),
{
    if b.len() == 0 {
        assert(a + b =~= a);
    } else {
        assert((a + b).drop_last() =~= a + b.drop_last());
        lemma_utf8_len_concat(a, b.drop_last());
    }
}

pub proof fn lemma_utf8_len_ge_len(s: Seq<char>)
    ensures
        utf8_len(s) >= s.len(),
    decreases s.len(),
{
    if s.len() > 0 {
        lemma_utf8_len_ge_len(s.drop_last());
    }
}

/// Taking one more char adds that char's width.
pub proof fn lemma_byte_offset_succ(s: Seq<char>, i: int)
    requires
        0 <= i < s.len(),
    ensures
        byte_offset(s, i + 1) == byte_offset(s, i) + char_width(s[i]),
{
    assert(s.take(i + 1).drop_last() =~= s.take(i));
}

pub proof fn lemma_byte_offset_full(s: Seq<char>)
    ensures
        byte_offset(s, s.len() as int) == utf8_len(s),
        newlines_before(s, s.len() as int) == count_newlines(s),
{
    assert(s.take(s.len() as int) =~= s);
}

pub proof fn lemma_byte_offset_zero(s: Seq<char>)
    ensures
        byte_offset(s, 0) == 0,
        newlines_before(s, 0) == 0,
{
    assert(s.take(0) =~= Seq::<char>::empty());
}

/// Byte offsets grow by at least one byte per char.
pub proof fn lemma_byte_offset_mono(s: Seq<char>, i: int, j: int)
    requires
        0 <= i <= j <= s.len(),
    ensures
        byte_offset(s, i) + (j - i) <= byte_offset(s, j),
    decreases j - i,
{
    if i < j {
        lemma_byte_offset_mono(s, i, j - 1);
        lemma_byte_offset_succ(s, j - 1);
    }
}

/// Distinct char indices start at distinct byte offsets.
pub proof fn lemma_byte_offset_injective(s: Seq<char>, i: int, j: int)
    requires
        0 <= i <= s.len(),
        0 <= j <= s.len(),
        byte_offset(s, i) == byte_offset(s, j),
    ensures
        i == j,
{
    if i < j {
        lemma_byte_offset_mono(s, i, j);
    } else if j < i {
        lemma_byte_offset_mono(s, j, i);
    }
}

/// The char index recovered from the byte offset of char `c` is `c`.
pub proof fn lemma_char_index_at(s: Seq<char>, c: int)
    requires
        0 <= c <= s.len(),
    ensures
        is_char_boundary(s, byte_offset(s, c) as int),
        char_index_at(s, byte_offset(s, c) as int) == c,
{
    let b = byte_offset(s, c) as int;
    assert(0 <= c <= s.len() && byte_offset(s, c) == b);
    let d = char_index_at(s, b);
    lemma_byte_offset_injective(s, c, d);
}

/// The width of a range of chars, as a difference of byte offsets.
pub proof fn lemma_byte_offset_subrange(s: Seq<char>, i: int, j: int)
    requires
        0 <= i <= j <= s.len(),
    ensures
        utf8_len(s.subrange(i, j)) == byte_offset(s, j) - byte_offset(s, i),
{
    assert(s.take(j) =~= s.take(i) + s.subrange(i, j));
    lemma_utf8_len_concat(s.take(i), s.subrange(i, j));
}

// ----------------------------------------------------------------------
// Newlines and lines

pub proof fn lemma_newlines_succ(s: Seq<char>, i: int)
    requires
        0 <= i < s.len(),
    ensures
        newlines_before(s, i + 1) == newlines_before(s, i) + if s[i] == '\n' {
            1nat
        } else {
            0nat
        },
{
    assert(s.take(i + 1).drop_last() =~= s.take(i));
}

pub proof fn lemma_newlines_mono(s: Seq<char>, i: int, j: int)
    requires
        0 <= i <= j <= s.len(),
    ensures
        newlines_before(s, i) <= newlines_before(s, j),
    decreases j - i,
{
    if i < j {
        lemma_newlines_mono(s, i, j - 1);
        lemma_newlines_succ(s, j - 1);
    }
}

/// Between `from` and the next `\n` there is no `\n`, so the count before
/// each index there stays the same.
pub proof fn lemma_next_newline(s: Seq<char>, from: int)
    requires
        0 <= from <= s.len(),
    ensures
        from <= next_newline(s, from) <= s.len(),
        next_newline(s, from) < s.len() ==> s[next_newline(s, from)] == '\n',
        forall|k: int| from <= k < next_newline(s, from) ==> s[k] != '\n',
        forall|k: int|
            from <= k <= next_newline(s, from) ==> #[trigger] newlines_before(s, k)
                == newlines_before(s, from),
    decreases s.len() - from,
{
    if from < s.len() && s[from] != '\n' {
        lemma_next_newline(s, from + 1);
        lemma_newlines_succ(s, from);
    }
}

/// Line `row` (for a row that exists) starts after exactly `row` newlines,
/// right after a `\n` unless it is the first line.
pub proof fn lemma_line_start(s: Seq<char>, row: nat)
    requires
        row <= count_newlines(s),
    ensures
        0 <= line_start(s, row) <= s.len(),
        newlines_before(s, line_start(s, row)) == row,
        row > 0 ==> s[line_start(s, row) - 1] == '\n',
    decreases row,
{
    lemma_byte_offset_full(s);
    lemma_byte_offset_zero(s);
    if row > 0 {
        let prev = line_start(s, (row - 1) as nat);
        lemma_line_start(s, (row - 1) as nat);
        lemma_next_newline(s, prev);
        let e = next_newline(s, prev);
        if e == s.len() {
            assert(newlines_before(s, e) == row - 1);
            assert(false);
        }
        lemma_newlines_succ(s, e);
    }
}

/// Rows past the last line start at the end of the text.
pub proof fn lemma_line_start_beyond(s: Seq<char>, row: nat)
    requires
        row > count_newlines(s),
    ensures
        line_start(s, row) == s.len(),
    decreases row,
{
    let n = count_newlines(s);
    lemma_byte_offset_full(s);
    let prev = line_start(s, (row - 1) as nat);
    if row - 1 == n {
        lemma_line_start(s, n);
        lemma_next_newline(s, prev);
        let e = next_newline(s, prev);
        if e < s.len() {
            lemma_newlines_succ(s, e);
            lemma_newlines_mono(s, e + 1, s.len() as int);
            assert(false);
        }
    } else {
        lemma_line_start_beyond(s, (row - 1) as nat);
    }
}

/// The end of a line that is not the last is its `\n`, and the next line
/// starts right after it.
pub proof fn lemma_line_end(s: Seq<char>, row: nat)
    ensures
        0 <= line_start(s, row) <= line_end(s, row) <= s.len(),
        row < count_newlines(s) ==> line_end(s, row) < s.len() && s[line_end(s, row)] == '\n'
            && line_start(s, row + 1) == line_end(s, row) + 1,
        row >= count_newlines(s) ==> line_end(s, row) == s.len(),
        forall|k: int| line_start(s, row) <= k < line_end(s, row) ==> s[k] != '\n',
        forall|k: int|
            line_start(s, row) <= k <= line_end(s, row) ==> #[trigger] newlines_before(s, k)
                == newlines_before(s, line_start(s, row)),
{
    let n = count_newlines(s);
    lemma_byte_offset_full(s);
    if row <= n {
        lemma_line_start(s, row);
    } else {
        lemma_line_start_beyond(s, row);
    }
    let ls = line_start(s, row);
    lemma_next_newline(s, ls);
    let e = next_newline(s, ls);
    if row < n {
        if e == s.len() {
            assert(newlines_before(s, e) == row);
            assert(false);
        }
        assert(line_start(s, row + 1) == e + 1);
    } else if row == n {
        if e < s.len() {
            lemma_newlines_succ(s, e);
            lemma_newlines_mono(s, e + 1, s.len() as int);
            assert(false);
        }
    }
}

/// The char with index `c` lies on the line counted by the newlines before it.
pub proof fn lemma_line_of_char(s: Seq<char>, c: int)
    requires
        0 <= c <= s.len(),
    ensures
        newlines_before(s, c) <= count_newlines(s),
        line_start(s, newlines_before(s, c)) <= c <= line_end(s, newlines_before(s, c)),
{
    let row = newlines_before(s, c);
    lemma_byte_offset_full(s);
    lemma_newlines_mono(s, c, s.len() as int);
    lemma_line_start(s, row);
    lemma_line_end(s, row);
    let ls = line_start(s, row);
    let le = line_end(s, row);
    if c < ls {
        // a `\n` sits at ls - 1, so there are fewer newlines before c
        lemma_newlines_mono(s, c, ls - 1);
        lemma_newlines_succ(s, ls - 1);
        assert(false);
    }
    if c > le {
        lemma_newlines_succ(s, le);
        lemma_newlines_mono(s, le + 1, c);
        assert(false);
    }
}

/// Every index within a line (its end included) has the line's row as the
/// count of newlines before it.
pub proof fn lemma_row_of_index_in_line(s: Seq<char>, row: nat, k: int)
    requires
        row <= count_newlines(s),
        line_start(s, row) <= k <= line_end(s, row),
    ensures
        newlines_before(s, k) == row,
{
    lemma_line_start(s, row);
    lemma_line_end(s, row);
    assert(newlines_before(s, k) == newlines_before(s, line_start(s, row)));
}


// ----------------------------------------------------------------------
// Lines of concatenated texts

pub proof fn lemma_count_newlines_concat(a: Seq<char>, b: Seq<char>)
    ensures
        count_newlines(a + b) == count_newlines(a) + count_newlines(b),
    decreases b.len(),
{
    if b.len() == 0 {
        assert(a + b =~= a);
    } else {
        assert((a + b).drop_last() =~= a + b.drop_last());
        lemma_count_newlines_concat(a, b.drop_last());
    }
}

pub proof fn lemma_count_newlines_le(s: Seq<char>)
    ensures
        count_newlines(s) <= s.len() <= utf8_len(s),
    decreases s.len(),
{
    lemma_utf8_len_ge_len(s);
    if s.len() > 0 {
        lemma_count_newlines_le(s.drop_last());
    }
}

/// Past the start of a `\n`-free stretch, the next `\n` is the same.
pub proof fn lemma_next_newline_skip(s: Seq<char>, x: int, z: int)
    requires
        0 <= x <= z <= next_newline(s, x),
    ensures
        next_newline(s, z) == next_newline(s, x),
    decreases z - x,
{
    if x < z {
        lemma_next_newline(s, x);
        if x < s.len() {
            assert(s[x] != '\n');
        }
        lemma_next_newline_skip(s, x + 1, z);
    }
}

/// A `\n` found within the first part is found in the whole.
pub proof fn lemma_next_newline_prefix(p: Seq<char>, t: Seq<char>, x: int)
    requires
        0 <= x <= p.len(),
        next_newline(p, x) < p.len(),
    ensures
        next_newline(p + t, x) == next_newline(p, x),
    decreases p.len() - x,
{
    if p[x] != '\n' {
        lemma_next_newline_prefix(p, t, x + 1);
    }
}

/// Searching within the second part finds the `\n` of the second part.
pub proof fn lemma_next_newline_shift(p: Seq<char>, t: Seq<char>, k: int)
    requires
        0 <= k <= t.len(),
    ensures
        next_newline(p + t, p.len() + k) == p.len() + next_newline(t, k),
    decreases t.len() - k,
{
    if k < t.len() && t[k] != '\n' {
        lemma_next_newline_shift(p, t, k + 1);
    }
}

/// The lines that end within the first part are the same in the whole.
pub proof fn lemma_lines_prefix(p: Seq<char>, t: Seq<char>, i: nat)
    requires
        i < count_newlines(p),
    ensures
        line_start(p + t, i) == line_start(p, i),
        line_end(p + t, i) == line_end(p, i),
        line_text(p + t, i) == line_text(p, i),
    decreases i,
{
    let s = p + t;
    if i > 0 {
        lemma_lines_prefix(p, t, (i - 1) as nat);
        lemma_line_end(p, (i - 1) as nat);
    }
    lemma_line_end(p, i);
    lemma_next_newline_prefix(p, t, line_start(p, i));
    assert(line_text(s, i) =~= line_text(p, i));
}

/// The lines after the `\n`s of the first part are the lines of the second
/// part, shifted by the first part's newlines and length.
pub proof fn lemma_lines_suffix(p: Seq<char>, t: Seq<char>, i: nat)
    requires
        i >= 1,
    ensures
        line_start(p + t, count_newlines(p) + i) == p.len() + line_start(t, i),
        line_end(p + t, count_newlines(p) + i) == p.len() + line_end(t, i),
        line_text(p + t, count_newlines(p) + i) == line_text(t, i),
    decreases i,
{
    let s = p + t;
    let r = count_newlines(p);
    lemma_count_newlines_concat(p, t);
    if i == 1 {
        assert(s.take(p.len() as int) =~= p);
        lemma_byte_offset_full(p);
        lemma_line_of_char(s, p.len() as int);
        lemma_line_start(s, r);
        lemma_line_end(s, r);
        lemma_next_newline(s, line_start(s, r));
        lemma_next_newline_skip(s, line_start(s, r), p.len() as int);
        lemma_next_newline_shift(p, t, 0);
    } else {
        lemma_lines_suffix(p, t, (i - 1) as nat);
        lemma_line_end(t, (i - 1) as nat);
        lemma_next_newline_shift(p, t, line_start(t, (i - 1) as nat));
    }
    lemma_line_end(t, i);
    lemma_next_newline_shift(p, t, line_start(t, i));
    assert(line_text(s, r + i) =~= line_text(t, i));
}

} // verus!
