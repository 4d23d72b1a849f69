//! Line, column and offset helpers on a rope.

use ropey::Rope;
use vstd::prelude::*;
use crate::cursor::Position;
use crate::rope::{rope_eq, rope_slice, rope_text};
use crate::text_model::{
    byte_offset, char_index_at, is_char_boundary, line_end, line_start, line_text, lines_count,
    newlines_before, utf8_len, lemma_byte_offset_full, lemma_byte_offset_injective,
    lemma_byte_offset_mono, lemma_char_index_at, lemma_line_end, lemma_line_of_char,
    lemma_line_start, lemma_line_start_beyond, lemma_row_of_index_in_line,
    lemma_byte_offset_subrange,
};

verus! {

/// The byte offset of a (line, column) position, both 0-based and the column
/// counted in chars: a column past the end of its line stands for the line's
/// end, and a line past the last stands for the end of the text.
pub open spec fn position_offset(s: Seq<char>, line: int, character: int) -> nat {
    if line >= lines_count(s) {
        utf8_len(s)
    } else {
        let ls = line_start(s, line as nat);
        let le = line_end(s, line as nat);
        byte_offset(s, if character <= le - ls { ls + character } else { le })
    }
}

/// The index of the char that starts at byte `offset`; offsets at or past the
/// end stand for the end of the text.
pub open spec fn char_index_of_offset(s: Seq<char>, offset: int) -> int {
    if offset >= utf8_len(s) {
        s.len() as int
    } else {
        char_index_at(s, offset)
    }
}

/// The (line, column) position of byte `offset`, both 0-based and the column
/// counted in chars.
pub open spec fn offset_position(s: Seq<char>, offset: int) -> (int, int) {
    let c = char_index_of_offset(s, offset);
    let row = newlines_before(s, c);
    (row as int, c - line_start(s, row))
}

/// Converting a byte offset on a char boundary to a position and back gives
/// the offset again.
pub proof fn lemma_offset_position_roundtrip(s: Seq<char>, offset: int)
    requires
        is_char_boundary(s, offset),
    ensures
        position_offset(s, offset_position(s, offset).0, offset_position(s, offset).1) == offset,
{
    let d = choose|d: int| 0 <= d <= s.len() && byte_offset(s, d) == offset;
    lemma_byte_offset_full(s);
    lemma_byte_offset_mono(s, d, s.len() as int);
    if offset >= utf8_len(s) {
        lemma_byte_offset_injective(s, d, s.len() as int);
    }
    lemma_char_index_at(s, d);
    let c = char_index_of_offset(s, offset);
    assert(c == d);
    lemma_line_of_char(s, c);
}

/// Converting a position that lies within its line (its end included) to a
/// byte offset and back gives the position again.
pub proof fn lemma_position_offset_roundtrip(s: Seq<char>, line: int, character: int)
    requires
        0 <= line < lines_count(s),
        0 <= character <= line_end(s, line as nat) - line_start(s, line as nat),
    ensures
        offset_position(s, position_offset(s, line, character) as int) == (line, character),
{
    let row = line as nat;
    lemma_line_start(s, row);
    lemma_line_end(s, row);
    let k = line_start(s, row) + character;
    let o = position_offset(s, line, character) as int;
    assert(o == byte_offset(s, k));
    lemma_char_index_at(s, k);
    lemma_byte_offset_full(s);
    if o >= utf8_len(s) {
        lemma_byte_offset_mono(s, k, s.len() as int);
        lemma_byte_offset_injective(s, k, s.len() as int);
    }
    assert(char_index_of_offset(s, o) == k);
    lemma_row_of_index_in_line(s, row, k);
}

/// A line spans exactly the bytes from its start offset to its end offset,
/// and the start never comes after the end.
pub proof fn lemma_line_bytes(s: Seq<char>, row: nat)
    ensures
        byte_offset(s, line_start(s, row)) <= byte_offset(s, line_end(s, row)) <= utf8_len(s),
        utf8_len(line_text(s, row)) == byte_offset(s, line_end(s, row)) - byte_offset(
            s,
            line_start(s, row),
        ),
{
    lemma_line_end(s, row);
    lemma_byte_offset_full(s);
    lemma_byte_offset_mono(s, line_start(s, row), line_end(s, row));
    lemma_byte_offset_mono(s, line_end(s, row), s.len() as int);
    lemma_byte_offset_subrange(s, line_start(s, row), line_end(s, row));
}

/// An extension trait for `Rope` to provide additional utility methods.
pub trait RopeExt {
    /// The text that the rope holds.
    spec fn text(&self) -> Seq<char>;

    /// Get the line at the given row (0-based) index, including the `\r` at the end, but not `\n`.
    ///
    /// Return empty rope if the row (0-based) is out of bounds.
    ///
    /// `Rope` has an inherent `line` method of its own, which method-call
    /// syntax picks first; call this one as `RopeExt::line(&rope, row)`.
    fn line(&self, row: usize) -> (r: Rope)
        ensures
            rope_text(r) == line_text(self.text(), row as nat),
    ;

    /// Start offset of the line at the given row (0-based) index.
    fn line_start_offset(&self, row: usize) -> (o: usize)
        ensures
            o == byte_offset(self.text(), line_start(self.text(), row as nat)),
    ;

    /// Line the end offset (including `\n`) of the line at the given row (0-based) index.
    ///
    /// Return the end of the rope if the row is out of bounds.
    fn line_end_offset(&self, row: usize) -> (o: usize)
        ensures
            o == byte_offset(self.text(), line_end(self.text(), row as nat)),
    ;

    /// Return the number of lines in the rope.
    fn lines_len(&self) -> (n: usize)
        ensures
            n == lines_count(self.text()),
    ;

    /// Return the lines iterator.
    ///
    /// `Rope` has an inherent `lines` method of its own, which method-call
    /// syntax picks first; call this one as `RopeExt::lines(&rope)`.
    fn lines(&self) -> (l: RopeLines)
        ensures
            l.spec_row() == 0,
            l.spec_end_row() == lines_count(self.text()),
            l.spec_text() == self.text(),
    ;

    /// Check is equal to another rope.
    fn eq(&self, other: &Rope) -> (b: bool)
        ensures
            b == (self.text() == rope_text(*other)),
    ;

    /// Total number of characters in the rope.
    fn chars_count(&self) -> (n: usize)
        ensures
            n == self.text().len(),
    ;

    /// Get char at the given offset (byte).
    ///
    /// If the offset is in the middle of a multi-byte character will panic.
    ///
    /// If the offset is out of bounds, return None.
    fn char_at(&self, offset: usize) -> (c: Option<char>)
        requires
            offset >= utf8_len(self.text()) || is_char_boundary(self.text(), offset as int),
        ensures
            offset < utf8_len(self.text()) ==> c == Some(
                self.text()[char_index_at(self.text(), offset as int)],
            ),
            offset >= utf8_len(self.text()) ==> c is None,
    ;

    /// Get the byte offset from the given line, column [`Position`] (0-based).
    fn position_to_offset(&self, line_col: &Position) -> (o: usize)
        ensures
            o == position_offset(self.text(), line_col.line as int, line_col.character as int),
    ;

    /// Get the line, column [`Position`] (0-based) from the given byte offset.
    fn offset_to_position(&self, offset: usize) -> (p: Position)
        requires
            offset >= utf8_len(self.text()) || is_char_boundary(self.text(), offset as int),
        ensures
            (p.line as int, p.character as int) == offset_position(self.text(), offset as int),
    ;
}

/// An iterator over the lines of a `Rope`.
pub struct RopeLines {
    row: usize,
    end_row: usize,
    rope: Rope,
}

impl RopeLines {
    /// The row of the next line to hand out.
    pub closed spec fn spec_row(&self) -> nat {
        self.row as nat
    }

    /// The row at which the lines stop.
    pub closed spec fn spec_end_row(&self) -> nat {
        self.end_row as nat
    }

    /// The text whose lines are handed out.
    pub closed spec fn spec_text(&self) -> Seq<char> {
        rope_text(self.rope)
    }

    /// Create a new `RopeLines` iterator.
    pub fn new(rope: Rope) -> (l: Self)
        ensures
            l.spec_row() == 0,
            l.spec_end_row() == lines_count(rope_text(rope)),
            l.spec_text() == rope_text(rope),
    {
        let end_row = rope.lines_len();
        Self { row: 0, end_row, rope }
    }

    /// The next line, or `None` once every line has been handed out.
    pub fn next(&mut self) -> (item: Option<Rope>)
        ensures
            final(self).spec_text() == old(self).spec_text(),
            final(self).spec_end_row() == old(self).spec_end_row(),
            old(self).spec_row() >= old(self).spec_end_row() ==> item is None && final(self).spec_row()
                == old(self).spec_row(),
            old(self).spec_row() < old(self).spec_end_row() ==> item is Some && rope_text(
                item->0,
            ) == line_text(old(self).spec_text(), old(self).spec_row()) && final(self).spec_row()
                == old(self).spec_row() + 1,
    {
        if self.row >= self.end_row {
            return None;
        }
        let line = RopeExt::line(&self.rope, self.row);
        self.row += 1;
        Some(line)
    }

    /// Skips `n` lines, then hands out the next one as [`RopeLines::next`] does.
    pub fn nth(&mut self, n: usize) -> (item: Option<Rope>)
        ensures
            final(self).spec_text() == old(self).spec_text(),
            final(self).spec_end_row() == old(self).spec_end_row(),
            ({
                let skipped: nat = if old(self).spec_row() + n > usize::MAX {
                    usize::MAX as nat
                } else {
                    (old(self).spec_row() + n) as nat
                };
                &&& skipped >= old(self).spec_end_row() ==> item is None && final(self).spec_row()
                    == skipped
                &&& skipped < old(self).spec_end_row() ==> item is Some && rope_text(item->0)
                    == line_text(old(self).spec_text(), skipped) && final(self).spec_row() == skipped
                    + 1
            }),
    {
        self.row = self.row.saturating_add(n);
        self.next()
    }

    /// The number of lines left, as a lower and an upper bound.
    pub fn size_hint(&self) -> (h: (usize, Option<usize>))
        requires
            self.spec_row() <= self.spec_end_row(),
        ensures
            h.0 == self.spec_end_row() - self.spec_row(),
            h.1 == Some(h.0),
    {
        let len = self.end_row - self.row;
        (len, Some(len))
    }
}

impl RopeExt for Rope {
    open spec fn text(&self) -> Seq<char> {
        rope_text(*self)
    }

    fn line(&self, row: usize) -> (r: Rope) {
        let (start, end) = self.line_char_range(row);
        rope_slice(self, start, end)
    }

    fn line_start_offset(&self, row: usize) -> (o: usize) {
        let lines = self.len_lines();
        proof {
            lemma_byte_offset_full(self.text());
            if row >= lines {
                lemma_line_start_beyond(self.text(), row as nat);
            }
        }
        if row >= lines {
            self.len_bytes()
        } else {
            self.line_to_byte(row)
        }
    }

    fn line_end_offset(&self, row: usize) -> (o: usize) {
        let (_, end) = self.line_char_range(row);
        self.char_to_byte(end)
    }

    fn lines_len(&self) -> (n: usize) {
        self.len_lines()
    }

    fn lines(&self) -> (l: RopeLines) {
        RopeLines::new(self.clone())
    }

    fn eq(&self, other: &Rope) -> (b: bool) {
        rope_eq(self, other)
    }

    fn chars_count(&self) -> (n: usize) {
        self.len_chars()
    }

    fn char_at(&self, offset: usize) -> (c: Option<char>) {
        if offset >= self.len_bytes() {
            return None;
        }
        let ci = self.char_index_of_byte(offset);
        proof {
            lemma_byte_offset_full(self.text());
        }
        self.get_char(ci)
    }

    fn position_to_offset(&self, line_col: &Position) -> (o: usize) {
        let lines = self.len_lines();
        if line_col.line >= lines {
            return self.len_bytes();
        }
        let (start, end) = self.line_char_range(line_col.line);
        let n = if line_col.character <= end - start {
            line_col.character
        } else {
            end - start
        };
        self.char_to_byte(start + n)
    }

    fn offset_to_position(&self, offset: usize) -> (p: Position) {
        let len = self.len_bytes();
        let o = if offset < len {
            offset
        } else {
            len
        };
        let ci = self.char_index_of_byte(o);
        let row = self.char_to_line(ci);
        proof {
            lemma_line_of_char(self.text(), ci as int);
            lemma_line_start(self.text(), row as nat);
        }
        let start = self.line_to_char(row);
        Position::new(row, ci - start)
    }
}

/// Helpers of the `RopeExt` implementation.
trait RopeLineRanges {
    spec fn chars(&self) -> Seq<char>;

    /// The char range of line `row`, its `\n` excluded.
    fn line_char_range(&self, row: usize) -> (r: (usize, usize))
        ensures
            r.0 == line_start(self.chars(), row as nat),
            r.1 == line_end(self.chars(), row as nat),
            r.0 <= r.1 <= self.chars().len(),
    ;

    /// The index of the char starting at byte `offset` (the end for the end).
    fn char_index_of_byte(&self, offset: usize) -> (c: usize)
        requires
            offset <= utf8_len(self.chars()),
            offset == utf8_len(self.chars()) || is_char_boundary(self.chars(), offset as int),
        ensures
            c == char_index_of_offset(self.chars(), offset as int),
            c <= self.chars().len(),
            byte_offset(self.chars(), c as int) == offset,
    ;
}

impl RopeLineRanges for Rope {
    spec fn chars(&self) -> Seq<char> {
        rope_text(*self)
    }

    fn line_char_range(&self, row: usize) -> (r: (usize, usize)) {
        let s = Ghost(rope_text(*self));
        let lines = self.len_lines();
        let len = self.len_chars();
        proof {
            lemma_line_end(s@, row as nat);
            if row >= lines {
                lemma_line_start_beyond(s@, row as nat);
            }
        }
        let start = if row >= lines {
            len
        } else {
            self.line_to_char(row)
        };
        let end = if row >= lines - 1 {
            len
        } else {
            proof {
                lemma_line_end(s@, row as nat);
                lemma_line_start(s@, (row + 1) as nat);
            }
            self.line_to_char(row + 1) - 1
        };
        (start, end)
    }

    fn char_index_of_byte(&self, offset: usize) -> (c: usize) {
        let s = Ghost(rope_text(*self));
        let c = self.byte_to_char(offset);
        proof {
            lemma_byte_offset_full(s@);
            if c < s@.len() {
                lemma_byte_offset_mono(s@, c + 1, s@.len() as int);
            }
            if offset < utf8_len(s@) {
                let d = choose|d: int| 0 <= d <= s@.len() && byte_offset(s@, d) == offset;
                if d < c {
                    lemma_byte_offset_mono(s@, d, c as int);
                } else if d > c {
                    lemma_byte_offset_mono(s@, c + 1, d);
                }
                assert(d == c);
                lemma_char_index_at(s@, c as int);
            }
        }
        c
    }
}

} // verus!
