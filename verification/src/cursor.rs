//! Selections and line/column positions in a text buffer.

use std::ops::Range;
use vstd::prelude::*;
use vstd::std_specs::convert::FromSpecImpl;
use vstd::string::*;
use crate::decimal::{decimal, push_decimal};

verus! {

/// A selection in the text, represented by start and end byte indices.
#[derive(Debug, Copy, Clone, PartialEq, Eq, Structural)]
pub struct Selection {
    pub start: usize,
    pub end: usize,
}

impl Default for Selection {
    fn default() -> (s: Self)
        ensures
            s.start == 0 && s.end == 0,
    {
        Selection { start: 0, end: 0 }
    }
}

impl Selection {
    pub fn new(start: usize, end: usize) -> (s: Self)
        ensures
            s.start == start,
            s.end == end,
    {
        Self { start, end }
    }

    /// The number of bytes covered; zero when `end` is not after `start`.
    pub fn len(&self) -> (n: usize)
        ensures
            n == (if self.end >= self.start { self.end - self.start } else { 0 }),
    {
        self.end.saturating_sub(self.start)
    }

    pub fn is_empty(&self) -> (b: bool)
        ensures
            b == (self.start == self.end),
    {
        self.start == self.end
    }

    /// Clears the selection, setting start and end to 0.
    pub fn clear(&mut self)
        ensures
            final(self).start == 0,
            final(self).end == 0,
    {
        self.start = 0;
        self.end = 0;
    }
}

impl From<Range<usize>> for Selection {
    fn from(value: Range<usize>) -> (s: Self) {
        Self::new(value.start, value.end)
    }
}

impl FromSpecImpl<Range<usize>> for Selection {
    open spec fn obeys_from_spec() -> bool {
        true
    }

    open spec fn from_spec(v: Range<usize>) -> Self {
        Selection { start: v.start, end: v.end }
    }
}

impl From<Selection> for Range<usize> {
    fn from(value: Selection) -> (r: Self) {
        value.start..value.end
    }
}

impl FromSpecImpl<Selection> for Range<usize> {
    open spec fn obeys_from_spec() -> bool {
        true
    }

    open spec fn from_spec(v: Selection) -> Self {
        Range { start: v.start, end: v.end }
    }
}

/// Line and column position (0-based) in the source code.
#[derive(Debug, Clone, Copy, PartialEq, Eq, Structural)]
pub struct Position {
    /// Line number (0-based)
    pub line: usize,
    /// The character offset (0-based) in the line
    pub character: usize,
}

impl Default for Position {
    fn default() -> (p: Self)
        ensures
            p.line == 0 && p.character == 0,
    {
        Position { line: 0, character: 0 }
    }
}

/// The label of a position: its line and column counted from 1, joined by `:`.
pub open spec fn position_label(p: Position) -> Seq<char> {
    decimal((p.line + 1) as nat) + seq![':'] + decimal((p.character + 1) as nat)
}

impl Position {
    pub fn new(line: usize, column: usize) -> (p: Self)
        ensures
            p.line == line,
            p.character == column,
    {
        (line, column).into()
    }

    /// Builds a position from the `u32` line and character of a language-server position.
    pub fn from_lsp(line: u32, character: u32) -> (p: Self)
        ensures
            p.line == line,
            p.character == character,
    {
        Self { line: line as usize, character: character as usize }
    }

    /// The `u32` line and character of a language-server position; values
    /// beyond `u32::MAX` keep their low 32 bits, as an `as` cast does.
    pub fn to_lsp(&self) -> (r: (u32, u32))
        ensures
            r.0 == self.line as u32,
            r.1 == self.character as u32,
    {
        (self.line as u32, self.character as u32)
    }

    /// The label `line:column` with both counted from 1, e.g. `5:11` for `(4, 10)`.
    pub fn to_string(&self) -> (s: String)
        requires
            self.line < usize::MAX,
            self.character < usize::MAX,
        ensures
            s@ == position_label(*self),
    {
        let mut s = String::new();
        push_decimal(&mut s, (self.line + 1) as u64);
        proof {
            reveal_strlit(":");
        }
        s.append(":");
        push_decimal(&mut s, (self.character + 1) as u64);
        s
    }
}

impl From<(usize, usize)> for Position {
    fn from(value: (usize, usize)) -> (p: Self) {
        Self { line: value.0, character: value.1 }
    }
}

impl FromSpecImpl<(usize, usize)> for Position {
    open spec fn obeys_from_spec() -> bool {
        true
    }

    open spec fn from_spec(v: (usize, usize)) -> Self {
        Position { line: v.0, character: v.1 }
    }
}

} // verus!
