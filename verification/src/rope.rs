//! Trusted contracts of the `ropey` rope that the text code is built on.
//!
//! A rope holds a text; `rope_text` names that text as a sequence of chars.
//! The crate is used without its `cr_lines` and `unicode_lines` features, so
//! `\n` is its only line break, as in the model of [`crate::text_model`].

use ropey::Rope;
use vstd::prelude::*;
use crate::text_model::{byte_offset, line_start, lines_count, newlines_before, utf8_len};

verus! {

#[verifier::external_type_specification]
#[verifier::external_body]
pub struct ExRope(Rope);

/// The text that a rope holds.
pub uninterp spec fn rope_text(r: Rope) -> Seq<char>;

/// `Rope::from_str` builds a rope that holds the given string.
pub assume_specification[ Rope::from_str ](text: &str) -> (r: Rope)
    ensures
        rope_text(r) == text@,
;

/// `Rope::new` builds an empty rope.
pub assume_specification[ Rope::new ]() -> (r: Rope)
    ensures
        rope_text(r) == Seq::<char>::empty(),
;

/// `Rope::len_bytes` is the UTF-8 length of the text.
pub assume_specification[ Rope::len_bytes ](r: &Rope) -> (n: usize)
    ensures
        n == utf8_len(rope_text(*r)),
;

/// `Rope::len_chars` is the number of chars of the text.
pub assume_specification[ Rope::len_chars ](r: &Rope) -> (n: usize)
    ensures
        n == rope_text(*r).len(),
;

/// `Rope::len_lines` is one more than the number of line breaks.
pub assume_specification[ Rope::len_lines ](r: &Rope) -> (n: usize)
    ensures
        n == lines_count(rope_text(*r)),
;

/// `Rope::line_to_byte` is the byte offset where a line starts; for the
/// one-past-the-end line it is the length in bytes. It panics past that.
pub assume_specification[ Rope::line_to_byte ](r: &Rope, line_idx: usize) -> (b: usize)
    requires
        line_idx <= lines_count(rope_text(*r)),
    ensures
        b == byte_offset(rope_text(*r), line_start(rope_text(*r), line_idx as nat)),
;

/// `Rope::line_to_char` is the char index where a line starts; for the
/// one-past-the-end line it is the length in chars. It panics past that.
pub assume_specification[ Rope::line_to_char ](r: &Rope, line_idx: usize) -> (c: usize)
    requires
        line_idx <= lines_count(rope_text(*r)),
    ensures
        c == line_start(rope_text(*r), line_idx as nat),
;

/// `Rope::char_to_byte` is the byte offset where a char starts (the length
/// in bytes for the one-past-the-end char). It panics past that.
pub assume_specification[ Rope::char_to_byte ](r: &Rope, char_idx: usize) -> (b: usize)
    requires
        char_idx <= rope_text(*r).len(),
    ensures
        b == byte_offset(rope_text(*r), char_idx as int),
;

/// `Rope::byte_to_char` is the index of the char that a byte belongs to (the
/// length in chars for the one-past-the-end byte). It panics past that.
pub assume_specification[ Rope::byte_to_char ](r: &Rope, byte_idx: usize) -> (c: usize)
    requires
        byte_idx <= utf8_len(rope_text(*r)),
    ensures
        c <= rope_text(*r).len(),
        byte_offset(rope_text(*r), c as int) <= byte_idx,
        c < rope_text(*r).len() ==> byte_idx < byte_offset(rope_text(*r), c + 1),
;

/// `Rope::char_to_line` counts the line breaks before a char. It panics
/// past the one-past-the-end char.
pub assume_specification[ Rope::char_to_line ](r: &Rope, char_idx: usize) -> (l: usize)
    requires
        char_idx <= rope_text(*r).len(),
    ensures
        l == newlines_before(rope_text(*r), char_idx as int),
;

/// `Rope::get_char` is the char at an index, or `None` past the last char.
pub assume_specification[ Rope::get_char ](r: &Rope, char_idx: usize) -> (c: Option<char>)
    ensures
        char_idx < rope_text(*r).len() ==> c == Some(rope_text(*r)[char_idx as int]),
        char_idx >= rope_text(*r).len() ==> c is None,
;

/// `Rope::clone` holds the same text.
pub assume_specification[ <Rope as Clone>::clone ](r: &Rope) -> (c: Rope)
    ensures
        rope_text(c) == rope_text(*r),
;

/// A new rope holding the chars `start..end` of `r`: `Rope::slice` (which
/// panics unless `start <= end <= len_chars`) turned into a `Rope` by `From`.
#[verifier::external_body]
pub(crate) fn rope_slice(r: &Rope, start: usize, end: usize) -> (s: Rope)
    requires
        start <= end <= rope_text(*r).len(),
    ensures
        rope_text(s) == rope_text(*r).subrange(start as int, end as int),
{
    Rope::from(r.slice(start..end))
}

/// Rope equality (`PartialEq`), which compares the texts byte by byte.
#[verifier::external_body]
pub(crate) fn rope_eq(a: &Rope, b: &Rope) -> (res: bool)
    ensures
        res == (rope_text(*a) == rope_text(*b)),
{
    a == b
}


/// The text of a rope as a `String` (through its `Display`).
#[verifier::external_body]
pub(crate) fn rope_to_string(r: &Rope) -> (s: String)
    ensures
        s@ == rope_text(*r),
{
    r.to_string()
}

} // verus!
