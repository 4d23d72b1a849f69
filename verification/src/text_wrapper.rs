//! Bookkeeping of the lines of an editor's text and their soft wraps,
//! updated incrementally when part of the text is replaced.

use std::ops::Range;
use ropey::Rope;
use vstd::prelude::*;
use crate::rope::{rope_text, rope_to_string};
use crate::rope_ext::{char_index_of_offset, lemma_line_bytes, RopeExt};
use crate::text_model::{lemma_byte_offset_succ, lemma_line_of_char, 
    byte_offset, is_char_boundary, line_end, line_start, line_text, lines_count, newlines_before,
    utf8_len, count_newlines, lemma_byte_offset_full, lemma_byte_offset_mono, lemma_char_index_at,
    lemma_byte_offset_injective, lemma_utf8_len_concat, lemma_count_newlines_concat,
    lemma_lines_prefix, lemma_lines_suffix, lemma_newlines_mono, lemma_count_newlines_le, lemma_line_end, lemma_line_start, lemma_byte_offset_zero,
};

verus! {

/// The soft-wrapped pieces of a line of `len` bytes, given the byte
/// offsets at which the wrapper broke it: one piece up to each break, then
/// the rest of the line unless it is empty (a line without breaks keeps one
/// piece, even when empty).
pub open spec fn wrap_ranges(breaks: Seq<usize>, len: usize) -> Seq<Range<usize>> {
    let head = Seq::new(
        breaks.len(),
        |i: int| Range { start: if i == 0 { 0usize } else { breaks[i - 1] }, end: breaks[i] },
    );
    let prev: usize = if breaks.len() == 0 { 0usize } else { breaks.last() };
    if prev < len || prev == 0 {
        head.push(Range { start: prev, end: len })
    } else {
        head
    }
}

/// What a line wrapper promises of the breaks it returns for a line: no more
/// breaks than bytes, and the last one on a char boundary.
pub open spec fn breaks_ok(line: Seq<char>, breaks: Seq<usize>) -> bool {
    &&& breaks.len() <= utf8_len(line)
    &&& breaks.len() > 0 ==> is_char_boundary(line, breaks.last() as int)
}

/// A line wrapper can be called on any line and keeps its promise.
pub open spec fn wrapper_ok<F: Fn(&str) -> Vec<usize>>(wrap_line: F) -> bool {
    &&& forall|s: &str| #[trigger] call_requires(wrap_line, (s,))
    &&& forall|s: &str, b: Vec<usize>|
        #[trigger] call_ensures(wrap_line, (s,), b) ==> breaks_ok(s@, b@)
}

/// A line with soft wrapped lines info.
pub struct LineItem {
    /// The text of the line, unwrapped.
    pub line: Rope,
    /// The soft wrapped lines relative byte range (0..line.len) of this line (Include first line).
    pub wrapped_lines: Vec<Range<usize>>,
}

/// The item's pieces are those of its line broken where the wrapper said,
/// or the whole line when wrapping is off.
#[verifier::opaque]
pub open spec fn item_wrapped_by<F: Fn(&str) -> Vec<usize>>(
    item: LineItem,
    wrap: bool,
    wrap_line: F,
) -> bool {
    exists|breaks: Seq<usize>|
        {
            &&& item.wrapped_lines@ == #[trigger] wrap_ranges(breaks, utf8_len(item.spec_text()) as usize)
            &&& wrap ==> exists|s: &str, v: Vec<usize>|
                s@ == item.spec_text() && #[trigger] call_ensures(wrap_line, (s,), v) && v@ == breaks
            &&& !wrap ==> breaks == Seq::<usize>::empty()
        }
}

/// An item has at most one piece more than its line has bytes.
pub open spec fn item_fits(item: LineItem) -> bool {
    item.wrapped_lines.len() <= utf8_len(item.spec_text()) + 1
}

impl LineItem {
    /// The text of the line.
    pub open spec fn spec_text(&self) -> Seq<char> {
        rope_text(self.line)
    }

    /// Get the bytes length of this line.
    pub fn len(&self) -> (n: usize)
        ensures
            n == utf8_len(self.spec_text()),
    {
        self.line.len_bytes()
    }

    /// Get number of soft wrapped lines of this line (include the first line).
    pub fn lines_len(&self) -> (n: usize)
        ensures
            n == self.wrapped_lines.len(),
    {
        self.wrapped_lines.len()
    }

    /// Builds the item of `line`, asking `wrap_line` for breaks when `wrap` is set.
    fn build<F: Fn(&str) -> Vec<usize>>(line: Rope, wrap: bool, wrap_line: &F) -> (item: LineItem)
        requires
            wrap ==> wrapper_ok(*wrap_line),
            utf8_len(rope_text(line)) <= usize::MAX,
        ensures
            item.spec_text() == rope_text(line),
            item_fits(item),
            item_wrapped_by(item, wrap, *wrap_line),
    {
        let len = line.len_bytes();
        let mut wrapped: Vec<Range<usize>> = Vec::new();
        let mut prev: usize = 0;
        let ghost mut breaks: Seq<usize> = Seq::empty();
        if wrap {
            let line_str = rope_to_string(&line);
            let s = line_str.as_str();
            let b = wrap_line(s);
            proof {
                breaks = b@;
                assert(call_ensures(*wrap_line, (s,), b));
                assert(exists|s2: &str, v: Vec<usize>|
                    s2@ == rope_text(line) && #[trigger] call_ensures(*wrap_line, (s2,), v) && v@
                        == breaks);
            }
            let mut i: usize = 0;
            while i < b.len()
                invariant
                    0 <= i <= b.len(),
                    breaks == b@,
                    wrapped@ == Seq::new(
                        i as nat,
                        |k: int|
                            Range {
                                start: if k == 0 { 0usize } else { breaks[k - 1] },
                                end: breaks[k],
                            },
                    ),
                    prev == if i == 0 { 0usize } else { breaks[i - 1] },
                decreases b.len() - i,
            {
                wrapped.push(prev..b[i]);
                prev = b[i];
                i += 1;
            }
            proof {
                assert(breaks_ok(s@, b@));
                if b@.len() > 0 {
                    let c = choose|c: int| 0 <= c <= s@.len() && byte_offset(s@, c) == b@.last();
                    lemma_byte_offset_mono(s@, c, s@.len() as int);
                    lemma_byte_offset_full(s@);
                }
            }
        }
        assert(prev <= len);
        if prev < len || prev == 0 {
            wrapped.push(prev..len);
        }
        let item = LineItem { line, wrapped_lines: wrapped };
        proof {
            reveal(item_wrapped_by);
            assert(item.wrapped_lines@ =~= wrap_ranges(breaks, len));
            assert(item.wrapped_lines@ == wrap_ranges(breaks, utf8_len(item.spec_text()) as usize));
        }
        item
    }
}


/// The row (0-based) of the char at byte `offset`; offsets at or past the end
/// stand for the end of the text.
pub open spec fn row_of_offset(s: Seq<char>, offset: int) -> nat {
    newlines_before(s, char_index_of_offset(s, offset))
}

/// `changed` is `old` with the bytes `start..end` (on char boundaries)
/// replaced by `inserted`.
pub open spec fn is_replacement(
    old: Seq<char>,
    changed: Seq<char>,
    start: int,
    end: int,
    inserted: Seq<char>,
) -> bool {
    exists|ca: int, cb: int|
        0 <= ca <= cb <= old.len() && #[trigger] byte_offset(old, ca) == start && #[trigger] byte_offset(
            old,
            cb,
        ) == end && changed == old.take(ca) + inserted + old.skip(cb)
}

/// The number of soft-wrapped lines of all items.
pub open spec fn total_wrapped(items: Seq<LineItem>) -> nat
    decreases items.len(),
{
    if items.len() == 0 {
        0
    } else {
        total_wrapped(items.drop_last()) + items.last().wrapped_lines@.len()
    }
}

/// The items are those of the lines of `s`, one per line and in order.
pub open spec fn lines_match(items: Seq<LineItem>, s: Seq<char>) -> bool {
    &&& items.len() == lines_count(s)
    &&& forall|i: int|
        0 <= i < items.len() ==> #[trigger] items[i].spec_text() == line_text(s, i as nat)
            && item_fits(items[i])
}

/// The longest line seen while walking `n` lines of `s` from row `first`,
/// starting from the row and length `base`: a line replaces the current one
/// only when it is strictly longer.
pub open spec fn longest_after(base: (nat, nat), s: Seq<char>, first: nat, n: nat) -> (nat, nat)
    decreases n,
{
    if n == 0 {
        base
    } else {
        let prev = longest_after(base, s, first, (n - 1) as nat);
        let row = (first + n - 1) as nat;
        let len = utf8_len(line_text(s, row));
        if len > prev.1 {
            (row, len)
        } else {
            prev
        }
    }
}


/// An update either lays out the whole text again (the replaced range
/// starts at 0, reaches the end of the old text, and the inserted text is
/// the new text), or replaces a range of a text whose lines are laid out.
pub open spec fn update_ok(
    old_text: Seq<char>,
    laid_out: bool,
    changed: Seq<char>,
    start: int,
    end: int,
    inserted: Seq<char>,
) -> bool {
    ||| start == 0 && end >= utf8_len(old_text) && inserted == changed
    ||| laid_out && is_replacement(old_text, changed, start, end, inserted)
}

/// The char index recovered from the byte offset of char `c` is `c`, also at
/// the end of the text.
proof fn lemma_index_of_byte_offset(s: Seq<char>, c: int)
    requires
        0 <= c <= s.len(),
    ensures
        char_index_of_offset(s, byte_offset(s, c) as int) == c,
        is_char_boundary(s, byte_offset(s, c) as int),
        byte_offset(s, c) <= utf8_len(s),
{
    lemma_byte_offset_full(s);
    lemma_byte_offset_mono(s, c, s.len() as int);
    lemma_char_index_at(s, c);
    if byte_offset(s, c) >= utf8_len(s) {
        lemma_byte_offset_injective(s, c, s.len() as int);
    }
}

/// The soft lines of the first `k` items laid out for `s` number at most one
/// more than the bytes up to the end of line `k - 1`.
#[verifier::spinoff_prover]
proof fn lemma_total_wrapped_prefix(items: Seq<LineItem>, s: Seq<char>, k: int)
    requires
        lines_match(items, s),
        1 <= k <= items.len(),
    ensures
        total_wrapped(items.take(k)) <= byte_offset(s, line_end(s, (k - 1) as nat)) + 1,
    decreases k,
{
    assert(items.take(k).drop_last() =~= items.take(k - 1));
    assert(items[k - 1].spec_text() == line_text(s, (k - 1) as nat));
    lemma_line_bytes(s, (k - 1) as nat);
    if k == 1 {
        assert(items.take(0) =~= Seq::<LineItem>::empty());
        lemma_byte_offset_zero(s);
    } else {
        lemma_total_wrapped_prefix(items, s, k - 1);
        let row = (k - 2) as nat;
        lemma_line_end(s, row);
        lemma_byte_offset_succ(s, line_end(s, row));
    }
}

/// The soft lines of items laid out for `s` number at most one more than
/// the bytes of `s`.
proof fn lemma_total_wrapped_bound(items: Seq<LineItem>, s: Seq<char>)
    requires
        lines_match(items, s),
    ensures
        total_wrapped(items) <= utf8_len(s) + 1,
{
    let n = items.len() as int;
    lemma_total_wrapped_prefix(items, s, n);
    assert(items.take(n) =~= items);
    lemma_line_end(s, (n - 1) as nat);
    lemma_byte_offset_full(s);
}

/// A line that ends before the replaced range reads the same before and
/// after the replacement.
proof fn lemma_line_before_replacement(
    a: Seq<char>,
    m: Seq<char>,
    b: Seq<char>,
    inserted: Seq<char>,
    i: nat,
)
    requires
        i < count_newlines(a),
    ensures
        line_text(a + (m + b), i) == line_text(a + (inserted + b), i),
{
    lemma_lines_prefix(a, m + b, i);
    lemma_lines_prefix(a, inserted + b, i);
}

/// A line that starts after the replaced range reads the same before and
/// after the replacement, shifted by the change in newlines.
proof fn lemma_line_after_replacement(
    am: Seq<char>,
    an: Seq<char>,
    b: Seq<char>,
    j: nat,
)
    requires
        j >= 1,
    ensures
        line_text(am + b, count_newlines(am) + j) == line_text(an + b, count_newlines(an) + j),
{
    lemma_lines_suffix(am, b, j);
    lemma_lines_suffix(an, b, j);
}

/// Splicing the items of the lines a replacement touched, laid out again
/// from the new text, between the untouched items before and after them,
/// gives the items of the new text's lines.
#[verifier::rlimit(60)]
#[verifier::spinoff_prover]
pub proof fn lemma_replacement_lines(
    old_items: Seq<LineItem>,
    old_text: Seq<char>,
    changed: Seq<char>,
    ca: int,
    cb: int,
    inserted: Seq<char>,
    new_items: Seq<LineItem>,
)
    requires
        lines_match(old_items, old_text),
        0 <= ca <= cb <= old_text.len(),
        changed == old_text.take(ca) + inserted + old_text.skip(cb),
        new_items.len() == count_newlines(inserted) + 1,
        forall|k: int|
            0 <= k < new_items.len() ==> #[trigger] new_items[k].spec_text() == line_text(
                changed,
                (newlines_before(old_text, ca) + k) as nat,
            ) && item_fits(new_items[k]),
    ensures
        lines_match(
            old_items.take(newlines_before(old_text, ca) as int) + new_items + old_items.skip(
                (newlines_before(old_text, cb) + 1) as int,
            ),
            changed,
        ),
{
    let a = old_text.take(ca);
    let m = old_text.subrange(ca, cb);
    let b = old_text.skip(cb);
    let am = old_text.take(cb);
    let an = a + inserted;
    assert(old_text =~= a + (m + b));
    assert(old_text =~= am + b);
    assert(am =~= a + m);
    assert(changed =~= a + (inserted + b));
    assert(changed =~= an + b);
    let r1 = count_newlines(a);
    let r2 = count_newlines(am);
    let r3 = count_newlines(an);
    lemma_count_newlines_concat(a, m);
    lemma_count_newlines_concat(am, b);
    lemma_count_newlines_concat(a, inserted);
    lemma_count_newlines_concat(an, b);
    let fin = old_items.take(r1 as int) + new_items + old_items.skip((r2 + 1) as int);
    assert(fin.len() == lines_count(changed));
    assert forall|i: int| 0 <= i < fin.len() implies #[trigger] fin[i].spec_text() == line_text(
        changed,
        i as nat,
    ) && item_fits(fin[i]) by {
        if i < r1 {
            lemma_line_before_replacement(a, m, b, inserted, i as nat);
            assert(fin[i] == old_items[i]);
        } else if i <= r3 {
            assert(fin[i] == new_items[i - r1]);
        } else {
            let j = (i - r3) as nat;
            lemma_line_after_replacement(am, an, b, j);
            assert(fin[i] == old_items[(r2 + j) as int]);
        }
    }
}

/// What the rows of an update are: a whole layout replaces every item by
/// those of all lines; a replacement replaces the rows it touched.
proof fn lemma_update_rows(
    old_items_len: nat,
    old_text: Seq<char>,
    laid_out: bool,
    changed: Seq<char>,
    start: int,
    end: int,
    inserted: Seq<char>,
) -> (r: (int, int))
    requires
        old_items_len <= lines_count(old_text),
        laid_out ==> old_items_len == lines_count(old_text),
        update_ok(old_text, laid_out, changed, start, end, inserted),
    ensures
        start >= utf8_len(old_text) || is_char_boundary(old_text, start),
        end >= utf8_len(old_text) || is_char_boundary(old_text, end),
        start >= utf8_len(changed) || is_char_boundary(changed, start),
        start + utf8_len(inserted) >= utf8_len(changed) || is_char_boundary(
            changed,
            start + utf8_len(inserted),
        ),
        0 <= start,
        start + utf8_len(inserted) <= utf8_len(changed),
        ({
            let (kept, first, last, resume) = update_rows(
                old_items_len,
                old_text,
                changed,
                start,
                end,
                utf8_len(inserted),
            );
            &&& kept <= resume + 1
            &&& first <= last <= count_newlines(changed)
            &&& old_items_len > 0 ==> resume < old_items_len
            &&& (start == 0 && end >= utf8_len(old_text) && inserted == changed) ==> {
                &&& kept == 0
                &&& first == 0
                &&& last == count_newlines(changed)
                &&& old_items_len > 0 ==> resume == old_items_len - 1
            }
            &&& !(start == 0 && end >= utf8_len(old_text) && inserted == changed) ==> {
                &&& 0 <= r.0 <= r.1 <= old_text.len()
                &&& byte_offset(old_text, r.0) == start
                &&& byte_offset(old_text, r.1) == end
                &&& changed == old_text.take(r.0) + inserted + old_text.skip(r.1)
                &&& kept == newlines_before(old_text, r.0)
                &&& first == kept
                &&& resume == newlines_before(old_text, r.1)
                &&& last - first == count_newlines(inserted)
            }
        }),
{
    lemma_byte_offset_full(old_text);
    lemma_byte_offset_full(changed);
    lemma_byte_offset_zero(old_text);
    lemma_byte_offset_zero(changed);
    lemma_index_of_byte_offset(old_text, 0);
    lemma_index_of_byte_offset(changed, 0);
    lemma_index_of_byte_offset(changed, changed.len() as int);
    lemma_index_of_byte_offset(old_text, old_text.len() as int);
    if start == 0 && end >= utf8_len(old_text) && inserted == changed {
        lemma_line_of_char(old_text, old_text.len() as int);
        lemma_line_of_char(changed, changed.len() as int);
        (0, 0)
    } else {
        let (ca, cb) = choose|ca: int, cb: int|
            0 <= ca <= cb <= old_text.len() && #[trigger] byte_offset(old_text, ca) == start
                && #[trigger] byte_offset(old_text, cb) == end && changed == old_text.take(ca)
                + inserted + old_text.skip(cb);
        let a = old_text.take(ca);
        let an = a + inserted;
        assert(changed.take(ca) =~= a);
        assert(changed.take(ca + inserted.len()) =~= an);
        lemma_utf8_len_concat(a, inserted);
        lemma_index_of_byte_offset(old_text, ca);
        lemma_index_of_byte_offset(old_text, cb);
        lemma_index_of_byte_offset(changed, ca);
        lemma_index_of_byte_offset(changed, ca + inserted.len());
        lemma_count_newlines_concat(a, inserted);
        lemma_line_of_char(old_text, cb);
        lemma_line_of_char(changed, ca + inserted.len());
        lemma_newlines_mono(old_text, ca, cb);
        (ca, cb)
    }
}

/// The soft lines of a prefix of the items are at most those of all items.
proof fn lemma_total_wrapped_mono(items: Seq<LineItem>, k: int)
    requires
        0 <= k <= items.len(),
    ensures
        total_wrapped(items.take(k)) <= total_wrapped(items),
    decreases items.len() - k,
{
    if k < items.len() {
        lemma_total_wrapped_mono(items, k + 1);
        assert(items.take(k + 1).drop_last() =~= items.take(k));
    } else {
        assert(items.take(k) =~= items);
    }
}

/// Lays out the lines `first..=last` of `text`, and follows the longest of
/// them from the row and length `base`.
fn layout_rows<F: Fn(&str) -> Vec<usize>>(
    text: &Rope,
    first: usize,
    last: usize,
    wrap: bool,
    wrap_line: &F,
    base_row: usize,
    base_len: usize,
) -> (r: (Vec<LineItem>, usize, usize))
    requires
        first <= last <= count_newlines(rope_text(*text)),
        utf8_len(rope_text(*text)) < usize::MAX,
        wrap ==> wrapper_ok(*wrap_line),
    ensures
        r.0@.len() == last - first + 1,
        forall|k: int|
            0 <= k < r.0@.len() ==> #[trigger] r.0@[k].spec_text() == line_text(
                rope_text(*text),
                (first + k) as nat,
            ) && item_fits(r.0@[k]) && item_wrapped_by(r.0@[k], wrap, *wrap_line),
        (r.1 as nat, r.2 as nat) == longest_after(
            (base_row as nat, base_len as nat),
            rope_text(*text),
            first as nat,
            (last - first + 1) as nat,
        ),
{
    let ghost s = rope_text(*text);
    proof {
        lemma_count_newlines_le(s);
    }
    let mut items: Vec<LineItem> = Vec::new();
    let mut longest_row_ix = base_row;
    let mut longest_row_len = base_len;
    let mut row = first;
    while row <= last
        invariant
            first <= row <= last + 1,
            last <= count_newlines(s),
            count_newlines(s) < usize::MAX,
            s == rope_text(*text),
            utf8_len(s) < usize::MAX,
            wrap ==> wrapper_ok(*wrap_line),
            items@.len() == row - first,
            forall|k: int|
                0 <= k < items@.len() ==> #[trigger] items@[k].spec_text() == line_text(
                    s,
                    (first + k) as nat,
                ) && item_fits(items@[k]) && item_wrapped_by(items@[k], wrap, *wrap_line),
            (longest_row_ix as nat, longest_row_len as nat) == longest_after(
                (base_row as nat, base_len as nat),
                s,
                first as nat,
                (row - first) as nat,
            ),
        decreases last + 1 - row,
    {
        let line = RopeExt::line(text, row);
        proof {
            lemma_line_bytes(s, row as nat);
            lemma_line_end(s, row as nat);
        }
        let len = line.len_bytes();
        if len > longest_row_len {
            longest_row_ix = row;
            longest_row_len = len;
        }
        let item = LineItem::build(line, wrap, wrap_line);
        items.push(item);
        row += 1;
    }
    (items, longest_row_ix, longest_row_len)
}

/// Replaces the items `start..=end` by `new_items`; an empty list takes the
/// new items as they are.
fn splice_items(items: &mut Vec<LineItem>, start: usize, end: usize, new_items: Vec<LineItem>)
    requires
        old(items)@.len() > 0 ==> start <= end + 1 && end < old(items)@.len(),
    ensures
        old(items)@.len() == 0 ==> final(items)@ == new_items@,
        old(items)@.len() > 0 ==> final(items)@ == old(items)@.take(start as int) + new_items@
            + old(items)@.skip(end + 1),
{
    if items.len() == 0 {
        *items = new_items;
    } else {
        let mut new_items = new_items;
        let mut tail = items.split_off(end + 1);
        items.truncate(start);
        items.append(&mut new_items);
        items.append(&mut tail);
    }
}

/// The number of soft-wrapped lines of all items.
fn count_soft_lines(items: &Vec<LineItem>) -> (n: usize)
    requires
        total_wrapped(items@) <= usize::MAX,
    ensures
        n == total_wrapped(items@),
{
    let mut n: usize = 0;
    let mut i: usize = 0;
    while i < items.len()
        invariant
            0 <= i <= items@.len(),
            n == total_wrapped(items@.take(i as int)),
            total_wrapped(items@) <= usize::MAX,
        decreases items@.len() - i,
    {
        proof {
            assert(items@.take(i + 1).drop_last() =~= items@.take(i as int));
            lemma_total_wrapped_mono(items@, i + 1);
        }
        n = n + items[i].lines_len();
        i += 1;
    }
    proof {
        assert(items@.take(i as int) =~= items@);
    }
    n
}

/// The positions of the kept and new items in a spliced list.
proof fn lemma_splice_shape(
    old_items: Seq<LineItem>,
    new_items: Seq<LineItem>,
    items: Seq<LineItem>,
    start: int,
    end: int,
)
    requires
        old_items.len() > 0 ==> 0 <= start <= end + 1 && end < old_items.len(),
        old_items.len() == 0 ==> items == new_items,
        old_items.len() > 0 ==> items == old_items.take(start) + new_items + old_items.skip(end + 1),
    ensures
        ({
            let kept: int = if old_items.len() == 0 { 0 } else { start };
            let n_after: int = if old_items.len() == 0 { 0 } else { old_items.len() - end - 1 };
            &&& items.len() == kept + new_items.len() + n_after
            &&& forall|i: int| 0 <= i < kept ==> #[trigger] items[i] == old_items[i]
            &&& forall|k: int| 0 <= k < new_items.len() ==> #[trigger] items[kept + k] == new_items[k]
            &&& forall|j: int|
                0 <= j < n_after ==> #[trigger] items[kept + new_items.len() + j] == old_items[end
                    + 1 + j]
        }),
{
}

/// The first `kept` items are the old ones.
pub open spec fn keeps_prefix(old_items: Seq<LineItem>, items: Seq<LineItem>, kept: int) -> bool {
    forall|i: int| 0 <= i < kept ==> #[trigger] items[i] == old_items[i]
}

/// The `n` items from `at` are those of the rows of `s` from `first`.
pub open spec fn lays_out_rows<F: Fn(&str) -> Vec<usize>>(
    items: Seq<LineItem>,
    at: int,
    s: Seq<char>,
    first: nat,
    n: int,
    wrap: bool,
    wrap_line: F,
) -> bool {
    forall|k: int|
        0 <= k < n ==> #[trigger] items[at + k].spec_text() == line_text(s, (first + k) as nat)
            && item_wrapped_by(items[at + k], wrap, wrap_line)
}

/// The `n` items from `at` are the old ones from `from`.
pub open spec fn keeps_suffix(
    old_items: Seq<LineItem>,
    items: Seq<LineItem>,
    at: int,
    from: int,
    n: int,
) -> bool {
    forall|j: int| 0 <= j < n ==> #[trigger] items[at + j] == old_items[from + j]
}

/// The longest (row, bytes len) in characters, used to calculate the horizontal scroll width.
pub struct LongestRow {
    /// The 0-based row index.
    pub row: usize,
    /// The bytes length of the longest line.
    pub len: usize,
}

impl Default for LongestRow {
    fn default() -> (r: Self)
        ensures
            r.row == 0 && r.len == 0,
    {
        LongestRow { row: 0, len: 0 }
    }
}

/// Used to prepare the text with soft wrap to be get lines to displayed in the Editor.
///
/// The wrap width itself lives with the caller, who breaks lines at it; here
/// it is only known whether there is one.
pub struct TextWrapper {
    text: Rope,
    /// Total wrapped lines (Inlucde the first line).
    soft_lines: usize,
    /// Whether lines are soft wrapped.
    wrap: bool,
    /// The longest (row, bytes len) in characters, used to calculate the horizontal scroll width.
    pub longest_row: LongestRow,
    /// The lines by split \n
    pub lines: Vec<LineItem>,
}

/// How an update picks the rows to replace: the kept rows before, the first
/// and last row of the new text to lay out, and the old row after which the
/// old items resume.
pub open spec fn update_rows(
    old_items_len: nat,
    old_text: Seq<char>,
    changed: Seq<char>,
    start: int,
    end: int,
    inserted_len: nat,
) -> (nat, nat, nat, nat) {
    let last: nat = if old_items_len == 0 { 0 } else { (old_items_len - 1) as nat };
    let sr = row_of_offset(old_text, start);
    let er = row_of_offset(old_text, end);
    let start_row: nat = if sr < last { sr } else { last };
    let end_row: nat = if er < last { er } else { last };
    (start_row, row_of_offset(changed, start), row_of_offset(changed, start + inserted_len), end_row)
}

impl TextWrapper {
    /// The text the lines were laid out for.
    pub closed spec fn spec_text(&self) -> Seq<char> {
        rope_text(self.text)
    }

    /// Whether lines are soft wrapped.
    pub closed spec fn spec_wrap(&self) -> bool {
        self.wrap
    }

    /// The number of soft-wrapped lines.
    pub closed spec fn spec_soft_lines(&self) -> nat {
        self.soft_lines as nat
    }

    /// The line items.
    pub closed spec fn spec_lines(&self) -> Seq<LineItem> {
        self.lines@
    }

    /// The longest row and its length in bytes.
    pub closed spec fn spec_longest(&self) -> (nat, nat) {
        (self.longest_row.row as nat, self.longest_row.len as nat)
    }

    /// The items are those of the text's lines and the soft line count is theirs.
    pub open spec fn wf(&self) -> bool {
        &&& lines_match(self.spec_lines(), self.spec_text())
        &&& self.spec_soft_lines() == total_wrapped(self.spec_lines())
    }

    /// The items after an update: the untouched items before and after the
    /// replaced rows are kept, and between them stand the items of the rows
    /// of the changed text that the update lays out; the longest row follows
    /// the new rows from what was kept of the old one.
    pub open spec fn updated_from<F: Fn(&str) -> Vec<usize>>(
        &self,
        prev: TextWrapper,
        changed: Seq<char>,
        start: int,
        end: int,
        inserted_len: nat,
        wrap_line: F,
    ) -> bool {
        let old_items = prev.spec_lines();
        let items = self.spec_lines();
        let rows = update_rows(old_items.len(), prev.spec_text(), changed, start, end, inserted_len);
        let n_new = rows.2 - rows.1 + 1;
        let kept: int = if old_items.len() == 0 { 0 } else { rows.0 as int };
        let n_after: int = if old_items.len() == 0 { 0 } else { old_items.len() - rows.3 - 1 };
        let base: (nat, nat) = if rows.0 <= prev.spec_longest().0 <= rows.3 {
            (0nat, 0nat)
        } else {
            prev.spec_longest()
        };
        &&& items.len() == kept + n_new + n_after
        &&& keeps_prefix(old_items, items, kept)
        &&& lays_out_rows(items, kept, changed, rows.1, n_new, prev.spec_wrap(), wrap_line)
        &&& keeps_suffix(old_items, items, kept + n_new, rows.3 + 1int, n_after)
        &&& self.spec_longest() == longest_after(base, changed, rows.1, n_new as nat)
    }

    /// The items and longest row that an update leaves are those that
    /// [`TextWrapper::updated_from`] describes.
    #[verifier::spinoff_prover]
    proof fn lemma_update_result<F: Fn(&str) -> Vec<usize>>(
        prev: TextWrapper,
        next: TextWrapper,
        changed: Seq<char>,
        start: int,
        end: int,
        inserted_len: nat,
        wrap_line: F,
        new_items: Seq<LineItem>,
    )
        requires
            ({
                let old_items = prev.spec_lines();
                let rows = update_rows(
                    old_items.len(),
                    prev.spec_text(),
                    changed,
                    start,
                    end,
                    inserted_len,
                );
                let base: (nat, nat) = if rows.0 <= prev.spec_longest().0 <= rows.3 {
                    (0nat, 0nat)
                } else {
                    prev.spec_longest()
                };
                &&& old_items.len() > 0 ==> rows.0 <= rows.3 + 1 && rows.3 < old_items.len()
                &&& rows.1 <= rows.2
                &&& old_items.len() == 0 ==> next.spec_lines() == new_items
                &&& old_items.len() > 0 ==> next.spec_lines() == old_items.take(rows.0 as int)
                    + new_items + old_items.skip(rows.3 + 1int)
                &&& new_items.len() == rows.2 - rows.1 + 1
                &&& forall|k: int|
                    0 <= k < new_items.len() ==> #[trigger] new_items[k].spec_text() == line_text(
                        changed,
                        (rows.1 + k) as nat,
                    ) && item_wrapped_by(new_items[k], prev.spec_wrap(), wrap_line)
                &&& next.spec_longest() == longest_after(
                    base,
                    changed,
                    rows.1,
                    (rows.2 - rows.1 + 1) as nat,
                )
            }),
        ensures
            next.updated_from(prev, changed, start, end, inserted_len, wrap_line),
    {
        let old_items = prev.spec_lines();
        let items = next.spec_lines();
        let rows = update_rows(old_items.len(), prev.spec_text(), changed, start, end, inserted_len);
        lemma_splice_shape(old_items, new_items, items, rows.0 as int, rows.3 as int);
        let n_new = rows.2 - rows.1 + 1;
        let kept: int = if old_items.len() == 0 { 0 } else { rows.0 as int };
        assert(lays_out_rows(items, kept, changed, rows.1, n_new, prev.spec_wrap(), wrap_line)) by {
            assert forall|k: int| 0 <= k < n_new implies #[trigger] items[kept + k].spec_text()
                == line_text(changed, (rows.1 + k) as nat) && item_wrapped_by(
                items[kept + k],
                prev.spec_wrap(),
                wrap_line,
            ) by {
                assert(items[kept + k] == new_items[k]);
                assert(new_items[k].spec_text() == line_text(changed, (rows.1 + k) as nat));
                assert(item_wrapped_by(new_items[k], prev.spec_wrap(), wrap_line));
            }
        }
    }

    pub fn new(wrap: bool) -> (w: Self)
        ensures
            w.spec_text() == Seq::<char>::empty(),
            w.spec_wrap() == wrap,
            w.spec_soft_lines() == 0,
            w.spec_lines().len() == 0,
            w.spec_longest() == (0nat, 0nat),
    {
        Self {
            text: Rope::new(),
            soft_lines: 0,
            wrap,
            longest_row: LongestRow::default(),
            lines: Vec::new(),
        }
    }

    /// Sets the text without laying out its lines.
    pub fn set_default_text(&mut self, text: &Rope)
        ensures
            final(self).spec_text() == rope_text(*text),
            final(self).spec_wrap() == old(self).spec_wrap(),
            final(self).spec_soft_lines() == old(self).spec_soft_lines(),
            final(self).spec_lines() == old(self).spec_lines(),
            final(self).spec_longest() == old(self).spec_longest(),
    {
        self.text = text.clone();
    }

    /// Turns soft wrapping on or off; the lines are laid out again by the
    /// next update.
    pub fn set_wrap_enabled(&mut self, wrap: bool)
        ensures
            final(self).spec_text() == old(self).spec_text(),
            final(self).spec_wrap() == wrap,
            final(self).spec_soft_lines() == old(self).spec_soft_lines(),
            final(self).spec_lines() == old(self).spec_lines(),
            final(self).spec_longest() == old(self).spec_longest(),
    {
        self.wrap = wrap;
    }

    /// Get the total number of lines including wrapped lines.
    pub fn len(&self) -> (n: usize)
        ensures
            n == self.spec_soft_lines(),
    {
        self.soft_lines
    }

    /// Update the text wrapper and recalculate the wrapped lines.
    ///
    /// - `changed_text`: The text [`Rope`] that has changed.
    /// - `range`: The `selected_range` before change.
    /// - `new_text`: The inserted text.
    /// - `wrap_line`: Breaks a line at the wrap width, returning the byte
    ///   offsets of the breaks; called only when wrapping is on.
    ///
    /// The rows of the old text that the range touched are replaced by the
    /// rows of the changed text that the inserted text covers; the other
    /// items are kept.
    #[verifier::spinoff_prover]
    #[verifier::rlimit(30)]
    pub fn _update<F: Fn(&str) -> Vec<usize>>(
        &mut self,
        changed_text: &Rope,
        range: &Range<usize>,
        new_text: &Rope,
        wrap_line: &F,
    )
        requires
            old(self).spec_wrap() ==> wrapper_ok(*wrap_line),
            utf8_len(rope_text(*changed_text)) < usize::MAX,
            old(self).spec_lines().len() <= lines_count(old(self).spec_text()),
            update_ok(
                old(self).spec_text(),
                old(self).wf(),
                rope_text(*changed_text),
                range.start as int,
                range.end as int,
                rope_text(*new_text),
            ),
        ensures
            final(self).spec_text() == rope_text(*changed_text),
            final(self).spec_wrap() == old(self).spec_wrap(),
            final(self).wf(),
            final(self).updated_from(
                *old(self),
                rope_text(*changed_text),
                range.start as int,
                range.end as int,
                utf8_len(rope_text(*new_text)),
                *wrap_line,
            ),
    {
        let ghost prev = *self;
        let (start_row, new_start_row, new_end_row, end_row) = self.replaced_rows(
            changed_text,
            range,
            new_text,
        );

        // Remove the old changed lines: a longest row among them is forgotten.
        if start_row <= self.longest_row.row && self.longest_row.row <= end_row {
            self.longest_row = LongestRow::default();
        }

        // To add the new lines.
        let (new_lines, longest_row_ix, longest_row_len) = layout_rows(
            changed_text,
            new_start_row,
            new_end_row,
            self.wrap,
            wrap_line,
            self.longest_row.row,
            self.longest_row.len,
        );
        let ghost new_items = new_lines@;
        splice_items(&mut self.lines, start_row, end_row, new_lines);
        self.text = changed_text.clone();
        proof {
            Self::lemma_update_lines(
                prev,
                self.lines@,
                rope_text(*changed_text),
                range.start as int,
                range.end as int,
                rope_text(*new_text),
                new_items,
            );
        }
        self.soft_lines = count_soft_lines(&self.lines);
        self.longest_row = LongestRow { row: longest_row_ix, len: longest_row_len };
        proof {
            Self::lemma_update_result(
                prev,
                *self,
                rope_text(*changed_text),
                range.start as int,
                range.end as int,
                utf8_len(rope_text(*new_text)),
                *wrap_line,
                new_items,
            );
        }
    }

    /// Lays out all lines of `text` again.
    pub fn update_all<F: Fn(&str) -> Vec<usize>>(&mut self, text: &Rope, wrap_line: &F)
        requires
            old(self).spec_wrap() ==> wrapper_ok(*wrap_line),
            utf8_len(rope_text(*text)) < usize::MAX,
            old(self).spec_lines().len() <= lines_count(old(self).spec_text()),
        ensures
            final(self).spec_text() == rope_text(*text),
            final(self).spec_wrap() == old(self).spec_wrap(),
            final(self).wf(),
            final(self).updated_from(
                *old(self),
                rope_text(*text),
                0,
                if utf8_len(rope_text(*text)) >= utf8_len(old(self).spec_text()) {
                    utf8_len(rope_text(*text)) as int
                } else {
                    utf8_len(old(self).spec_text()) as int
                },
                utf8_len(rope_text(*text)),
                *wrap_line,
            ),
    {
        // The range covers the old text as well as the new one, so that every
        // old row is replaced.
        let new_len = text.len_bytes();
        let old_len = self.text.len_bytes();
        let end = if new_len >= old_len {
            new_len
        } else {
            old_len
        };
        self._update(text, &(0..end), text, wrap_line);
    }

    /// The rows an update replaces: the first and last old row (clamped to
    /// the items), and the first and last row of the changed text to lay out.
    fn replaced_rows(&self, changed_text: &Rope, range: &Range<usize>, new_text: &Rope) -> (r: (
        usize,
        usize,
        usize,
        usize,
    ))
        requires
            utf8_len(rope_text(*changed_text)) < usize::MAX,
            self.spec_lines().len() <= lines_count(self.spec_text()),
            update_ok(
                self.spec_text(),
                self.wf(),
                rope_text(*changed_text),
                range.start as int,
                range.end as int,
                rope_text(*new_text),
            ),
        ensures
            (r.0 as nat, r.1 as nat, r.2 as nat, r.3 as nat) == update_rows(
                self.spec_lines().len(),
                self.spec_text(),
                rope_text(*changed_text),
                range.start as int,
                range.end as int,
                utf8_len(rope_text(*new_text)),
            ),
            r.1 <= r.2 <= count_newlines(rope_text(*changed_text)),
            self.spec_lines().len() > 0 ==> r.0 <= r.3 + 1 && r.3 < self.spec_lines().len(),
    {
        let ghost changed = rope_text(*changed_text);
        proof {
            lemma_update_rows(
                self.spec_lines().len(),
                self.spec_text(),
                self.wf(),
                changed,
                range.start as int,
                range.end as int,
                rope_text(*new_text),
            );
        }
        let last_ix = self.lines.len().saturating_sub(1);
        let start_row = self.text.offset_to_position(range.start).line;
        let start_row = if start_row < last_ix {
            start_row
        } else {
            last_ix
        };
        let end_row = self.text.offset_to_position(range.end).line;
        let end_row = if end_row < last_ix {
            end_row
        } else {
            last_ix
        };
        let new_start_row = changed_text.offset_to_position(range.start).line;
        let new_end_row = changed_text.offset_to_position(range.start + new_text.len_bytes()).line;
        (start_row, new_start_row, new_end_row, end_row)
    }

    /// After an update the items are those of the changed text's lines, and
    /// their soft lines fit in a `usize`.
    proof fn lemma_update_lines(
        prev: TextWrapper,
        items: Seq<LineItem>,
        changed: Seq<char>,
        start: int,
        end: int,
        inserted: Seq<char>,
        new_items: Seq<LineItem>,
    )
        requires
            utf8_len(changed) < usize::MAX,
            prev.spec_lines().len() <= lines_count(prev.spec_text()),
            update_ok(prev.spec_text(), prev.wf(), changed, start, end, inserted),
            ({
                let old_items = prev.spec_lines();
                let rows = update_rows(
                    old_items.len(),
                    prev.spec_text(),
                    changed,
                    start,
                    end,
                    utf8_len(inserted),
                );
                &&& old_items.len() == 0 ==> items == new_items
                &&& old_items.len() > 0 ==> items == old_items.take(rows.0 as int) + new_items
                    + old_items.skip(rows.3 + 1int)
                &&& new_items.len() == rows.2 - rows.1 + 1
                &&& forall|k: int|
                    0 <= k < new_items.len() ==> #[trigger] new_items[k].spec_text() == line_text(
                        changed,
                        (rows.1 + k) as nat,
                    ) && item_fits(new_items[k])
            }),
        ensures
            lines_match(items, changed),
            total_wrapped(items) <= usize::MAX,
    {
        let old_items = prev.spec_lines();
        let old_text = prev.spec_text();
        let r = lemma_update_rows(
            old_items.len(),
            old_text,
            prev.wf(),
            changed,
            start,
            end,
            inserted,
        );
        if start == 0 && end >= utf8_len(old_text) && inserted == changed {
            assert(lines_match(items, changed));
        } else {
            lemma_replacement_lines(old_items, old_text, changed, r.0, r.1, inserted, new_items);
        }
        lemma_total_wrapped_bound(items, changed);
    }

    /// Get the line item by row index.
    pub fn line(&self, row: usize) -> (item: Option<&LineItem>)
        ensures
            row < self.spec_lines().len() ==> item == Some(&self.spec_lines()[row as int]),
            row >= self.spec_lines().len() ==> item is None,
    {
        if row < self.lines.len() {
            Some(&self.lines[row])
        } else {
            None
        }
    }
}

/// Every item is one piece covering its whole line.
pub open spec fn unwrapped_items(items: Seq<LineItem>) -> bool {
    forall|i: int|
        0 <= i < items.len() ==> (#[trigger] items[i]).wrapped_lines@ == seq![
            Range { start: 0usize, end: utf8_len(items[i].spec_text()) as usize },
        ]
}

/// Items of one piece each count one soft line each.
proof fn lemma_total_wrapped_unwrapped(items: Seq<LineItem>)
    requires
        unwrapped_items(items),
    ensures
        total_wrapped(items) == items.len(),
    decreases items.len(),
{
    if items.len() > 0 {
        let prev = items.drop_last();
        assert forall|i: int| 0 <= i < prev.len() implies (#[trigger] prev[i]).wrapped_lines@ == seq![
            Range { start: 0usize, end: utf8_len(prev[i].spec_text()) as usize },
        ] by {
            assert(prev[i] == items[i]);
        }
        lemma_total_wrapped_unwrapped(prev);
        assert(items.last() == items[items.len() - 1]);
    }
}

/// With wrapping off, an update keeps every line in one piece: when each
/// old item was its whole line, after the update the items are the lines of
/// the new text, each its whole line, there are as many soft lines as
/// lines, and a text made empty keeps one line, the piece `0..0`.
pub proof fn lemma_unwrapped_update<F: Fn(&str) -> Vec<usize>>(
    prev: TextWrapper,
    next: TextWrapper,
    changed: Seq<char>,
    start: int,
    end: int,
    inserted_len: nat,
    wrap_line: F,
)
    requires
        !prev.spec_wrap(),
        unwrapped_items(prev.spec_lines()),
        next.wf(),
        next.spec_text() == changed,
        next.updated_from(prev, changed, start, end, inserted_len, wrap_line),
    ensures
        unwrapped_items(next.spec_lines()),
        next.spec_lines().len() == lines_count(changed),
        next.spec_soft_lines() == lines_count(changed),
        changed.len() == 0 ==> next.spec_lines().len() == 1 && next.spec_lines()[0].wrapped_lines@
            == seq![Range { start: 0usize, end: 0usize }],
{
    let old_items = prev.spec_lines();
    let items = next.spec_lines();
    let rows = update_rows(old_items.len(), prev.spec_text(), changed, start, end, inserted_len);
    let n_new = rows.2 - rows.1 + 1;
    let kept: int = if old_items.len() == 0 { 0 } else { rows.0 as int };
    let n_after: int = if old_items.len() == 0 { 0 } else { old_items.len() - rows.3 - 1 };
    assert forall|i: int| 0 <= i < items.len() implies (#[trigger] items[i]).wrapped_lines@ == seq![
        Range { start: 0usize, end: utf8_len(items[i].spec_text()) as usize },
    ] by {
        if i < kept {
            assert(items[i] == old_items[i]);
        } else if i < kept + n_new {
            let k = i - kept;
            assert(item_wrapped_by(items[kept + k], false, wrap_line));
            reveal(item_wrapped_by);
            let breaks = choose|breaks: Seq<usize>|
                {
                    &&& items[i].wrapped_lines@ == #[trigger] wrap_ranges(
                        breaks,
                        utf8_len(items[i].spec_text()) as usize,
                    )
                    &&& false ==> exists|s: &str, v: Vec<usize>|
                        s@ == items[i].spec_text() && #[trigger] call_ensures(wrap_line, (s,), v)
                            && v@ == breaks
                    &&& !false ==> breaks == Seq::<usize>::empty()
                };
            assert(wrap_ranges(breaks, utf8_len(items[i].spec_text()) as usize) =~= seq![
                Range { start: 0usize, end: utf8_len(items[i].spec_text()) as usize },
            ]);
        } else {
            let j = i - kept - n_new;
            assert(items[kept + n_new + j] == old_items[rows.3 + 1 + j]);
        }
    }
    lemma_total_wrapped_unwrapped(items);
    if changed.len() == 0 {
        assert(count_newlines(changed) == 0);
        assert(items[0].spec_text() == line_text(changed, 0));
        assert(line_text(changed, 0).len() == 0);
    }
}

/// The first layout with wrapping off: from a wrapper with no items yet,
/// an update lays out every line of the new text as one whole piece, with as
/// many soft lines as lines, and an empty text as the one piece `0..0`.
pub proof fn lemma_unwrapped_first_layout<F: Fn(&str) -> Vec<usize>>(
    prev: TextWrapper,
    next: TextWrapper,
    changed: Seq<char>,
    start: int,
    end: int,
    inserted_len: nat,
    wrap_line: F,
)
    requires
        !prev.spec_wrap(),
        prev.spec_lines().len() == 0,
        next.wf(),
        next.spec_text() == changed,
        next.updated_from(prev, changed, start, end, inserted_len, wrap_line),
    ensures
        unwrapped_items(next.spec_lines()),
        next.spec_lines().len() == lines_count(changed),
        next.spec_soft_lines() == lines_count(changed),
        changed.len() == 0 ==> next.spec_lines().len() == 1 && next.spec_lines()[0].wrapped_lines@
            == seq![Range { start: 0usize, end: 0usize }],
{
    assert(unwrapped_items(prev.spec_lines()));
    lemma_unwrapped_update(prev, next, changed, start, end, inserted_len, wrap_line);
}

} // verus!
