//! A syntax highlighter for multiline text: the text is parsed with the
//! language's tree-sitter grammar, the captures of its highlights query are
//! cached as styled byte ranges, and the cache is read range by range.

use crate::highlight::{scope_named, scope_of_name, SyntaxScope};
use crate::languages::{
    highlights_query, language_accepted, language_named, query_slots, same_text, slot_source, Language,
    LanguageConfig,
};
use std::ops::Range;
use tree_sitter::{Parser, Query, QueryCursor, StreamingIterator};
use vstd::prelude::*;

verus! {

/// A capture of a query: the bytes `start..end` of a node and the name of
/// the capture.
pub struct Capture {
    pub start: usize,
    pub end: usize,
    pub name: String,
}

/// A capture as plain values.
pub open spec fn capture_view(c: Capture) -> (usize, usize, Seq<char>) {
    (c.start, c.end, c.name@)
}

/// The captures as plain values.
pub open spec fn captures_view(r: Option<Vec<Capture>>) -> Option<Seq<(usize, usize, Seq<char>)>> {
    match r {
        Some(v) => Some(v@.map_values(|c: Capture| capture_view(c))),
        None => None,
    }
}

/// The captures, in the order tree-sitter finds its matches, of the query
/// `query` run on the tree that the grammar of `lang` parses `text` into;
/// `None` when the grammar or the query is refused or the text cannot be
/// parsed.
pub uninterp spec fn capture_spans(lang: Language, query: Seq<char>, text: Seq<char>) -> Option<
    Seq<(usize, usize, Seq<char>)>,
>;

/// Parses `text` afresh with the grammar of `config` (a new
/// `tree_sitter::Parser`), runs the query `query` over the whole tree with
/// `QueryCursor::matches`, and hands out each capture of each match: the
/// node's byte range and the capture's name. The result is
/// [`capture_spans`] of the language, the query and the text.
#[verifier::external_body]
fn query_captures(config: &LanguageConfig, query: &str, text: &str) -> (r: Option<Vec<Capture>>)
    ensures
        captures_view(r) == capture_spans(config@.lang, query@, text@),
{
    let mut parser = Parser::new();
    parser.set_language(&config.config.language).ok()?;
    let tree = parser.parse(text, None)?;
    let query = Query::new(&config.config.language, query).ok()?;
    let mut cursor = QueryCursor::new();
    let mut matches = cursor.matches(&query, tree.root_node(), text.as_bytes());
    let mut captures = Vec::new();
    while let Some(m) = matches.next() {
        for cap in m.captures() {
            let name = query.capture_names()[cap.index as usize].to_string();
            captures.push(Capture { start: cap.node.start_byte(), end: cap.node.end_byte(), name });
        }
    }
    Some(captures)
}

/// A cached style: a byte range of the text and the scope its capture is
/// styled under (`None` for the default style).
pub type StyleEntry = (Range<usize>, Option<SyntaxScope>);

/// The position of the last entry for `r`, or -1 when there is none.
pub open spec fn entry_index(cache: Seq<StyleEntry>, r: Range<usize>) -> int
    decreases cache.len(),
{
    if cache.len() == 0 {
        -1
    } else if cache.last().0 == r {
        cache.len() - 1
    } else {
        entry_index(cache.drop_last(), r)
    }
}

/// The cache with `r` styled under `scope`: its entry replaced when it has
/// one, else a new entry at the end.
pub open spec fn cache_insert(cache: Seq<StyleEntry>, r: Range<usize>, scope: Option<SyntaxScope>) -> Seq<
    StyleEntry,
> {
    let i = entry_index(cache, r);
    if i >= 0 {
        cache.update(i, (r, scope))
    } else {
        cache.push((r, scope))
    }
}

/// The cache filled from `captures`, in order: each capture's range styled
/// under the scope of its name, a later capture of the same range winning.
pub open spec fn cache_of(captures: Seq<(usize, usize, Seq<char>)>) -> Seq<StyleEntry>
    decreases captures.len(),
{
    if captures.len() == 0 {
        Seq::empty()
    } else {
        let c = captures.last();
        cache_insert(cache_of(captures.drop_last()), Range { start: c.0, end: c.1 }, scope_of_name(c.2))
    }
}

/// The captures of the language's highlights query in `text`, when the
/// language's configuration is accepted.
pub open spec fn syntax_captures(lang: Language, text: Seq<char>) -> Option<Seq<(usize, usize, Seq<char>)>> {
    if language_accepted(lang) {
        capture_spans(lang, slot_source(query_slots(lang).0), text)
    } else {
        None
    }
}

/// The cached styles inside `range` (start and end both in it, the end of
/// `range` excluded), shifted to start from `range.start`.
pub open spec fn styles_in(cache: Seq<StyleEntry>, range: Range<usize>) -> Seq<StyleEntry>
    decreases cache.len(),
{
    if cache.len() == 0 {
        Seq::empty()
    } else {
        let prev = styles_in(cache.drop_last(), range);
        let (r, scope) = cache.last();
        if range.start <= r.start < range.end && range.start <= r.end < range.end {
            prev.push(
                (Range { start: (r.start - range.start) as usize, end: (r.end - range.start) as usize }, scope),
            )
        } else {
            prev
        }
    }
}

/// The position of the last entry of `cache` for `start..end`, if any.
fn find_entry(cache: &Vec<StyleEntry>, start: usize, end: usize) -> (i: Option<usize>)
    ensures
        match i {
            Some(i) => i < cache@.len() && i as int == entry_index(cache@, Range { start, end }),
            None => entry_index(cache@, Range { start, end }) == -1,
        },
{
    let ghost r = Range { start, end };
    let mut k: usize = cache.len();
    proof {
        assert(cache@.take(k as int) =~= cache@);
    }
    while k > 0
        invariant
            k <= cache@.len(),
            r == (Range { start, end }),
            entry_index(cache@, r) == entry_index(cache@.take(k as int), r),
        decreases k,
    {
        let ghost prefix = cache@.take(k as int);
        proof {
            assert(prefix.drop_last() =~= cache@.take(k - 1));
            assert(prefix.last() == cache@[k - 1]);
        }
        if cache[k - 1].0.start == start && cache[k - 1].0.end == end {
            proof {
                assert(prefix.last().0 == r);
            }
            return Some(k - 1);
        }
        proof {
            assert(prefix.last().0 != r);
        }
        k -= 1;
    }
    None
}

/// The cache filled from `captures`.
pub fn build_cache(captures: &Vec<Capture>) -> (cache: Vec<StyleEntry>)
    ensures
        cache@ == cache_of(captures@.map_values(|c: Capture| capture_view(c))),
{
    let ghost caps = captures@.map_values(|c: Capture| capture_view(c));
    let mut cache: Vec<StyleEntry> = Vec::new();
    let mut i: usize = 0;
    while i < captures.len()
        invariant
            i <= captures@.len(),
            caps == captures@.map_values(|c: Capture| capture_view(c)),
            cache@ == cache_of(caps.take(i as int)),
        decreases captures@.len() - i,
    {
        proof {
            assert(caps.take(i + 1).drop_last() =~= caps.take(i as int));
            assert(caps.take(i + 1).last() == capture_view(captures@[i as int]));
        }
        let start = captures[i].start;
        let end = captures[i].end;
        let scope = scope_named(captures[i].name.as_str());
        match find_entry(&cache, start, end) {
            Some(k) => cache.set(k, (start..end, scope)),
            None => cache.push((start..end, scope)),
        }
        i += 1;
    }
    proof {
        assert(caps.take(i as int) =~= caps);
    }
    cache
}

/// The cached styles inside `range`, relative to its start.
pub fn styles_in_range(cache: &Vec<StyleEntry>, range: Range<usize>) -> (r: Vec<StyleEntry>)
    ensures
        r@ == styles_in(cache@, range),
{
    let mut out: Vec<StyleEntry> = Vec::new();
    let mut i: usize = 0;
    while i < cache.len()
        invariant
            i <= cache@.len(),
            out@ == styles_in(cache@.take(i as int), range),
        decreases cache@.len() - i,
    {
        proof {
            assert(cache@.take(i + 1).drop_last() =~= cache@.take(i as int));
        }
        let (s, e) = (cache[i].0.start, cache[i].0.end);
        if range.start <= s && s < range.end && range.start <= e && e < range.end {
            out.push((s - range.start..e - range.start, cache[i].1));
        }
        i += 1;
    }
    proof {
        assert(cache@.take(i as int) =~= cache@);
    }
    out
}

/// What a syntax highlighter holds: its language, the text last
/// highlighted, and the cached styles of that text.
pub struct SyntaxHighlighterView {
    pub language: Language,
    pub text: Seq<char>,
    pub cache: Seq<StyleEntry>,
}

/// A syntax highlighter for multiline text, with a cache of the styles of
/// the text last highlighted.
pub struct SyntaxHighlighter {
    language: Language,
    config: Option<LanguageConfig>,
    text: String,
    cache: Vec<StyleEntry>,
}

impl View for SyntaxHighlighter {
    type V = SyntaxHighlighterView;

    closed spec fn view(&self) -> SyntaxHighlighterView {
        SyntaxHighlighterView { language: self.language, text: self.text@, cache: self.cache@ }
    }
}

impl SyntaxHighlighter {
    /// The configuration is that of the language, present exactly when
    /// tree-sitter accepts the language's grammar and queries.
    pub closed spec fn wf(&self) -> bool {
        &&& self.config is Some <==> language_accepted(self.language)
        &&& self.config matches Some(c) ==> c@.lang == self.language
    }

    /// A highlighter for the language named `lang` (such as `"rust"` or
    /// `"rs"`), with no text yet.
    pub fn new(lang: &str) -> (h: Self)
        requires
            language_named(lang@) is Some,
        ensures
            h.wf(),
            h@ == (SyntaxHighlighterView {
                language: language_named(lang@)->0,
                text: Seq::empty(),
                cache: Seq::empty(),
            }),
    {
        let language = match Language::from_str(lang) {
            Some(l) => l,
            None => Language::Json,
        };
        let h = SyntaxHighlighter { language, config: language.build(), text: String::new(), cache: Vec::new() };
        proof {
            assert(h.text@ =~= Seq::<char>::empty());
        }
        h
    }

    /// Switches to the language named `lang`; a new language starts with
    /// no text, the same one keeps everything.
    pub fn set_language(&mut self, lang: &str)
        requires
            old(self).wf(),
            language_named(lang@) is Some,
        ensures
            final(self).wf(),
            language_named(lang@)->0 == old(self)@.language ==> final(self)@ == old(self)@,
            language_named(lang@)->0 != old(self)@.language ==> final(self)@ == (SyntaxHighlighterView {
                language: language_named(lang@)->0,
                text: Seq::empty(),
                cache: Seq::empty(),
            }),
    {
        let language = match Language::from_str(lang) {
            Some(l) => l,
            None => self.language,
        };
        if self.language == language {
            return;
        }
        self.language = language;
        self.config = language.build();
        self.text = String::new();
        self.cache = Vec::new();
        proof {
            assert(self.text@ =~= Seq::<char>::empty());
        }
    }

    /// Whether there is no text.
    pub fn is_empty(&self) -> (b: bool)
        ensures
            b == (self@.text.len() == 0),
    {
        self.text.as_str().unicode_len() == 0
    }

    /// Highlights `pending_text`, the text after `_selected_range` was
    /// replaced by `_new_text`: the same text as before changes nothing;
    /// otherwise the text is parsed whole and the cache refilled from the
    /// captures of the language's highlights query. Returns `false`, with
    /// nothing changed, when tree-sitter refuses the language or the text.
    pub fn update(&mut self, _selected_range: &Range<usize>, pending_text: &str, _new_text: &str) -> (ok: bool)
        requires
            old(self).wf(),
        ensures
            final(self).wf(),
            old(self)@.text == pending_text@ ==> ok && final(self)@ == old(self)@,
            old(self)@.text != pending_text@ ==> (ok <==> syntax_captures(old(self)@.language, pending_text@) is Some),
            old(self)@.text != pending_text@ && ok ==> final(self)@ == (SyntaxHighlighterView {
                language: old(self)@.language,
                text: pending_text@,
                cache: cache_of(syntax_captures(old(self)@.language, pending_text@)->0),
            }),
            !ok ==> final(self)@ == old(self)@,
    {
        if same_text(self.text.as_str(), pending_text) {
            return true;
        }
        let captures = match &self.config {
            Some(config) => query_captures(config, highlights_query(self.language), pending_text),
            None => None,
        };
        match captures {
            Some(captures) => {
                self.cache = build_cache(&captures);
                self.text = pending_text.to_owned();
                true
            },
            None => false,
        }
    }

    /// The cached styles inside `range`, relative to its start.
    pub fn styles(&self, range: Range<usize>) -> (r: Vec<StyleEntry>)
        ensures
            r@ == styles_in(self@.cache, range),
    {
        styles_in_range(&self.cache, range)
    }
}

} // verus!
