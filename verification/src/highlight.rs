//! Turning syntax highlight events into styled spans of a line, and picking
//! the cached spans inside a range.

use std::ops::Range;
use crate::languages::{Language, LanguageConfig};
use tree_sitter_highlight::{HighlightConfiguration, HighlightEvent, Highlighter};
use vstd::prelude::*;

verus! {

/// An event of a syntax highlighter, as the spans logic reads it.
#[derive(Debug, Clone, Copy, PartialEq, Eq, Structural)]
pub enum SpanEvent {
    /// A piece of source, the bytes `start..end`.
    Source { start: usize, end: usize },
    /// A highlight starts; the style of its scope in the theme, if it has one.
    Start(Option<u32>),
    /// The current highlight ends.
    End,
    /// The highlighter failed on this event; it is skipped.
    Failed,
}

/// A styled span: bytes and a style, `None` for the default style.
pub type Span = (Range<usize>, Option<u32>);

/// The state while folding events: the spans so far, the end of the last
/// styled span, and the source and style of the highlight in progress.
pub struct SpanFold {
    pub spans: Seq<Span>,
    pub last_end: usize,
    pub current_range: Option<Range<usize>>,
    pub current_style: Option<u32>,
}

/// One event: a source piece is remembered; a start with a style sets the
/// style; an end with both a source and a style emits the default-styled gap
/// before it (if any) and the styled piece, then forgets both.
pub open spec fn fold_step(f: SpanFold, e: SpanEvent) -> SpanFold {
    match e {
        SpanEvent::Source { start, end } => SpanFold {
            current_range: Some(Range { start, end }),
            ..f
        },
        SpanEvent::Start(style) => match style {
            Some(s) => SpanFold { current_style: Some(s), ..f },
            None => f,
        },
        SpanEvent::End => match (f.current_range, f.current_style) {
            (Some(r), Some(s)) => {
                let gap: Seq<Span> = if f.last_end < r.start {
                    seq![(Range { start: f.last_end, end: r.start }, None)]
                } else {
                    Seq::empty()
                };
                SpanFold {
                    spans: f.spans + gap + seq![(r, Some(s))],
                    last_end: r.end,
                    current_range: None,
                    current_style: None,
                }
            },
            _ => SpanFold { current_range: None, current_style: None, ..f },
        },
        SpanEvent::Failed => f,
    }
}

/// The state after all of `events`, from no spans.
pub open spec fn fold_events(events: Seq<SpanEvent>) -> SpanFold
    decreases events.len(),
{
    if events.len() == 0 {
        SpanFold { spans: Seq::empty(), last_end: 0, current_range: None, current_style: None }
    } else {
        fold_step(fold_events(events.drop_last()), events.last())
    }
}

/// The spans of a line of `line_len` bytes: those of the events, then the
/// rest of the line in the default style.
pub open spec fn line_spans(events: Seq<SpanEvent>, line_len: usize) -> Seq<Span> {
    let f = fold_events(events);
    if f.last_end < line_len {
        f.spans.push((Range { start: f.last_end, end: line_len }, None))
    } else {
        f.spans
    }
}

/// The styled spans of a line of `line_len` bytes from the highlighter's
/// events.
pub fn highlight_spans(events: &Vec<SpanEvent>, line_len: usize) -> (spans: Vec<Span>)
    ensures
        spans@ == line_spans(events@, line_len),
{
    let mut spans: Vec<Span> = Vec::new();
    let mut last_end: usize = 0;
    let mut current_range: Option<Range<usize>> = None;
    let mut current_style: Option<u32> = None;
    let mut i: usize = 0;
    while i < events.len()
        invariant
            i <= events@.len(),
            fold_events(events@.take(i as int)) == (SpanFold {
                spans: spans@,
                last_end,
                current_range,
                current_style,
            }),
        decreases events@.len() - i,
    {
        proof {
            assert(events@.take(i + 1).drop_last() =~= events@.take(i as int));
        }
        let ghost before = spans@;
        match events[i] {
            SpanEvent::Source { start, end } => {
                current_range = Some(start..end);
            },
            SpanEvent::Start(style) => {
                if let Some(s) = style {
                    current_style = Some(s);
                }
            },
            SpanEvent::End => {
                match (&current_range, current_style) {
                    (Some(range), Some(style)) => {
                        let (start, end) = (range.start, range.end);
                        let ghost gap: Seq<Span> = if last_end < start {
                            seq![(Range { start: last_end, end: start }, None)]
                        } else {
                            Seq::empty()
                        };
                        if last_end < start {
                            spans.push((last_end..start, None));
                        }
                        spans.push((start..end, Some(style)));
                        last_end = end;
                        proof {
                            assert(spans@ =~= before + gap + seq![(Range { start, end }, Some(style))]);
                        }
                    },
                    _ => {},
                }
                current_range = None;
                current_style = None;
            },
            SpanEvent::Failed => {},
        }
        i += 1;
    }
    proof {
        assert(events@.take(i as int) =~= events@);
    }
    if last_end < line_len {
        spans.push((last_end..line_len, None));
    }
    spans
}

#[verifier::external_type_specification]
#[verifier::external_body]
pub struct ExHighlighter(Highlighter);

#[verifier::external_type_specification]
#[verifier::external_body]
pub struct ExHighlightConfiguration(HighlightConfiguration);

/// An event of the tree-sitter highlighter: a piece of source, the start of
/// the highlight with the given index among the configured names, the end of
/// the current highlight, or an error in place of an event.
#[derive(Debug, Clone, Copy, PartialEq, Eq, Structural)]
pub enum TsEvent {
    Source { start: usize, end: usize },
    Start(usize),
    End,
    Failed,
}

/// The event as the spans logic reads it: a start carries the style that
/// `styles` gives the highlight's index (`None` past its end).
pub open spec fn span_event_of(e: TsEvent, styles: Seq<Option<u32>>) -> SpanEvent {
    match e {
        TsEvent::Source { start, end } => SpanEvent::Source { start, end },
        TsEvent::Start(i) => SpanEvent::Start(
            if i < styles.len() {
                styles[i as int]
            } else {
                None
            },
        ),
        TsEvent::End => SpanEvent::End,
        TsEvent::Failed => SpanEvent::Failed,
    }
}

/// Each event as the spans logic reads it.
pub open spec fn span_events_of(events: Seq<TsEvent>, styles: Seq<Option<u32>>) -> Seq<SpanEvent> {
    events.map_values(|e: TsEvent| span_event_of(e, styles))
}

/// The whole line of `line_len` bytes in the default style.
pub open spec fn default_spans(line_len: usize) -> Seq<Span> {
    seq![(Range { start: 0, end: line_len }, None)]
}

/// The highlighter's events, each with the style that `styles` gives its
/// highlight index.
pub fn span_events(events: &Vec<TsEvent>, styles: &Vec<Option<u32>>) -> (r: Vec<SpanEvent>)
    ensures
        r@ == span_events_of(events@, styles@),
{
    let mut r: Vec<SpanEvent> = Vec::new();
    let mut i: usize = 0;
    while i < events.len()
        invariant
            i <= events@.len(),
            r@ == span_events_of(events@.take(i as int), styles@),
        decreases events@.len() - i,
    {
        let e = match events[i] {
            TsEvent::Source { start, end } => SpanEvent::Source { start, end },
            TsEvent::Start(ix) => SpanEvent::Start(
                if ix < styles.len() {
                    styles[ix]
                } else {
                    None
                },
            ),
            TsEvent::End => SpanEvent::End,
            TsEvent::Failed => SpanEvent::Failed,
        };
        r.push(e);
        proof {
            assert(span_events_of(events@.take(i + 1), styles@) =~= span_events_of(
                events@.take(i as int),
                styles@,
            ).push(span_event_of(events@[i as int], styles@)));
        }
        i += 1;
    }
    proof {
        assert(events@.take(i as int) =~= events@);
    }
    r
}

/// The events as plain values.
pub open spec fn events_view(events: Option<Vec<TsEvent>>) -> Option<Seq<TsEvent>> {
    match events {
        Some(evs) => Some(evs@),
        None => None,
    }
}

/// The spans of a line of `line_len` bytes from what the highlighter gave:
/// the whole line in the default style when it refused to start, else the
/// spans of its events styled by `styles`.
pub open spec fn highlighted_spans(events: Option<Seq<TsEvent>>, line_len: usize, styles: Seq<Option<u32>>) -> Seq<
    Span,
> {
    match events {
        None => default_spans(line_len),
        Some(evs) => line_spans(span_events_of(evs, styles), line_len),
    }
}

/// The spans of a line of `line_len` bytes from what the highlighter gave.
pub fn spans_of_events(events: Option<Vec<TsEvent>>, line_len: usize, styles: &Vec<Option<u32>>) -> (spans: Vec<Span>)
    ensures
        spans@ == highlighted_spans(events_view(events), line_len, styles@),
{
    match events {
        None => {
            let mut spans: Vec<Span> = Vec::new();
            spans.push((0..line_len, None));
            proof {
                assert(spans@ =~= default_spans(line_len));
            }
            spans
        },
        Some(evs) => {
            let styled = span_events(&evs, styles);
            highlight_spans(&styled, line_len)
        },
    }
}

/// No language is injected into the highlighted one.
fn no_injection<'a>(_language: &str) -> (r: Option<&'a HighlightConfiguration>)
    ensures
        r is None,
{
    None
}

/// The events that tree-sitter's highlighter gives for the text `line`
/// under the configuration [`Language::build`] makes for `lang`, configured
/// for the highlight names `names`, with no cancellation and no injected
/// languages; `None` when it refuses to start.
pub uninterp spec fn highlight_events(lang: Language, names: Seq<Seq<char>>, line: Seq<char>) -> Option<Seq<TsEvent>>;

/// Runs `tree_sitter_highlight::Highlighter::highlight` on the bytes of
/// `line` with the configuration of `config`, no cancellation and no
/// injected languages, and hands out its events one for one (an error in
/// place of an event as `Failed`); `None` when it refuses to start. The
/// events are what tree-sitter's parse of the line gives under that
/// configuration: [`highlight_events`] of the language, the names it was
/// configured with, and the line.
#[verifier::external_body]
fn highlighter_events(h: &mut Highlighter, config: &LanguageConfig, line: &str) -> (events: Option<Vec<TsEvent>>)
    ensures
        events_view(events) == highlight_events(config@.lang, config@.names, line@),
{
    let events = h.highlight(&config.config, line.as_bytes(), None, None, no_injection).ok()?;
    Some(events.map(|e| match e {
        Ok(HighlightEvent::Source { start, end }) => TsEvent::Source { start, end },
        Ok(HighlightEvent::HighlightStart(scope)) => TsEvent::Start(scope.0),
        Ok(HighlightEvent::HighlightEnd) => TsEvent::End,
        Err(_) => TsEvent::Failed,
    }).collect())
}

/// The styled spans of a line: the whole line in the default style when
/// there is no configuration or the highlighter refuses to start, else the
/// spans folded from the highlighter's events, a highlight with index `i`
/// styled by `styles[i]`.
pub fn highlight_line(
    h: &mut Highlighter,
    config: Option<&LanguageConfig>,
    line: &str,
    styles: &Vec<Option<u32>>,
) -> (spans: Vec<Span>)
    ensures
        config is None ==> spans@ == default_spans(line.len()),
        config matches Some(c) ==> spans@ == highlighted_spans(
            highlight_events(c@.lang, c@.names, line@),
            line.len(),
            styles@,
        ),
{
    let events = match config {
        None => None,
        Some(config) => highlighter_events(h, config, line),
    };
    spans_of_events(events, line.len(), styles)
}

/// The highlight names, in the order of their indices.
pub fn highlight_names_list() -> (names: Vec<&'static str>)
    ensures
        names@.len() == highlight_names().len(),
        forall|i: int| 0 <= i < names@.len() ==> (#[trigger] names@[i])@ == highlight_names()[i],
{
    let mut names: Vec<&'static str> = Vec::new();
    let mut i: usize = 0;
    while i < 27
        invariant
            i <= 27,
            highlight_names().len() == 27,
            names@.len() == i,
            forall|k: int| 0 <= k < i ==> (#[trigger] names@[k])@ == highlight_names()[k],
        decreases 27 - i,
    {
        match highlight_name(i) {
            Some(name) => names.push(name),
            None => {},
        }
        i += 1;
    }
    names
}

/// The state after the events and then one more.
proof fn lemma_fold_push(events: Seq<SpanEvent>, e: SpanEvent)
    ensures
        fold_events(events.push(e)) == fold_step(fold_events(events), e),
{
    assert(events.push(e).drop_last() =~= events);
}

/// Folding more events only adds spans after those there are.
proof fn lemma_fold_extends(x: Seq<SpanEvent>, y: Seq<SpanEvent>)
    ensures
        fold_events(x + y).spans.len() >= fold_events(x).spans.len(),
        forall|i: int|
            0 <= i < fold_events(x).spans.len() ==> #[trigger] fold_events(x + y).spans[i]
                == fold_events(x).spans[i],
    decreases y.len(),
{
    if y.len() == 0 {
        assert(x + y =~= x);
    } else {
        let z = y.drop_last();
        lemma_fold_extends(x, z);
        assert(x + y =~= (x + z).push(y.last()));
        lemma_fold_push(x + z, y.last());
        let f = fold_events(x + z);
        let g = fold_events(x + y);
        assert(g == fold_step(f, y.last()));
        assert(g.spans.len() >= f.spans.len());
        assert forall|i: int| 0 <= i < f.spans.len() implies #[trigger] g.spans[i] == f.spans[i] by {
        }
    }
}

/// The innermost styled highlight styles its piece: whatever came before
/// and whatever comes after, a highlight start with style `s`, then a
/// source piece `start..end` and the end of the highlight give the span
/// `start..end` in style `s` among the spans of the line.
pub proof fn lemma_innermost_style(
    before: Seq<SpanEvent>,
    s: u32,
    start: usize,
    end: usize,
    after: Seq<SpanEvent>,
    line_len: usize,
)
    ensures
        line_spans(
            before + seq![SpanEvent::Start(Some(s)), SpanEvent::Source { start, end }, SpanEvent::End] + after,
            line_len,
        ).contains((Range { start, end }, Some(s))),
{
    let e1 = before.push(SpanEvent::Start(Some(s)));
    let e2 = e1.push(SpanEvent::Source { start, end });
    let e3 = e2.push(SpanEvent::End);
    assert(e3 =~= before + seq![SpanEvent::Start(Some(s)), SpanEvent::Source { start, end }, SpanEvent::End]);
    lemma_fold_push(before, SpanEvent::Start(Some(s)));
    lemma_fold_push(e1, SpanEvent::Source { start, end });
    lemma_fold_push(e2, SpanEvent::End);
    let f = fold_events(e3);
    assert(f.spans.len() > 0);
    let k = f.spans.len() - 1;
    assert(f.spans[k] == (Range { start, end }, Some(s)));
    lemma_fold_extends(e3, after);
    let events = e3 + after;
    let g = fold_events(events);
    assert(g.spans[k] == f.spans[k]);
    let spans = line_spans(events, line_len);
    assert(spans[k] == g.spans[k]);
}

/// The source pieces of the events come in order: each starts where or
/// after the one before ends, and none ends before it starts.
pub open spec fn sources_ordered(events: Seq<SpanEvent>) -> bool {
    &&& forall|i: int|
        0 <= i < events.len() ==> (#[trigger] events[i] matches SpanEvent::Source { start, end } ==> start
            <= end)
    &&& forall|i: int, j: int|
        0 <= i < j < events.len() ==> (#[trigger] events[i] matches SpanEvent::Source { end, .. } ==> (
        #[trigger] events[j] matches SpanEvent::Source { start, .. } ==> end <= start))
}

/// Every source piece ends within the line.
pub open spec fn sources_within(events: Seq<SpanEvent>, line_len: usize) -> bool {
    forall|i: int|
        0 <= i < events.len() ==> (#[trigger] events[i] matches SpanEvent::Source { end, .. } ==> end
            <= line_len)
}

/// The end of the last source piece, or 0 when there is none.
pub open spec fn last_source_end(events: Seq<SpanEvent>) -> usize
    decreases events.len(),
{
    if events.len() == 0 {
        0
    } else {
        match events.last() {
            SpanEvent::Source { end, .. } => end,
            _ => last_source_end(events.drop_last()),
        }
    }
}

/// The spans follow each other without gap or overlap from 0 to `end`.
pub open spec fn spans_tile(spans: Seq<Span>, end: usize) -> bool {
    &&& spans.len() == 0 ==> end == 0
    &&& spans.len() > 0 ==> spans[0].0.start == 0 && spans.last().0.end == end
    &&& forall|k: int| 0 <= k < spans.len() - 1 ==> (#[trigger] spans[k]).0.end == spans[k + 1].0.start
}

/// What folding ordered events keeps: the spans tile the line up to the
/// last emitted end, which is at most the end of the last source piece and,
/// while a piece is in progress, at most its start.
proof fn lemma_fold_tiles(events: Seq<SpanEvent>)
    requires
        sources_ordered(events),
    ensures
        spans_tile(fold_events(events).spans, fold_events(events).last_end),
        fold_events(events).last_end <= last_source_end(events),
        fold_events(events).current_range matches Some(r) ==> fold_events(events).last_end <= r.start
            && r.end == last_source_end(events) && r.start <= r.end,
        forall|j: int|
            0 <= j < events.len() ==> (#[trigger] events[j] matches SpanEvent::Source { end, .. } ==> end
                <= last_source_end(events)),
    decreases events.len(),
{
    if events.len() > 0 {
        let prev = events.drop_last();
        assert(sources_ordered(prev)) by {
            assert forall|i: int| 0 <= i < prev.len() implies (#[trigger] prev[i] matches SpanEvent::Source {
                start,
                end,
            } ==> start <= end) by {
                assert(prev[i] == events[i]);
            }
            assert forall|i: int, j: int| 0 <= i < j < prev.len() implies (#[trigger] prev[i] matches SpanEvent::Source {
                end,
                ..
            } ==> (#[trigger] prev[j] matches SpanEvent::Source { start, .. } ==> end <= start)) by {
                assert(prev[i] == events[i]);
                assert(prev[j] == events[j]);
            }
        }
        lemma_fold_tiles(prev);
        let f = fold_events(prev);
        let e = events.last();
        let n = events.len() - 1;
        assert(events[n] == e);
        // Every earlier source ends where or before a source here starts.
        assert forall|j: int|
            0 <= j < events.len() implies (#[trigger] events[j] matches SpanEvent::Source { end, .. }
                ==> end <= last_source_end(events)) by {
            if j < n {
                assert(prev[j] == events[j]);
                if let SpanEvent::Source { start, end } = e {
                    if let SpanEvent::Source { end: e2, .. } = events[j] {
                        assert(e2 <= start);
                    }
                }
            }
        }
        match e {
            SpanEvent::Source { start, end } => {
                if prev.len() > 0 && last_source_end(prev) > 0 {
                    lemma_last_source(prev);
                    let k = choose|k: int|
                        0 <= k < prev.len() && (#[trigger] prev[k] matches SpanEvent::Source { end, .. }
                            && end == last_source_end(prev));
                    assert(prev[k] == events[k]);
                }
            },
            SpanEvent::End => {
                let g = fold_events(events);
                if let (Some(r), Some(st)) = (f.current_range, f.current_style) {
                    let gap: Seq<Span> = if f.last_end < r.start {
                        seq![(Range { start: f.last_end, end: r.start }, None)]
                    } else {
                        Seq::empty()
                    };
                    assert(g.spans == f.spans + gap + seq![(r, Some(st))]);
                    assert forall|k: int| 0 <= k < g.spans.len() - 1 implies (#[trigger] g.spans[k]).0.end
                        == g.spans[k + 1].0.start by {
                        if k < f.spans.len() - 1 {
                            assert(g.spans[k] == f.spans[k]);
                            assert(g.spans[k + 1] == f.spans[k + 1]);
                        }
                    }
                }
            },
            _ => {},
        }
    }
}

/// The last source piece's end is the end of some source piece (or 0).
proof fn lemma_last_source(events: Seq<SpanEvent>)
    ensures
        last_source_end(events) == 0 || exists|k: int|
            0 <= k < events.len() && (#[trigger] events[k] matches SpanEvent::Source { end, .. } && end
                == last_source_end(events)),
    decreases events.len(),
{
    if events.len() > 0 {
        let prev = events.drop_last();
        lemma_last_source(prev);
        match events.last() {
            SpanEvent::Source { .. } => {
                assert(events[events.len() - 1] == events.last());
            },
            _ => {
                if last_source_end(prev) != 0 {
                    let k = choose|k: int|
                        0 <= k < prev.len() && (#[trigger] prev[k] matches SpanEvent::Source { end, .. } && end
                            == last_source_end(prev));
                    assert(prev[k] == events[k]);
                }
            },
        }
    }
}

/// The styled spans of a line cover it: when the highlighter's source
/// pieces come in order and within the line, the spans follow each other
/// without gap or overlap from the start of the line to its end.
pub proof fn lemma_spans_cover_line(events: Seq<SpanEvent>, line_len: usize)
    requires
        sources_ordered(events),
        sources_within(events, line_len),
    ensures
        spans_tile(line_spans(events, line_len), line_len),
{
    lemma_fold_tiles(events);
    lemma_last_source(events);
    let f = fold_events(events);
    if last_source_end(events) != 0 {
        let k = choose|k: int|
            0 <= k < events.len() && (#[trigger] events[k] matches SpanEvent::Source { end, .. } && end
                == last_source_end(events));
        assert(events[k] matches SpanEvent::Source { end, .. } && end <= line_len);
    }
    let spans = line_spans(events, line_len);
    if f.last_end < line_len {
        assert forall|k: int| 0 <= k < spans.len() - 1 implies (#[trigger] spans[k]).0.end
            == spans[k + 1].0.start by {
            if k < f.spans.len() - 1 {
                assert(spans[k] == f.spans[k]);
                assert(spans[k + 1] == f.spans[k + 1]);
            }
        }
    }
}

/// A syntax scope that a highlight theme can style.
#[derive(Debug, Clone, Copy, PartialEq, Eq, Structural)]
pub enum SyntaxScope {
    Attribute,
    Comment,
    Constant,
    ConstantBuiltin,
    Constructor,
    Embedded,
    Function,
    FunctionBuiltin,
    Keyword,
    Module,
    Number,
    Operator,
    Property,
    PropertyBuiltin,
    Punctuation,
    PunctuationBracket,
    PunctuationDelimiter,
    PunctuationSpecial,
    Str,
    StrSpecial,
    Tag,
    Type,
    TypeBuiltin,
    Variable,
    VariableBuiltin,
    VariableParameter,
}

/// The scope a theme styles under `name`, if any.
pub open spec fn scope_of_name(name: Seq<char>) -> Option<SyntaxScope> {
    if name == "attribute"@ {
        Some(SyntaxScope::Attribute)
    } else if name == "comment"@ {
        Some(SyntaxScope::Comment)
    } else if name == "constant"@ {
        Some(SyntaxScope::Constant)
    } else if name == "constant.builtin"@ {
        Some(SyntaxScope::ConstantBuiltin)
    } else if name == "constructor"@ {
        Some(SyntaxScope::Constructor)
    } else if name == "embedded"@ {
        Some(SyntaxScope::Embedded)
    } else if name == "function"@ {
        Some(SyntaxScope::Function)
    } else if name == "function.builtin"@ {
        Some(SyntaxScope::FunctionBuiltin)
    } else if name == "keyword"@ {
        Some(SyntaxScope::Keyword)
    } else if name == "module"@ {
        Some(SyntaxScope::Module)
    } else if name == "number"@ {
        Some(SyntaxScope::Number)
    } else if name == "operator"@ {
        Some(SyntaxScope::Operator)
    } else if name == "property"@ {
        Some(SyntaxScope::Property)
    } else if name == "property.builtin"@ {
        Some(SyntaxScope::PropertyBuiltin)
    } else if name == "punctuation"@ {
        Some(SyntaxScope::Punctuation)
    } else if name == "punctuation.bracket"@ {
        Some(SyntaxScope::PunctuationBracket)
    } else if name == "punctuation.delimiter"@ {
        Some(SyntaxScope::PunctuationDelimiter)
    } else if name == "punctuation.special"@ {
        Some(SyntaxScope::PunctuationSpecial)
    } else if name == "string"@ {
        Some(SyntaxScope::Str)
    } else if name == "string.special"@ {
        Some(SyntaxScope::StrSpecial)
    } else if name == "tag"@ {
        Some(SyntaxScope::Tag)
    } else if name == "type"@ {
        Some(SyntaxScope::Type)
    } else if name == "type.builtin"@ {
        Some(SyntaxScope::TypeBuiltin)
    } else if name == "variable"@ {
        Some(SyntaxScope::Variable)
    } else if name == "variable.builtin"@ {
        Some(SyntaxScope::VariableBuiltin)
    } else if name == "variable.parameter"@ {
        Some(SyntaxScope::VariableParameter)
    } else {
        None
    }
}

/// The scope names the highlighter recognizes, in the order of their indices.
pub open spec fn highlight_names() -> Seq<Seq<char>> {
    seq![
        "attribute"@,
        "comment"@,
        "constant"@,
        "constant.builtin"@,
        "constructor"@,
        "embedded"@,
        "function"@,
        "function.builtin"@,
        "keyword"@,
        "module"@,
        "number"@,
        "operator"@,
        "property"@,
        "property.builtin"@,
        "punctuation"@,
        "punctuation.bracket"@,
        "punctuation.delimiter"@,
        "punctuation.special"@,
        "string"@,
        "string.special"@,
        "string.special.key"@,
        "tag"@,
        "type"@,
        "type.builtin"@,
        "variable"@,
        "variable.builtin"@,
        "variable.parameter"@,
    ]
}

/// The scope a theme styles under `name` (`None` for a name it has no
/// style for).
pub fn scope_named(name: &str) -> (r: Option<SyntaxScope>)
    ensures
        r == scope_of_name(name@),
{
    if crate::languages::same_text(name, "attribute") {
        Some(SyntaxScope::Attribute)
    } else if crate::languages::same_text(name, "comment") {
        Some(SyntaxScope::Comment)
    } else if crate::languages::same_text(name, "constant") {
        Some(SyntaxScope::Constant)
    } else if crate::languages::same_text(name, "constant.builtin") {
        Some(SyntaxScope::ConstantBuiltin)
    } else if crate::languages::same_text(name, "constructor") {
        Some(SyntaxScope::Constructor)
    } else if crate::languages::same_text(name, "embedded") {
        Some(SyntaxScope::Embedded)
    } else if crate::languages::same_text(name, "function") {
        Some(SyntaxScope::Function)
    } else if crate::languages::same_text(name, "function.builtin") {
        Some(SyntaxScope::FunctionBuiltin)
    } else if crate::languages::same_text(name, "keyword") {
        Some(SyntaxScope::Keyword)
    } else if crate::languages::same_text(name, "module") {
        Some(SyntaxScope::Module)
    } else if crate::languages::same_text(name, "number") {
        Some(SyntaxScope::Number)
    } else if crate::languages::same_text(name, "operator") {
        Some(SyntaxScope::Operator)
    } else if crate::languages::same_text(name, "property") {
        Some(SyntaxScope::Property)
    } else if crate::languages::same_text(name, "property.builtin") {
        Some(SyntaxScope::PropertyBuiltin)
    } else if crate::languages::same_text(name, "punctuation") {
        Some(SyntaxScope::Punctuation)
    } else if crate::languages::same_text(name, "punctuation.bracket") {
        Some(SyntaxScope::PunctuationBracket)
    } else if crate::languages::same_text(name, "punctuation.delimiter") {
        Some(SyntaxScope::PunctuationDelimiter)
    } else if crate::languages::same_text(name, "punctuation.special") {
        Some(SyntaxScope::PunctuationSpecial)
    } else if crate::languages::same_text(name, "string") {
        Some(SyntaxScope::Str)
    } else if crate::languages::same_text(name, "string.special") {
        Some(SyntaxScope::StrSpecial)
    } else if crate::languages::same_text(name, "tag") {
        Some(SyntaxScope::Tag)
    } else if crate::languages::same_text(name, "type") {
        Some(SyntaxScope::Type)
    } else if crate::languages::same_text(name, "type.builtin") {
        Some(SyntaxScope::TypeBuiltin)
    } else if crate::languages::same_text(name, "variable") {
        Some(SyntaxScope::Variable)
    } else if crate::languages::same_text(name, "variable.builtin") {
        Some(SyntaxScope::VariableBuiltin)
    } else if crate::languages::same_text(name, "variable.parameter") {
        Some(SyntaxScope::VariableParameter)
    } else {
        None
    }
}

/// The name of the highlight with index `index`, if there is one.
pub fn highlight_name(index: usize) -> (r: Option<&'static str>)
    ensures
        index < highlight_names().len() ==> (r matches Some(s) && s@ == highlight_names()[index as int]),
        index >= highlight_names().len() ==> r is None,
{
    match index {
        0 => Some("attribute"),
        1 => Some("comment"),
        2 => Some("constant"),
        3 => Some("constant.builtin"),
        4 => Some("constructor"),
        5 => Some("embedded"),
        6 => Some("function"),
        7 => Some("function.builtin"),
        8 => Some("keyword"),
        9 => Some("module"),
        10 => Some("number"),
        11 => Some("operator"),
        12 => Some("property"),
        13 => Some("property.builtin"),
        14 => Some("punctuation"),
        15 => Some("punctuation.bracket"),
        16 => Some("punctuation.delimiter"),
        17 => Some("punctuation.special"),
        18 => Some("string"),
        19 => Some("string.special"),
        20 => Some("string.special.key"),
        21 => Some("tag"),
        22 => Some("type"),
        23 => Some("type.builtin"),
        24 => Some("variable"),
        25 => Some("variable.builtin"),
        26 => Some("variable.parameter"),
        _ => None,
    }
}

/// The name a theme styles a scope under.
pub open spec fn scope_name(scope: SyntaxScope) -> Seq<char> {
    match scope {
        SyntaxScope::Attribute => "attribute"@,
        SyntaxScope::Comment => "comment"@,
        SyntaxScope::Constant => "constant"@,
        SyntaxScope::ConstantBuiltin => "constant.builtin"@,
        SyntaxScope::Constructor => "constructor"@,
        SyntaxScope::Embedded => "embedded"@,
        SyntaxScope::Function => "function"@,
        SyntaxScope::FunctionBuiltin => "function.builtin"@,
        SyntaxScope::Keyword => "keyword"@,
        SyntaxScope::Module => "module"@,
        SyntaxScope::Number => "number"@,
        SyntaxScope::Operator => "operator"@,
        SyntaxScope::Property => "property"@,
        SyntaxScope::PropertyBuiltin => "property.builtin"@,
        SyntaxScope::Punctuation => "punctuation"@,
        SyntaxScope::PunctuationBracket => "punctuation.bracket"@,
        SyntaxScope::PunctuationDelimiter => "punctuation.delimiter"@,
        SyntaxScope::PunctuationSpecial => "punctuation.special"@,
        SyntaxScope::Str => "string"@,
        SyntaxScope::StrSpecial => "string.special"@,
        SyntaxScope::Tag => "tag"@,
        SyntaxScope::Type => "type"@,
        SyntaxScope::TypeBuiltin => "type.builtin"@,
        SyntaxScope::Variable => "variable"@,
        SyntaxScope::VariableBuiltin => "variable.builtin"@,
        SyntaxScope::VariableParameter => "variable.parameter"@,
    }
}

/// Looking a scope up under its own name gives that scope.
proof fn lemma_scope_of_scope_name(scope: SyntaxScope)
    ensures
        scope_of_name(scope_name(scope)) == Some(scope),
{
    reveal_strlit("attribute");
    reveal_strlit("comment");
    reveal_strlit("constant");
    reveal_strlit("constant.builtin");
    reveal_strlit("constructor");
    reveal_strlit("embedded");
    reveal_strlit("function");
    reveal_strlit("function.builtin");
    reveal_strlit("keyword");
    reveal_strlit("module");
    reveal_strlit("number");
    reveal_strlit("operator");
    reveal_strlit("property");
    reveal_strlit("property.builtin");
    reveal_strlit("punctuation");
    reveal_strlit("punctuation.bracket");
    reveal_strlit("punctuation.delimiter");
    reveal_strlit("punctuation.special");
    reveal_strlit("string");
    reveal_strlit("string.special");
    reveal_strlit("tag");
    reveal_strlit("type");
    reveal_strlit("type.builtin");
    reveal_strlit("variable");
    reveal_strlit("variable.builtin");
    reveal_strlit("variable.parameter");
    match scope {
        SyntaxScope::Attribute => {
        },
        SyntaxScope::Comment => {
            assert("comment"@.len() == 7 && "attribute"@.len() == 9);
        },
        SyntaxScope::Constant => {
            assert("constant"@.len() == 8 && "attribute"@.len() == 9);
            assert("constant"@.len() == 8 && "comment"@.len() == 7);
        },
        SyntaxScope::ConstantBuiltin => {
            assert("constant.builtin"@.len() == 16 && "attribute"@.len() == 9);
            assert("constant.builtin"@.len() == 16 && "comment"@.len() == 7);
            assert("constant.builtin"@.len() == 16 && "constant"@.len() == 8);
        },
        SyntaxScope::Constructor => {
            assert("constructor"@.len() == 11 && "attribute"@.len() == 9);
            assert("constructor"@.len() == 11 && "comment"@.len() == 7);
            assert("constructor"@.len() == 11 && "constant"@.len() == 8);
            assert("constructor"@.len() == 11 && "constant.builtin"@.len() == 16);
        },
        SyntaxScope::Embedded => {
            assert("embedded"@.len() == 8 && "attribute"@.len() == 9);
            assert("embedded"@.len() == 8 && "comment"@.len() == 7);
            assert("embedded"@[0] == 'e' && "constant"@[0] == 'c');
            assert("embedded"@.len() == 8 && "constant.builtin"@.len() == 16);
            assert("embedded"@.len() == 8 && "constructor"@.len() == 11);
        },
        SyntaxScope::Function => {
            assert("function"@.len() == 8 && "attribute"@.len() == 9);
            assert("function"@.len() == 8 && "comment"@.len() == 7);
            assert("function"@[0] == 'f' && "constant"@[0] == 'c');
            assert("function"@.len() == 8 && "constant.builtin"@.len() == 16);
            assert("function"@.len() == 8 && "constructor"@.len() == 11);
            assert("function"@[0] == 'f' && "embedded"@[0] == 'e');
        },
        SyntaxScope::FunctionBuiltin => {
            assert("function.builtin"@.len() == 16 && "attribute"@.len() == 9);
            assert("function.builtin"@.len() == 16 && "comment"@.len() == 7);
            assert("function.builtin"@.len() == 16 && "constant"@.len() == 8);
            assert("function.builtin"@[0] == 'f' && "constant.builtin"@[0] == 'c');
            assert("function.builtin"@.len() == 16 && "constructor"@.len() == 11);
            assert("function.builtin"@.len() == 16 && "embedded"@.len() == 8);
            assert("function.builtin"@.len() == 16 && "function"@.len() == 8);
        },
        SyntaxScope::Keyword => {
            assert("keyword"@.len() == 7 && "attribute"@.len() == 9);
            assert("keyword"@[0] == 'k' && "comment"@[0] == 'c');
            assert("keyword"@.len() == 7 && "constant"@.len() == 8);
            assert("keyword"@.len() == 7 && "constant.builtin"@.len() == 16);
            assert("keyword"@.len() == 7 && "constructor"@.len() == 11);
            assert("keyword"@.len() == 7 && "embedded"@.len() == 8);
            assert("keyword"@.len() == 7 && "function"@.len() == 8);
            assert("keyword"@.len() == 7 && "function.builtin"@.len() == 16);
        },
        SyntaxScope::Module => {
            assert("module"@.len() == 6 && "attribute"@.len() == 9);
            assert("module"@.len() == 6 && "comment"@.len() == 7);
            assert("module"@.len() == 6 && "constant"@.len() == 8);
            assert("module"@.len() == 6 && "constant.builtin"@.len() == 16);
            assert("module"@.len() == 6 && "constructor"@.len() == 11);
            assert("module"@.len() == 6 && "embedded"@.len() == 8);
            assert("module"@.len() == 6 && "function"@.len() == 8);
            assert("module"@.len() == 6 && "function.builtin"@.len() == 16);
            assert("module"@.len() == 6 && "keyword"@.len() == 7);
        },
        SyntaxScope::Number => {
            assert("number"@.len() == 6 && "attribute"@.len() == 9);
            assert("number"@.len() == 6 && "comment"@.len() == 7);
            assert("number"@.len() == 6 && "constant"@.len() == 8);
            assert("number"@.len() == 6 && "constant.builtin"@.len() == 16);
            assert("number"@.len() == 6 && "constructor"@.len() == 11);
            assert("number"@.len() == 6 && "embedded"@.len() == 8);
            assert("number"@.len() == 6 && "function"@.len() == 8);
            assert("number"@.len() == 6 && "function.builtin"@.len() == 16);
            assert("number"@.len() == 6 && "keyword"@.len() == 7);
            assert("number"@[0] == 'n' && "module"@[0] == 'm');
        },
        SyntaxScope::Operator => {
            assert("operator"@.len() == 8 && "attribute"@.len() == 9);
            assert("operator"@.len() == 8 && "comment"@.len() == 7);
            assert("operator"@[0] == 'o' && "constant"@[0] == 'c');
            assert("operator"@.len() == 8 && "constant.builtin"@.len() == 16);
            assert("operator"@.len() == 8 && "constructor"@.len() == 11);
            assert("operator"@[0] == 'o' && "embedded"@[0] == 'e');
            assert("operator"@[0] == 'o' && "function"@[0] == 'f');
            assert("operator"@.len() == 8 && "function.builtin"@.len() == 16);
            assert("operator"@.len() == 8 && "keyword"@.len() == 7);
            assert("operator"@.len() == 8 && "module"@.len() == 6);
            assert("operator"@.len() == 8 && "number"@.len() == 6);
        },
        SyntaxScope::Property => {
            assert("property"@.len() == 8 && "attribute"@.len() == 9);
            assert("property"@.len() == 8 && "comment"@.len() == 7);
            assert("property"@[0] == 'p' && "constant"@[0] == 'c');
            assert("property"@.len() == 8 && "constant.builtin"@.len() == 16);
            assert("property"@.len() == 8 && "constructor"@.len() == 11);
            assert("property"@[0] == 'p' && "embedded"@[0] == 'e');
            assert("property"@[0] == 'p' && "function"@[0] == 'f');
            assert("property"@.len() == 8 && "function.builtin"@.len() == 16);
            assert("property"@.len() == 8 && "keyword"@.len() == 7);
            assert("property"@.len() == 8 && "module"@.len() == 6);
            assert("property"@.len() == 8 && "number"@.len() == 6);
            assert("property"@[0] == 'p' && "operator"@[0] == 'o');
        },
        SyntaxScope::PropertyBuiltin => {
            assert("property.builtin"@.len() == 16 && "attribute"@.len() == 9);
            assert("property.builtin"@.len() == 16 && "comment"@.len() == 7);
            assert("property.builtin"@.len() == 16 && "constant"@.len() == 8);
            assert("property.builtin"@[0] == 'p' && "constant.builtin"@[0] == 'c');
            assert("property.builtin"@.len() == 16 && "constructor"@.len() == 11);
            assert("property.builtin"@.len() == 16 && "embedded"@.len() == 8);
            assert("property.builtin"@.len() == 16 && "function"@.len() == 8);
            assert("property.builtin"@[0] == 'p' && "function.builtin"@[0] == 'f');
            assert("property.builtin"@.len() == 16 && "keyword"@.len() == 7);
            assert("property.builtin"@.len() == 16 && "module"@.len() == 6);
            assert("property.builtin"@.len() == 16 && "number"@.len() == 6);
            assert("property.builtin"@.len() == 16 && "operator"@.len() == 8);
            assert("property.builtin"@.len() == 16 && "property"@.len() == 8);
        },
        SyntaxScope::Punctuation => {
            assert("punctuation"@.len() == 11 && "attribute"@.len() == 9);
            assert("punctuation"@.len() == 11 && "comment"@.len() == 7);
            assert("punctuation"@.len() == 11 && "constant"@.len() == 8);
            assert("punctuation"@.len() == 11 && "constant.builtin"@.len() == 16);
            assert("punctuation"@[0] == 'p' && "constructor"@[0] == 'c');
            assert("punctuation"@.len() == 11 && "embedded"@.len() == 8);
            assert("punctuation"@.len() == 11 && "function"@.len() == 8);
            assert("punctuation"@.len() == 11 && "function.builtin"@.len() == 16);
            assert("punctuation"@.len() == 11 && "keyword"@.len() == 7);
            assert("punctuation"@.len() == 11 && "module"@.len() == 6);
            assert("punctuation"@.len() == 11 && "number"@.len() == 6);
            assert("punctuation"@.len() == 11 && "operator"@.len() == 8);
            assert("punctuation"@.len() == 11 && "property"@.len() == 8);
            assert("punctuation"@.len() == 11 && "property.builtin"@.len() == 16);
        },
        SyntaxScope::PunctuationBracket => {
            assert("punctuation.bracket"@.len() == 19 && "attribute"@.len() == 9);
            assert("punctuation.bracket"@.len() == 19 && "comment"@.len() == 7);
            assert("punctuation.bracket"@.len() == 19 && "constant"@.len() == 8);
            assert("punctuation.bracket"@.len() == 19 && "constant.builtin"@.len() == 16);
            assert("punctuation.bracket"@.len() == 19 && "constructor"@.len() == 11);
            assert("punctuation.bracket"@.len() == 19 && "embedded"@.len() == 8);
            assert("punctuation.bracket"@.len() == 19 && "function"@.len() == 8);
            assert("punctuation.bracket"@.len() == 19 && "function.builtin"@.len() == 16);
            assert("punctuation.bracket"@.len() == 19 && "keyword"@.len() == 7);
            assert("punctuation.bracket"@.len() == 19 && "module"@.len() == 6);
            assert("punctuation.bracket"@.len() == 19 && "number"@.len() == 6);
            assert("punctuation.bracket"@.len() == 19 && "operator"@.len() == 8);
            assert("punctuation.bracket"@.len() == 19 && "property"@.len() == 8);
            assert("punctuation.bracket"@.len() == 19 && "property.builtin"@.len() == 16);
            assert("punctuation.bracket"@.len() == 19 && "punctuation"@.len() == 11);
        },
        SyntaxScope::PunctuationDelimiter => {
            assert("punctuation.delimiter"@.len() == 21 && "attribute"@.len() == 9);
            assert("punctuation.delimiter"@.len() == 21 && "comment"@.len() == 7);
            assert("punctuation.delimiter"@.len() == 21 && "constant"@.len() == 8);
            assert("punctuation.delimiter"@.len() == 21 && "constant.builtin"@.len() == 16);
            assert("punctuation.delimiter"@.len() == 21 && "constructor"@.len() == 11);
            assert("punctuation.delimiter"@.len() == 21 && "embedded"@.len() == 8);
            assert("punctuation.delimiter"@.len() == 21 && "function"@.len() == 8);
            assert("punctuation.delimiter"@.len() == 21 && "function.builtin"@.len() == 16);
            assert("punctuation.delimiter"@.len() == 21 && "keyword"@.len() == 7);
            assert("punctuation.delimiter"@.len() == 21 && "module"@.len() == 6);
            assert("punctuation.delimiter"@.len() == 21 && "number"@.len() == 6);
            assert("punctuation.delimiter"@.len() == 21 && "operator"@.len() == 8);
            assert("punctuation.delimiter"@.len() == 21 && "property"@.len() == 8);
            assert("punctuation.delimiter"@.len() == 21 && "property.builtin"@.len() == 16);
            assert("punctuation.delimiter"@.len() == 21 && "punctuation"@.len() == 11);
            assert("punctuation.delimiter"@.len() == 21 && "punctuation.bracket"@.len() == 19);
        },
        SyntaxScope::PunctuationSpecial => {
            assert("punctuation.special"@.len() == 19 && "attribute"@.len() == 9);
            assert("punctuation.special"@.len() == 19 && "comment"@.len() == 7);
            assert("punctuation.special"@.len() == 19 && "constant"@.len() == 8);
            assert("punctuation.special"@.len() == 19 && "constant.builtin"@.len() == 16);
            assert("punctuation.special"@.len() == 19 && "constructor"@.len() == 11);
            assert("punctuation.special"@.len() == 19 && "embedded"@.len() == 8);
            assert("punctuation.special"@.len() == 19 && "function"@.len() == 8);
            assert("punctuation.special"@.len() == 19 && "function.builtin"@.len() == 16);
            assert("punctuation.special"@.len() == 19 && "keyword"@.len() == 7);
            assert("punctuation.special"@.len() == 19 && "module"@.len() == 6);
            assert("punctuation.special"@.len() == 19 && "number"@.len() == 6);
            assert("punctuation.special"@.len() == 19 && "operator"@.len() == 8);
            assert("punctuation.special"@.len() == 19 && "property"@.len() == 8);
            assert("punctuation.special"@.len() == 19 && "property.builtin"@.len() == 16);
            assert("punctuation.special"@.len() == 19 && "punctuation"@.len() == 11);
            assert("punctuation.special"@[12] == 's' && "punctuation.bracket"@[12] == 'b');
            assert("punctuation.special"@.len() == 19 && "punctuation.delimiter"@.len() == 21);
        },
        SyntaxScope::Str => {
            assert("string"@.len() == 6 && "attribute"@.len() == 9);
            assert("string"@.len() == 6 && "comment"@.len() == 7);
            assert("string"@.len() == 6 && "constant"@.len() == 8);
            assert("string"@.len() == 6 && "constant.builtin"@.len() == 16);
            assert("string"@.len() == 6 && "constructor"@.len() == 11);
            assert("string"@.len() == 6 && "embedded"@.len() == 8);
            assert("string"@.len() == 6 && "function"@.len() == 8);
            assert("string"@.len() == 6 && "function.builtin"@.len() == 16);
            assert("string"@.len() == 6 && "keyword"@.len() == 7);
            assert("string"@[0] == 's' && "module"@[0] == 'm');
            assert("string"@[0] == 's' && "number"@[0] == 'n');
            assert("string"@.len() == 6 && "operator"@.len() == 8);
            assert("string"@.len() == 6 && "property"@.len() == 8);
            assert("string"@.len() == 6 && "property.builtin"@.len() == 16);
            assert("string"@.len() == 6 && "punctuation"@.len() == 11);
            assert("string"@.len() == 6 && "punctuation.bracket"@.len() == 19);
            assert("string"@.len() == 6 && "punctuation.delimiter"@.len() == 21);
            assert("string"@.len() == 6 && "punctuation.special"@.len() == 19);
        },
        SyntaxScope::StrSpecial => {
            assert("string.special"@.len() == 14 && "attribute"@.len() == 9);
            assert("string.special"@.len() == 14 && "comment"@.len() == 7);
            assert("string.special"@.len() == 14 && "constant"@.len() == 8);
            assert("string.special"@.len() == 14 && "constant.builtin"@.len() == 16);
            assert("string.special"@.len() == 14 && "constructor"@.len() == 11);
            assert("string.special"@.len() == 14 && "embedded"@.len() == 8);
            assert("string.special"@.len() == 14 && "function"@.len() == 8);
            assert("string.special"@.len() == 14 && "function.builtin"@.len() == 16);
            assert("string.special"@.len() == 14 && "keyword"@.len() == 7);
            assert("string.special"@.len() == 14 && "module"@.len() == 6);
            assert("string.special"@.len() == 14 && "number"@.len() == 6);
            assert("string.special"@.len() == 14 && "operator"@.len() == 8);
            assert("string.special"@.len() == 14 && "property"@.len() == 8);
            assert("string.special"@.len() == 14 && "property.builtin"@.len() == 16);
            assert("string.special"@.len() == 14 && "punctuation"@.len() == 11);
            assert("string.special"@.len() == 14 && "punctuation.bracket"@.len() == 19);
            assert("string.special"@.len() == 14 && "punctuation.delimiter"@.len() == 21);
            assert("string.special"@.len() == 14 && "punctuation.special"@.len() == 19);
            assert("string.special"@.len() == 14 && "string"@.len() == 6);
        },
        SyntaxScope::Tag => {
            assert("tag"@.len() == 3 && "attribute"@.len() == 9);
            assert("tag"@.len() == 3 && "comment"@.len() == 7);
            assert("tag"@.len() == 3 && "constant"@.len() == 8);
            assert("tag"@.len() == 3 && "constant.builtin"@.len() == 16);
            assert("tag"@.len() == 3 && "constructor"@.len() == 11);
            assert("tag"@.len() == 3 && "embedded"@.len() == 8);
            assert("tag"@.len() == 3 && "function"@.len() == 8);
            assert("tag"@.len() == 3 && "function.builtin"@.len() == 16);
            assert("tag"@.len() == 3 && "keyword"@.len() == 7);
            assert("tag"@.len() == 3 && "module"@.len() == 6);
            assert("tag"@.len() == 3 && "number"@.len() == 6);
            assert("tag"@.len() == 3 && "operator"@.len() == 8);
            assert("tag"@.len() == 3 && "property"@.len() == 8);
            assert("tag"@.len() == 3 && "property.builtin"@.len() == 16);
            assert("tag"@.len() == 3 && "punctuation"@.len() == 11);
            assert("tag"@.len() == 3 && "punctuation.bracket"@.len() == 19);
            assert("tag"@.len() == 3 && "punctuation.delimiter"@.len() == 21);
            assert("tag"@.len() == 3 && "punctuation.special"@.len() == 19);
            assert("tag"@.len() == 3 && "string"@.len() == 6);
            assert("tag"@.len() == 3 && "string.special"@.len() == 14);
        },
        SyntaxScope::Type => {
            assert("type"@.len() == 4 && "attribute"@.len() == 9);
            assert("type"@.len() == 4 && "comment"@.len() == 7);
            assert("type"@.len() == 4 && "constant"@.len() == 8);
            assert("type"@.len() == 4 && "constant.builtin"@.len() == 16);
            assert("type"@.len() == 4 && "constructor"@.len() == 11);
            assert("type"@.len() == 4 && "embedded"@.len() == 8);
            assert("type"@.len() == 4 && "function"@.len() == 8);
            assert("type"@.len() == 4 && "function.builtin"@.len() == 16);
            assert("type"@.len() == 4 && "keyword"@.len() == 7);
            assert("type"@.len() == 4 && "module"@.len() == 6);
            assert("type"@.len() == 4 && "number"@.len() == 6);
            assert("type"@.len() == 4 && "operator"@.len() == 8);
            assert("type"@.len() == 4 && "property"@.len() == 8);
            assert("type"@.len() == 4 && "property.builtin"@.len() == 16);
            assert("type"@.len() == 4 && "punctuation"@.len() == 11);
            assert("type"@.len() == 4 && "punctuation.bracket"@.len() == 19);
            assert("type"@.len() == 4 && "punctuation.delimiter"@.len() == 21);
            assert("type"@.len() == 4 && "punctuation.special"@.len() == 19);
            assert("type"@.len() == 4 && "string"@.len() == 6);
            assert("type"@.len() == 4 && "string.special"@.len() == 14);
            assert("type"@.len() == 4 && "tag"@.len() == 3);
        },
        SyntaxScope::TypeBuiltin => {
            assert("type.builtin"@.len() == 12 && "attribute"@.len() == 9);
            assert("type.builtin"@.len() == 12 && "comment"@.len() == 7);
            assert("type.builtin"@.len() == 12 && "constant"@.len() == 8);
            assert("type.builtin"@.len() == 12 && "constant.builtin"@.len() == 16);
            assert("type.builtin"@.len() == 12 && "constructor"@.len() == 11);
            assert("type.builtin"@.len() == 12 && "embedded"@.len() == 8);
            assert("type.builtin"@.len() == 12 && "function"@.len() == 8);
            assert("type.builtin"@.len() == 12 && "function.builtin"@.len() == 16);
            assert("type.builtin"@.len() == 12 && "keyword"@.len() == 7);
            assert("type.builtin"@.len() == 12 && "module"@.len() == 6);
            assert("type.builtin"@.len() == 12 && "number"@.len() == 6);
            assert("type.builtin"@.len() == 12 && "operator"@.len() == 8);
            assert("type.builtin"@.len() == 12 && "property"@.len() == 8);
            assert("type.builtin"@.len() == 12 && "property.builtin"@.len() == 16);
            assert("type.builtin"@.len() == 12 && "punctuation"@.len() == 11);
            assert("type.builtin"@.len() == 12 && "punctuation.bracket"@.len() == 19);
            assert("type.builtin"@.len() == 12 && "punctuation.delimiter"@.len() == 21);
            assert("type.builtin"@.len() == 12 && "punctuation.special"@.len() == 19);
            assert("type.builtin"@.len() == 12 && "string"@.len() == 6);
            assert("type.builtin"@.len() == 12 && "string.special"@.len() == 14);
            assert("type.builtin"@.len() == 12 && "tag"@.len() == 3);
            assert("type.builtin"@.len() == 12 && "type"@.len() == 4);
        },
        SyntaxScope::Variable => {
            assert("variable"@.len() == 8 && "attribute"@.len() == 9);
            assert("variable"@.len() == 8 && "comment"@.len() == 7);
            assert("variable"@[0] == 'v' && "constant"@[0] == 'c');
            assert("variable"@.len() == 8 && "constant.builtin"@.len() == 16);
            assert("variable"@.len() == 8 && "constructor"@.len() == 11);
            assert("variable"@[0] == 'v' && "embedded"@[0] == 'e');
            assert("variable"@[0] == 'v' && "function"@[0] == 'f');
            assert("variable"@.len() == 8 && "function.builtin"@.len() == 16);
            assert("variable"@.len() == 8 && "keyword"@.len() == 7);
            assert("variable"@.len() == 8 && "module"@.len() == 6);
            assert("variable"@.len() == 8 && "number"@.len() == 6);
            assert("variable"@[0] == 'v' && "operator"@[0] == 'o');
            assert("variable"@[0] == 'v' && "property"@[0] == 'p');
            assert("variable"@.len() == 8 && "property.builtin"@.len() == 16);
            assert("variable"@.len() == 8 && "punctuation"@.len() == 11);
            assert("variable"@.len() == 8 && "punctuation.bracket"@.len() == 19);
            assert("variable"@.len() == 8 && "punctuation.delimiter"@.len() == 21);
            assert("variable"@.len() == 8 && "punctuation.special"@.len() == 19);
            assert("variable"@.len() == 8 && "string"@.len() == 6);
            assert("variable"@.len() == 8 && "string.special"@.len() == 14);
            assert("variable"@.len() == 8 && "tag"@.len() == 3);
            assert("variable"@.len() == 8 && "type"@.len() == 4);
            assert("variable"@.len() == 8 && "type.builtin"@.len() == 12);
        },
        SyntaxScope::VariableBuiltin => {
            assert("variable.builtin"@.len() == 16 && "attribute"@.len() == 9);
            assert("variable.builtin"@.len() == 16 && "comment"@.len() == 7);
            assert("variable.builtin"@.len() == 16 && "constant"@.len() == 8);
            assert("variable.builtin"@[0] == 'v' && "constant.builtin"@[0] == 'c');
            assert("variable.builtin"@.len() == 16 && "constructor"@.len() == 11);
            assert("variable.builtin"@.len() == 16 && "embedded"@.len() == 8);
            assert("variable.builtin"@.len() == 16 && "function"@.len() == 8);
            assert("variable.builtin"@[0] == 'v' && "function.builtin"@[0] == 'f');
            assert("variable.builtin"@.len() == 16 && "keyword"@.len() == 7);
            assert("variable.builtin"@.len() == 16 && "module"@.len() == 6);
            assert("variable.builtin"@.len() == 16 && "number"@.len() == 6);
            assert("variable.builtin"@.len() == 16 && "operator"@.len() == 8);
            assert("variable.builtin"@.len() == 16 && "property"@.len() == 8);
            assert("variable.builtin"@[0] == 'v' && "property.builtin"@[0] == 'p');
            assert("variable.builtin"@.len() == 16 && "punctuation"@.len() == 11);
            assert("variable.builtin"@.len() == 16 && "punctuation.bracket"@.len() == 19);
            assert("variable.builtin"@.len() == 16 && "punctuation.delimiter"@.len() == 21);
            assert("variable.builtin"@.len() == 16 && "punctuation.special"@.len() == 19);
            assert("variable.builtin"@.len() == 16 && "string"@.len() == 6);
            assert("variable.builtin"@.len() == 16 && "string.special"@.len() == 14);
            assert("variable.builtin"@.len() == 16 && "tag"@.len() == 3);
            assert("variable.builtin"@.len() == 16 && "type"@.len() == 4);
            assert("variable.builtin"@.len() == 16 && "type.builtin"@.len() == 12);
            assert("variable.builtin"@.len() == 16 && "variable"@.len() == 8);
        },
        SyntaxScope::VariableParameter => {
            assert("variable.parameter"@.len() == 18 && "attribute"@.len() == 9);
            assert("variable.parameter"@.len() == 18 && "comment"@.len() == 7);
            assert("variable.parameter"@.len() == 18 && "constant"@.len() == 8);
            assert("variable.parameter"@.len() == 18 && "constant.builtin"@.len() == 16);
            assert("variable.parameter"@.len() == 18 && "constructor"@.len() == 11);
            assert("variable.parameter"@.len() == 18 && "embedded"@.len() == 8);
            assert("variable.parameter"@.len() == 18 && "function"@.len() == 8);
            assert("variable.parameter"@.len() == 18 && "function.builtin"@.len() == 16);
            assert("variable.parameter"@.len() == 18 && "keyword"@.len() == 7);
            assert("variable.parameter"@.len() == 18 && "module"@.len() == 6);
            assert("variable.parameter"@.len() == 18 && "number"@.len() == 6);
            assert("variable.parameter"@.len() == 18 && "operator"@.len() == 8);
            assert("variable.parameter"@.len() == 18 && "property"@.len() == 8);
            assert("variable.parameter"@.len() == 18 && "property.builtin"@.len() == 16);
            assert("variable.parameter"@.len() == 18 && "punctuation"@.len() == 11);
            assert("variable.parameter"@.len() == 18 && "punctuation.bracket"@.len() == 19);
            assert("variable.parameter"@.len() == 18 && "punctuation.delimiter"@.len() == 21);
            assert("variable.parameter"@.len() == 18 && "punctuation.special"@.len() == 19);
            assert("variable.parameter"@.len() == 18 && "string"@.len() == 6);
            assert("variable.parameter"@.len() == 18 && "string.special"@.len() == 14);
            assert("variable.parameter"@.len() == 18 && "tag"@.len() == 3);
            assert("variable.parameter"@.len() == 18 && "type"@.len() == 4);
            assert("variable.parameter"@.len() == 18 && "type.builtin"@.len() == 12);
            assert("variable.parameter"@.len() == 18 && "variable"@.len() == 8);
            assert("variable.parameter"@.len() == 18 && "variable.builtin"@.len() == 16);
        },
    }
}

/// `string.special.key` names no scope.
proof fn lemma_key_has_no_scope()
    ensures
        scope_of_name("string.special.key"@) is None,
{
    reveal_strlit("string.special.key");
    reveal_strlit("attribute");
    reveal_strlit("comment");
    reveal_strlit("constant");
    reveal_strlit("constant.builtin");
    reveal_strlit("constructor");
    reveal_strlit("embedded");
    reveal_strlit("function");
    reveal_strlit("function.builtin");
    reveal_strlit("keyword");
    reveal_strlit("module");
    reveal_strlit("number");
    reveal_strlit("operator");
    reveal_strlit("property");
    reveal_strlit("property.builtin");
    reveal_strlit("punctuation");
    reveal_strlit("punctuation.bracket");
    reveal_strlit("punctuation.delimiter");
    reveal_strlit("punctuation.special");
    reveal_strlit("string");
    reveal_strlit("string.special");
    reveal_strlit("tag");
    reveal_strlit("type");
    reveal_strlit("type.builtin");
    reveal_strlit("variable");
    reveal_strlit("variable.builtin");
    reveal_strlit("variable.parameter");
    assert("string.special.key"@.len() == 18 && "attribute"@.len() == 9);
    assert("string.special.key"@.len() == 18 && "comment"@.len() == 7);
    assert("string.special.key"@.len() == 18 && "constant"@.len() == 8);
    assert("string.special.key"@.len() == 18 && "constant.builtin"@.len() == 16);
    assert("string.special.key"@.len() == 18 && "constructor"@.len() == 11);
    assert("string.special.key"@.len() == 18 && "embedded"@.len() == 8);
    assert("string.special.key"@.len() == 18 && "function"@.len() == 8);
    assert("string.special.key"@.len() == 18 && "function.builtin"@.len() == 16);
    assert("string.special.key"@.len() == 18 && "keyword"@.len() == 7);
    assert("string.special.key"@.len() == 18 && "module"@.len() == 6);
    assert("string.special.key"@.len() == 18 && "number"@.len() == 6);
    assert("string.special.key"@.len() == 18 && "operator"@.len() == 8);
    assert("string.special.key"@.len() == 18 && "property"@.len() == 8);
    assert("string.special.key"@.len() == 18 && "property.builtin"@.len() == 16);
    assert("string.special.key"@.len() == 18 && "punctuation"@.len() == 11);
    assert("string.special.key"@.len() == 18 && "punctuation.bracket"@.len() == 19);
    assert("string.special.key"@.len() == 18 && "punctuation.delimiter"@.len() == 21);
    assert("string.special.key"@.len() == 18 && "punctuation.special"@.len() == 19);
    assert("string.special.key"@.len() == 18 && "string"@.len() == 6);
    assert("string.special.key"@.len() == 18 && "string.special"@.len() == 14);
    assert("string.special.key"@.len() == 18 && "tag"@.len() == 3);
    assert("string.special.key"@.len() == 18 && "type"@.len() == 4);
    assert("string.special.key"@.len() == 18 && "type.builtin"@.len() == 12);
    assert("string.special.key"@.len() == 18 && "variable"@.len() == 8);
    assert("string.special.key"@.len() == 18 && "variable.builtin"@.len() == 16);
    assert("string.special.key"@[0] == 's' && "variable.parameter"@[0] == 'v');
}


/// Each name a theme styles means what it says: every scope is looked up
/// under its own name, a name looked up as a scope is that scope's name
/// (so distinct names give distinct scopes), and every highlight name the
/// highlighter recognizes has a scope but `string.special.key`, which no
/// theme styles.
pub proof fn lemma_scope_names(scope: SyntaxScope, name: Seq<char>, index: int)
    ensures
        scope_of_name(scope_name(scope)) == Some(scope),
        scope_of_name(name) == Some(scope) ==> name == scope_name(scope),
        0 <= index < highlight_names().len() ==> (scope_of_name(highlight_names()[index]) is None
            <==> highlight_names()[index] == "string.special.key"@),
{
    lemma_scope_of_scope_name(scope);
    lemma_key_has_no_scope();
    reveal_strlit("string.special.key");
    reveal_strlit("attribute");
    reveal_strlit("comment");
    reveal_strlit("constant");
    reveal_strlit("constant.builtin");
    reveal_strlit("constructor");
    reveal_strlit("embedded");
    reveal_strlit("function");
    reveal_strlit("function.builtin");
    reveal_strlit("keyword");
    reveal_strlit("module");
    reveal_strlit("number");
    reveal_strlit("operator");
    reveal_strlit("property");
    reveal_strlit("property.builtin");
    reveal_strlit("punctuation");
    reveal_strlit("punctuation.bracket");
    reveal_strlit("punctuation.delimiter");
    reveal_strlit("punctuation.special");
    reveal_strlit("string");
    reveal_strlit("string.special");
    reveal_strlit("tag");
    reveal_strlit("type");
    reveal_strlit("type.builtin");
    reveal_strlit("variable");
    reveal_strlit("variable.builtin");
    reveal_strlit("variable.parameter");
    if index == 0 {
        assert(highlight_names()[0] == "attribute"@);
        lemma_scope_of_scope_name(SyntaxScope::Attribute);
        assert("attribute"@.len() == 9 && "string.special.key"@.len() == 18);
    } else if index == 1 {
        assert(highlight_names()[1] == "comment"@);
        lemma_scope_of_scope_name(SyntaxScope::Comment);
        assert("comment"@.len() == 7 && "string.special.key"@.len() == 18);
    } else if index == 2 {
        assert(highlight_names()[2] == "constant"@);
        lemma_scope_of_scope_name(SyntaxScope::Constant);
        assert("constant"@.len() == 8 && "string.special.key"@.len() == 18);
    } else if index == 3 {
        assert(highlight_names()[3] == "constant.builtin"@);
        lemma_scope_of_scope_name(SyntaxScope::ConstantBuiltin);
        assert("constant.builtin"@.len() == 16 && "string.special.key"@.len() == 18);
    } else if index == 4 {
        assert(highlight_names()[4] == "constructor"@);
        lemma_scope_of_scope_name(SyntaxScope::Constructor);
        assert("constructor"@.len() == 11 && "string.special.key"@.len() == 18);
    } else if index == 5 {
        assert(highlight_names()[5] == "embedded"@);
        lemma_scope_of_scope_name(SyntaxScope::Embedded);
        assert("embedded"@.len() == 8 && "string.special.key"@.len() == 18);
    } else if index == 6 {
        assert(highlight_names()[6] == "function"@);
        lemma_scope_of_scope_name(SyntaxScope::Function);
        assert("function"@.len() == 8 && "string.special.key"@.len() == 18);
    } else if index == 7 {
        assert(highlight_names()[7] == "function.builtin"@);
        lemma_scope_of_scope_name(SyntaxScope::FunctionBuiltin);
        assert("function.builtin"@.len() == 16 && "string.special.key"@.len() == 18);
    } else if index == 8 {
        assert(highlight_names()[8] == "keyword"@);
        lemma_scope_of_scope_name(SyntaxScope::Keyword);
        assert("keyword"@.len() == 7 && "string.special.key"@.len() == 18);
    } else if index == 9 {
        assert(highlight_names()[9] == "module"@);
        lemma_scope_of_scope_name(SyntaxScope::Module);
        assert("module"@.len() == 6 && "string.special.key"@.len() == 18);
    } else if index == 10 {
        assert(highlight_names()[10] == "number"@);
        lemma_scope_of_scope_name(SyntaxScope::Number);
        assert("number"@.len() == 6 && "string.special.key"@.len() == 18);
    } else if index == 11 {
        assert(highlight_names()[11] == "operator"@);
        lemma_scope_of_scope_name(SyntaxScope::Operator);
        assert("operator"@.len() == 8 && "string.special.key"@.len() == 18);
    } else if index == 12 {
        assert(highlight_names()[12] == "property"@);
        lemma_scope_of_scope_name(SyntaxScope::Property);
        assert("property"@.len() == 8 && "string.special.key"@.len() == 18);
    } else if index == 13 {
        assert(highlight_names()[13] == "property.builtin"@);
        lemma_scope_of_scope_name(SyntaxScope::PropertyBuiltin);
        assert("property.builtin"@.len() == 16 && "string.special.key"@.len() == 18);
    } else if index == 14 {
        assert(highlight_names()[14] == "punctuation"@);
        lemma_scope_of_scope_name(SyntaxScope::Punctuation);
        assert("punctuation"@.len() == 11 && "string.special.key"@.len() == 18);
    } else if index == 15 {
        assert(highlight_names()[15] == "punctuation.bracket"@);
        lemma_scope_of_scope_name(SyntaxScope::PunctuationBracket);
        assert("punctuation.bracket"@.len() == 19 && "string.special.key"@.len() == 18);
    } else if index == 16 {
        assert(highlight_names()[16] == "punctuation.delimiter"@);
        lemma_scope_of_scope_name(SyntaxScope::PunctuationDelimiter);
        assert("punctuation.delimiter"@.len() == 21 && "string.special.key"@.len() == 18);
    } else if index == 17 {
        assert(highlight_names()[17] == "punctuation.special"@);
        lemma_scope_of_scope_name(SyntaxScope::PunctuationSpecial);
        assert("punctuation.special"@.len() == 19 && "string.special.key"@.len() == 18);
    } else if index == 18 {
        assert(highlight_names()[18] == "string"@);
        lemma_scope_of_scope_name(SyntaxScope::Str);
        assert("string"@.len() == 6 && "string.special.key"@.len() == 18);
    } else if index == 19 {
        assert(highlight_names()[19] == "string.special"@);
        lemma_scope_of_scope_name(SyntaxScope::StrSpecial);
        assert("string.special"@.len() == 14 && "string.special.key"@.len() == 18);
    } else if index == 20 {
        assert(highlight_names()[20] == "string.special.key"@);
    } else if index == 21 {
        assert(highlight_names()[21] == "tag"@);
        lemma_scope_of_scope_name(SyntaxScope::Tag);
        assert("tag"@.len() == 3 && "string.special.key"@.len() == 18);
    } else if index == 22 {
        assert(highlight_names()[22] == "type"@);
        lemma_scope_of_scope_name(SyntaxScope::Type);
        assert("type"@.len() == 4 && "string.special.key"@.len() == 18);
    } else if index == 23 {
        assert(highlight_names()[23] == "type.builtin"@);
        lemma_scope_of_scope_name(SyntaxScope::TypeBuiltin);
        assert("type.builtin"@.len() == 12 && "string.special.key"@.len() == 18);
    } else if index == 24 {
        assert(highlight_names()[24] == "variable"@);
        lemma_scope_of_scope_name(SyntaxScope::Variable);
        assert("variable"@.len() == 8 && "string.special.key"@.len() == 18);
    } else if index == 25 {
        assert(highlight_names()[25] == "variable.builtin"@);
        lemma_scope_of_scope_name(SyntaxScope::VariableBuiltin);
        assert("variable.builtin"@.len() == 16 && "string.special.key"@.len() == 18);
    } else if index == 26 {
        assert(highlight_names()[26] == "variable.parameter"@);
        lemma_scope_of_scope_name(SyntaxScope::VariableParameter);
        assert("variable.parameter"@[0] == 'v' && "string.special.key"@[0] == 's');
    }
}

/// The scope the highlight with index `index` is styled under, if any.
pub fn scope_for_index(index: usize) -> (r: Option<SyntaxScope>)
    ensures
        r == if index < highlight_names().len() {
            scope_of_name(highlight_names()[index as int])
        } else {
            None
        },
{
    match highlight_name(index) {
        Some(name) => scope_named(name),
        None => None,
    }
}

} // verus!
