use gpui_component::highlight::{
    highlight_line, highlight_names_list, span_events, spans_of_events, SpanEvent, TsEvent,
};
use gpui_component::languages::{Language, LanguageConfig};
use tree_sitter_highlight::Highlighter;

fn json_config() -> LanguageConfig {
    Language::Json.build().expect("the JSON queries are valid")
}

#[test]
fn span_events_take_styles_by_index() {
    let events = vec![
        TsEvent::Start(1),
        TsEvent::Source { start: 2, end: 5 },
        TsEvent::End,
        TsEvent::Start(9),
        TsEvent::Failed,
    ];
    let styles = vec![None, Some(7)];
    assert_eq!(
        span_events(&events, &styles),
        vec![
            SpanEvent::Start(Some(7)),
            SpanEvent::Source { start: 2, end: 5 },
            SpanEvent::End,
            SpanEvent::Start(None),
            SpanEvent::Failed,
        ]
    );
}

#[test]
fn spans_of_events_default_and_folded() {
    let styles = vec![None, Some(7)];
    assert_eq!(spans_of_events(None, 6, &styles), vec![(0..6, None)]);
    assert_eq!(spans_of_events(None, 0, &styles), vec![(0..0, None)]);
    let events = vec![
        TsEvent::Start(1),
        TsEvent::Source { start: 2, end: 5 },
        TsEvent::End,
    ];
    assert_eq!(
        spans_of_events(Some(events), 6, &styles),
        vec![(0..2, None), (2..5, Some(7)), (5..6, None)]
    );
}

#[test]
fn highlight_line_without_config_is_one_default_span() {
    let mut highlighter = Highlighter::new();
    let styles: Vec<Option<u32>> = vec![Some(1); 27];
    assert_eq!(
        highlight_line(&mut highlighter, None, "let a = 1;", &styles),
        vec![(0..10, None)]
    );
    assert_eq!(highlight_line(&mut highlighter, None, "", &styles), vec![(0..0, None)]);
}

#[test]
fn highlight_line_styles_json_number() {
    let config = json_config();
    let mut highlighter = Highlighter::new();
    let styles: Vec<Option<u32>> = (0..27u32).map(Some).collect();
    let line = "{\"a\": 1}";
    let spans = highlight_line(&mut highlighter, Some(&config), line, &styles);
    // The spans follow each other from the start of the line to its end.
    assert_eq!(spans.first().map(|s| s.0.start), Some(0));
    assert_eq!(spans.last().map(|s| s.0.end), Some(line.len()));
    for pair in spans.windows(2) {
        assert_eq!(pair[0].0.end, pair[1].0.start);
    }
    // The number is styled as a number (index 10 among the names).
    assert!(spans.contains(&(6..7, Some(10))));
    assert_ne!(spans, vec![(0..line.len(), None)]);
}

#[test]
fn languages_build_configurations() {
    for lang in [Language::Json, Language::Rust, Language::Markdown, Language::Swift, Language::CMake] {
        let config = lang.build().expect("tree-sitter accepts the grammar and queries");
        assert_eq!(config.language(), lang);
    }
}

#[test]
fn highlight_names_in_index_order() {
    let names = highlight_names_list();
    assert_eq!(names.len(), 27);
    assert_eq!(names[0], "attribute");
    assert_eq!(names[20], "string.special.key");
    assert_eq!(names[26], "variable.parameter");
}

#[test]
fn highlight_line_rust_keyword() {
    let config = Language::Rust.build().expect("the Rust queries are valid");
    let mut highlighter = Highlighter::new();
    let styles: Vec<Option<u32>> = (0..27u32).map(Some).collect();
    let spans = highlight_line(&mut highlighter, Some(&config), "fn main() {}", &styles);
    // `fn` is a keyword (index 8 among the names).
    assert!(spans.contains(&(0..2, Some(8))));
    assert_eq!(spans.last().map(|s| s.0.end), Some(12));
}

#[test]
fn build_configures_the_highlight_names() {
    let config = Language::Json.build().expect("the JSON queries are valid");
    assert_eq!(config.names().len(), 27);
    assert_eq!(config.names()[10], "number");
}
