use gpui_component::highlight::SyntaxScope;
use gpui_component::syntax::{build_cache, styles_in_range, Capture, SyntaxHighlighter};

fn capture(start: usize, end: usize, name: &str) -> Capture {
    Capture {
        start,
        end,
        name: name.to_string(),
    }
}

#[test]
fn styles_inside_a_range() {
    let cache = vec![
        (2..5, Some(SyntaxScope::Keyword)),
        (0..3, None),
        (6..10, Some(SyntaxScope::Str)),
        (4..9, Some(SyntaxScope::Number)),
        (5..6, None),
    ];
    assert_eq!(
        styles_in_range(&cache, 2..10),
        vec![
            (0..3, Some(SyntaxScope::Keyword)),
            (2..7, Some(SyntaxScope::Number)),
            (3..4, None)
        ]
    );
}

#[test]
fn cache_keeps_the_last_capture_of_a_range() {
    let captures = vec![
        capture(0, 2, "keyword"),
        capture(3, 7, "function"),
        capture(0, 2, "string.special.key"),
        capture(8, 9, "punctuation.bracket"),
    ];
    assert_eq!(
        build_cache(&captures),
        vec![
            (0..2, None),
            (3..7, Some(SyntaxScope::Function)),
            (8..9, Some(SyntaxScope::PunctuationBracket)),
        ]
    );
}

#[test]
fn syntax_highlighter_highlights_multiline_text() {
    let mut h = SyntaxHighlighter::new("rs");
    assert!(h.is_empty());
    let text = "fn main() {\n    let x = 1;\n}\n";
    assert!(h.update(&(0..0), text, text));
    assert!(!h.is_empty());
    let styles = h.styles(0..text.len());
    assert!(styles.contains(&(0..2, Some(SyntaxScope::Keyword))));
    // `let` on the second line, at bytes 16..19.
    assert!(styles.contains(&(16..19, Some(SyntaxScope::Keyword))));
    // Relative to the start of the second line.
    let line = h.styles(12..27);
    assert!(line.contains(&(4..7, Some(SyntaxScope::Keyword))));
    // The same text again changes nothing.
    assert!(h.update(&(0..0), text, ""));
    assert_eq!(h.styles(0..text.len()), styles);
}

#[test]
fn syntax_highlighter_switches_language() {
    let mut h = SyntaxHighlighter::new("json");
    assert!(h.update(&(0..0), "{\"a\": 1}", "{\"a\": 1}"));
    assert!(h.styles(0..9).contains(&(6..7, Some(SyntaxScope::Number))));
    h.set_language("json");
    assert!(!h.is_empty());
    h.set_language("rust");
    assert!(h.is_empty());
    assert!(h.styles(0..100).is_empty());
}
