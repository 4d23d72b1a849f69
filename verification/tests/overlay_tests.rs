use gpui_component::highlight::{
    highlight_name, highlight_spans, scope_for_index, scope_named, SpanEvent,
    SyntaxScope,
};
use gpui_component::hover::{
    click_hover_definition, hover_from_locations, is_web_scheme, hover_request_needed, DefinitionClick,
    DefinitionLocation, HoverDefinition, PositionRange,
};
use gpui_component::cursor::Position;
use gpui_component::tooltip::TooltipOverlay;
use ropey::Rope;

#[test]
fn tooltip_first_show_waits_for_the_delay() {
    let mut overlay: TooltipOverlay<&str> = TooltipOverlay::new();
    let epoch = overlay.request_show("a").expect("a delay");
    assert_eq!(*overlay.content(), None);
    assert!(overlay.show_timer_fired(epoch));
    assert_eq!(*overlay.content(), Some("a"));
    assert!(!overlay.is_switching());
    assert_eq!(overlay.animation_epoch(), 1);
}

#[test]
fn tooltip_switches_at_once_during_grace() {
    let mut overlay: TooltipOverlay<&str> = TooltipOverlay::new();
    let epoch = overlay.request_show("a").unwrap();
    overlay.show_timer_fired(epoch);
    let grace = overlay.request_hide().expect("a grace timer");
    assert_eq!(overlay.request_show("b"), None);
    assert_eq!(*overlay.content(), Some("b"));
    assert_eq!(*overlay.prev_content(), Some("a"));
    assert!(overlay.is_switching());
    // the grace timer was cancelled
    assert!(!overlay.hide_timer_fired(grace));
    assert_eq!(*overlay.content(), Some("b"));
}

#[test]
fn tooltip_left_before_delay_never_shows() {
    let mut overlay: TooltipOverlay<&str> = TooltipOverlay::new();
    let epoch = overlay.request_show("a").unwrap();
    assert_eq!(overlay.request_hide(), None);
    assert!(!overlay.show_timer_fired(epoch));
    assert_eq!(*overlay.content(), None);
}

#[test]
fn tooltip_after_grace_waits_again() {
    let mut overlay: TooltipOverlay<&str> = TooltipOverlay::new();
    let epoch = overlay.request_show("a").unwrap();
    overlay.show_timer_fired(epoch);
    let grace = overlay.request_hide().unwrap();
    assert!(overlay.hide_timer_fired(grace));
    assert_eq!(*overlay.content(), None);
    assert!(overlay.request_show("b").is_some());
}

#[test]
fn highlight_spans_fill_gaps() {
    let events = vec![
        SpanEvent::Source { start: 0, end: 2 },
        SpanEvent::Start(Some(7)),
        SpanEvent::Source { start: 4, end: 6 },
        SpanEvent::End,
        SpanEvent::Failed,
        SpanEvent::Start(None),
        SpanEvent::Source { start: 6, end: 8 },
        SpanEvent::End,
        SpanEvent::Start(Some(3)),
        SpanEvent::Source { start: 8, end: 9 },
        SpanEvent::End,
    ];
    let spans = highlight_spans(&events, 12);
    assert_eq!(
        spans,
        vec![(0..4, None), (4..6, Some(7)), (6..8, None), (8..9, Some(3)), (9..12, None)]
    );
    assert_eq!(highlight_spans(&vec![], 5), vec![(0..5, None)]);
    assert_eq!(highlight_spans(&vec![], 0), vec![]);
}

#[test]
fn hover_and_click_definitions() {
    let text = Rope::from("let x = y;\nfn y() {}\n");
    let location = DefinitionLocation {
        target_is_web: false,
        target_start: Position::new(1, 3),
        target_end: Position::new(1, 4),
        origin_selection: Some(PositionRange {
            start: Position::new(0, 8),
            end: Position::new(0, 9),
        }),
    };
    assert!(hover_from_locations(&text, vec![], 0..1).is_none());
    let hover = hover_from_locations(&text, vec![location], 0..1).unwrap();
    assert_eq!(hover.symbol_range(), 8..9);
    assert!(hover.is_same(8));
    assert!(!hover.is_same(9));
    assert!(!hover_request_needed(true, Some(&hover), 8));
    assert!(hover_request_needed(true, Some(&hover), 2));
    assert!(!hover_request_needed(false, None, 2));
    assert_eq!(
        click_hover_definition(&text, true, Some(&hover), 8),
        DefinitionClick::Select { start: 14, end: 15 }
    );
    assert_eq!(click_hover_definition(&text, false, Some(&hover), 8), DefinitionClick::NotHandled);
    let web = HoverDefinition::new(
        3..5,
        vec![DefinitionLocation {
            target_is_web: true,
            ..location
        }],
    );
    assert_eq!(click_hover_definition(&text, true, Some(&web), 4), DefinitionClick::OpenUrl);
    assert_eq!(click_hover_definition(&text, true, None, 4), DefinitionClick::NotHandled);
}

#[test]
fn highlight_scope_names() {
    assert_eq!(scope_named("keyword"), Some(SyntaxScope::Keyword));
    assert_eq!(scope_named("string.special"), Some(SyntaxScope::StrSpecial));
    assert_eq!(scope_named("string.special.key"), None);
    assert_eq!(scope_named("nothing"), None);
    assert_eq!(highlight_name(0), Some("attribute"));
    assert_eq!(highlight_name(20), Some("string.special.key"));
    assert_eq!(highlight_name(27), None);
    assert_eq!(scope_for_index(1), Some(SyntaxScope::Comment));
    assert_eq!(scope_for_index(20), None);
    assert_eq!(scope_for_index(26), Some(SyntaxScope::VariableParameter));
    assert_eq!(scope_for_index(99), None);
}

#[test]
fn web_schemes() {
    assert!(is_web_scheme(Some("https")));
    assert!(is_web_scheme(Some("http")));
    assert!(!is_web_scheme(Some("file")));
    assert!(!is_web_scheme(Some("HTTP")));
    assert!(!is_web_scheme(None));
}
