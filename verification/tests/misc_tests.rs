use gpui_component::completion::{
    completion_query_start, completion_trigger_asked, find_provider, CompletionEntry, CompletionMenu, MenuAction,
    MenuCommand,
};
use gpui_component::errno::{errno, set_errno, Errno};
use gpui_component::languages::Language;
use gpui_component::list::{IndexPath, ListEvent, ListState};
use gpui_component::marker::{Marker, MarkerSeverity};
use gpui_component::notification::{
    Notification, NotificationId, NotificationList, NotificationType, DEFAULT_ID_KIND,
};
use gpui_component::cursor::Position;
use gpui_component::ui_state::{ClipboardState, ResizeHandleCells, StringField};
use ropey::Rope;

#[test]
fn errno_is_always_zero() {
    assert_eq!(Errno::last(), Errno(0));
    assert_eq!(errno(), Errno(0));
    set_errno(Errno(5));
    assert_eq!(errno(), Errno(0));
    assert_eq!(Errno::from_i32(7), Errno(7));
    Errno::clear();
}

#[test]
fn language_names() {
    assert_eq!(Language::from_str("rust"), Some(Language::Rust));
    assert_eq!(Language::from_str("rs"), Some(Language::Rust));
    assert_eq!(Language::from_str("md"), Some(Language::Markdown));
    assert_eq!(Language::from_str("c++"), Some(Language::Cpp));
    assert_eq!(Language::from_str("c"), Some(Language::C));
    assert_eq!(Language::from_str("makefile"), Some(Language::Make));
    assert_eq!(Language::from_str("cmake"), Some(Language::CMake));
    assert_eq!(Language::from_str("yml"), Some(Language::Yaml));
    assert_eq!(Language::from_str("cs"), Some(Language::CSharp));
    assert_eq!(Language::from_str("Rust"), None);
    assert_eq!(Language::from_str(""), None);
}

#[test]
fn marker_severity_names() {
    assert_eq!(MarkerSeverity::from("error"), MarkerSeverity::Error);
    assert_eq!(MarkerSeverity::from("warning"), MarkerSeverity::Warning);
    assert_eq!(MarkerSeverity::from("info"), MarkerSeverity::Info);
    assert_eq!(MarkerSeverity::from("hint"), MarkerSeverity::Hint);
    assert_eq!(MarkerSeverity::from("fatal"), MarkerSeverity::Info);
    assert_eq!(MarkerSeverity::default(), MarkerSeverity::Hint);
}

#[test]
fn marker_prepare_resolves_offsets() {
    let text = Rope::from("ab\n中文x\n");
    let mut m = Marker::new(
        MarkerSeverity::Error,
        Position::new(1, 1),
        Position::new(1, 3),
        "bad".to_string(),
    );
    assert_eq!(m.range, None);
    m.prepare(&text);
    assert_eq!(m.range, Some(6..10));
    assert_eq!(m.message, "bad");
}

#[test]
fn notification_push_replaces_same_id() {
    let mut list = NotificationList::new();
    assert!(list.push(Notification::info("one".to_string()).id(1)));
    assert!(!list.push(Notification::new().id(2).autohide(false)));
    assert!(list.push(Notification::error("again".to_string()).id(1)));
    let ids: Vec<NotificationId> = list.notifications().iter().map(|n| n.notification_id()).collect();
    assert_eq!(ids, vec![NotificationId::Id(2), NotificationId::Id(1)]);
    assert_eq!(list.close(NotificationId::Id(1)), Some(1));
    assert!(list.notifications()[1].is_closing());
    assert_eq!(list.close(NotificationId::Id(9)), None);
    list.dismissed(NotificationId::Id(1));
    assert_eq!(list.notifications().len(), 1);
    list.clear();
    assert!(list.notifications().is_empty());
}

#[test]
fn notification_dismiss_twice() {
    let mut n = Notification::success("ok".to_string())
        .id1(1, 2)
        .title("t".to_string())
        .with_type(NotificationType::Warning);
    assert!(n.dismiss());
    assert!(!n.dismiss());
    n.finish_dismiss();
    assert!(!n.is_closing());
    assert_eq!(NotificationType::default(), NotificationType::Info);
    assert_eq!(n.id(3).notification_id(), NotificationId::Id(3));
}

#[test]
fn notification_default_ids_are_random_uuids() {
    let a = Notification::new();
    let b = Notification::warning("w".to_string());
    match (a.notification_id(), b.notification_id()) {
        (NotificationId::IdAndElementId(ka, ua), NotificationId::IdAndElementId(kb, ub)) => {
            assert_eq!(ka, DEFAULT_ID_KIND);
            assert_eq!(kb, DEFAULT_ID_KIND);
            assert_ne!(ua, ub);
            assert_eq!((ua >> 76) & 0xf, 4);
            assert_eq!((ua >> 62) & 0x3, 2);
        }
        _ => panic!("expected default ids"),
    }
    // pushing both keeps both: their ids differ
    let mut list = NotificationList::new();
    list.push(a);
    list.push(b);
    assert_eq!(list.notifications().len(), 2);
}

#[test]
fn list_selection_and_query() {
    let mut list = ListState::new(3);
    assert_eq!(list.selected_index(), None);
    assert_eq!(list.on_action_confirm(3), None);
    assert_eq!(list.select_item(IndexPath::new(2)), ListEvent::Select(IndexPath::new(2)));
    assert_eq!(list.on_action_confirm(3), Some(ListEvent::Confirm(IndexPath::new(2))));
    assert_eq!(list.on_action_confirm(0), None);
    assert_eq!(list.on_action_cancel(), ListEvent::Cancel);
    assert_eq!(list.selected_index(), None);
    assert!(list.on_query_changed("ab", 2));
    assert!(list.is_querying());
    assert_eq!(list.selected_index(), Some(IndexPath::default()));
    list.on_query_done("ab".to_string());
    assert!(!list.is_querying());
    assert!(!list.on_query_changed("ab", 2));
    assert!(list.load_more_if_need(30, 10));
    assert!(!list.load_more_if_need(31, 10));
    assert!(ListState::scrolls_to_top(IndexPath::new(0)));
    assert!(IndexPath::new(1).eq_row(IndexPath { section: 0, row: 1, column: 5 }));
}

#[test]
fn list_mouse_down() {
    let mut list = ListState::sections(vec![2, 2]).reset_on_cancel(false);
    let ix = IndexPath { section: 1, row: 0, column: 0 };
    assert_eq!(list.on_item_mouse_down(ix, true, 4), None);
    assert_eq!(list.on_item_mouse_down(ix, false, 4), Some(ListEvent::Confirm(ix)));
    list.on_action_cancel();
    assert_eq!(list.selected_index(), Some(ix));
    let mut list = list.selectable(false);
    assert_eq!(list.on_item_mouse_down(IndexPath::new(0), false, 4), None);
}

#[test]
fn completion_menu_flow() {
    let mut menu = CompletionMenu::new();
    assert_eq!(completion_query_start(false, true, true, 4..5, 5, menu.trigger_start_offset()), Some(5));
    assert_eq!(completion_query_start(true, true, true, 4..5, 5, None), None);
    assert_eq!(completion_query_start(false, true, true, 4..5, 3, None), None);
    menu.update_query(5, "p".to_string());
    menu.update_query(9, "pr".to_string());
    assert_eq!(menu.trigger_start_offset(), Some(5));
    menu.completions_arrived(
        7,
        vec![
            CompletionEntry { label: "print".to_string(), insert_text: None },
            CompletionEntry { label: "println".to_string(), insert_text: Some("println!".to_string()) },
        ],
        true,
    );
    assert!(menu.is_open());
    assert!(matches!(menu.handle_action(MenuAction::MoveDown), MenuCommand::SelectNext));
    menu.set_selected_index(Some(IndexPath::new(1)));
    match menu.handle_action(MenuAction::Enter) {
        MenuCommand::Insert { start, end, text } => {
            assert_eq!((start, end), (5, 7));
            assert_eq!(text, "println!");
        }
        _ => panic!("expected an insert"),
    }
    assert!(!menu.is_open());
    assert_eq!(menu.trigger_start_offset(), None);
    assert!(matches!(menu.handle_action(MenuAction::Enter), MenuCommand::Ignored));
    menu.completions_arrived(7, vec![], true);
    assert!(!menu.is_open());
}

#[test]
fn small_states() {
    let mut c = ClipboardState::default();
    assert!(c.click());
    assert!(c.copied());
    assert!(!c.click());
    c.reset();
    assert!(!c.copied());
    let mut cells = ResizeHandleCells::new();
    let r = cells.new_state();
    let other = cells.new_state();
    let copy = r.clone();
    assert!(!r.is_active(&cells));
    r.set_active(&mut cells, true);
    assert!(r.is_active(&cells));
    assert!(copy.is_active(&cells));
    assert!(!other.is_active(&cells));
    copy.set_active(&mut cells, false);
    assert!(!r.is_active(&cells));
    let _f: StringField<String> = StringField::new();
}

#[test]
fn code_action_provider_lookup() {
    let ids = vec!["a".to_string(), "fmt".to_string(), "fmt".to_string()];
    assert_eq!(find_provider(&ids, "fmt"), Some(1));
    assert_eq!(find_provider(&ids, "a"), Some(0));
    assert_eq!(find_provider(&ids, "lint"), None);
    assert_eq!(find_provider(&vec![], "a"), None);
}

#[test]
fn completion_trigger_asked_only_with_provider_and_not_inserting() {
    assert!(completion_trigger_asked(false, true));
    assert!(!completion_trigger_asked(true, true));
    assert!(!completion_trigger_asked(false, false));
    assert!(!completion_trigger_asked(true, false));
}

#[test]
fn list_set_selected_index_reports_to_on_select() {
    let mut list = ListState::new(3);
    assert_eq!(list.set_selected_index(Some(IndexPath::new(1))), Some(IndexPath::new(1)));
    assert_eq!(list.selected_index(), Some(IndexPath::new(1)));
    assert_eq!(list.set_selected_index(None), None);
    assert_eq!(list.selected_index(), None);
}
