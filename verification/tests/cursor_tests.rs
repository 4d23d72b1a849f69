use gpui_component::cursor::{Position, Selection};

#[test]
fn test_line_column_from_to() {
    assert_eq!(
        Position::new(1, 2),
        Position {
            line: 1,
            character: 2
        }
    );

    assert_eq!(
        Position::from((1, 2)),
        Position {
            line: 1,
            character: 2
        }
    );
    assert_eq!(
        Position::from((10, 10)),
        Position {
            line: 10,
            character: 10
        }
    );
    assert_eq!(
        Position::from((0, 0)),
        Position {
            line: 0,
            character: 0
        }
    );
}

#[test]
fn test_position_display() {
    let pos = Position::new(0, 0);
    assert_eq!(pos.to_string(), "1:1");

    let pos = Position::new(4, 10);
    assert_eq!(pos.to_string(), "5:11");
}

#[test]
fn position_label_of_large_numbers() {
    assert_eq!(Position::new(99, 1234).to_string(), "100:1235");
}

#[test]
fn position_lsp_round_trip() {
    let p = Position::from_lsp(3, 7);
    assert_eq!(p, Position::new(3, 7));
    assert_eq!(p.to_lsp(), (3, 7));
}

#[test]
fn selection_len_and_clear() {
    let mut s = Selection::new(3, 10);
    assert_eq!(s.len(), 7);
    assert!(!s.is_empty());
    assert_eq!(Selection::new(10, 3).len(), 0);
    s.clear();
    assert_eq!(s, Selection::new(0, 0));
    assert!(s.is_empty());
    let r: std::ops::Range<usize> = Selection::new(2, 5).into();
    assert_eq!(r, 2..5);
    assert_eq!(Selection::from(4..9), Selection::new(4, 9));
    assert_eq!(Selection::default(), Selection::new(0, 0));
}
