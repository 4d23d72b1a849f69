use gpui_component::cursor::Position;
use gpui_component::rope_ext::RopeExt;
use ropey::Rope;

#[test]
fn test_line() {
    let rope = Rope::from("Hello\nWorld\r\nThis is a test 中文\nRope");
    assert_eq!(RopeExt::line(&rope, 0).to_string(), "Hello");
    assert_eq!(RopeExt::line(&rope, 1).to_string(), "World\r");
    assert_eq!(RopeExt::line(&rope, 2).to_string(), "This is a test 中文");
    assert_eq!(RopeExt::line(&rope, 3).to_string(), "Rope");

    // over bounds
    assert_eq!(RopeExt::line(&rope, 6).to_string(), "");
}

#[test]
fn test_lines_len() {
    let rope = Rope::from("Hello\nWorld\r\nThis is a test 中文\nRope");
    assert_eq!(rope.lines_len(), 4);
    let rope = Rope::from("");
    assert_eq!(rope.lines_len(), 1);
    let rope = Rope::from("Single line");
    assert_eq!(rope.lines_len(), 1);
}

#[test]
fn test_eq() {
    let rope = Rope::from("Hello\nWorld\r\nThis is a test 中文\nRope");
    assert!(RopeExt::eq(&rope, &Rope::from("Hello\nWorld\r\nThis is a test 中文\nRope")));
    assert!(!RopeExt::eq(&rope, &Rope::from("Hello\nWorld")));

    let rope1 = rope.clone();
    assert!(RopeExt::eq(&rope, &rope1));
}

#[test]
fn test_lines() {
    let rope = Rope::from("Hello\nWorld\r\nThis is a test 中文\nRope");
    let mut iter = RopeExt::lines(&rope);
    let mut lines: Vec<String> = vec![];
    while let Some(line) = iter.next() {
        lines.push(line.to_string());
    }
    assert_eq!(
        lines,
        vec!["Hello", "World\r", "This is a test 中文", "Rope"]
    );
}

#[test]
fn test_line_start_end_offset() {
    let rope = Rope::from("Hello\nWorld\r\nThis is a test 中文\nRope");
    assert_eq!(rope.line_start_offset(0), 0);
    assert_eq!(rope.line_end_offset(0), 5);

    assert_eq!(rope.line_start_offset(1), 6);
    assert_eq!(rope.line_end_offset(1), 12);

    assert_eq!(rope.line_start_offset(2), 13);
    assert_eq!(rope.line_end_offset(2), 34);

    assert_eq!(rope.line_start_offset(3), 35);
    assert_eq!(rope.line_end_offset(3), 39);

    assert_eq!(rope.line_start_offset(4), 39);
    assert_eq!(rope.line_end_offset(4), 39);
}

#[test]
fn test_chars_count() {
    let rope = Rope::from("Hello\nWorld\r\nThis is a test 中文🎉\nRope");
    assert_eq!(rope.chars_count(), 36);
    let rope = Rope::from("");
    assert_eq!(rope.chars_count(), 0);
    let rope = Rope::from("Single line");
    assert_eq!(rope.chars_count(), 11);
}

#[test]
fn test_line_column() {
    let rope = Rope::from("a 中文🎉 test\nRope");
    assert_eq!(rope.position_to_offset(&Position::new(0, 3)), "a 中".len());
    assert_eq!(
        rope.position_to_offset(&Position::new(0, 5)),
        "a 中文🎉".len()
    );
    assert_eq!(
        rope.position_to_offset(&Position::new(1, 1)),
        "a 中文🎉 test\nR".len()
    );

    assert_eq!(
        rope.offset_to_position("a 中文🎉 test\nR".len()),
        Position::new(1, 1)
    );
    assert_eq!(
        rope.offset_to_position("a 中文🎉".len()),
        Position::new(0, 5)
    );
}

#[test]
fn test_char_at() {
    let rope = Rope::from("Hello\nWorld\r\nThis is a test 中文🎉\nRope");
    assert_eq!(rope.char_at(0), Some('H'));
    assert_eq!(rope.char_at(5), Some('\n'));
    assert_eq!(rope.char_at(13), Some('T'));
    assert_eq!(rope.char_at(28), Some('中'));
    assert_eq!(rope.char_at(34), Some('🎉'));
    assert_eq!(rope.char_at(38), Some('\n'));
    assert_eq!(rope.char_at(50), None);
}

#[test]
fn position_offset_round_trip() {
    let rope = Rope::from("ab\ncd 中\n");
    for offset in [0usize, 1, 2, 3, 4, 6, 9, 10] {
        let pos = rope.offset_to_position(offset);
        assert_eq!(rope.position_to_offset(&pos), offset);
    }
    // A column past the end of its line stops at the line's end.
    assert_eq!(rope.position_to_offset(&Position::new(0, 10)), 2);
    // A line past the end of the text is the end of the text.
    assert_eq!(rope.position_to_offset(&Position::new(7, 0)), rope.len_bytes());
    assert_eq!(rope.offset_to_position(100), Position::new(2, 0));
}

#[test]
fn rope_lines_nth_and_hint() {
    let rope = Rope::from("a\nb\nc");
    let mut lines = RopeExt::lines(&rope);
    assert_eq!(lines.size_hint(), (3, Some(3)));
    assert_eq!(lines.nth(1).map(|l| l.to_string()), Some("b".to_string()));
    assert_eq!(lines.next().map(|l| l.to_string()), Some("c".to_string()));
    assert_eq!(lines.next().map(|l| l.to_string()), None);
}
