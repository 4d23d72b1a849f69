use gpui_component::rope_ext::RopeExt;
use gpui_component::text_wrapper::TextWrapper;
use ropey::Rope;
use std::ops::Range;

fn fake_wrap_line(_line: &str) -> Vec<usize> {
    vec![]
}

/// Replaces the bytes `range` of `text` with `new_text`.
fn replace(text: &mut Rope, range: Range<usize>, new_text: &str) {
    let start = text.byte_to_char(range.start);
    let end = text.byte_to_char(range.end);
    text.remove(start..end);
    text.insert(start, new_text);
}

fn assert_wrapper_lines(text: &Rope, wrapper: &TextWrapper, expected_lines: &[&[&str]]) {
    let mut actual_lines = vec![];
    let mut offset = 0;
    for line in wrapper.lines.iter() {
        actual_lines.push(
            line.wrapped_lines
                .iter()
                .map(|range| {
                    let start = text.byte_to_char(offset + range.start);
                    let end = text.byte_to_char(offset + range.end);
                    text.slice(start..end).to_string()
                })
                .collect::<Vec<_>>(),
        );
        // +1 \n
        offset += line.len() + 1;
    }
    assert_eq!(actual_lines, expected_lines);
}

#[test]
fn test_update() {
    let wrap = |line: &str| fake_wrap_line(line);
    let mut wrapper = TextWrapper::new(false);
    let mut text = Rope::from(
        "Hello, 世界!\r\nThis is second line.\nThis is third line.\n这里是第 4 行。",
    );

    wrapper._update(&text, &(0..text.len_bytes()), &text, &wrap);
    assert_eq!(wrapper.lines.len(), 4);
    assert_wrapper_lines(
        &text,
        &wrapper,
        &[
            &["Hello, 世界!\r"],
            &["This is second line."],
            &["This is third line."],
            &["这里是第 4 行。"],
        ],
    );

    // Add a new text to end
    let range = text.len_bytes()..text.len_bytes();
    let new_text = "New text";
    replace(&mut text, range.clone(), new_text);
    wrapper._update(&text, &range, &Rope::from(new_text), &wrap);
    assert_eq!(
        text.to_string(),
        "Hello, 世界!\r\nThis is second line.\nThis is third line.\n这里是第 4 行。New text"
    );
    assert_eq!(wrapper.lines.len(), 4);
    assert_eq!(wrapper.lines.len(), 4);
    assert_wrapper_lines(
        &text,
        &wrapper,
        &[
            &["Hello, 世界!\r"],
            &["This is second line."],
            &["This is third line."],
            &["这里是第 4 行。New text"],
        ],
    );

    // Replace first line `Hello` to `AAA`
    let range = 0..5;
    let new_text = "AAA";
    replace(&mut text, range.clone(), new_text);
    wrapper._update(&text, &range, &Rope::from(new_text), &wrap);
    assert_eq!(
        text.to_string(),
        "AAA, 世界!\r\nThis is second line.\nThis is third line.\n这里是第 4 行。New text"
    );
    assert_eq!(wrapper.lines.len(), 4);
    assert_wrapper_lines(
        &text,
        &wrapper,
        &[
            &["AAA, 世界!\r"],
            &["This is second line."],
            &["This is third line."],
            &["这里是第 4 行。New text"],
        ],
    );

    // Remove the second line
    let start_offset = text.line_start_offset(1);
    let end_offset = text.line_end_offset(1);
    let range = start_offset..end_offset + 1;
    replace(&mut text, range.clone(), "");
    wrapper._update(&text, &range, &Rope::from(""), &wrap);
    assert_eq!(
        text.to_string(),
        "AAA, 世界!\r\nThis is third line.\n这里是第 4 行。New text"
    );
    assert_eq!(wrapper.lines.len(), 3);
    assert_wrapper_lines(
        &text,
        &wrapper,
        &[
            &["AAA, 世界!\r"],
            &["This is third line."],
            &["这里是第 4 行。New text"],
        ],
    );

    // Replace the first 2 lines to "This is a new line."
    let range = text.line_start_offset(0)..text.line_end_offset(1) + 1;
    let new_text = "This is a new line.\nThis is new line 2.\n";
    replace(&mut text, range.clone(), new_text);
    wrapper._update(&text, &range, &Rope::from(new_text), &wrap);
    assert_eq!(
        text.to_string(),
        "This is a new line.\nThis is new line 2.\n这里是第 4 行。New text"
    );
    assert_eq!(wrapper.lines.len(), 3);
    assert_wrapper_lines(
        &text,
        &wrapper,
        &[
            &["This is a new line."],
            &["This is new line 2."],
            &["这里是第 4 行。New text"],
        ],
    );

    // Add a new line at the end
    let range = text.len_bytes()..text.len_bytes();
    let new_text = "\nThis is a new line at the end.";
    replace(&mut text, range.clone(), new_text);
    wrapper._update(&text, &range, &Rope::from(new_text), &wrap);
    assert_eq!(
        text.to_string(),
        "This is a new line.\nThis is new line 2.\n这里是第 4 行。New text\nThis is a new line at the end."
    );
    assert_eq!(wrapper.lines.len(), 4);
    assert_wrapper_lines(
        &text,
        &wrapper,
        &[
            &["This is a new line."],
            &["This is new line 2."],
            &["这里是第 4 行。New text"],
            &["This is a new line at the end."],
        ],
    );

    // Add a new line at the beginning
    let range = 0..0;
    let new_text = "This is a new line at the beginning.\n";
    replace(&mut text, range.clone(), new_text);
    wrapper._update(&text, &range, &Rope::from(new_text), &wrap);
    assert_eq!(
        text.to_string(),
        "This is a new line at the beginning.\nThis is a new line.\nThis is new line 2.\n这里是第 4 行。New text\nThis is a new line at the end."
    );
    assert_eq!(wrapper.lines.len(), 5);
    assert_wrapper_lines(
        &text,
        &wrapper,
        &[
            &["This is a new line at the beginning."],
            &["This is a new line."],
            &["This is new line 2."],
            &["这里是第 4 行。New text"],
            &["This is a new line at the end."],
        ],
    );

    // Remove all to at least one line in `lines`.
    let range = 0..text.len_bytes();
    let new_text = "";
    replace(&mut text, range.clone(), new_text);
    wrapper._update(&text, &range, &Rope::from(new_text), &wrap);
    assert_eq!(text.to_string(), "");
    assert_eq!(wrapper.lines.len(), 1);
    assert_eq!(wrapper.lines[0].wrapped_lines, vec![0..0]);

    // Test update_all
    let range = 0..text.len_bytes();
    let new_text = "This is a full text.\nThis is a second line.";
    replace(&mut text, range.clone(), new_text);
    wrapper._update(&text, &range, &text, &wrap);
    assert_eq!(
        text.to_string(),
        "This is a full text.\nThis is a second line."
    );
    assert_eq!(wrapper.lines.len(), 2);
}

#[test]
fn wrapped_lines_follow_the_breaks() {
    // Breaks after every 4 bytes of a line.
    let wrap = |line: &str| -> Vec<usize> { (1..).map(|i| i * 4).take_while(|&b| b < line.len()).collect() };
    let mut wrapper = TextWrapper::new(true);
    let text = Rope::from("abcdefghij\nxy");
    wrapper.update_all(&text, &wrap);
    assert_eq!(wrapper.lines.len(), 2);
    assert_eq!(wrapper.lines[0].wrapped_lines, vec![0..4, 4..8, 8..10]);
    assert_eq!(wrapper.lines[1].wrapped_lines, vec![0..2]);
    assert_eq!(wrapper.len(), 4);
    assert_eq!(wrapper.longest_row.row, 0);
    assert_eq!(wrapper.longest_row.len, 10);
    assert!(wrapper.line(1).is_some());
    assert!(wrapper.line(2).is_none());
}
