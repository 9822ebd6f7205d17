use gittui::input::keys::{KeyCode, KeyInput};
use gittui::input::text_editor::{
    cursor_line_col, handle_text_input, line_col_to_offset, line_end, line_start,
    next_char_boundary, next_word_boundary, prev_char_boundary, prev_word_boundary, TextEditor,
};

fn key(code: KeyCode) -> KeyInput {
    KeyInput::plain(code)
}

#[test]
fn test_insert_chars() {
    let mut buf = String::new();
    let mut cursor = 0;
    handle_text_input(&mut buf, &mut cursor, key(KeyCode::Char('h')));
    handle_text_input(&mut buf, &mut cursor, key(KeyCode::Char('i')));
    assert_eq!(buf, "hi");
    assert_eq!(cursor, 2);
}

#[test]
fn test_backspace() {
    let mut buf = "hello".to_string();
    let mut cursor = 5;
    handle_text_input(&mut buf, &mut cursor, key(KeyCode::Backspace));
    assert_eq!(buf, "hell");
    assert_eq!(cursor, 4);
}

#[test]
fn test_delete() {
    let mut buf = "hello".to_string();
    let mut cursor = 0;
    handle_text_input(&mut buf, &mut cursor, key(KeyCode::Delete));
    assert_eq!(buf, "ello");
    assert_eq!(cursor, 0);
}

#[test]
fn test_left_right() {
    let mut buf = "abc".to_string();
    let mut cursor = 1;
    handle_text_input(&mut buf, &mut cursor, key(KeyCode::Left));
    assert_eq!(cursor, 0);
    handle_text_input(&mut buf, &mut cursor, key(KeyCode::Right));
    assert_eq!(cursor, 1);
}

#[test]
fn test_home_end() {
    let mut buf = "first\nsecond".to_string();
    let mut cursor = 8; // middle of "second"
    handle_text_input(&mut buf, &mut cursor, key(KeyCode::Home));
    assert_eq!(cursor, 6); // start of "second"
    handle_text_input(&mut buf, &mut cursor, key(KeyCode::End));
    assert_eq!(cursor, 12); // end of "second"
}

#[test]
fn test_enter_newline() {
    let mut buf = "ab".to_string();
    let mut cursor = 1;
    handle_text_input(&mut buf, &mut cursor, key(KeyCode::Enter));
    assert_eq!(buf, "a\nb");
    assert_eq!(cursor, 2);
}

#[test]
fn test_cursor_line_col() {
    let buf = "first\nsecond\nthird";
    assert_eq!(cursor_line_col(buf, 0), (0, 0));
    assert_eq!(cursor_line_col(buf, 5), (0, 5));
    assert_eq!(cursor_line_col(buf, 6), (1, 0));
    assert_eq!(cursor_line_col(buf, 12), (1, 6));
    assert_eq!(cursor_line_col(buf, 13), (2, 0));
}

#[test]
fn test_up_down_arrow() {
    let mut buf = "abc\ndef\nghi".to_string();
    let mut cursor = 1; // line 0, col 1
    handle_text_input(&mut buf, &mut cursor, key(KeyCode::Down));
    assert_eq!(cursor_line_col(&buf, cursor), (1, 1));
    handle_text_input(&mut buf, &mut cursor, key(KeyCode::Down));
    assert_eq!(cursor_line_col(&buf, cursor), (2, 1));
    handle_text_input(&mut buf, &mut cursor, key(KeyCode::Up));
    assert_eq!(cursor_line_col(&buf, cursor), (1, 1));
}

#[test]
fn test_text_editor_struct() {
    let mut editor = TextEditor::with_text("hello world");
    assert_eq!(editor.cursor, 11);
    assert_eq!(editor.line_count(), 1);

    editor.handle_input(key(KeyCode::Enter));
    assert_eq!(editor.text(), "hello world\n");
    assert_eq!(editor.line_count(), 2);
    assert_eq!(editor.cursor_position(), (1, 0));

    editor.clear();
    assert_eq!(editor.text(), "");
    assert_eq!(editor.cursor, 0);
}

// -- Further cases --------------------------------------------------------

#[test]
fn type_then_backspace_restores_text() {
    for (text, cursor) in [("", 0usize), ("héllo", 1), ("héllo", 3), ("a\nb", 2), ("日本", 3)] {
        for ch in ['x', 'é', '日', '😀'] {
            let mut buf = text.to_string();
            let mut c = cursor;
            handle_text_input(&mut buf, &mut c, key(KeyCode::Char(ch)));
            assert_ne!(buf, text);
            handle_text_input(&mut buf, &mut c, key(KeyCode::Backspace));
            assert_eq!(buf, text);
            assert_eq!(c, cursor);
        }
    }
}

#[test]
fn enter_then_backspace_restores_text() {
    let mut buf = "one two".to_string();
    let mut c = 3;
    handle_text_input(&mut buf, &mut c, key(KeyCode::Enter));
    assert_eq!(buf, "one\n two");
    handle_text_input(&mut buf, &mut c, key(KeyCode::Backspace));
    assert_eq!(buf, "one two");
    assert_eq!(c, 3);
}

#[test]
fn multibyte_character_boundaries() {
    let s = "aé日😀";
    assert_eq!(next_char_boundary(s, 0), 1);
    assert_eq!(next_char_boundary(s, 1), 3);
    assert_eq!(next_char_boundary(s, 3), 6);
    assert_eq!(next_char_boundary(s, 6), 10);
    assert_eq!(next_char_boundary(s, 10), 10);
    assert_eq!(prev_char_boundary(s, 10), 6);
    assert_eq!(prev_char_boundary(s, 6), 3);
    assert_eq!(prev_char_boundary(s, 1), 0);
    assert_eq!(prev_char_boundary(s, 0), 0);
}

#[test]
fn word_boundaries() {
    let s = "foo  bar baz";
    assert_eq!(prev_word_boundary(s, 12), 9);
    assert_eq!(prev_word_boundary(s, 9), 5);
    assert_eq!(prev_word_boundary(s, 5), 0);
    assert_eq!(next_word_boundary(s, 0), 5);
    assert_eq!(next_word_boundary(s, 5), 9);
    assert_eq!(next_word_boundary(s, 9), 12);
}

#[test]
fn line_start_and_end() {
    let s = "ab\ncd\n";
    assert_eq!(line_start(s, 4), 3);
    assert_eq!(line_end(s, 4), 5);
    assert_eq!(line_start(s, 0), 0);
    assert_eq!(line_end(s, 0), 2);
    assert_eq!(line_start(s, 6), 6);
    assert_eq!(line_end(s, 6), 6);
}

#[test]
fn line_col_round_trip_and_clamping() {
    let s = "abc\nde\nfghi";
    assert_eq!(line_col_to_offset(s, 1, 1), 5);
    assert_eq!(line_col_to_offset(s, 1, 9), 6);
    assert_eq!(line_col_to_offset(s, 2, 3), 10);
    assert_eq!(line_col_to_offset(s, 7, 0), s.len());
    assert_eq!(cursor_line_col(s, 5), (1, 1));
}

#[test]
fn ctrl_keys_edit_lines() {
    let mut buf = "hello world\nnext".to_string();
    let mut c = 5;
    handle_text_input(&mut buf, &mut c, KeyInput::with_ctrl(KeyCode::Char('k')));
    assert_eq!(buf, "hello\nnext");
    assert_eq!(c, 5);
    handle_text_input(&mut buf, &mut c, KeyInput::with_ctrl(KeyCode::Char('k')));
    assert_eq!(buf, "hellonext");
    handle_text_input(&mut buf, &mut c, KeyInput::with_ctrl(KeyCode::Char('u')));
    assert_eq!(buf, "next");
    assert_eq!(c, 0);
    handle_text_input(&mut buf, &mut c, KeyInput::with_ctrl(KeyCode::Char('e')));
    assert_eq!(c, 4);
    handle_text_input(&mut buf, &mut c, KeyInput::with_ctrl(KeyCode::Char('a')));
    assert_eq!(c, 0);
}

#[test]
fn cursor_past_end_is_clamped() {
    let mut buf = "ab".to_string();
    let mut c = 10;
    handle_text_input(&mut buf, &mut c, key(KeyCode::Char('c')));
    assert_eq!(buf, "abc");
    assert_eq!(c, 3);
}

#[test]
fn line_col_round_trip_on_every_boundary() {
    let buf = "first\nsec\u{e9}nd\n\nthird";
    for p in 0..=buf.len() {
        if buf.is_char_boundary(p) {
            let (l, c) = cursor_line_col(buf, p);
            assert_eq!(line_col_to_offset(buf, l, c), p);
        }
    }
}

#[test]
fn down_can_land_inside_a_character() {
    let mut buf = "ab\n\u{e9}".to_string();
    let mut cursor = 1;
    handle_text_input(&mut buf, &mut cursor, key(KeyCode::Down));
    assert_eq!(cursor, 4);
    assert!(!buf.is_char_boundary(cursor));
}
