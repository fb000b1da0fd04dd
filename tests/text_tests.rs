use rmptui::text::TextEditState;

fn typed(s: &str) -> TextEditState {
    let mut t = TextEditState::new();
    for c in s.chars() {
        t.enter_char(c);
    }
    t
}

#[test]
fn insert_then_delete_restores_buffer() {
    for p in 0..=4 {
        let mut t = typed("test");
        t.cursor = p;
        t.enter_char('x');
        assert_eq!(t.cursor, p + 1);
        t.delete_char();
        assert_eq!(t.input, "test");
        assert_eq!(t.cursor, p);
    }
}

#[test]
fn insert_in_middle() {
    let mut t = typed("abd");
    t.move_cursor_left();
    t.enter_char('c');
    assert_eq!(t.input, "abcd");
    assert_eq!(t.cursor, 3);
}

#[test]
fn delete_at_start_is_noop() {
    let mut t = typed("abc");
    t.reset_cursor();
    t.delete_char();
    assert_eq!(t.input, "abc");
    assert_eq!(t.cursor, 0);
}

#[test]
fn multibyte_characters_are_kept_whole() {
    let mut t = typed("café");
    assert_eq!(t.cursor, 4);
    t.delete_char();
    assert_eq!(t.input, "caf");
    t.enter_char('é');
    t.move_cursor_left();
    t.move_cursor_left();
    t.delete_char();
    assert_eq!(t.input, "cfé");
    assert_eq!(t.cursor, 1);
    t.enter_char('ü');
    assert_eq!(t.input, "cüfé");
    assert_eq!(t.cursor, 2);
}

#[test]
fn cursor_moves_saturate() {
    let mut t = typed("ab");
    t.move_cursor_right();
    assert_eq!(t.cursor, 2);
    t.move_cursor_left();
    t.move_cursor_left();
    t.move_cursor_left();
    assert_eq!(t.cursor, 0);
}

#[test]
fn clear_empties_buffer() {
    let mut t = typed("name");
    t.clear();
    assert_eq!(t.input, "");
    assert_eq!(t.cursor, 0);
}

#[test]
fn cursor_past_end_is_clamped_before_edits() {
    let mut t = typed("ab");
    t.cursor = 9;
    t.enter_char('c');
    assert_eq!(t.input, "abc");
    assert_eq!(t.cursor, 3);
}
