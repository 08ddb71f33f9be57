use judo::cursor::{utf8_width, InputState};

fn input(text: &str, pos: usize) -> InputState {
    InputState { current_input: text.to_string(), cursor_pos: pos, is_modifying: false }
}

#[test]
fn backspace_after_multibyte_char() {
    let mut s = input("café", 4);
    s.remove_char_before_cursor();
    assert_eq!(s.current_input, "caf");
    assert_eq!(s.cursor_pos, 3);
}

#[test]
fn insert_multibyte_in_middle() {
    let mut s = input("caf", 1);
    s.add_char('é');
    assert_eq!(s.current_input, "céaf");
    assert_eq!(s.cursor_pos, 2);
    s.add_char('日');
    assert_eq!(s.current_input, "cé日af");
    assert_eq!(s.current_input.chars().count(), 5);
    assert_eq!(s.cursor_pos, 3);
}

#[test]
fn insert_after_multibyte_prefix() {
    let mut s = input("é日x", 2);
    s.add_char('🦀');
    assert_eq!(s.current_input, "é日🦀x");
    assert_eq!(s.cursor_pos, 3);
}

#[test]
fn insert_at_start_and_end() {
    let mut s = input("", 0);
    s.add_char('b');
    s.add_char('c');
    s.move_cursor_left();
    s.move_cursor_left();
    s.add_char('a');
    assert_eq!(s.current_input, "abc");
    assert_eq!(s.cursor_pos, 1);
}

#[test]
fn backspace_at_start_is_noop() {
    let mut s = input("abc", 0);
    s.remove_char_before_cursor();
    assert_eq!(s.current_input, "abc");
    assert_eq!(s.cursor_pos, 0);
}

#[test]
fn delete_after_cursor_multibyte() {
    let mut s = input("aé日b", 1);
    s.delete_char_after_cursor();
    assert_eq!(s.current_input, "a日b");
    assert_eq!(s.cursor_pos, 1);
    s.delete_char_after_cursor();
    assert_eq!(s.current_input, "ab");
}

#[test]
fn delete_at_end_is_noop() {
    let mut s = input("ab", 2);
    s.delete_char_after_cursor();
    assert_eq!(s.current_input, "ab");
    assert_eq!(s.cursor_pos, 2);
}

#[test]
fn cursor_moves_are_clamped() {
    let mut s = input("hé", 0);
    s.move_cursor_left();
    assert_eq!(s.cursor_pos, 0);
    s.move_cursor_right();
    s.move_cursor_right();
    s.move_cursor_right();
    assert_eq!(s.cursor_pos, 2);
}

#[test]
fn cursor_stays_in_range_over_a_sequence() {
    let mut s = input("", 0);
    for c in "añb".chars() {
        s.add_char(c);
        assert!(s.cursor_pos <= s.current_input.chars().count());
    }
    s.move_cursor_right();
    s.delete_char_after_cursor();
    s.remove_char_before_cursor();
    s.move_cursor_left();
    s.move_cursor_left();
    s.move_cursor_left();
    s.remove_char_before_cursor();
    s.delete_char_after_cursor();
    assert!(s.cursor_pos <= s.current_input.chars().count());
    assert_eq!(s.current_input, "ñ");
    assert_eq!(s.cursor_pos, 0);
}

#[test]
fn clear_resets_text_and_cursor() {
    let mut s = input("abc", 2);
    s.clear();
    assert_eq!(s.current_input, "");
    assert_eq!(s.cursor_pos, 0);
}

#[test]
fn spans_split_round_cursor() {
    let s = input("añb", 1);
    let spans = s.create_cursor_text_spans();
    assert_eq!(spans.before, "a");
    assert_eq!(spans.at_cursor, "ñ");
    assert_eq!(spans.after, "b");
}

#[test]
fn spans_at_end_show_block() {
    let s = input("ab", 2);
    let spans = s.create_cursor_text_spans();
    assert_eq!(spans.before, "ab");
    assert_eq!(spans.at_cursor, "\u{2588}");
    assert_eq!(spans.after, "");
}

#[test]
fn utf8_widths() {
    assert_eq!(utf8_width('a'), 1);
    assert_eq!(utf8_width('é'), 2);
    assert_eq!(utf8_width('日'), 3);
    assert_eq!(utf8_width('🦀'), 4);
}

#[test]
fn new_and_modifying_inputs() {
    let s = InputState::new();
    assert_eq!(s.current_input, "");
    assert!(!s.is_modifying);
    let m = InputState::for_modifying(&"Groceries".to_string());
    assert_eq!(m.current_input, "Groceries");
    assert_eq!(m.cursor_pos, 0);
    assert!(m.is_modifying);
}
