use kat::editor::{Editor, KeyCode, KeyEvent, Point};
use kat::text::str_to_chars;

fn chars(text: &str) -> Vec<char> {
    text.chars().collect()
}

fn editor_with(text: &str) -> Editor {
    let mut editor = Editor::new();
    editor.load(&str_to_chars(text));
    editor
}

fn big() -> (u16, u16) {
    (80, 24)
}

fn press(editor: &mut Editor, code: KeyCode, ctrl: bool) {
    let (width, height) = big();
    editor.process_key_event(KeyEvent { code, ctrl }, width, height);
}

#[test]
fn new_editor_has_one_empty_line() {
    let editor = Editor::new();
    assert_eq!(editor.lines().len(), 1);
    assert!(editor.lines()[0].is_empty());
    assert_eq!(editor.cursor().row, 0);
    assert_eq!(editor.cursor().col, 0);
    assert!(!editor.should_exit());
    assert!(!editor.is_ctrl_pressed());
}

#[test]
fn load_splits_on_newlines() {
    let editor = editor_with("abc\ndef");
    assert_eq!(editor.lines(), &vec![chars("abc"), chars("def")]);
}

#[test]
fn load_empty_text_keeps_one_line() {
    let editor = editor_with("");
    assert_eq!(editor.lines(), &vec![chars("")]);
}

#[test]
fn load_trailing_newline_yields_trailing_empty_line() {
    let editor = editor_with("a\nb\n");
    assert_eq!(editor.lines(), &vec![chars("a"), chars("b"), chars("")]);
}

#[test]
fn load_resets_cursor() {
    let mut editor = editor_with("abc");
    editor.cursor = Point::from(0, 2);
    editor.load(&str_to_chars("xy"));
    assert_eq!(editor.cursor().row, 0);
    assert_eq!(editor.cursor().col, 0);
}

#[test]
fn move_up_stops_at_top() {
    let mut editor = editor_with("a\nb");
    assert!(!editor.move_cursor_up());
    assert_eq!(editor.cursor().row, 0);
    editor.cursor = Point::from(1, 0);
    assert!(editor.move_cursor_up());
    assert_eq!(editor.cursor().row, 0);
}

#[test]
fn move_down_stops_at_last_row() {
    let mut editor = editor_with("a\nb");
    assert!(editor.move_cursor_down());
    assert_eq!(editor.cursor().row, 1);
    assert!(!editor.move_cursor_down());
    assert_eq!(editor.cursor().row, 1);
}

#[test]
fn forward_from_line_end_wraps_to_next_line_start() {
    let mut editor = editor_with("ab\ncd");
    editor.cursor = Point::from(0, 2);
    assert!(editor.move_cursor_forward_once());
    assert_eq!(editor.cursor().row, 1);
    assert_eq!(editor.cursor().col, 0);
}

#[test]
fn forward_at_buffer_end_is_a_no_op() {
    let mut editor = editor_with("ab\ncd");
    editor.cursor = Point::from(1, 2);
    assert!(!editor.move_cursor_forward_once());
    assert_eq!(editor.cursor().row, 1);
    assert_eq!(editor.cursor().col, 2);
}

#[test]
fn backward_from_line_start_lands_at_previous_line_end() {
    let mut editor = editor_with("abc\nd");
    editor.cursor = Point::from(1, 0);
    assert!(editor.move_cursor_backward_once());
    assert_eq!(editor.cursor().row, 0);
    assert_eq!(editor.cursor().col, 3);
}

#[test]
fn backward_at_buffer_start_is_a_no_op() {
    let mut editor = editor_with("abc");
    assert!(!editor.move_cursor_backward_once());
    assert_eq!(editor.cursor().row, 0);
    assert_eq!(editor.cursor().col, 0);
}

#[test]
fn start_and_end_of_line() {
    let mut editor = editor_with("hello");
    editor.move_cursor_to_end_of_line();
    assert_eq!(editor.cursor().col, 5);
    editor.move_cursor_to_start_of_line();
    assert_eq!(editor.cursor().col, 0);
}

#[test]
fn word_skip_forward_stops_at_word_boundary() {
    let mut editor = editor_with("foo bar");
    press(&mut editor, KeyCode::Right, true);
    assert_eq!(editor.cursor().row, 0);
    assert_eq!(editor.cursor().col, 3);
}

#[test]
fn word_skip_backward_stops_at_word_boundary() {
    let mut editor = editor_with("foo bar");
    editor.cursor = Point::from(0, 7);
    press(&mut editor, KeyCode::Left, true);
    assert_eq!(editor.cursor().col, 4);
}

#[test]
fn plain_arrow_moves_one_step() {
    let mut editor = editor_with("foo bar");
    press(&mut editor, KeyCode::Right, false);
    assert_eq!(editor.cursor().col, 1);
    press(&mut editor, KeyCode::Left, false);
    assert_eq!(editor.cursor().col, 0);
}

#[test]
fn enter_splits_line_at_cursor() {
    let mut editor = editor_with("abc\ndef");
    editor.cursor = Point::from(0, 3);
    press(&mut editor, KeyCode::Enter, false);
    assert_eq!(editor.lines(), &vec![chars("abc"), chars(""), chars("def")]);
    assert_eq!(editor.cursor().row, 1);
    assert_eq!(editor.cursor().col, 0);
}

#[test]
fn enter_in_line_middle_moves_remainder_down() {
    let mut editor = editor_with("abcd");
    editor.cursor = Point::from(0, 2);
    press(&mut editor, KeyCode::Enter, false);
    assert_eq!(editor.lines(), &vec![chars("ab"), chars("cd")]);
    assert_eq!(editor.cursor().row, 1);
    assert_eq!(editor.cursor().col, 0);
}

#[test]
fn backspace_at_line_start_merges_lines() {
    let mut editor = editor_with("abc\ndef");
    editor.cursor = Point::from(1, 0);
    press(&mut editor, KeyCode::Backspace, false);
    assert_eq!(editor.lines(), &vec![chars("abcdef")]);
    assert_eq!(editor.cursor().row, 0);
    assert_eq!(editor.cursor().col, 3);
}

#[test]
fn backspace_deletes_character_before_cursor() {
    let mut editor = editor_with("abc");
    editor.cursor = Point::from(0, 2);
    press(&mut editor, KeyCode::Backspace, false);
    assert_eq!(editor.lines(), &vec![chars("ac")]);
    assert_eq!(editor.cursor().col, 1);
}

#[test]
fn backspace_at_origin_is_a_no_op() {
    let mut editor = editor_with("abc");
    press(&mut editor, KeyCode::Backspace, false);
    assert_eq!(editor.lines(), &vec![chars("abc")]);
    assert_eq!(editor.cursor().col, 0);
}

#[test]
fn control_h_word_deletes_to_word_boundary() {
    let mut editor = editor_with("foo bar");
    editor.cursor = Point::from(0, 7);
    press(&mut editor, KeyCode::Char('h'), true);
    assert_eq!(editor.lines(), &vec![chars("foo ")]);
    assert_eq!(editor.cursor().col, 4);
}

#[test]
fn plain_h_inserts_a_character() {
    let mut editor = editor_with("i");
    editor.cursor = Point::from(0, 1);
    press(&mut editor, KeyCode::Char('h'), false);
    assert_eq!(editor.lines(), &vec![chars("ih")]);
    assert_eq!(editor.cursor().col, 2);
}

#[test]
fn typed_characters_advance_the_cursor() {
    let mut editor = editor_with("");
    press(&mut editor, KeyCode::Char('h'), false);
    press(&mut editor, KeyCode::Char('i'), false);
    assert_eq!(editor.lines(), &vec![chars("hi")]);
    assert_eq!(editor.cursor().col, 2);
}

#[test]
fn escape_sets_the_exit_flag() {
    let mut editor = editor_with("abc");
    assert!(!editor.should_exit());
    press(&mut editor, KeyCode::Esc, false);
    assert!(editor.should_exit());
    assert_eq!(editor.lines(), &vec![chars("abc")]);
}

#[test]
fn too_small_terminal_suppresses_key_handling() {
    let mut editor = editor_with("abc");
    editor.process_key_event(KeyEvent { code: KeyCode::Char('x'), ctrl: false }, 5, 5);
    assert_eq!(editor.lines(), &vec![chars("abc")]);
    editor.process_key_event(KeyEvent { code: KeyCode::Esc, ctrl: false }, 5, 5);
    assert!(!editor.should_exit());
}

#[test]
fn split_then_merge_restores_the_line() {
    let mut editor = editor_with("hello world");
    let before = editor.lines().clone();
    let at = Point::from(0, 5);
    editor.split_line_down(&at);
    assert_eq!(editor.lines(), &vec![chars("hello"), chars(" world")]);
    editor.merge_below_line(0);
    assert_eq!(editor.lines(), &before);
}

#[test]
fn insert_then_remove_restores_the_line() {
    let mut editor = editor_with("abc");
    editor.cursor = Point::from(0, 1);
    editor.insert_char('x');
    assert_eq!(editor.lines(), &vec![chars("axbc")]);
    assert_eq!(editor.cursor().col, 2);
    editor.remove_character_at_cursor();
    assert_eq!(editor.lines(), &vec![chars("abc")]);
}

#[test]
fn clamp_pulls_cursor_back_into_bounds() {
    let mut editor = editor_with("ab\nc");
    editor.cursor = Point::from(9, 9);
    editor.clamp_cursor_position();
    assert_eq!(editor.cursor().row, 1);
    assert_eq!(editor.cursor().col, 1);
    editor.cursor = Point::from(-3, -7);
    editor.clamp_cursor_position();
    assert_eq!(editor.cursor().row, 0);
    assert_eq!(editor.cursor().col, 0);
}

#[test]
fn update_adopts_terminal_size_and_clamps() {
    let mut editor = editor_with("ab");
    editor.cursor = Point::from(5, 5);
    editor.update(80, 24);
    assert_eq!(editor.viewport().width, 80);
    assert_eq!(editor.viewport().height, 24);
    assert_eq!(editor.cursor().row, 0);
    assert_eq!(editor.cursor().col, 2);
}

#[test]
fn update_with_too_small_terminal_changes_nothing() {
    let mut editor = editor_with("ab");
    editor.cursor = Point::from(5, 5);
    editor.update(5, 5);
    assert_eq!(editor.viewport().width, 0);
    assert_eq!(editor.cursor().row, 5);
    assert_eq!(editor.cursor().col, 5);
}

#[test]
fn viewport_cursor_position_accounts_for_gutter() {
    let mut editor = editor_with("abcdef");
    editor.cursor = Point::from(0, 3);
    editor.update(80, 24);
    let position = editor.get_viewport_cursor_position();
    assert_eq!(position.row, 0);
    assert_eq!(position.col, 13);
}

#[test]
fn word_characters_are_alphanumeric_or_underscore() {
    assert!(Editor::is_character_word('a'));
    assert!(Editor::is_character_word('Z'));
    assert!(Editor::is_character_word('0'));
    assert!(Editor::is_character_word('_'));
    assert!(!Editor::is_character_word(' '));
    assert!(!Editor::is_character_word('-'));
    assert!(!Editor::is_character_word('\0'));
}

#[test]
fn line_accessors_are_bounds_checked() {
    let editor = editor_with("ab\ncd");
    assert_eq!(editor.get_line_at(0), Some(&chars("ab")));
    assert_eq!(editor.get_line_at(2), None);
    assert_eq!(editor.get_character_at(1, 1), Some('d'));
    assert_eq!(editor.get_character_at(1, 2), None);
    assert_eq!(editor.get_character_at(9, 0), None);
    assert_eq!(editor.max_rows(), 2);
}

#[test]
fn characters_around_cursor() {
    let mut editor = editor_with("ab");
    editor.cursor = Point::from(0, 1);
    assert_eq!(editor.get_characters_at_cursor(), (Some('a'), Some('b')));
    editor.cursor = Point::from(0, 0);
    assert_eq!(editor.get_characters_at_cursor(), (None, Some('a')));
    editor.cursor = Point::from(0, 2);
    assert_eq!(editor.get_characters_at_cursor(), (Some('b'), None));
}

#[test]
fn update_scrolls_down_until_cursor_is_inside_the_margin_band() {
    let text = vec!["x"; 50].join("\n");
    let mut editor = editor_with(&text);
    editor.cursor = Point::from(40, 0);
    editor.update(80, 10);
    assert_eq!(editor.viewport().pos.row, 33);
    assert_eq!(editor.get_viewport_cursor_position().row, 7);
}

#[test]
fn update_scrolls_right_until_cursor_is_inside_the_margin_band() {
    let text: String = std::iter::repeat('y').take(100).collect();
    let mut editor = editor_with(&text);
    editor.cursor = Point::from(0, 50);
    editor.update(30, 24);
    assert_eq!(editor.viewport().pos.col, 32);
    assert_eq!(editor.get_viewport_cursor_position().col, 28);
}

#[test]
fn update_leaves_the_viewport_alone_at_the_buffer_boundary() {
    let mut editor = editor_with("a\nb");
    editor.cursor = Point::from(1, 0);
    editor.update(80, 5);
    assert_eq!(editor.viewport().pos.row, 0);
    assert_eq!(editor.viewport().pos.col, 0);
}
