use kat::editor::{Editor, Point};
use kat::render::format_number;
use kat::text::str_to_chars;

fn chars(text: &str) -> Vec<char> {
    text.chars().collect()
}

fn editor_with(text: &str) -> Editor {
    let mut editor = Editor::new();
    editor.load(&str_to_chars(text));
    editor
}

#[test]
fn too_small_terminal_renders_only_the_fallback_message() {
    let editor = editor_with("abc\ndef\nghi");
    let frame = editor.render(5, 5);
    assert_eq!(frame.len(), 1);
    assert_eq!(frame[0].row, 0);
    assert_eq!(frame[0].text, chars("Terminal too small!!"));
}

#[test]
fn too_small_terminal_is_safe_for_any_buffer() {
    let editor = Editor::new();
    let frame = editor.render(0, 0);
    assert_eq!(frame.len(), 1);
    assert_eq!(frame[0].text, chars("Terminal too small!!"));
}

#[test]
fn width_just_below_minimum_is_too_small() {
    let editor = editor_with("abc");
    assert_eq!(editor.render(14, 24).len(), 1);
    assert_eq!(editor.render(15, 24)[0].text, chars("      1   abc"));
}

#[test]
fn rendered_line_has_gutter_and_text() {
    let editor = editor_with("abc");
    let frame = editor.render(80, 24);
    assert_eq!(frame.len(), 1);
    assert_eq!(frame[0].row, 0);
    assert_eq!(frame[0].text, chars("      1   abc"));
}

#[test]
fn rendering_stops_at_the_end_of_the_buffer() {
    let editor = editor_with("a\nb\nc");
    let frame = editor.render(80, 24);
    assert_eq!(frame.len(), 3);
    assert_eq!(frame[0].text, chars("      1   a"));
    assert_eq!(frame[1].text, chars("      2   b"));
    assert_eq!(frame[2].text, chars("      3   c"));
}

#[test]
fn rendering_is_limited_by_terminal_height() {
    let editor = editor_with("a\nb\nc\nd\ne\nf\ng\nh");
    let frame = editor.render(80, 5);
    assert_eq!(frame.len(), 5);
    assert_eq!(frame[4].row, 4);
    assert_eq!(frame[4].text, chars("      5   e"));
}

#[test]
fn scrolled_viewport_shows_later_rows() {
    let mut editor = editor_with("a\nb\nc\nd\ne");
    editor.viewport.pos = Point::from(2, 0);
    let frame = editor.render(80, 24);
    assert_eq!(frame.len(), 3);
    assert_eq!(frame[0].row, 0);
    assert_eq!(frame[0].text, chars("      3   c"));
}

#[test]
fn horizontal_scroll_cuts_the_visible_slice() {
    let mut editor = editor_with("abcdefgh");
    editor.viewport.pos = Point::from(0, 2);
    let frame = editor.render(80, 24);
    assert_eq!(frame[0].text, chars("      1   cdefgh"));
}

#[test]
fn narrow_terminal_cuts_the_line_on_the_right() {
    let editor = editor_with("abcdefgh");
    let frame = editor.render(15, 24);
    assert_eq!(frame[0].text, chars("      1   abcde"));
}

#[test]
fn start_beyond_line_end_shows_only_the_gutter() {
    let mut editor = editor_with("ab\nlonger line");
    editor.viewport.pos = Point::from(0, 5);
    let frame = editor.render(80, 24);
    assert_eq!(frame[0].text, chars("      1   "));
    assert_eq!(frame[1].text, chars("      2   r line"));
}

#[test]
fn empty_line_renders_only_the_gutter() {
    let editor = editor_with("");
    let frame = editor.render(80, 24);
    assert_eq!(frame[0].text, chars("      1   "));
}

#[test]
fn line_numbers_grow_past_the_gutter_width() {
    let text = vec!["x"; 12].join("\n");
    let editor = editor_with(&text);
    let frame = editor.render(80, 24);
    assert_eq!(frame[9].text, chars("     10   x"));
    assert_eq!(frame[11].text, chars("     12   x"));
}

#[test]
fn format_line_clamps_the_end_to_the_line() {
    let editor = editor_with("abcdef");
    assert_eq!(editor.format_line(0, 1, 100), chars("      1   bcdef"));
    assert_eq!(editor.format_line(0, 0, 3), chars("      1   abc"));
    assert_eq!(editor.format_line(0, 6, 9), chars("      1   "));
}

#[test]
fn format_number_gives_decimal_digits() {
    assert_eq!(format_number(0), chars("0"));
    assert_eq!(format_number(7), chars("7"));
    assert_eq!(format_number(10), chars("10"));
    assert_eq!(format_number(90210), chars("90210"));
}
