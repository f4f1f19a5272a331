//! The mathematical model of the editing core: the buffer is a sequence of
//! lines, each a sequence of characters; a cursor position is a pair of
//! integers. The spec functions here describe single cursor steps, greedy
//! word-skip repetition, word deletion, line splitting and merging, and
//! cursor clamping. The executable code in the other modules is specified
//! against these functions.

use vstd::prelude::*;

verus! {

/// Width in cells of the right-aligned line-number column.
pub const LINE_NUMBER_AREA_LENGTH_IN_CELLS: u16 = 7;

/// Blank cells between the line number and the text.
pub const LINE_NUMBER_EXTRA_SPACES: u16 = 3;

/// Total width of the gutter: the first text column on screen.
pub const CURSOR_COLUMN_START_OFFSET: u16 = LINE_NUMBER_AREA_LENGTH_IN_CELLS
    + LINE_NUMBER_EXTRA_SPACES;

/// Minimum distance the cursor keeps from a viewport edge before scrolling.
pub const VIEWPORT_BOUND_MARGIN: u16 = 2;

/// Below this width the editor renders only the fallback message.
pub const MINIMUM_TERMINAL_WIDTH: u16 = CURSOR_COLUMN_START_OFFSET + 5;

/// Below this height the editor renders only the fallback message.
pub const MINIMUM_TERMINAL_HEIGHT: u16 = VIEWPORT_BOUND_MARGIN * 2 + 1;

/// Machine capacity bound on line counts and line lengths, kept well under
/// `isize::MAX` (even on 32-bit targets) so that signed coordinate
/// arithmetic cannot overflow.
pub const CAPACITY_LIMIT: usize = 0x7ff0_0000;

/// A word character: ASCII alphanumeric or underscore.
pub open spec fn is_word_char(c: char) -> bool {
    ('a' as u32 <= c as u32 && c as u32 <= 'z' as u32)
        || ('A' as u32 <= c as u32 && c as u32 <= 'Z' as u32)
        || ('0' as u32 <= c as u32 && c as u32 <= '9' as u32)
        || c == '_'
}

/// The line at `row`, or the empty line outside the buffer.
pub open spec fn line_at(lines: Seq<Seq<char>>, row: int) -> Seq<char> {
    if 0 <= row < lines.len() {
        lines[row]
    } else {
        Seq::empty()
    }
}

/// The character at a position, or `'\0'` outside the buffer. Out-of-bounds
/// positions thus count as non-word for the word-skip scans.
pub open spec fn char_at(lines: Seq<Seq<char>>, row: int, col: int) -> char {
    if 0 <= row < lines.len() && 0 <= col < lines[row].len() {
        lines[row][col]
    } else {
        '\0'
    }
}

/// Both characters adjacent to a cursor position (one to the left, one to
/// the right) are word characters.
pub open spec fn both_adjacent_word(lines: Seq<Seq<char>>, row: int, col: int) -> bool {
    is_word_char(char_at(lines, row, col - 1)) && is_word_char(char_at(lines, row, col))
}

/// One forward cursor step: right within the line, else to the start of the
/// next line, else nothing (`None` at the very end of the buffer).
pub open spec fn step_forward(lines: Seq<Seq<char>>, row: int, col: int) -> Option<(int, int)> {
    if col < line_at(lines, row).len() {
        Some((row, col + 1))
    } else if row < lines.len() - 1 {
        Some((row + 1, 0))
    } else {
        None
    }
}

/// One backward cursor step: left within the line, else to the end of the
/// previous line, else nothing (`None` at the very start of the buffer).
pub open spec fn step_backward(lines: Seq<Seq<char>>, row: int, col: int) -> Option<(int, int)> {
    if col > 0 {
        Some((row, col - 1))
    } else if row > 0 {
        Some((row - 1, line_at(lines, row - 1).len() as int))
    } else {
        None
    }
}

/// Greedy forward word skip, continued from a position that one step has
/// already reached: while both adjacent characters are word characters,
/// take another forward step; stop when a step fails.
pub open spec fn skip_forward_from(lines: Seq<Seq<char>>, row: int, col: int) -> (int, int)
    decreases lines.len() - row, line_at(lines, row).len() - col,
        when 0 <= row < lines.len() && 0 <= col <= line_at(lines, row).len()
{
    if both_adjacent_word(lines, row, col) {
        match step_forward(lines, row, col) {
            Some(p) => skip_forward_from(lines, p.0, p.1),
            None => (row, col),
        }
    } else {
        (row, col)
    }
}

/// Greedy backward word skip, continued from a position that one step has
/// already reached.
pub open spec fn skip_backward_from(lines: Seq<Seq<char>>, row: int, col: int) -> (int, int)
    decreases row, col,
        when 0 <= row < lines.len() && 0 <= col <= line_at(lines, row).len()
{
    if both_adjacent_word(lines, row, col) {
        match step_backward(lines, row, col) {
            Some(p) => skip_backward_from(lines, p.0, p.1),
            None => (row, col),
        }
    } else {
        (row, col)
    }
}

/// Word deletion within one line: remove the character before `col`, then
/// keep deleting while the character now before the cursor is a word
/// character. Returns the resulting line and column.
pub open spec fn word_delete(line: Seq<char>, col: int) -> (Seq<char>, int)
    decreases col,
        when 1 <= col <= line.len()
{
    let shorter = line.remove(col - 1);
    if col - 1 >= 1 && is_word_char(shorter[col - 2]) {
        word_delete(shorter, col - 1)
    } else {
        (shorter, col - 1)
    }
}

/// Splitting the line at `row` at column `col`: the prefix keeps the row,
/// the remainder becomes a new line right below it.
pub open spec fn split_at(lines: Seq<Seq<char>>, row: int, col: int) -> Seq<Seq<char>> {
    lines.update(row, lines[row].subrange(0, col)).insert(
        row + 1,
        lines[row].subrange(col, lines[row].len() as int),
    )
}

/// Merging the line below `row` into the line at `row`.
pub open spec fn merge_at(lines: Seq<Seq<char>>, row: int) -> Seq<Seq<char>> {
    lines.update(row, lines[row] + lines[row + 1]).remove(row + 1)
}

/// Forcing a value into `[lo, hi]`.
pub open spec fn clamped(v: int, lo: int, hi: int) -> int {
    if v < lo {
        lo
    } else if v > hi {
        hi
    } else {
        v
    }
}

/// The terminal is too small for the gutter plus a few text cells, or for
/// the margin band; editing and buffer rendering are then suspended.
pub open spec fn terminal_too_small(width: int, height: int) -> bool {
    width < MINIMUM_TERMINAL_WIDTH as int || height < MINIMUM_TERMINAL_HEIGHT as int
}

} // verus!
