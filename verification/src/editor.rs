//! The editor aggregate: a text buffer of lines, a cursor over it, a
//! scrollable viewport, the key-event router and the exit flag. Every
//! operation is specified against the sequence model in `model`.

use vstd::prelude::*;

use crate::model::{
    both_adjacent_word, char_at, clamped, is_word_char, line_at, merge_at, skip_backward_from,
    skip_forward_from, split_at, step_backward, step_forward, terminal_too_small, word_delete,
    CAPACITY_LIMIT, CURSOR_COLUMN_START_OFFSET, MINIMUM_TERMINAL_HEIGHT, MINIMUM_TERMINAL_WIDTH,
    VIEWPORT_BOUND_MARGIN,
};
use crate::text::{lemma_split_text_bounds, split_into_lines, split_text};

verus! {

/// A buffer-space or screen-space coordinate. Signed: intermediate
/// viewport-relative values may go negative before a clamp or scroll pass.
#[derive(Debug, Clone, Copy, PartialEq, Eq, Structural)]
pub struct Point {
    pub row: isize,
    pub col: isize,
}

impl Point {
    /// The origin.
    pub fn new() -> (p: Point)
        ensures
            p.row == 0 && p.col == 0,
    {
        Self::from(0, 0)
    }

    /// The point with the given coordinates.
    pub fn from(row: isize, col: isize) -> (p: Point)
        ensures
            p.row == row && p.col == col,
    {
        Point { row, col }
    }
}

/// The viewport: a scroll offset into the buffer plus the visible size in
/// terminal cells.
#[derive(Debug, Clone, Copy, PartialEq, Eq, Structural)]
pub struct Rectangle {
    pub pos: Point,
    pub width: usize,
    pub height: usize,
}

impl Rectangle {
    /// The empty rectangle at the origin.
    pub fn new() -> (r: Rectangle)
        ensures
            r.pos.row == 0 && r.pos.col == 0 && r.width == 0 && r.height == 0,
    {
        Self::from(Point::new(), 0, 0)
    }

    /// The rectangle with the given position and size.
    pub fn from(pos: Point, width: usize, height: usize) -> (r: Rectangle)
        ensures
            r.pos == pos && r.width == width && r.height == height,
    {
        Rectangle { pos, width, height }
    }
}

/// A categorized key, as the input collaborator reports it.
#[derive(Debug, Clone, Copy, PartialEq, Eq, Structural)]
pub enum KeyCode {
    Left,
    Right,
    Up,
    Down,
    Enter,
    Backspace,
    Char(char),
    Esc,
}

/// A key event: the key together with the only modifier the editor
/// consults, the control key.
#[derive(Debug, Clone, Copy, PartialEq, Eq, Structural)]
pub struct KeyEvent {
    pub code: KeyCode,
    pub ctrl: bool,
}

/// The editor state.
pub struct Editor {
    pub cursor: Point,
    pub lines: Vec<Vec<char>>,
    pub viewport: Rectangle,
    pub ctrl_pressed: bool,
    pub should_exit: bool,
}

impl Editor {
    /// The buffer as a sequence of lines of characters.
    pub open spec fn buffer(self) -> Seq<Seq<char>> {
        Seq::new(self.lines@.len(), |i: int| self.lines@[i]@)
    }

    /// The line under the cursor (empty if the cursor row is out of bounds).
    pub open spec fn current_line(self) -> Seq<char> {
        line_at(self.buffer(), self.cursor.row as int)
    }

    /// Buffer well-formedness: at least one line, and all dimensions under
    /// the machine capacity bound.
    pub open spec fn buffer_wf(self) -> bool {
        &&& 1 <= self.buffer().len() <= CAPACITY_LIMIT
        &&& forall|i: int|
            0 <= i < self.buffer().len() ==> (#[trigger] self.buffer()[i]).len() <= CAPACITY_LIMIT
    }

    /// Viewport well-formedness: a non-negative, capacity-bounded scroll
    /// offset and a size no larger than a terminal can report.
    pub open spec fn viewport_wf(self) -> bool {
        &&& 0 <= self.viewport.pos.row <= CAPACITY_LIMIT
        &&& 0 <= self.viewport.pos.col <= CAPACITY_LIMIT + CURSOR_COLUMN_START_OFFSET + 1
        &&& self.viewport.width <= u16::MAX
        &&& self.viewport.height <= u16::MAX
    }

    /// The editor invariant, maintained by every operation.
    pub open spec fn inv(self) -> bool {
        self.buffer_wf() && self.viewport_wf()
    }

    /// The cursor row is a valid line index.
    pub open spec fn row_in_bounds(self) -> bool {
        0 <= self.cursor.row < self.buffer().len()
    }

    /// The cursor row is a valid line index and the column is non-negative.
    /// Holds even in the middle of a key-event cycle.
    pub open spec fn cursor_row_ok(self) -> bool {
        self.row_in_bounds() && 0 <= self.cursor.col
    }

    /// The cursor is fully in bounds: the column may at most sit just past
    /// the last character of its line. Restored by `clamp_cursor_position`
    /// at the end of each cycle.
    pub open spec fn cursor_ok(self) -> bool {
        self.cursor_row_ok() && self.cursor.col <= self.current_line().len()
    }

    /// Everything but the cursor agrees between `self` and `other`.
    pub open spec fn same_except_cursor(self, other: Editor) -> bool {
        &&& self.lines == other.lines
        &&& self.viewport == other.viewport
        &&& self.ctrl_pressed == other.ctrl_pressed
        &&& self.should_exit == other.should_exit
    }

    /// The viewport, modifier and exit flag agree between `self` and
    /// `other`; the buffer and the cursor may differ.
    pub open spec fn same_viewport_and_flags(self, other: Editor) -> bool {
        &&& self.viewport == other.viewport
        &&& self.ctrl_pressed == other.ctrl_pressed
        &&& self.should_exit == other.should_exit
    }

    /// Everything but the viewport agrees between `self` and `other`.
    pub open spec fn same_except_viewport(self, other: Editor) -> bool {
        &&& self.cursor == other.cursor
        &&& self.lines == other.lines
        &&& self.ctrl_pressed == other.ctrl_pressed
        &&& self.should_exit == other.should_exit
    }

    /// A fresh editor: one empty line, cursor at the origin, empty viewport,
    /// no modifier, not exiting.
    pub fn new() -> (editor: Editor)
        ensures
            editor.inv(),
            editor.cursor_ok(),
            editor.buffer() =~= seq![Seq::<char>::empty()],
            editor.cursor.row == 0 && editor.cursor.col == 0,
            editor.viewport == (Rectangle { pos: Point { row: 0, col: 0 }, width: 0, height: 0 }),
            !editor.ctrl_pressed,
            !editor.should_exit,
    {
        let mut lines: Vec<Vec<char>> = Vec::new();
        lines.push(Vec::new());
        Editor {
            cursor: Point::new(),
            lines,
            viewport: Rectangle::new(),
            ctrl_pressed: false,
            should_exit: false,
        }
    }

    /// The cursor position.
    pub fn cursor(&self) -> (p: &Point)
        ensures
            *p == self.cursor,
    {
        &self.cursor
    }

    /// The buffer lines.
    pub fn lines(&self) -> (l: &Vec<Vec<char>>)
        ensures
            *l == self.lines,
    {
        &self.lines
    }

    /// The viewport.
    pub fn viewport(&self) -> (v: &Rectangle)
        ensures
            *v == self.viewport,
    {
        &self.viewport
    }

    /// Whether the Escape key has requested exit.
    pub fn should_exit(&self) -> (b: bool)
        ensures
            b == self.should_exit,
    {
        self.should_exit
    }

    /// Whether the control modifier was active on the last key event.
    pub fn is_ctrl_pressed(&self) -> (b: bool)
        ensures
            b == self.ctrl_pressed,
    {
        self.ctrl_pressed
    }

    /// Whether the cursor is fully in bounds; true whenever the last cycle
    /// ended with a clamp.
    pub fn is_cursor_in_bounds(&self) -> (b: bool)
        ensures
            b == self.cursor_ok(),
    {
        if self.cursor.row < 0 || self.cursor.col < 0 {
            return false;
        }
        let row = self.cursor.row as usize;
        if row >= self.lines.len() {
            return false;
        }
        self.cursor.col as usize <= self.lines[row].len()
    }

    /// A word character: ASCII alphanumeric or underscore.
    pub fn is_character_word(ch: char) -> (b: bool)
        ensures
            b == is_word_char(ch),
    {
        let u = ch as u32;
        (97 <= u && u <= 122) || (65 <= u && u <= 90) || (48 <= u && u <= 57) || u == 95
    }

    /// The line at `index`, if it exists.
    pub fn get_line_at(&self, index: usize) -> (line: Option<&Vec<char>>)
        ensures
            match line {
                Some(l) => index < self.lines@.len() && l@ == self.buffer()[index as int],
                None => index >= self.lines@.len(),
            },
    {
        if index < self.lines.len() {
            Some(&self.lines[index])
        } else {
            None
        }
    }

    /// The line under the cursor.
    pub fn get_line_at_cursor(&self) -> (line: &Vec<char>)
        requires
            self.row_in_bounds(),
        ensures
            line@ == self.current_line(),
    {
        &self.lines[self.cursor.row as usize]
    }

    /// The character at a buffer position, if both indices are in bounds.
    pub fn get_character_at(&self, row: usize, col: usize) -> (c: Option<char>)
        ensures
            match c {
                Some(ch) => row < self.lines@.len() && col < self.buffer()[row as int].len()
                    && ch == self.buffer()[row as int][col as int],
                None => row >= self.lines@.len() || col >= line_at(self.buffer(), row as int).len(),
            },
    {
        match self.get_line_at(row) {
            Some(line) => {
                if col < line.len() {
                    Some(line[col])
                } else {
                    None
                }
            },
            None => None,
        }
    }

    /// The character at `col` in the line under the cursor, if in bounds.
    pub fn get_character_at_cursor_line(&self, col: usize) -> (c: Option<char>)
        requires
            self.row_in_bounds(),
        ensures
            match c {
                Some(ch) => col < self.current_line().len() && ch == self.current_line()[col as int],
                None => col >= self.current_line().len(),
            },
    {
        let line = self.get_line_at_cursor();
        if col < line.len() {
            Some(line[col])
        } else {
            None
        }
    }

    /// The characters immediately left and right of the cursor, where they
    /// exist.
    pub fn get_characters_at_cursor(&self) -> (pair: (Option<char>, Option<char>))
        requires
            self.cursor_row_ok(),
            self.cursor.col <= CAPACITY_LIMIT,
        ensures
            (match pair.0 {
                Some(ch) => ch == char_at(self.buffer(), self.cursor.row as int, self.cursor.col - 1)
                    && 1 <= self.cursor.col <= self.current_line().len(),
                None => self.cursor.col == 0 || self.cursor.col > self.current_line().len(),
            }),
            (match pair.1 {
                Some(ch) => ch == char_at(self.buffer(), self.cursor.row as int, self.cursor.col as int)
                    && self.cursor.col < self.current_line().len(),
                None => self.cursor.col >= self.current_line().len(),
            }),
    {
        let left = if self.cursor.col <= 0 {
            None
        } else {
            self.get_character_at_cursor_line((self.cursor.col as usize) - 1)
        };
        let right = self.get_character_at_cursor_line(self.cursor.col as usize);
        (left, right)
    }

    /// The number of lines in the buffer.
    pub fn max_rows(&self) -> (n: usize)
        ensures
            n == self.buffer().len(),
    {
        self.lines.len()
    }

    /// The length of the line under the cursor.
    pub fn max_cols(&self) -> (n: usize)
        requires
            self.row_in_bounds(),
        ensures
            n == self.current_line().len(),
    {
        self.lines[self.cursor.row as usize].len()
    }

    /// Single-row step up; false (and no change) at the top row.
    pub fn move_cursor_up(&mut self) -> (moved: bool)
        ensures
            moved == (old(self).cursor.row > 0),
            final(self).cursor.row == if old(self).cursor.row > 0 {
                old(self).cursor.row - 1
            } else {
                old(self).cursor.row as int
            },
            final(self).cursor.col == old(self).cursor.col,
            final(self).same_except_cursor(*old(self)),
    {
        if self.cursor.row <= 0 {
            return false;
        }
        self.cursor.row = self.cursor.row - 1;
        true
    }

    /// Single-row step down; false (and no change) at the last row.
    pub fn move_cursor_down(&mut self) -> (moved: bool)
        requires
            old(self).buffer_wf(),
        ensures
            moved == (old(self).cursor.row < old(self).buffer().len() - 1),
            final(self).cursor.row == if old(self).cursor.row < old(self).buffer().len() - 1 {
                old(self).cursor.row + 1
            } else {
                old(self).cursor.row as int
            },
            final(self).cursor.col == old(self).cursor.col,
            final(self).same_except_cursor(*old(self)),
    {
        if self.cursor.row >= self.max_rows() as isize - 1 {
            return false;
        }
        self.cursor.row = self.cursor.row + 1;
        true
    }

    /// Set the cursor column to the start of the line.
    pub fn move_cursor_to_start_of_line(&mut self)
        ensures
            final(self).cursor.col == 0,
            final(self).cursor.row == old(self).cursor.row,
            final(self).same_except_cursor(*old(self)),
    {
        self.cursor.col = 0;
    }

    /// Set the cursor column one past the last character of the line.
    pub fn move_cursor_to_end_of_line(&mut self)
        requires
            old(self).buffer_wf(),
            old(self).cursor_row_ok(),
        ensures
            final(self).cursor.col == old(self).current_line().len(),
            final(self).cursor.row == old(self).cursor.row,
            final(self).same_except_cursor(*old(self)),
    {
        self.cursor.col = self.max_cols() as isize;
    }

    /// Force the cursor back into the buffer: the row into `[0, rows - 1]`,
    /// then the column into `[0, length of the clamped row's line]`.
    pub fn clamp_cursor_position(&mut self)
        requires
            old(self).buffer_wf(),
        ensures
            final(self).cursor.row == clamped(
                old(self).cursor.row as int,
                0,
                old(self).buffer().len() - 1,
            ),
            final(self).cursor.col == clamped(
                old(self).cursor.col as int,
                0,
                line_at(old(self).buffer(), final(self).cursor.row as int).len() as int,
            ),
            final(self).cursor_ok(),
            final(self).same_except_cursor(*old(self)),
    {
        let rows = self.max_rows();
        if self.cursor.row < 0 {
            self.cursor.row = 0;
        } else if self.cursor.row > rows as isize - 1 {
            self.cursor.row = rows as isize - 1;
        }
        let cols = self.max_cols();
        if self.cursor.col < 0 {
            self.cursor.col = 0;
        } else if self.cursor.col > cols as isize {
            self.cursor.col = cols as isize;
        }
    }

    /// Both, only the left, or only the right of the characters adjacent to
    /// the cursor are word characters, as selected by the two flags.
    fn are_characters_at_cursor_word(&self, left_char: bool, right_char: bool) -> (b: bool)
        requires
            self.buffer_wf(),
            self.cursor_ok(),
        ensures
            b == ((left_char ==> is_word_char(
                char_at(self.buffer(), self.cursor.row as int, self.cursor.col - 1),
            )) && (right_char ==> is_word_char(
                char_at(self.buffer(), self.cursor.row as int, self.cursor.col as int),
            ))),
    {
        let (ch_left, ch_right) = self.get_characters_at_cursor();
        let left_valid = if left_char {
            Self::is_character_word(
                match ch_left {
                    Some(c) => c,
                    None => '\0',
                },
            )
        } else {
            true
        };
        let right_valid = if right_char {
            Self::is_character_word(
                match ch_right {
                    Some(c) => c,
                    None => '\0',
                },
            )
        } else {
            true
        };
        left_valid && right_valid
    }

    /// Both adjacent characters are word characters.
    fn are_both_characters_at_cursor_word(&self) -> (b: bool)
        requires
            self.buffer_wf(),
            self.cursor_ok(),
        ensures
            b == both_adjacent_word(self.buffer(), self.cursor.row as int, self.cursor.col as int),
    {
        self.are_characters_at_cursor_word(true, true)
    }

    /// The character left of the cursor is a word character.
    fn is_left_character_at_cursor_word(&self) -> (b: bool)
        requires
            self.buffer_wf(),
            self.cursor_ok(),
        ensures
            b == is_word_char(char_at(self.buffer(), self.cursor.row as int, self.cursor.col - 1)),
    {
        self.are_characters_at_cursor_word(true, false)
    }

    /// The character right of the cursor is a word character.
    fn is_right_character_at_cursor_word(&self) -> (b: bool)
        requires
            self.buffer_wf(),
            self.cursor_ok(),
        ensures
            b == is_word_char(
                char_at(self.buffer(), self.cursor.row as int, self.cursor.col as int),
            ),
    {
        self.are_characters_at_cursor_word(false, true)
    }

    /// A word-skip repetition goes on: control is held and the selected
    /// adjacent characters are word characters.
    fn should_repeat(&self, left: bool, right: bool) -> (b: bool)
        requires
            self.buffer_wf(),
            self.cursor_ok(),
        ensures
            b == (self.ctrl_pressed && (left ==> is_word_char(
                char_at(self.buffer(), self.cursor.row as int, self.cursor.col - 1),
            )) && (right ==> is_word_char(
                char_at(self.buffer(), self.cursor.row as int, self.cursor.col as int),
            ))),
    {
        self.is_ctrl_pressed() && self.are_characters_at_cursor_word(left, right)
    }

    /// One forward step: right within the line; at the end of a non-last
    /// line, to the start of the next line; at the very end of the buffer,
    /// nothing (false, position unchanged).
    pub fn move_cursor_forward_once(&mut self) -> (moved: bool)
        requires
            old(self).buffer_wf(),
            old(self).cursor_ok(),
        ensures
            final(self).cursor_ok(),
            final(self).same_except_cursor(*old(self)),
            moved == (step_forward(
                old(self).buffer(),
                old(self).cursor.row as int,
                old(self).cursor.col as int,
            ) is Some),
            (match step_forward(
                old(self).buffer(),
                old(self).cursor.row as int,
                old(self).cursor.col as int,
            ) {
                Some(p) => final(self).cursor.row == p.0 && final(self).cursor.col == p.1,
                None => final(self).cursor == old(self).cursor,
            }),
    {
        if self.cursor.col < self.max_cols() as isize {
            self.cursor.col = self.cursor.col + 1;
            return true;
        } else if self.move_cursor_down() {
            self.cursor.col = 0;
            return true;
        }
        false
    }

    /// One backward step: left within the line; at the start of a non-first
    /// line, to the end of the previous line; at the very start of the
    /// buffer, nothing (false, position unchanged).
    pub fn move_cursor_backward_once(&mut self) -> (moved: bool)
        requires
            old(self).buffer_wf(),
            old(self).cursor_row_ok(),
        ensures
            final(self).cursor_row_ok(),
            old(self).cursor_ok() ==> final(self).cursor_ok(),
            final(self).same_except_cursor(*old(self)),
            moved == (step_backward(
                old(self).buffer(),
                old(self).cursor.row as int,
                old(self).cursor.col as int,
            ) is Some),
            (match step_backward(
                old(self).buffer(),
                old(self).cursor.row as int,
                old(self).cursor.col as int,
            ) {
                Some(p) => final(self).cursor.row == p.0 && final(self).cursor.col == p.1,
                None => final(self).cursor == old(self).cursor,
            }),
    {
        if self.cursor.col > 0 {
            self.cursor.col = self.cursor.col - 1;
            return true;
        } else if self.move_cursor_up() {
            self.cursor.col = self.max_cols() as isize;
            return true;
        }
        false
    }

    /// Forward movement with word-skip repetition: one step always; with
    /// control held, further steps while both characters adjacent to the
    /// new position are word characters.
    pub fn move_cursor_forward(&mut self) -> (moved: bool)
        requires
            old(self).buffer_wf(),
            old(self).cursor_ok(),
        ensures
            final(self).cursor_ok(),
            final(self).same_except_cursor(*old(self)),
            moved == (step_forward(
                old(self).buffer(),
                old(self).cursor.row as int,
                old(self).cursor.col as int,
            ) is Some),
            (match step_forward(
                old(self).buffer(),
                old(self).cursor.row as int,
                old(self).cursor.col as int,
            ) {
                Some(p) => if old(self).ctrl_pressed {
                    (final(self).cursor.row as int, final(self).cursor.col as int)
                        == skip_forward_from(old(self).buffer(), p.0, p.1)
                } else {
                    final(self).cursor.row == p.0 && final(self).cursor.col == p.1
                },
                None => final(self).cursor == old(self).cursor,
            }),
    {
        if !self.move_cursor_forward_once() {
            return false;
        }
        let ghost first = (self.cursor.row as int, self.cursor.col as int);
        let ghost target = skip_forward_from(old(self).buffer(), first.0, first.1);
        let mut go = self.should_repeat(true, true);
        while go
            invariant
                self.buffer_wf(),
                self.cursor_ok(),
                self.same_except_cursor(*old(self)),
                !self.ctrl_pressed ==> (self.cursor.row as int, self.cursor.col as int) == first,
                go ==> self.ctrl_pressed && both_adjacent_word(
                    self.buffer(),
                    self.cursor.row as int,
                    self.cursor.col as int,
                ),
                self.ctrl_pressed ==> target == (if go {
                    skip_forward_from(self.buffer(), self.cursor.row as int, self.cursor.col as int)
                } else {
                    (self.cursor.row as int, self.cursor.col as int)
                }),
            decreases self.current_line().len() - self.cursor.col,
        {
            let ghost prev = (self.cursor.row as int, self.cursor.col as int);
            let stepped = self.move_cursor_forward_once();
            go = stepped && self.should_repeat(true, true);
            proof {
                assert(skip_forward_from(self.buffer(), prev.0, prev.1) == skip_forward_from(
                    self.buffer(),
                    self.cursor.row as int,
                    self.cursor.col as int,
                ));
                if !go {
                    assert(skip_forward_from(
                        self.buffer(),
                        self.cursor.row as int,
                        self.cursor.col as int,
                    ) == (self.cursor.row as int, self.cursor.col as int));
                }
            }
        }
        true
    }

    /// Backward movement with word-skip repetition, symmetric to
    /// `move_cursor_forward`.
    pub fn move_cursor_backward(&mut self) -> (moved: bool)
        requires
            old(self).buffer_wf(),
            old(self).cursor_ok(),
        ensures
            final(self).cursor_ok(),
            final(self).same_except_cursor(*old(self)),
            moved == (step_backward(
                old(self).buffer(),
                old(self).cursor.row as int,
                old(self).cursor.col as int,
            ) is Some),
            (match step_backward(
                old(self).buffer(),
                old(self).cursor.row as int,
                old(self).cursor.col as int,
            ) {
                Some(p) => if old(self).ctrl_pressed {
                    (final(self).cursor.row as int, final(self).cursor.col as int)
                        == skip_backward_from(old(self).buffer(), p.0, p.1)
                } else {
                    final(self).cursor.row == p.0 && final(self).cursor.col == p.1
                },
                None => final(self).cursor == old(self).cursor,
            }),
    {
        if !self.move_cursor_backward_once() {
            return false;
        }
        let ghost first = (self.cursor.row as int, self.cursor.col as int);
        let ghost target = skip_backward_from(old(self).buffer(), first.0, first.1);
        let mut go = self.should_repeat(true, true);
        while go
            invariant
                self.buffer_wf(),
                self.cursor_ok(),
                self.same_except_cursor(*old(self)),
                !self.ctrl_pressed ==> (self.cursor.row as int, self.cursor.col as int) == first,
                go ==> self.ctrl_pressed && both_adjacent_word(
                    self.buffer(),
                    self.cursor.row as int,
                    self.cursor.col as int,
                ),
                self.ctrl_pressed ==> target == (if go {
                    skip_backward_from(self.buffer(), self.cursor.row as int, self.cursor.col as int)
                } else {
                    (self.cursor.row as int, self.cursor.col as int)
                }),
            decreases self.cursor.col,
        {
            let ghost prev = (self.cursor.row as int, self.cursor.col as int);
            let stepped = self.move_cursor_backward_once();
            go = stepped && self.should_repeat(true, true);
            proof {
                assert(skip_backward_from(self.buffer(), prev.0, prev.1) == skip_backward_from(
                    self.buffer(),
                    self.cursor.row as int,
                    self.cursor.col as int,
                ));
                if !go {
                    assert(skip_backward_from(
                        self.buffer(),
                        self.cursor.row as int,
                        self.cursor.col as int,
                    ) == (self.cursor.row as int, self.cursor.col as int));
                }
            }
        }
        true
    }

    /// Delete the character immediately before the cursor column in the
    /// line under the cursor. The cursor itself does not move.
    pub fn remove_character_at_cursor(&mut self)
        requires
            old(self).buffer_wf(),
            old(self).row_in_bounds(),
            1 <= old(self).cursor.col <= old(self).current_line().len(),
        ensures
            final(self).buffer_wf(),
            final(self).buffer() == old(self).buffer().update(
                old(self).cursor.row as int,
                old(self).current_line().remove(old(self).cursor.col - 1),
            ),
            final(self).cursor == old(self).cursor,
            final(self).same_viewport_and_flags(*old(self)),
    {
        let cursor_col = self.cursor.col as usize;
        let row = self.cursor.row as usize;
        let line = &mut self.lines[row];
        line.remove(cursor_col - 1);
        proof {
            assert(self.buffer() =~~= old(self).buffer().update(
                old(self).cursor.row as int,
                old(self).current_line().remove(old(self).cursor.col - 1),
            ));
        }
    }

    /// Merge the line below `index` into the line at `index`: the lower
    /// line is removed and its content appended to the upper one. A call
    /// with no line below `index` is a caller bug (a clamp was skipped
    /// somewhere), so the precondition excludes it rather than tolerating
    /// it silently.
    pub fn merge_below_line(&mut self, index: usize)
        requires
            old(self).buffer_wf(),
            index + 1 < old(self).buffer().len(),
            old(self).buffer()[index as int].len() + old(self).buffer()[index + 1].len()
                <= CAPACITY_LIMIT,
        ensures
            final(self).buffer_wf(),
            final(self).buffer() == merge_at(old(self).buffer(), index as int),
            final(self).cursor == old(self).cursor,
            final(self).same_viewport_and_flags(*old(self)),
    {
        let mut line_buffer = self.lines.remove(index + 1);
        let line = &mut self.lines[index];
        line.append(&mut line_buffer);
        proof {
            assert(self.buffer() =~~= merge_at(old(self).buffer(), index as int));
        }
    }

    /// Split the line at `point.row` at column `point.col`: the prefix
    /// keeps its row, the remainder becomes a new line right below it.
    pub fn split_line_down(&mut self, point: &Point)
        requires
            old(self).buffer_wf(),
            old(self).buffer().len() < CAPACITY_LIMIT,
            0 <= point.row < old(self).buffer().len(),
            0 <= point.col <= old(self).buffer()[point.row as int].len(),
        ensures
            final(self).buffer_wf(),
            final(self).buffer() == split_at(
                old(self).buffer(),
                point.row as int,
                point.col as int,
            ),
            final(self).cursor == old(self).cursor,
            final(self).same_viewport_and_flags(*old(self)),
    {
        let row = point.row as usize;
        let col = point.col as usize;
        let line = &mut self.lines[row];
        let split_line = line.split_off(col);
        self.lines.insert(row + 1, split_line);
        proof {
            assert(self.buffer() =~~= split_at(
                old(self).buffer(),
                point.row as int,
                point.col as int,
            ));
        }
    }

    /// The Enter key: split the current line at the cursor and move the
    /// cursor to the start of the new line below.
    pub fn enter(&mut self)
        requires
            old(self).buffer_wf(),
            old(self).cursor_ok(),
            old(self).buffer().len() < CAPACITY_LIMIT,
        ensures
            final(self).buffer_wf(),
            final(self).cursor_ok(),
            final(self).buffer() == split_at(
                old(self).buffer(),
                old(self).cursor.row as int,
                old(self).cursor.col as int,
            ),
            final(self).cursor.row == old(self).cursor.row + 1,
            final(self).cursor.col == 0,
            final(self).same_viewport_and_flags(*old(self)),
    {
        let point = self.cursor;
        self.split_line_down(&point);
        self.move_cursor_down();
        self.move_cursor_to_start_of_line();
    }

    /// Insert a character at the cursor and advance the cursor past it.
    pub fn insert_char(&mut self, ch: char)
        requires
            old(self).buffer_wf(),
            old(self).cursor_ok(),
            old(self).current_line().len() < CAPACITY_LIMIT,
        ensures
            final(self).buffer_wf(),
            final(self).cursor_ok(),
            final(self).buffer() == old(self).buffer().update(
                old(self).cursor.row as int,
                old(self).current_line().insert(old(self).cursor.col as int, ch),
            ),
            final(self).cursor.row == old(self).cursor.row,
            final(self).cursor.col == old(self).cursor.col + 1,
            final(self).same_viewport_and_flags(*old(self)),
    {
        let col_index = self.cursor.col as usize;
        let row = self.cursor.row as usize;
        let line = &mut self.lines[row];
        line.insert(col_index, ch);
        proof {
            assert(self.buffer() =~~= old(self).buffer().update(
                old(self).cursor.row as int,
                old(self).current_line().insert(old(self).cursor.col as int, ch),
            ));
        }
        self.move_cursor_forward_once();
    }

    /// One Backspace: at the start of a non-first line, merge that line
    /// into the one above and leave the cursor at the join; elsewhere
    /// delete the character before the cursor and step back. True exactly
    /// when a single character was deleted.
    pub fn backspace_once(&mut self) -> (deleted: bool)
        requires
            old(self).buffer_wf(),
            old(self).cursor_ok(),
            (old(self).cursor.col == 0 && old(self).cursor.row > 0) ==> line_at(
                old(self).buffer(),
                old(self).cursor.row - 1,
            ).len() + old(self).current_line().len() <= CAPACITY_LIMIT,
        ensures
            final(self).buffer_wf(),
            final(self).cursor_ok(),
            final(self).same_viewport_and_flags(*old(self)),
            deleted == (old(self).cursor.col > 0),
            (old(self).cursor.row == 0 && old(self).cursor.col == 0) ==> final(self).buffer()
                == old(self).buffer() && final(self).cursor == old(self).cursor,
            (old(self).cursor.row > 0 && old(self).cursor.col == 0) ==> ({
                &&& final(self).buffer() == merge_at(old(self).buffer(), old(self).cursor.row - 1)
                &&& final(self).cursor.row == old(self).cursor.row - 1
                &&& final(self).cursor.col == line_at(
                    old(self).buffer(),
                    old(self).cursor.row - 1,
                ).len()
            }),
            old(self).cursor.col > 0 ==> ({
                &&& final(self).buffer() == old(self).buffer().update(
                    old(self).cursor.row as int,
                    old(self).current_line().remove(old(self).cursor.col - 1),
                )
                &&& final(self).cursor.row == old(self).cursor.row
                &&& final(self).cursor.col == old(self).cursor.col - 1
            }),
    {
        if self.cursor.row == 0 && self.cursor.col == 0 {
            return false;
        }
        if self.cursor.col == 0 {
            self.move_cursor_backward_once();
            let index = self.cursor.row as usize;
            self.merge_below_line(index);
            return false;
        }
        self.remove_character_at_cursor();
        self.move_cursor_backward_once();
        true
    }

    /// Backspace with word-delete repetition: one `backspace_once` always;
    /// with control held and a character deleted, keep deleting while the
    /// character now left of the cursor is a word character.
    pub fn backspace(&mut self) -> (deleted: bool)
        requires
            old(self).buffer_wf(),
            old(self).cursor_ok(),
            (old(self).cursor.col == 0 && old(self).cursor.row > 0) ==> line_at(
                old(self).buffer(),
                old(self).cursor.row - 1,
            ).len() + old(self).current_line().len() <= CAPACITY_LIMIT,
        ensures
            final(self).buffer_wf(),
            final(self).cursor_ok(),
            final(self).same_viewport_and_flags(*old(self)),
            deleted == (old(self).cursor.col > 0),
            (old(self).cursor.row == 0 && old(self).cursor.col == 0) ==> final(self).buffer()
                == old(self).buffer() && final(self).cursor == old(self).cursor,
            (old(self).cursor.row > 0 && old(self).cursor.col == 0) ==> ({
                &&& final(self).buffer() == merge_at(old(self).buffer(), old(self).cursor.row - 1)
                &&& final(self).cursor.row == old(self).cursor.row - 1
                &&& final(self).cursor.col == line_at(
                    old(self).buffer(),
                    old(self).cursor.row - 1,
                ).len()
            }),
            (old(self).cursor.col > 0 && !old(self).ctrl_pressed) ==> ({
                &&& final(self).buffer() == old(self).buffer().update(
                    old(self).cursor.row as int,
                    old(self).current_line().remove(old(self).cursor.col - 1),
                )
                &&& final(self).cursor.row == old(self).cursor.row
                &&& final(self).cursor.col == old(self).cursor.col - 1
            }),
            (old(self).cursor.col > 0 && old(self).ctrl_pressed) ==> ({
                let deleted_state = word_delete(
                    old(self).current_line(),
                    old(self).cursor.col as int,
                );
                &&& final(self).buffer() == old(self).buffer().update(
                    old(self).cursor.row as int,
                    deleted_state.0,
                )
                &&& final(self).cursor.row == old(self).cursor.row
                &&& final(self).cursor.col == deleted_state.1
            }),
    {
        let deleted = self.backspace_once();
        if !deleted {
            return false;
        }
        let ghost target = word_delete(old(self).current_line(), old(self).cursor.col as int);
        let mut go = self.should_repeat(true, false);
        proof {
            assert(self.buffer() =~~= old(self).buffer().update(
                old(self).cursor.row as int,
                self.current_line(),
            ));
            if self.ctrl_pressed {
                if go {
                    assert(target == word_delete(self.current_line(), self.cursor.col as int));
                } else {
                    assert(target == (self.current_line(), self.cursor.col as int));
                }
            }
        }
        while go
            invariant
                old(self).buffer_wf(),
                old(self).cursor_ok(),
                old(self).cursor.col > 0,
                self.buffer_wf(),
                self.cursor_ok(),
                self.same_viewport_and_flags(*old(self)),
                self.cursor.row == old(self).cursor.row,
                self.buffer() == old(self).buffer().update(
                    old(self).cursor.row as int,
                    self.current_line(),
                ),
                go ==> self.ctrl_pressed && 1 <= self.cursor.col && is_word_char(
                    char_at(self.buffer(), self.cursor.row as int, self.cursor.col - 1),
                ),
                !self.ctrl_pressed ==> self.cursor.col == old(self).cursor.col - 1
                    && self.current_line() == old(self).current_line().remove(
                    old(self).cursor.col - 1,
                ),
                self.ctrl_pressed ==> target == (if go {
                    word_delete(self.current_line(), self.cursor.col as int)
                } else {
                    (self.current_line(), self.cursor.col as int)
                }),
            decreases self.cursor.col,
        {
            let ghost prev_line = self.current_line();
            let ghost prev_col = self.cursor.col as int;
            let ghost prev_buf = self.buffer();
            let stepped = self.backspace_once();
            go = stepped && self.should_repeat(true, false);
            proof {
                assert(self.cursor.row == old(self).cursor.row);
                assert(self.buffer() == prev_buf.update(
                    old(self).cursor.row as int,
                    prev_line.remove(prev_col - 1),
                ));
                assert(prev_buf == old(self).buffer().update(
                    old(self).cursor.row as int,
                    prev_line,
                ));
                assert(self.current_line() == prev_line.remove(prev_col - 1));
                let r = old(self).cursor.row as int;
                let goal = old(self).buffer().update(r, self.current_line());
                assert(self.buffer().len() == goal.len());
                assert forall|i: int| 0 <= i < self.buffer().len() implies self.buffer()[i]
                    == goal[i] by {
                    if i != r {
                        assert(self.buffer()[i] == prev_buf[i]);
                        assert(prev_buf[i] == old(self).buffer()[i]);
                    }
                }
                assert(self.buffer() =~~= goal);
                if go {
                    assert(word_delete(prev_line, prev_col) == word_delete(
                        self.current_line(),
                        self.cursor.col as int,
                    ));
                } else {
                    assert(word_delete(prev_line, prev_col) == (
                        self.current_line(),
                        self.cursor.col as int,
                    ));
                }
            }
        }
        true
    }

    /// The terminal cannot hold the gutter plus a few text cells, or the
    /// margin band plus one row.
    pub fn is_terminal_size_too_small(terminal_width: u16, terminal_height: u16) -> (b: bool)
        ensures
            b == terminal_too_small(terminal_width as int, terminal_height as int),
    {
        terminal_width < MINIMUM_TERMINAL_WIDTH || terminal_height < MINIMUM_TERMINAL_HEIGHT
    }

    /// The cursor position in screen coordinates: the buffer position
    /// minus the scroll offset, shifted right past the gutter.
    pub fn get_viewport_cursor_position(&self) -> (p: Point)
        requires
            self.inv(),
            self.cursor_ok(),
        ensures
            p.row == self.cursor.row - self.viewport.pos.row,
            p.col == self.cursor.col - self.viewport.pos.col + CURSOR_COLUMN_START_OFFSET,
    {
        Point::from(
            self.cursor.row - self.viewport.pos.row,
            self.cursor.col - self.viewport.pos.col + CURSOR_COLUMN_START_OFFSET as isize,
        )
    }

    /// Scroll one row up; false (and no change) at the top.
    pub fn move_viewport_to_up(&mut self) -> (moved: bool)
        ensures
            moved == (old(self).viewport.pos.row >= 1),
            final(self).viewport.pos.row == if old(self).viewport.pos.row >= 1 {
                old(self).viewport.pos.row - 1
            } else {
                old(self).viewport.pos.row as int
            },
            final(self).viewport.pos.col == old(self).viewport.pos.col,
            final(self).viewport.width == old(self).viewport.width,
            final(self).viewport.height == old(self).viewport.height,
            final(self).same_except_viewport(*old(self)),
    {
        if self.viewport.pos.row < 1 {
            return false;
        }
        self.viewport.pos.row = self.viewport.pos.row - 1;
        true
    }

    /// Scroll one row down; false (and no change) once the offset has
    /// reached the line count.
    pub fn move_viewport_to_down(&mut self) -> (moved: bool)
        requires
            old(self).buffer_wf(),
        ensures
            moved == (old(self).viewport.pos.row < old(self).buffer().len()),
            final(self).viewport.pos.row == if old(self).viewport.pos.row
                < old(self).buffer().len() {
                old(self).viewport.pos.row + 1
            } else {
                old(self).viewport.pos.row as int
            },
            final(self).viewport.pos.col == old(self).viewport.pos.col,
            final(self).viewport.width == old(self).viewport.width,
            final(self).viewport.height == old(self).viewport.height,
            final(self).same_except_viewport(*old(self)),
    {
        if self.viewport.pos.row >= self.max_rows() as isize {
            return false;
        }
        self.viewport.pos.row = self.viewport.pos.row + 1;
        true
    }

    /// Scroll one column left; false (and no change) at column zero.
    pub fn move_viewport_to_left(&mut self) -> (moved: bool)
        ensures
            moved == (old(self).viewport.pos.col >= 1),
            final(self).viewport.pos.col == if old(self).viewport.pos.col >= 1 {
                old(self).viewport.pos.col - 1
            } else {
                old(self).viewport.pos.col as int
            },
            final(self).viewport.pos.row == old(self).viewport.pos.row,
            final(self).viewport.width == old(self).viewport.width,
            final(self).viewport.height == old(self).viewport.height,
            final(self).same_except_viewport(*old(self)),
    {
        if self.viewport.pos.col < 1 {
            return false;
        }
        self.viewport.pos.col = self.viewport.pos.col - 1;
        true
    }

    /// Scroll one column right; false (and no change) once the visible
    /// range would pass one cell beyond the current line's end.
    pub fn move_viewport_to_right(&mut self) -> (moved: bool)
        requires
            old(self).inv(),
            old(self).row_in_bounds(),
        ensures
            moved == (old(self).viewport.pos.col + old(self).viewport.width
                < old(self).current_line().len() + CURSOR_COLUMN_START_OFFSET + 1),
            final(self).viewport.pos.col == if old(self).viewport.pos.col
                + old(self).viewport.width < old(self).current_line().len()
                + CURSOR_COLUMN_START_OFFSET + 1 {
                old(self).viewport.pos.col + 1
            } else {
                old(self).viewport.pos.col as int
            },
            final(self).viewport.pos.row == old(self).viewport.pos.row,
            final(self).viewport.width == old(self).viewport.width,
            final(self).viewport.height == old(self).viewport.height,
            final(self).same_except_viewport(*old(self)),
            final(self).viewport_wf(),
    {
        if self.viewport.pos.col + self.viewport.width as isize
            >= self.max_cols() as isize + CURSOR_COLUMN_START_OFFSET as isize + 1 {
            return false;
        }
        self.viewport.pos.col = self.viewport.pos.col + 1;
        true
    }

    /// No further scrolling is called for: on each axis, the cursor's
    /// screen position lies inside the margin band, or the scroll that the
    /// axis asks for is blocked at a buffer boundary.
    pub open spec fn scroll_settled(self) -> bool {
        let screen_row = self.cursor.row as int - self.viewport.pos.row as int;
        let screen_col = self.cursor.col as int - self.viewport.pos.col as int
            + CURSOR_COLUMN_START_OFFSET as int;
        let margin = VIEWPORT_BOUND_MARGIN as int;
        &&& screen_row < self.viewport.height as int - margin || self.viewport.pos.row as int
            >= self.buffer().len()
        &&& screen_row >= margin || self.viewport.pos.row < 1
        &&& screen_col <= self.viewport.width as int - margin || self.viewport.pos.col as int
            + self.viewport.width as int >= self.current_line().len()
            + CURSOR_COLUMN_START_OFFSET as int + 1
        &&& screen_col >= margin + CURSOR_COLUMN_START_OFFSET as int || self.viewport.pos.col < 1
    }

    /// How many vertical scroll steps the re-scroll loop still owes: the
    /// distance from the cursor's screen row back into the margin band,
    /// cut off at the buffer boundary that would block the scroll.
    pub open spec fn row_scroll_debt(self) -> int {
        let screen_row = self.cursor.row as int - self.viewport.pos.row as int;
        let margin = VIEWPORT_BOUND_MARGIN as int;
        let height = self.viewport.height as int;
        if screen_row >= height - margin {
            let wanted = screen_row - (height - margin - 1);
            let available = self.buffer().len() - self.viewport.pos.row as int;
            if available < 0 {
                0
            } else if wanted < available {
                wanted
            } else {
                available
            }
        } else if screen_row < margin {
            let wanted = margin - screen_row;
            let available = self.viewport.pos.row as int;
            if available < 0 {
                0
            } else if wanted < available {
                wanted
            } else {
                available
            }
        } else {
            0
        }
    }

    /// How many horizontal scroll steps the re-scroll loop still owes,
    /// symmetric to `row_scroll_debt`.
    pub open spec fn col_scroll_debt(self) -> int {
        let screen_col = self.cursor.col as int - self.viewport.pos.col as int
            + CURSOR_COLUMN_START_OFFSET as int;
        let margin = VIEWPORT_BOUND_MARGIN as int;
        let width = self.viewport.width as int;
        if screen_col > width - margin {
            let wanted = screen_col - (width - margin);
            let available = self.current_line().len() + CURSOR_COLUMN_START_OFFSET as int + 1
                - width - self.viewport.pos.col as int;
            if available < 0 {
                0
            } else if wanted < available {
                wanted
            } else {
                available
            }
        } else if screen_col < margin + CURSOR_COLUMN_START_OFFSET as int {
            let wanted = margin + CURSOR_COLUMN_START_OFFSET as int - screen_col;
            let available = self.viewport.pos.col as int;
            if available < 0 {
                0
            } else if wanted < available {
                wanted
            } else {
                available
            }
        } else {
            0
        }
    }

    /// Some axis asks for a scroll that a buffer boundary does not block.
    fn scroll_is_needed(&self) -> (b: bool)
        requires
            self.inv(),
            self.cursor_ok(),
        ensures
            b == !self.scroll_settled(),
    {
        let screen = self.get_viewport_cursor_position();
        let margin = VIEWPORT_BOUND_MARGIN as isize;
        let column_offset = CURSOR_COLUMN_START_OFFSET as isize;
        let down = screen.row >= self.viewport.height as isize - margin && self.viewport.pos.row
            < self.max_rows() as isize;
        let up = screen.row < margin && self.viewport.pos.row >= 1;
        let right = screen.col > self.viewport.width as isize - margin && self.viewport.pos.col
            + (self.viewport.width as isize) < self.max_cols() as isize + column_offset + 1;
        let left = screen.col < margin + column_offset && self.viewport.pos.col >= 1;
        down || up || right || left
    }

    /// Re-scroll, one step at a time and re-evaluating after each, until
    /// the cursor's screen position lies inside the margin band on both
    /// axes or the scrolls that would bring it there are blocked at a
    /// buffer boundary. The remaining scroll debt bounds the loop, so it
    /// terminates on every input.
    pub fn update_viewport_position(&mut self)
        requires
            old(self).inv(),
            old(self).cursor_ok(),
            old(self).viewport.width >= MINIMUM_TERMINAL_WIDTH,
            old(self).viewport.height >= MINIMUM_TERMINAL_HEIGHT,
        ensures
            final(self).inv(),
            final(self).cursor_ok(),
            final(self).scroll_settled(),
            final(self).same_except_viewport(*old(self)),
            final(self).viewport.width == old(self).viewport.width,
            final(self).viewport.height == old(self).viewport.height,
    {
        while self.scroll_is_needed()
            invariant
                self.inv(),
                self.cursor_ok(),
                self.same_except_viewport(*old(self)),
                self.viewport.width == old(self).viewport.width,
                self.viewport.height == old(self).viewport.height,
                self.viewport.width >= MINIMUM_TERMINAL_WIDTH,
                self.viewport.height >= MINIMUM_TERMINAL_HEIGHT,
            decreases self.row_scroll_debt() + self.col_scroll_debt(),
        {
            let ghost pre = *self;
            let screen = self.get_viewport_cursor_position();
            let margin = VIEWPORT_BOUND_MARGIN as isize;
            let column_offset = CURSOR_COLUMN_START_OFFSET as isize;
            if screen.row >= self.viewport.height as isize - margin {
                self.move_viewport_to_down();
            } else if screen.row < margin {
                self.move_viewport_to_up();
            }
            if screen.col > self.viewport.width as isize - margin {
                self.move_viewport_to_right();
            } else if screen.col < margin + column_offset {
                self.move_viewport_to_left();
            }
            proof {
                assert(self.row_scroll_debt() <= pre.row_scroll_debt());
                assert(self.col_scroll_debt() <= pre.col_scroll_debt());
                assert(self.row_scroll_debt() < pre.row_scroll_debt() || self.col_scroll_debt()
                    < pre.col_scroll_debt());
            }
        }
    }

    /// Adopt the terminal dimensions as the viewport size.
    pub fn update_viewport_size(&mut self, terminal_width: u16, terminal_height: u16)
        ensures
            final(self).viewport.width == terminal_width,
            final(self).viewport.height == terminal_height,
            final(self).viewport.pos == old(self).viewport.pos,
            final(self).same_except_viewport(*old(self)),
    {
        self.viewport.width = terminal_width as usize;
        self.viewport.height = terminal_height as usize;
    }

    /// One per-cycle refresh: with a workable terminal, clamp the cursor,
    /// adopt the terminal size as the viewport size and re-scroll until the
    /// cursor sits inside the margin band or a buffer boundary blocks the
    /// scroll; with a too-small terminal, change nothing.
    pub fn update(&mut self, terminal_width: u16, terminal_height: u16)
        requires
            old(self).inv(),
        ensures
            final(self).inv(),
            terminal_too_small(terminal_width as int, terminal_height as int) ==> *final(self)
                == *old(self),
            !terminal_too_small(terminal_width as int, terminal_height as int) ==> ({
                &&& final(self).cursor.row == clamped(
                    old(self).cursor.row as int,
                    0,
                    old(self).buffer().len() - 1,
                )
                &&& final(self).cursor.col == clamped(
                    old(self).cursor.col as int,
                    0,
                    line_at(old(self).buffer(), final(self).cursor.row as int).len() as int,
                )
                &&& final(self).cursor_ok()
                &&& final(self).scroll_settled()
                &&& final(self).lines == old(self).lines
                &&& final(self).ctrl_pressed == old(self).ctrl_pressed
                &&& final(self).should_exit == old(self).should_exit
                &&& final(self).viewport.width == terminal_width
                &&& final(self).viewport.height == terminal_height
            }),
    {
        if Self::is_terminal_size_too_small(terminal_width, terminal_height) {
            return;
        }
        self.clamp_cursor_position();
        self.update_viewport_size(terminal_width, terminal_height);
        self.update_viewport_position();
    }

    /// The machine-capacity side conditions under which a key can be
    /// applied; met by every buffer a terminal could realistically hold.
    pub open spec fn key_capacity_ok(self, key: KeyEvent) -> bool {
        match key.code {
            KeyCode::Enter => self.buffer().len() < CAPACITY_LIMIT,
            KeyCode::Backspace => (self.cursor.col == 0 && self.cursor.row > 0) ==> line_at(
                self.buffer(),
                self.cursor.row - 1,
            ).len() + self.current_line().len() <= CAPACITY_LIMIT,
            KeyCode::Char(ch) => if ch == 'h' && key.ctrl {
                (self.cursor.col == 0 && self.cursor.row > 0) ==> line_at(
                    self.buffer(),
                    self.cursor.row - 1,
                ).len() + self.current_line().len() <= CAPACITY_LIMIT
            } else {
                self.current_line().len() < CAPACITY_LIMIT
            },
            _ => true,
        }
    }

    /// Runtime check of `key_capacity_ok`, for callers outside verified
    /// code.
    pub fn fits_key(&self, key: KeyEvent) -> (b: bool)
        requires
            self.inv(),
            self.cursor_ok(),
        ensures
            b == self.key_capacity_ok(key),
    {
        match key.code {
            KeyCode::Enter => self.lines.len() < CAPACITY_LIMIT,
            KeyCode::Backspace => self.merge_would_fit(),
            KeyCode::Char(ch) => {
                if ch == 'h' && key.ctrl {
                    self.merge_would_fit()
                } else {
                    self.max_cols() < CAPACITY_LIMIT
                }
            },
            _ => true,
        }
    }

    /// A Backspace merge at the current cursor would stay under the
    /// capacity bound (vacuously true when no merge is due).
    fn merge_would_fit(&self) -> (b: bool)
        requires
            self.inv(),
            self.cursor_ok(),
        ensures
            b == ((self.cursor.col == 0 && self.cursor.row > 0) ==> line_at(
                self.buffer(),
                self.cursor.row - 1,
            ).len() + self.current_line().len() <= CAPACITY_LIMIT),
    {
        if self.cursor.col == 0 && self.cursor.row > 0 {
            let above = self.lines[(self.cursor.row - 1) as usize].len();
            let here = self.lines[self.cursor.row as usize].len();
            above <= CAPACITY_LIMIT - here
        } else {
            true
        }
    }

    /// Route one key event: with a too-small terminal, ignore it entirely;
    /// otherwise record the modifier state and dispatch to the cursor and
    /// buffer operations.
    pub fn process_key_event(&mut self, key: KeyEvent, terminal_width: u16, terminal_height: u16)
        requires
            old(self).inv(),
            old(self).cursor_ok(),
            !terminal_too_small(terminal_width as int, terminal_height as int) ==> old(self).key_capacity_ok(key),
        ensures
            final(self).inv(),
            final(self).cursor_row_ok(),
            final(self).viewport == old(self).viewport,
            terminal_too_small(terminal_width as int, terminal_height as int) ==> *final(self)
                == *old(self),
            !terminal_too_small(terminal_width as int, terminal_height as int) ==> ({
                &&& final(self).ctrl_pressed == key.ctrl
                &&& final(self).should_exit == (old(self).should_exit || key.code is Esc)
                &&& (key.code is Esc ==> final(self).cursor == old(self).cursor && final(self).lines == old(self).lines)
                &&& (key.code is Up ==> final(self).lines == old(self).lines && final(self).cursor.col == old(self).cursor.col && final(self).cursor.row == (
                if old(self).cursor.row > 0 {
                    old(self).cursor.row - 1
                } else {
                    old(self).cursor.row as int
                }))
                &&& (key.code is Down ==> final(self).lines == old(self).lines && final(self).cursor.col == old(self).cursor.col && final(self).cursor.row == (
                if old(self).cursor.row < old(self).buffer().len() - 1 {
                    old(self).cursor.row + 1
                } else {
                    old(self).cursor.row as int
                }))
                &&& (key.code is Right ==> final(self).lines == old(self).lines && final(self).cursor_ok() && (match step_forward(
                    old(self).buffer(),
                    old(self).cursor.row as int,
                    old(self).cursor.col as int,
                ) {
                    Some(p) => if key.ctrl {
                        (final(self).cursor.row as int, final(self).cursor.col as int)
                            == skip_forward_from(old(self).buffer(), p.0, p.1)
                    } else {
                        final(self).cursor.row == p.0 && final(self).cursor.col == p.1
                    },
                    None => final(self).cursor == old(self).cursor,
                }))
                &&& (key.code is Left ==> final(self).lines == old(self).lines && final(self).cursor_ok() && (match step_backward(
                    old(self).buffer(),
                    old(self).cursor.row as int,
                    old(self).cursor.col as int,
                ) {
                    Some(p) => if key.ctrl {
                        (final(self).cursor.row as int, final(self).cursor.col as int)
                            == skip_backward_from(old(self).buffer(), p.0, p.1)
                    } else {
                        final(self).cursor.row == p.0 && final(self).cursor.col == p.1
                    },
                    None => final(self).cursor == old(self).cursor,
                }))
                &&& (key.code is Enter ==> final(self).buffer() == split_at(
                    old(self).buffer(),
                    old(self).cursor.row as int,
                    old(self).cursor.col as int,
                ) && final(self).cursor.row == old(self).cursor.row + 1 && final(self).cursor.col
                    == 0)
                &&& (key.code is Backspace ==> final(self).cursor_ok() && ({
                    &&& ((old(self).cursor.row == 0 && old(self).cursor.col == 0) ==> final(self).buffer() == old(self).buffer() && final(self).cursor == old(self).cursor)
                    &&& ((old(self).cursor.row > 0 && old(self).cursor.col == 0) ==> final(self).buffer() == merge_at(old(self).buffer(), old(self).cursor.row - 1) && final(self).cursor.row == old(self).cursor.row - 1 && final(self).cursor.col == line_at(
                        old(self).buffer(),
                        old(self).cursor.row - 1,
                    ).len())
                    &&& (old(self).cursor.col > 0 ==> final(self).buffer() == old(self).buffer().update(
                        old(self).cursor.row as int,
                        old(self).current_line().remove(old(self).cursor.col - 1),
                    ) && final(self).cursor.row == old(self).cursor.row && final(self).cursor.col
                        == old(self).cursor.col - 1)
                }))
                &&& (key.code matches KeyCode::Char(ch) ==> (if ch == 'h' && key.ctrl {
                    final(self).cursor_ok() && ({
                        &&& ((old(self).cursor.row == 0 && old(self).cursor.col == 0) ==> final(self).buffer() == old(self).buffer() && final(self).cursor == old(self).cursor)
                        &&& ((old(self).cursor.row > 0 && old(self).cursor.col == 0) ==> final(self).buffer() == merge_at(old(self).buffer(), old(self).cursor.row - 1)
                            && final(self).cursor.row == old(self).cursor.row - 1 && final(self).cursor.col == line_at(old(self).buffer(), old(self).cursor.row - 1).len())
                        &&& (old(self).cursor.col > 0 ==> ({
                            let deleted_state = word_delete(
                                old(self).current_line(),
                                old(self).cursor.col as int,
                            );
                            &&& final(self).buffer() == old(self).buffer().update(
                                old(self).cursor.row as int,
                                deleted_state.0,
                            )
                            &&& final(self).cursor.row == old(self).cursor.row
                            &&& final(self).cursor.col == deleted_state.1
                        }))
                    })
                } else {
                    final(self).cursor_ok() && final(self).buffer() == old(self).buffer().update(
                        old(self).cursor.row as int,
                        old(self).current_line().insert(old(self).cursor.col as int, ch),
                    ) && final(self).cursor.row == old(self).cursor.row && final(self).cursor.col
                        == old(self).cursor.col + 1
                }))
            }),
    {
        if Self::is_terminal_size_too_small(terminal_width, terminal_height) {
            return;
        }
        self.ctrl_pressed = key.ctrl;
        match key.code {
            KeyCode::Left => {
                self.move_cursor_backward();
            },
            KeyCode::Up => {
                self.move_cursor_up();
            },
            KeyCode::Right => {
                self.move_cursor_forward();
            },
            KeyCode::Down => {
                self.move_cursor_down();
            },
            KeyCode::Enter => self.enter(),
            KeyCode::Backspace => {
                self.backspace_once();
            },
            KeyCode::Char(ch) => {
                if ch == 'h' && self.is_ctrl_pressed() {
                    self.backspace();
                } else {
                    self.insert_char(ch);
                }
            },
            KeyCode::Esc => self.should_exit = true,
        }
    }

    /// Replace the whole buffer with the given text, split on newline
    /// characters; the cursor and the scroll offset return to the origin.
    pub fn load(&mut self, text: &Vec<char>)
        requires
            old(self).inv(),
            text@.len() < CAPACITY_LIMIT,
        ensures
            final(self).inv(),
            final(self).cursor_ok(),
            final(self).buffer() == split_text(text@),
            final(self).cursor.row == 0 && final(self).cursor.col == 0,
            final(self).viewport.pos.row == 0 && final(self).viewport.pos.col == 0,
            final(self).viewport.width == old(self).viewport.width,
            final(self).viewport.height == old(self).viewport.height,
            final(self).ctrl_pressed == old(self).ctrl_pressed,
            final(self).should_exit == old(self).should_exit,
    {
        self.lines = split_into_lines(text);
        self.cursor = Point::new();
        self.viewport.pos = Point::new();
        proof {
            lemma_split_text_bounds(text@);
            assert(self.buffer() =~~= split_text(text@));
        }
    }
}

} // verus!
