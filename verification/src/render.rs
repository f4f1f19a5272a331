//! Projecting the visible window of the buffer into draw instructions: one
//! text per terminal row, each a right-aligned line number, a separator,
//! and the visible slice of the line. With a too-small terminal the single
//! instruction is a fixed fallback message.

use vstd::prelude::*;

use crate::editor::Editor;
use crate::model::{
    line_at, terminal_too_small, CURSOR_COLUMN_START_OFFSET, LINE_NUMBER_AREA_LENGTH_IN_CELLS,
    LINE_NUMBER_EXTRA_SPACES,
};
use crate::text::str_to_chars;

verus! {

/// The decimal digit `d` as a character.
pub open spec fn digit_char(d: int) -> char {
    if d == 0 {
        '0'
    } else if d == 1 {
        '1'
    } else if d == 2 {
        '2'
    } else if d == 3 {
        '3'
    } else if d == 4 {
        '4'
    } else if d == 5 {
        '5'
    } else if d == 6 {
        '6'
    } else if d == 7 {
        '7'
    } else if d == 8 {
        '8'
    } else {
        '9'
    }
}

/// The decimal digits of `n`, most significant first.
pub open spec fn dec_digits(n: int) -> Seq<char>
    decreases n,
        when n >= 0
{
    if n < 10 {
        seq![digit_char(n)]
    } else {
        dec_digits(n / 10).push(digit_char(n % 10))
    }
}

/// `n` blank cells.
pub open spec fn blank_cells(n: int) -> Seq<char> {
    if n <= 0 {
        Seq::empty()
    } else {
        Seq::new(n as nat, |i: int| ' ')
    }
}

/// `s` padded on the left with blanks up to `width` cells; longer values
/// keep their full length.
pub open spec fn pad_left(s: Seq<char>, width: int) -> Seq<char> {
    if s.len() >= width {
        s
    } else {
        blank_cells(width - s.len()) + s
    }
}

/// The gutter text for the line at `index`: its one-based number right
/// aligned in the number area, then the separator blanks.
pub open spec fn line_number_text(index: int) -> Seq<char> {
    pad_left(dec_digits(index + 1), LINE_NUMBER_AREA_LENGTH_IN_CELLS as int) + blank_cells(
        LINE_NUMBER_EXTRA_SPACES as int,
    )
}

/// The part of a line visible between columns `start` and `end`: empty
/// when the line starts beyond `start`, else cut off at the line's end.
pub open spec fn visible_segment(line: Seq<char>, start: int, end: int) -> Seq<char> {
    if 0 <= start < line.len() {
        line.subrange(start, if end > line.len() { line.len() as int } else { end })
    } else {
        Seq::empty()
    }
}

/// One rendered buffer row: gutter text plus visible segment.
pub open spec fn formatted_line(lines: Seq<Seq<char>>, index: int, start: int, end: int) -> Seq<
    char,
> {
    line_number_text(index) + visible_segment(line_at(lines, index), start, end)
}

/// The fallback text shown whenever the terminal is too small.
pub open spec fn too_small_message() -> Seq<char> {
    "Terminal too small!!"@
}

/// A draw instruction: place `text` on screen row `row`, starting at the
/// left edge.
pub struct RenderLine {
    pub row: u16,
    pub text: Vec<char>,
}

/// The decimal digit `d` as a character.
fn digit_to_char(d: usize) -> (c: char)
    requires
        d < 10,
    ensures
        c == digit_char(d as int),
{
    match d {
        0 => '0',
        1 => '1',
        2 => '2',
        3 => '3',
        4 => '4',
        5 => '5',
        6 => '6',
        7 => '7',
        8 => '8',
        _ => '9',
    }
}

/// The decimal digits of `n`, most significant first.
pub fn format_number(n: usize) -> (digits: Vec<char>)
    ensures
        digits@ == dec_digits(n as int),
    decreases n,
{
    let ch = digit_to_char(n % 10);
    if n < 10 {
        let mut digits: Vec<char> = Vec::new();
        digits.push(ch);
        proof {
            assert(digits@ =~= dec_digits(n as int));
        }
        digits
    } else {
        let mut digits = format_number(n / 10);
        digits.push(ch);
        digits
    }
}

/// `n` blank cells.
fn blank(n: usize) -> (cells: Vec<char>)
    ensures
        cells@ == blank_cells(n as int),
{
    let mut cells: Vec<char> = Vec::new();
    let mut i: usize = 0;
    while i < n
        invariant
            i <= n,
            cells@ == blank_cells(i as int),
        decreases n - i,
    {
        cells.push(' ');
        i = i + 1;
        proof {
            assert(cells@ =~= blank_cells(i as int));
        }
    }
    cells
}

impl Editor {
    /// The line at `index` as the renderer shows it: right-aligned number,
    /// separator, and the slice visible between columns `start` and `end`.
    pub fn format_line(&self, index: usize, start: usize, end: usize) -> (text: Vec<char>)
        requires
            self.inv(),
            index < self.buffer().len(),
            start <= end,
        ensures
            text@ == formatted_line(self.buffer(), index as int, start as int, end as int),
    {
        let digits = format_number(index + 1);
        let mut text: Vec<char> = Vec::new();
        if digits.len() < LINE_NUMBER_AREA_LENGTH_IN_CELLS as usize {
            let mut padding = blank(LINE_NUMBER_AREA_LENGTH_IN_CELLS as usize - digits.len());
            text.append(&mut padding);
        }
        let mut digits = digits;
        text.append(&mut digits);
        let mut separator = blank(LINE_NUMBER_EXTRA_SPACES as usize);
        text.append(&mut separator);
        proof {
            assert(text@ =~= line_number_text(index as int));
        }
        let line = &self.lines[index];
        if start < line.len() {
            let stop = if end > line.len() {
                line.len()
            } else {
                end
            };
            let mut k = start;
            while k < stop
                invariant
                    start <= k <= stop <= line@.len(),
                    line@ == self.buffer()[index as int],
                    index < self.buffer().len(),
                    text@ == line_number_text(index as int) + line@.subrange(
                        start as int,
                        k as int,
                    ),
                decreases stop - k,
            {
                text.push(line[k]);
                k = k + 1;
                proof {
                    assert(text@ =~= line_number_text(index as int) + line@.subrange(
                        start as int,
                        k as int,
                    ));
                }
            }
        }
        proof {
            assert(text@ =~= formatted_line(
                self.buffer(),
                index as int,
                start as int,
                end as int,
            ));
        }
        text
    }

    /// The draw instructions for the buffer rows visible in the viewport,
    /// one per terminal row from the top, stopping at the end of the
    /// buffer.
    pub fn get_formatted_lines(&self, terminal_width: u16, terminal_height: u16) -> (out: Vec<
        RenderLine,
    >)
        requires
            self.inv(),
            !terminal_too_small(terminal_width as int, terminal_height as int),
        ensures
            out@.len() == (if self.viewport.pos.row >= self.buffer().len() {
                0int
            } else if self.buffer().len() - self.viewport.pos.row < terminal_height as int {
                self.buffer().len() - self.viewport.pos.row
            } else {
                terminal_height as int
            }),
            forall|i: int|
                0 <= i < out@.len() ==> (#[trigger] out@[i]).row == i && out@[i].text@
                    == formatted_line(
                    self.buffer(),
                    self.viewport.pos.row + i,
                    self.viewport.pos.col as int,
                    self.viewport.pos.col + terminal_width as int
                        - CURSOR_COLUMN_START_OFFSET as int,
                ),
    {
        let start = self.viewport.pos.col as usize;
        let end = start + (terminal_width as usize - CURSOR_COLUMN_START_OFFSET as usize);
        let viewport_row = self.viewport.pos.row as usize;
        let total = self.lines.len();
        let remaining = if viewport_row >= total {
            0
        } else {
            total - viewport_row
        };
        let height = terminal_height as usize;
        let count = if remaining < height {
            remaining
        } else {
            height
        };
        let mut out: Vec<RenderLine> = Vec::new();
        let mut terminal_row: usize = 0;
        while terminal_row < count
            invariant
                self.inv(),
                terminal_row <= count,
                count <= terminal_height,
                viewport_row == self.viewport.pos.row,
                count > 0 ==> viewport_row + count <= self.buffer().len(),
                start == self.viewport.pos.col,
                start <= end,
                end == self.viewport.pos.col + terminal_width - CURSOR_COLUMN_START_OFFSET,
                out@.len() == terminal_row,
                forall|i: int|
                    0 <= i < out@.len() ==> (#[trigger] out@[i]).row == i && out@[i].text@
                        == formatted_line(
                        self.buffer(),
                        self.viewport.pos.row + i,
                        self.viewport.pos.col as int,
                        self.viewport.pos.col + terminal_width as int
                            - CURSOR_COLUMN_START_OFFSET as int,
                    ),
            decreases count - terminal_row,
        {
            let text = self.format_line(viewport_row + terminal_row, start, end);
            out.push(RenderLine { row: terminal_row as u16, text });
            terminal_row = terminal_row + 1;
        }
        out
    }

    /// The full frame for this cycle: the fallback message alone when the
    /// terminal is too small, else the visible buffer rows.
    pub fn render(&self, terminal_width: u16, terminal_height: u16) -> (out: Vec<RenderLine>)
        requires
            self.inv(),
        ensures
            terminal_too_small(terminal_width as int, terminal_height as int) ==> out@.len() == 1
                && out@[0].row == 0 && out@[0].text@ == too_small_message(),
            !terminal_too_small(terminal_width as int, terminal_height as int) ==> ({
                &&& out@.len() == (if self.viewport.pos.row >= self.buffer().len() {
                    0int
                } else if self.buffer().len() - self.viewport.pos.row < terminal_height as int {
                    self.buffer().len() - self.viewport.pos.row
                } else {
                    terminal_height as int
                })
                &&& forall|i: int|
                    0 <= i < out@.len() ==> (#[trigger] out@[i]).row == i && out@[i].text@
                        == formatted_line(
                        self.buffer(),
                        self.viewport.pos.row + i,
                        self.viewport.pos.col as int,
                        self.viewport.pos.col + terminal_width as int
                            - CURSOR_COLUMN_START_OFFSET as int,
                    )
            }),
    {
        if Editor::is_terminal_size_too_small(terminal_width, terminal_height) {
            let text = str_to_chars("Terminal too small!!");
            let mut out: Vec<RenderLine> = Vec::new();
            out.push(RenderLine { row: 0, text });
            out
        } else {
            self.get_formatted_lines(terminal_width, terminal_height)
        }
    }
}

} // verus!
