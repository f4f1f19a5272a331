//! General properties of the editing model, stated and proved once over
//! the spec functions that the operation contracts use.

use vstd::prelude::*;

use crate::editor::Editor;
use crate::model::{clamped, line_at, merge_at, split_at};

verus! {

/// A well-formed buffer always holds at least one line; since every
/// operation requires and re-establishes well-formedness, this holds
/// before and after every operation.
pub proof fn lemma_buffer_never_empty(editor: Editor)
    requires
        editor.buffer_wf(),
    ensures
        editor.buffer().len() >= 1,
{
}

/// After clamping, the cursor row is a valid line index and the column
/// lies between zero and the clamped row's line length.
pub proof fn lemma_clamp_in_bounds(lines: Seq<Seq<char>>, row: int, col: int)
    requires
        lines.len() >= 1,
    ensures
        0 <= clamped(row, 0, lines.len() - 1) < lines.len(),
        0 <= clamped(col, 0, line_at(lines, clamped(row, 0, lines.len() - 1)).len() as int)
            <= line_at(lines, clamped(row, 0, lines.len() - 1)).len(),
{
}

/// Splitting a line and immediately merging at the same row restores the
/// original buffer exactly.
pub proof fn lemma_split_merge_round_trip(lines: Seq<Seq<char>>, row: int, col: int)
    requires
        0 <= row < lines.len(),
        0 <= col <= lines[row].len(),
    ensures
        merge_at(split_at(lines, row, col), row) == lines,
{
    assert(merge_at(split_at(lines, row, col), row) =~~= lines);
}

/// Inserting a character at a column and removing the character before
/// the next column restores the original line exactly.
pub proof fn lemma_insert_remove_inverse(line: Seq<char>, col: int, c: char)
    requires
        0 <= col <= line.len(),
    ensures
        line.insert(col, c).remove(col) == line,
{
    assert(line.insert(col, c).remove(col) =~= line);
}

} // verus!
