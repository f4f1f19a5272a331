//! Turning a flat text into the buffer's lines: splitting on newline
//! characters, plus a helper that turns a string slice into its sequence
//! of characters (the buffer's indexing unit is the code point, never the
//! byte).

use vstd::prelude::*;
use vstd::string::*;

verus! {

/// `s` with its first line extended by `prefix` on the left.
pub open spec fn prepend_first(prefix: Seq<char>, s: Seq<Seq<char>>) -> Seq<Seq<char>> {
    seq![prefix + s[0]] + s.skip(1)
}

/// A text split on newline separators: always at least one line; an empty
/// text is one empty line; a trailing newline yields a trailing empty line.
pub open spec fn split_text(text: Seq<char>) -> Seq<Seq<char>>
    decreases text.len(),
{
    if text.len() == 0 {
        seq![Seq::<char>::empty()]
    } else if text[0] == '\n' {
        seq![Seq::<char>::empty()] + split_text(text.skip(1))
    } else {
        prepend_first(seq![text[0]], split_text(text.skip(1)))
    }
}

/// Splitting a text yields between 1 and `len + 1` lines, none longer than
/// the text itself.
pub proof fn lemma_split_text_bounds(text: Seq<char>)
    ensures
        1 <= split_text(text).len() <= text.len() + 1,
        forall|i: int|
            0 <= i < split_text(text).len() ==> (#[trigger] split_text(text)[i]).len()
                <= text.len(),
    decreases text.len(),
{
    if text.len() == 0 {
    } else {
        lemma_split_text_bounds(text.skip(1));
        let rest = split_text(text.skip(1));
        if text[0] == '\n' {
            assert forall|i: int| 0 <= i < split_text(text).len() implies (#[trigger] split_text(
                text,
            )[i]).len() <= text.len() by {
                if i > 0 {
                    assert(split_text(text)[i] == rest[i - 1]);
                }
            }
        } else {
            assert forall|i: int| 0 <= i < split_text(text).len() implies (#[trigger] split_text(
                text,
            )[i]).len() <= text.len() by {
                if i == 0 {
                    assert(split_text(text)[0] == seq![text[0]] + rest[0]);
                } else {
                    assert(split_text(text)[i] == rest.skip(1)[i - 1]);
                    assert(rest.skip(1)[i - 1] == rest[i]);
                }
            }
        }
    }
}

/// The views of a sequence of character vectors.
pub open spec fn line_views(lines: Seq<Vec<char>>) -> Seq<Seq<char>> {
    Seq::new(lines.len(), |i: int| lines[i]@)
}

/// Split a text into its lines, one vector per line, as `split_text`
/// describes.
pub fn split_into_lines(text: &Vec<char>) -> (lines: Vec<Vec<char>>)
    ensures
        line_views(lines@) == split_text(text@),
{
    let mut lines: Vec<Vec<char>> = Vec::new();
    let mut current: Vec<char> = Vec::new();
    let mut idx: usize = 0;
    proof {
        assert(text@.skip(0) =~= text@);
    }
    while idx < text.len()
        invariant
            idx <= text@.len(),
            split_text(text@) == line_views(lines@) + prepend_first(
                current@,
                split_text(text@.skip(idx as int)),
            ),
        decreases text@.len() - idx,
    {
        let ghost prev_lines = lines@;
        let ghost prev_current = current@;
        let ghost rem = text@.skip(idx as int);
        let ghost rem_next = text@.skip(idx as int + 1);
        let c = text[idx];
        if c == '\n' {
            lines.push(current);
            current = Vec::new();
        } else {
            current.push(c);
        }
        idx = idx + 1;
        proof {
            lemma_split_text_bounds(rem_next);
            assert(rem[0] == c);
            assert(rem.skip(1) =~= rem_next);
            let rest = split_text(rem_next);
            if c == '\n' {
                assert(split_text(rem) == seq![Seq::<char>::empty()] + rest);
                assert((seq![Seq::<char>::empty()] + rest).skip(1) =~= rest);
                assert(prepend_first(prev_current, split_text(rem)) =~= seq![prev_current] + rest);
                assert(seq![Seq::<char>::empty() + rest[0]] + rest.skip(1) =~= rest);
                assert(prepend_first(current@, rest) =~= rest);
                assert(line_views(lines@) =~= line_views(prev_lines) + seq![prev_current]);
                assert(line_views(lines@) + prepend_first(current@, rest) =~= line_views(
                    prev_lines,
                ) + prepend_first(prev_current, split_text(rem)));
            } else {
                assert(split_text(rem) == prepend_first(seq![c], rest));
                assert((seq![seq![c] + rest[0]] + rest.skip(1)).skip(1) =~= rest.skip(1));
                assert(prev_current + (seq![c] + rest[0]) =~= (prev_current + seq![c]) + rest[0]);
                assert(current@ == prev_current + seq![c]);
                assert(prepend_first(prev_current, split_text(rem)) =~= prepend_first(
                    current@,
                    rest,
                ));
            }
        }
    }
    proof {
        assert(text@.skip(text@.len() as int) =~= Seq::<char>::empty());
        let s_empty = split_text(Seq::<char>::empty());
        assert(s_empty == seq![Seq::<char>::empty()]);
        assert(prepend_first(current@, s_empty) =~= seq![current@]);
    }
    let ghost prev_lines = lines@;
    lines.push(current);
    proof {
        assert(line_views(lines@) =~= line_views(prev_lines) + seq![lines@[lines@.len() - 1]@]);
        assert(line_views(lines@) =~= split_text(text@));
    }
    lines
}

/// The characters of a string slice, one vector entry per code point.
pub fn str_to_chars(text: &str) -> (chars: Vec<char>)
    ensures
        chars@ == text@,
{
    let len = text.unicode_len();
    let mut chars: Vec<char> = Vec::new();
    let mut i: usize = 0;
    while i < len
        invariant
            i <= text@.len(),
            len == text@.len(),
            chars@ == text@.subrange(0, i as int),
        decreases len - i,
    {
        chars.push(text.get_char(i));
        i = i + 1;
        proof {
            assert(chars@ =~= text@.subrange(0, i as int));
        }
    }
    proof {
        assert(chars@ =~= text@);
    }
    chars
}

} // verus!
