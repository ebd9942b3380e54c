//! What holds of the editing operations on every buffer in good order.

use super::model::{
    history_limit, replace_rows, BufferView, CursorMotion, Frame, Input, Key, Place,
};
use vstd::prelude::*;

verus! {

/// Replacing rows `from..to` changes the number of rows by what is put in less what is
/// taken out, keeps the rows before `from`, and shifts the rows from `to` on.
pub proof fn lemma_replace_rows(rows: Seq<Seq<char>>, from: int, to: int, with: Seq<Seq<char>>)
    requires
        0 <= from <= to <= rows.len(),
    ensures
        replace_rows(rows, from, to, with).len() == rows.len() - (to - from) + with.len(),
        forall|i: int| 0 <= i < from ==> replace_rows(rows, from, to, with)[i] == rows[i],
        forall|i: int|
            0 <= i < with.len() ==> #[trigger] replace_rows(rows, from, to, with)[from + i]
                == with[i],
        forall|i: int|
            to <= i < rows.len() ==> replace_rows(rows, from, to, with)[i - (to - from)
                + with.len()] == #[trigger] rows[i],
{
}

/// An edit that leads from a buffer in good order to a text with its cursor inside it
/// leaves a buffer in good order, with nothing selected. The edit is the last in
/// force, no edit is left to repeat, and taking it back restores the text as it was,
/// with the cursor where the edit says.
pub proof fn lemma_edited(b: BufferView, lines: Seq<Seq<char>>, cursor: Place, back: Place)
    requires
        b.wf(),
        (Frame { lines, cursor }).wf(),
        b.holds(back),
    ensures
        b.edited(lines, cursor, back).wf(),
        b.edited(lines, cursor, back).lines == lines,
        b.edited(lines, cursor, back).cursor == cursor,
        b.edited(lines, cursor, back).anchor is None,
        b.edited(lines, cursor, back).done == b.edited(lines, cursor, back).edits.len(),
        b.edited(lines, cursor, back).done > 0,
        b.edited(lines, cursor, back).undone().lines == b.lines,
        b.edited(lines, cursor, back).undone().cursor == back,
        b.edited(lines, cursor, back).undone().redone().lines == lines,
        b.edited(lines, cursor, back).undone().redone().cursor == cursor,
{
    let after = b.edited(lines, cursor, back);
    let full = b.edits.len() == history_limit();
    let kept = if full {
        b.edits.drop_first()
    } else {
        b.edits
    };
    let shift = if full {
        1int
    } else {
        0int
    };
    assert(forall|k: int|
        0 <= k < after.edits.len() - 1 ==> #[trigger] after.edits[k] == b.edits[k + shift]);
    assert forall|k: int| 0 <= k < after.edits.len() implies (#[trigger] after.edits[k]).before.wf()
        && after.edits[k].after.wf() by {
        if k < after.edits.len() - 1 {
            assert(b.edits[k + shift].before.wf());
        }
    }
    assert forall|k: int| 0 <= k < after.edits.len() - 1 implies (
    #[trigger] after.edits[k]).after.lines == after.edits[k + 1].before.lines by {
        if k + 1 < after.edits.len() - 1 {
            assert(b.edits[k + shift].after.lines == b.edits[k + shift + 1].before.lines);
        } else {
            assert(after.edits[k] == b.edits[b.done - 1]);
        }
    }
}

/// Taking back and repeating leave a buffer in good order. An edit taken back and
/// repeated leaves the text and the memory of edits as they were, and so does an edit
/// repeated and taken back. Where there is nothing to take back or to repeat, nothing
/// changes.
pub proof fn lemma_history_wf(b: BufferView)
    requires
        b.wf(),
    ensures
        b.undone().wf(),
        b.redone().wf(),
        b.undone().edits == b.edits,
        b.redone().edits == b.edits,
        b.done > 0 ==> {
            &&& b.undone().done == b.done - 1
            &&& b.undone().redone().done == b.done
            &&& b.undone().redone().lines == b.lines
        },
        b.done < b.edits.len() ==> {
            &&& b.redone().done == b.done + 1
            &&& b.redone().undone().done == b.done
            &&& b.redone().undone().lines == b.lines
        },
        b.done <= 0 ==> b.undone() == b,
        b.done >= b.edits.len() ==> b.redone() == b,
{
    if b.done > 0 {
        assert(b.edits[b.done - 1].before.wf());
        if b.done > 1 {
            assert(b.edits[b.done - 2].after.lines == b.edits[b.done - 2 + 1].before.lines);
        }
    }
    if b.done < b.edits.len() {
        assert(b.edits[b.done].after.wf());
        if b.done + 1 < b.edits.len() {
            assert(b.edits[b.done].after.lines == b.edits[b.done + 1].before.lines);
        }
    }
}

/// Moving the cursor never changes the text nor the memory of edits, and leaves a
/// buffer in good order.
pub proof fn lemma_moved_wf(b: BufferView, motion: CursorMotion, shift: bool)
    requires
        b.wf(),
    ensures
        b.moved(motion).wf(),
        b.moved(motion).lines == b.lines,
        b.moved(motion).anchor == b.anchor,
        b.moved(motion).edits == b.edits && b.moved(motion).done == b.done,
        b.moved_with_shift(motion, shift).wf(),
        b.moved_with_shift(motion, shift).lines == b.lines,
        b.moved_with_shift(motion, shift).cursor == b.moved(motion).cursor,
        b.moved_with_shift(motion, shift).edits == b.edits && b.moved_with_shift(
            motion,
            shift,
        ).done == b.done,
        b.paged(shift).wf(),
        b.paged(shift).lines == b.lines,
{
}

/// Ending the selection leaves a buffer in good order with nothing selected; where no
/// text was selected, text, cursor and the memory of edits stay as they are.
pub proof fn lemma_unselected_wf(b: BufferView)
    requires
        b.wf(),
    ensures
        b.unselected().wf(),
        b.unselected().anchor is None,
        b.selected() is None ==> b.unselected().lines == b.lines && b.unselected().cursor
            == b.cursor && b.unselected().edits == b.edits && b.unselected().done == b.done,
{
    match b.selected() {
        Some((from, to)) => {
            let row = seq![b.lines[from.row].take(from.col) + b.lines[to.row].skip(to.col)];
            lemma_replace_rows(b.lines, from.row, to.row + 1, row);
            let lines = replace_rows(b.lines, from.row, to.row + 1, row);
            assert(lines[from.row] == row[0]);
            lemma_edited(b, lines, from, to);
        },
        None => {},
    }
}

/// Breaking the line leaves a buffer in good order with one line more. Where no text
/// was selected, the cursor's line is replaced by its part before the cursor and its
/// part from the cursor on, and the cursor stands at the head of the second.
pub proof fn lemma_split_wf(b: BufferView)
    requires
        b.wf(),
    ensures
        b.split().wf(),
        b.split().anchor is None,
        b.split().lines.len() == b.unselected().lines.len() + 1,
        b.split().undone().lines == b.unselected().lines,
        b.split().undone().cursor == b.unselected().cursor,
        b.selected() is None ==> {
            &&& b.split().lines == replace_rows(
                b.lines,
                b.cursor.row,
                b.cursor.row + 1,
                seq![b.line().take(b.cursor.col), b.line().skip(b.cursor.col)],
            )
            &&& b.split().cursor == Place { row: b.cursor.row + 1, col: 0 }
        },
{
    lemma_unselected_wf(b);
    let u = b.unselected();
    let rows = seq![u.line().take(u.cursor.col), u.line().skip(u.cursor.col)];
    lemma_replace_rows(u.lines, u.cursor.row, u.cursor.row + 1, rows);
    let lines = replace_rows(u.lines, u.cursor.row, u.cursor.row + 1, rows);
    assert(lines[u.cursor.row + 1] == rows[1]);
    lemma_edited(u, lines, Place { row: u.cursor.row + 1, col: 0 }, u.cursor);
}

/// Typing a character leaves a buffer in good order with as many lines as before. Where
/// no text was selected, only the cursor's line changes: the character stands at the
/// cursor's old column, what was before it stays before it, what was behind it stays
/// behind it, and the cursor stands one column further.
pub proof fn lemma_typed_wf(b: BufferView, c: char)
    requires
        b.wf(),
    ensures
        b.typed(c).wf(),
        b.typed(c).anchor is None,
        b.typed(c).lines.len() == b.unselected().lines.len(),
        b.typed(c).undone().lines == b.unselected().lines,
        b.typed(c).undone().cursor == b.unselected().cursor,
        b.selected() is None ==> {
            &&& b.typed(c).lines == b.lines.update(
                b.cursor.row,
                b.line().take(b.cursor.col).push(c) + b.line().skip(b.cursor.col),
            )
            &&& b.typed(c).cursor == Place { row: b.cursor.row, col: b.cursor.col + 1 }
        },
{
    lemma_unselected_wf(b);
    let u = b.unselected();
    let rows = seq![u.line().take(u.cursor.col).push(c) + u.line().skip(u.cursor.col)];
    lemma_replace_rows(u.lines, u.cursor.row, u.cursor.row + 1, rows);
    let lines = replace_rows(u.lines, u.cursor.row, u.cursor.row + 1, rows);
    assert(lines[u.cursor.row] == rows[0]);
    lemma_edited(u, lines, Place { row: u.cursor.row, col: u.cursor.col + 1 }, u.cursor);
    if b.selected() is None {
        assert(b.typed(c).lines =~= b.lines.update(b.cursor.row, rows[0]));
    }
}

/// Spaces put in at the cursor leave a buffer in good order with nothing selected.
pub proof fn lemma_indented_wf(b: BufferView, count: int)
    requires
        b.wf(),
        count >= 0,
    ensures
        b.indented(count).wf(),
        b.indented(count).anchor is None,
        b.indented(count).undone().lines == b.unselected().lines,
        b.indented(count).undone().cursor == b.unselected().cursor,
{
    lemma_unselected_wf(b);
    let u = b.unselected();
    let col = u.cursor.col;
    let row = seq![u.line().take(col) + Seq::new(count as nat, |i: int| ' ') + u.line().skip(col)];
    lemma_replace_rows(u.lines, u.cursor.row, u.cursor.row + 1, row);
    let lines = replace_rows(u.lines, u.cursor.row, u.cursor.row + 1, row);
    assert(lines[u.cursor.row] == row[0]);
    lemma_edited(u, lines, Place { row: u.cursor.row, col: col + count }, u.cursor);
}

/// Whatever the tab key leaves of a buffer in good order is in good order, with
/// nothing selected.
pub proof fn lemma_tab_wf(b: BufferView, after: BufferView)
    requires
        b.wf(),
        b.tab_may_leave(after),
    ensures
        after.wf(),
        after.anchor is None,
{
    lemma_indented_wf(b, 1);
    lemma_indented_wf(b, 2);
    lemma_indented_wf(b, 3);
    lemma_indented_wf(b, 4);
}

/// Joining the cursor's line to the one above leaves a buffer in good order; taking it
/// back restores the text.
pub proof fn lemma_joined_up_wf(b: BufferView)
    requires
        b.wf(),
        b.anchor is None,
    ensures
        b.joined_up().wf(),
        b.joined_up().anchor is None,
        b.cursor.row > 0 ==> b.joined_up().undone().lines == b.lines,
{
    let row = b.cursor.row;
    if row > 0 {
        let rows = seq![b.lines[row - 1] + b.line()];
        lemma_replace_rows(b.lines, row - 1, row + 1, rows);
        let lines = replace_rows(b.lines, row - 1, row + 1, rows);
        assert(lines[row - 1] == rows[0]);
        lemma_edited(
            b,
            lines,
            Place { row: row - 1, col: b.lines[row - 1].len() as int },
            Place { row, col: 0 },
        );
    }
}

/// Deleting towards the head of the line, backspace and delete each leave a buffer in
/// good order with nothing selected.
pub proof fn lemma_deletions_wf(b: BufferView)
    requires
        b.wf(),
    ensures
        b.head_deleted().wf(),
        b.head_deleted().anchor is None,
        b.backspaced().wf(),
        b.backspaced().anchor is None,
        b.deleted().wf(),
        b.deleted().anchor is None,
{
    lemma_unselected_wf(b);
    let u = b.unselected();
    let row = u.cursor.row;
    let col = u.cursor.col;
    lemma_joined_up_wf(u);
    if b.selected() is None {
        if col > 0 {
            let head = seq![u.line().skip(col)];
            lemma_replace_rows(u.lines, row, row + 1, head);
            let head_lines = replace_rows(u.lines, row, row + 1, head);
            assert(head_lines[row] == head[0]);
            lemma_edited(u, head_lines, Place { row, col: 0 }, u.cursor);
            let back = seq![u.line().take(col - 1) + u.line().skip(col)];
            lemma_replace_rows(u.lines, row, row + 1, back);
            let back_lines = replace_rows(u.lines, row, row + 1, back);
            assert(back_lines[row] == back[0]);
            lemma_edited(u, back_lines, Place { row, col: col - 1 }, u.cursor);
        }
        if col < u.line().len() {
            let del = seq![u.line().take(col) + u.line().skip(col + 1)];
            lemma_replace_rows(u.lines, row, row + 1, del);
            let del_lines = replace_rows(u.lines, row, row + 1, del);
            assert(del_lines[row] == del[0]);
            lemma_edited(u, del_lines, u.cursor, Place { row, col: col + 1 });
        } else if row + 1 < u.lines.len() {
            let del = seq![u.line() + u.lines[row + 1]];
            lemma_replace_rows(u.lines, row, row + 2, del);
            let del_lines = replace_rows(u.lines, row, row + 2, del);
            assert(del_lines[row] == del[0]);
            lemma_edited(u, del_lines, u.cursor, Place { row: row + 1, col: 0 });
        }
    }
}

/// Every input whose effect is foreseen leaves a buffer in good order.
pub proof fn lemma_after_input_wf(b: BufferView, input: Input)
    requires
        b.wf(),
    ensures
        b.after_input(input).wf(),
{
    lemma_split_wf(b);
    lemma_deletions_wf(b);
    lemma_moved_wf(b, CursorMotion::Back, input.shift);
    match input.key {
        Key::Char(c) => {
            lemma_typed_wf(b, c);
        },
        Key::Right => {
            lemma_moved_wf(b, CursorMotion::Forward, input.shift);
        },
        Key::Up => {
            lemma_moved_wf(b, CursorMotion::Up, input.shift);
        },
        Key::Down => {
            lemma_moved_wf(b, CursorMotion::Down, input.shift);
        },
        Key::Home => {
            lemma_moved_wf(b, CursorMotion::Head, input.shift);
        },
        Key::End => {
            lemma_moved_wf(b, CursorMotion::End, input.shift);
        },
        _ => {},
    }
}

/// Taking back a typed character restores the text: after a character is typed and
/// the edit is taken back, text and cursor are what they were before, the removal of
/// selected text apart; repeating the edit brings the character back.
pub proof fn lemma_undo_takes_back_typing(b: BufferView, c: char)
    requires
        b.wf(),
    ensures
        b.typed(c).undone().lines == b.unselected().lines,
        b.typed(c).undone().cursor == b.unselected().cursor,
        b.typed(c).undone().anchor is None,
        b.typed(c).undone().redone().lines == b.typed(c).lines,
        b.typed(c).undone().redone().cursor == b.typed(c).cursor,
        b.typed(c).undone().wf(),
{
    lemma_unselected_wf(b);
    let u = b.unselected();
    let rows = seq![u.line().take(u.cursor.col).push(c) + u.line().skip(u.cursor.col)];
    lemma_replace_rows(u.lines, u.cursor.row, u.cursor.row + 1, rows);
    let lines = replace_rows(u.lines, u.cursor.row, u.cursor.row + 1, rows);
    assert(lines[u.cursor.row] == rows[0]);
    lemma_edited(u, lines, Place { row: u.cursor.row, col: u.cursor.col + 1 }, u.cursor);
    lemma_typed_wf(b, c);
    lemma_history_wf(b.typed(c));
}

/// Taking back a removal of selected text restores the text, with the cursor at the
/// end of what was selected.
pub proof fn lemma_undo_takes_back_removal(b: BufferView)
    requires
        b.wf(),
        b.selected() is Some,
    ensures
        b.unselected().undone().lines == b.lines,
        b.selected() matches Some((from, to)) && b.unselected().undone().cursor == to,
{
    let (from, to) = b.selected()->0;
    let row = seq![b.lines[from.row].take(from.col) + b.lines[to.row].skip(to.col)];
    lemma_replace_rows(b.lines, from.row, to.row + 1, row);
    let lines = replace_rows(b.lines, from.row, to.row + 1, row);
    assert(lines[from.row] == row[0]);
    lemma_edited(b, lines, from, to);
}

/// Backspace takes back what was typed last: after a character is typed and backspace
/// is pressed, text and cursor are what they were before, the removal of selected text
/// apart.
pub proof fn lemma_backspace_takes_back_typing(b: BufferView, c: char)
    requires
        b.wf(),
    ensures
        b.typed(c).backspaced().lines == b.unselected().lines,
        b.typed(c).backspaced().cursor == b.unselected().cursor,
        b.typed(c).backspaced().anchor is None,
{
    lemma_unselected_wf(b);
    lemma_typed_wf(b, c);
    let u = b.unselected();
    let t = b.typed(c);
    let row = u.cursor.row;
    let col = u.cursor.col;
    let typed_line = u.line().take(col).push(c) + u.line().skip(col);
    lemma_replace_rows(u.lines, row, row + 1, seq![typed_line]);
    assert(t.lines[row] == typed_line);
    assert(t.selected() is None);
    let restored = seq![t.line().take(col) + t.line().skip(col + 1)];
    lemma_replace_rows(t.lines, row, row + 1, restored);
    assert(restored[0] =~= u.line());
    assert(t.backspaced().lines =~= u.lines);
}

/// Backspace takes back a line break: after the line is broken and backspace is
/// pressed, text and cursor are what they were before, the removal of selected text
/// apart.
pub proof fn lemma_backspace_takes_back_split(b: BufferView)
    requires
        b.wf(),
    ensures
        b.split().backspaced().lines == b.unselected().lines,
        b.split().backspaced().cursor == b.unselected().cursor,
        b.split().backspaced().anchor is None,
{
    lemma_unselected_wf(b);
    lemma_split_wf(b);
    let u = b.unselected();
    let t = b.split();
    let row = u.cursor.row;
    let col = u.cursor.col;
    let halves = seq![u.line().take(col), u.line().skip(col)];
    lemma_replace_rows(u.lines, row, row + 1, halves);
    assert(t.lines[row] == halves[0]);
    assert(t.lines[row + 1] == halves[1]);
    assert(t.selected() is None);
    let joined = seq![t.lines[row] + t.lines[row + 1]];
    lemma_replace_rows(t.lines, row, row + 2, joined);
    assert(joined[0] =~= u.line());
    assert(t.unselected().joined_up().lines =~= u.lines);
}

/// Opening a line below: with no selection running, an empty line appears under the
/// cursor's line, every line keeps its text, and the cursor stands on the new line.
pub proof fn lemma_open_below(b: BufferView)
    requires
        b.wf(),
        b.anchor is None,
    ensures
        b.moved(CursorMotion::End).split().lines == b.lines.insert(
            b.cursor.row + 1,
            Seq::empty(),
        ),
        b.moved(CursorMotion::End).split().cursor == (Place { row: b.cursor.row + 1, col: 0 }),
        b.moved(CursorMotion::End).split().wf(),
{
    let e = b.moved(CursorMotion::End);
    lemma_moved_wf(b, CursorMotion::End, false);
    lemma_split_wf(e);
    let col = e.cursor.col;
    assert(e.line().take(col) =~= e.line());
    assert(e.line().skip(col) =~= Seq::<char>::empty());
    assert(e.split().lines =~= b.lines.insert(b.cursor.row + 1, Seq::empty()));
}

/// Opening a line above: with no selection running, an empty line appears over the
/// cursor's line, every line keeps its text, and the cursor stands on the new line.
pub proof fn lemma_open_above(b: BufferView)
    requires
        b.wf(),
        b.anchor is None,
    ensures
        b.moved(CursorMotion::Head).split().moved(CursorMotion::Up).lines == b.lines.insert(
            b.cursor.row,
            Seq::empty(),
        ),
        b.moved(CursorMotion::Head).split().moved(CursorMotion::Up).cursor == (Place {
            row: b.cursor.row,
            col: 0,
        }),
        b.moved(CursorMotion::Head).split().moved(CursorMotion::Up).wf(),
{
    let h = b.moved(CursorMotion::Head);
    lemma_moved_wf(b, CursorMotion::Head, false);
    lemma_split_wf(h);
    lemma_moved_wf(h.split(), CursorMotion::Up, false);
    assert(h.line().take(0) =~= Seq::<char>::empty());
    assert(h.line().skip(0) =~= h.line());
    assert(h.split().lines =~= b.lines.insert(b.cursor.row, Seq::empty()));
}

/// Deleting towards the head: with no selection running and the cursor inside a line,
/// the part of the line before the cursor goes, the rest of the text stays, and the
/// cursor stands at the head of the line; taking that back restores text and cursor.
pub proof fn lemma_delete_to_head(b: BufferView)
    requires
        b.wf(),
        b.anchor is None,
        b.cursor.col > 0,
    ensures
        b.head_deleted().lines == b.lines.update(b.cursor.row, b.line().skip(b.cursor.col)),
        b.head_deleted().cursor == (Place { row: b.cursor.row, col: 0 }),
        b.head_deleted().undone().lines == b.lines,
        b.head_deleted().undone().cursor == b.cursor,
{
    let rows = seq![b.line().skip(b.cursor.col)];
    lemma_replace_rows(b.lines, b.cursor.row, b.cursor.row + 1, rows);
    let lines = replace_rows(b.lines, b.cursor.row, b.cursor.row + 1, rows);
    assert(lines[b.cursor.row] == rows[0]);
    lemma_edited(b.unselected(), lines, Place { row: b.cursor.row, col: 0 }, b.cursor);
    assert(b.head_deleted().lines =~= b.lines.update(b.cursor.row, b.line().skip(b.cursor.col)));
}

/// A freshly opened buffer is in good order, with no edit to take back or to repeat.
pub proof fn lemma_opened_wf(lines: Seq<Seq<char>>)
    ensures
        BufferView::opened(lines).wf(),
        BufferView::opened(lines).undone() == BufferView::opened(lines),
        BufferView::opened(lines).redone() == BufferView::opened(lines),
{
}

} // verus!
