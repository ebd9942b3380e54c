//! The editable line buffer of the editor pane.
//!
//! The buffer itself is a `tui_textarea::TextArea`. Proofs see of it only what
//! [`BufferView`] holds (the lines, the cursor, the start of a running selection and
//! the edits that can be taken back or repeated);
//! each operation that the editor calls is stated here by what it does to that view.
//! None of these statements is proved: they say what the text area's source shows.
//!
//! The view also holds the text area's memory of edits. The text area remembers an edit
//! by its kind and its place; the view holds for each edit the text and cursor that
//! taking it back and repeating it restore, which is what follows from kind and place
//! while the edits are taken back and repeated in their order.

pub mod laws;
pub mod model;

pub use model::{BufferView, CursorMotion, Edit, Frame, Input, Key, Place};

use tui_textarea::CursorMove;
use tui_textarea::Key as AreaKey;
use tui_textarea::TextArea;
use vstd::prelude::*;

verus! {

/// The editable line buffer: a `tui_textarea::TextArea`.
///
/// Nothing of its inside is visible to proofs. They speak of a buffer through
/// [`buffer_lines`], [`buffer_cursor`], [`buffer_anchor`], [`buffer_edits`] and
/// [`buffer_done`], which its view collects.
#[verifier::external_body]
pub struct TextBuffer {
    inner: TextArea<'static>,
}

/// A position as the buffer reports it.
pub open spec fn place_of(at: (usize, usize)) -> Place {
    Place { row: at.0 as int, col: at.1 as int }
}

/// The lines that `TextArea::lines` returns for this buffer, each as its characters.
pub uninterp spec fn buffer_lines(buffer: TextBuffer) -> Seq<Seq<char>>;

/// The pair that `TextArea::cursor` returns for this buffer: line, and column in
/// characters.
pub uninterp spec fn buffer_cursor(buffer: TextBuffer) -> (int, int);

/// The position at which the buffer's running selection started: what
/// `TextArea::start_selection` recorded, the end of `TextArea::selection_range` that
/// is not the cursor. None while `TextArea::is_selecting` is false.
pub uninterp spec fn buffer_anchor(buffer: TextBuffer) -> Option<(int, int)>;

/// The edits that the buffer's text area remembers for `TextArea::undo` and
/// `TextArea::redo`, the oldest first. Each edit is given by what taking it back
/// restores (lines, then line and column of the cursor) and by what repeating it
/// restores (the same).
pub uninterp spec fn buffer_edits(buffer: TextBuffer) -> Seq<
    ((Seq<Seq<char>>, (int, int)), (Seq<Seq<char>>, (int, int))),
>;

/// How many of the remembered edits are in force, counted from the oldest: the next
/// `TextArea::undo` takes back the last of them, the next `TextArea::redo` repeats the
/// edit behind them.
pub uninterp spec fn buffer_done(buffer: TextBuffer) -> int;

/// A text with its cursor, from the lines and the line and column of the cursor.
pub open spec fn frame_of(raw: (Seq<Seq<char>>, (int, int))) -> Frame {
    Frame { lines: raw.0, cursor: Place { row: raw.1.0, col: raw.1.1 } }
}

impl View for TextBuffer {
    type V = BufferView;

    open spec fn view(&self) -> BufferView {
        BufferView {
            lines: buffer_lines(*self),
            cursor: Place { row: buffer_cursor(*self).0, col: buffer_cursor(*self).1 },
            anchor: match buffer_anchor(*self) {
                Some(a) => Some(Place { row: a.0, col: a.1 }),
                None => None,
            },
            edits: Seq::new(
                buffer_edits(*self).len(),
                |k: int|
                    Edit {
                        before: frame_of(buffer_edits(*self)[k].0),
                        after: frame_of(buffer_edits(*self)[k].1),
                    },
            ),
            done: buffer_done(*self),
        }
    }
}

impl TextBuffer {
    /// `TextArea::new`: a buffer that holds the given lines, or one empty line where
    /// none is given, with the cursor at line 0, column 0, no selection and no edit
    /// remembered.
    #[verifier::external_body]
    pub(crate) fn new(lines: Vec<String>) -> (buffer: Self)
        ensures
            buffer_lines(buffer) == BufferView::opened(lines.deep_view()).lines,
            buffer_cursor(buffer) == (0int, 0int),
            buffer_anchor(buffer) == None::<(int, int)>,
            buffer_edits(buffer).len() == 0,
            buffer_done(buffer) == 0,
    {
        TextBuffer { inner: TextArea::new(lines) }
    }

    /// `TextArea::default`: a buffer of one empty line, with the cursor at its head, no
    /// selection and no edit remembered.
    #[verifier::external_body]
    pub(crate) fn blank() -> (buffer: Self)
        ensures
            buffer_lines(buffer) == seq![Seq::<char>::empty()],
            buffer_cursor(buffer) == (0int, 0int),
            buffer_anchor(buffer) == None::<(int, int)>,
            buffer_edits(buffer).len() == 0,
            buffer_done(buffer) == 0,
    {
        TextBuffer { inner: TextArea::default() }
    }

    /// `TextArea::lines`: the buffer's lines, copied.
    #[verifier::external_body]
    pub(crate) fn lines(&self) -> (lines: Vec<String>)
        ensures
            lines.deep_view() == buffer_lines(*self),
    {
        self.inner.lines().to_vec()
    }

    /// `TextArea::cursor`: the line and the column, counted in characters, at which the
    /// cursor stands.
    #[verifier::external_body]
    pub(crate) fn cursor(&self) -> (at: (usize, usize))
        ensures
            (at.0 as int, at.1 as int) == buffer_cursor(*self),
    {
        self.inner.cursor()
    }

    /// `TextArea::selection_range`: the start of the running selection and the cursor,
    /// the earlier position first; none where no selection is running.
    #[verifier::external_body]
    pub(crate) fn selection_range(&self) -> (range: Option<((usize, usize), (usize, usize))>)
        ensures
            match range {
                Some((from, to)) => self@.selection_range() == Some((place_of(from), place_of(to))),
                None => self@.selection_range() is None,
            },
    {
        self.inner.selection_range()
    }

    /// `TextArea::move_cursor`: the cursor goes where the motion leads (one character
    /// or line further, clamped to the line's length when it changes lines; or to an
    /// end of the line or of the text) and stays where the text ends in that direction.
    /// The text does not change, and a running selection keeps running.
    #[verifier::external_body]
    pub(crate) fn move_cursor(&mut self, motion: CursorMotion)
        ensures
            final(self)@ == old(self)@.moved(motion),
    {
        let outside = match motion {
            CursorMotion::Forward => CursorMove::Forward,
            CursorMotion::Back => CursorMove::Back,
            CursorMotion::Up => CursorMove::Up,
            CursorMotion::Down => CursorMove::Down,
            CursorMotion::Head => CursorMove::Head,
            CursorMotion::End => CursorMove::End,
            CursorMotion::Top => CursorMove::Top,
            CursorMotion::Bottom => CursorMove::Bottom,
        };
        self.inner.move_cursor(outside);
    }

    /// `TextArea::insert_newline`: removes the selected text, if any, then breaks the
    /// cursor's line at the cursor and puts the cursor at the head of the new line.
    #[verifier::external_body]
    pub(crate) fn insert_newline(&mut self)
        ensures
            final(self)@ == old(self)@.split(),
    {
        self.inner.insert_newline();
    }

    /// `TextArea::delete_line_by_head`: removes the selected text where some is
    /// selected; else the part of the line before the cursor; else, at the head of a
    /// line, the line break before it.
    #[verifier::external_body]
    pub(crate) fn delete_line_by_head(&mut self)
        ensures
            final(self)@ == old(self)@.head_deleted(),
    {
        self.inner.delete_line_by_head();
    }

    /// `TextArea::undo`: takes back the last edit in force and says whether there was
    /// one. Without one nothing changes. With one, text and cursor are what that edit
    /// is remembered to have found, the selection ends, and the edit can be repeated.
    #[verifier::external_body]
    pub(crate) fn undo(&mut self) -> (undone: bool)
        ensures
            final(self)@ == old(self)@.undone(),
            undone == (old(self)@.done > 0),
    {
        self.inner.undo()
    }

    /// `TextArea::redo`: repeats the edit that was taken back last and says whether
    /// there was one. Without one nothing changes. With one, text and cursor are what
    /// that edit is remembered to have left, the selection ends, and the edit is in
    /// force again.
    #[verifier::external_body]
    pub(crate) fn redo(&mut self) -> (redone: bool)
        ensures
            final(self)@ == old(self)@.redone(),
            redone == (old(self)@.done < old(self)@.edits.len()),
    {
        self.inner.redo()
    }

    /// `TextArea::input`: handles one key press by the text area's own key table.
    ///
    /// For the presses that [`BufferView::foreseen`] names, the buffer then is what
    /// [`BufferView::after_input`] says. The tab key puts in spaces up to the next
    /// multiple of the tab length, which is four, and counts columns by the width in
    /// which a character is displayed, which is one for a printable ASCII character:
    /// [`BufferView::tab_may_leave`] says what that comes to. For the other presses
    /// (the shortcuts with Ctrl or Alt) this claims only that the buffer is in good
    /// order, its memory of edits included.
    ///
    /// Paging scrolls by the height of the text area's view port and then brings the
    /// cursor into the view port. A buffer of this type is never drawn, so its view
    /// port is as `TextArea::new` made it, at line 0 and column 0 with no height and no
    /// width: paging scrolls by nothing and brings the cursor to line 0, column 0.
    #[verifier::external_body]
    pub(crate) fn input(&mut self, input: Input)
        ensures
            BufferView::foreseen(input) ==> final(self)@ == old(self)@.after_input(input),
            BufferView::is_plain_tab(input) ==> old(self)@.tab_may_leave(final(self)@),
            final(self)@.wf(),
    {
        let key = match input.key {
            Key::Char(c) => AreaKey::Char(c),
            Key::Backspace => AreaKey::Backspace, Key::Enter => AreaKey::Enter,
            Key::Left => AreaKey::Left, Key::Right => AreaKey::Right,
            Key::Up => AreaKey::Up, Key::Down => AreaKey::Down,
            Key::Tab => AreaKey::Tab, Key::Delete => AreaKey::Delete,
            Key::Home => AreaKey::Home, Key::End => AreaKey::End,
            Key::PageUp => AreaKey::PageUp, Key::PageDown => AreaKey::PageDown,
            Key::Esc => AreaKey::Esc, Key::Null => AreaKey::Null,
        };
        let Input { ctrl, alt, shift, .. } = input;
        self.inner.input(tui_textarea::Input { key, ctrl, alt, shift });
    }
}

} // verus!
