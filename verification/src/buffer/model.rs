//! The buffer as plain mathematics: the lines, the cursor and the start of a running
//! selection, and what each editing operation makes of them.

use vstd::prelude::*;

verus! {

/// A position in the text: a line, and a column counted in characters.
pub struct Place {
    pub row: int,
    pub col: int,
}

impl Place {
    /// This position comes strictly before `other` in reading order.
    pub open spec fn precedes(self, other: Place) -> bool {
        self.row < other.row || (self.row == other.row && self.col < other.col)
    }
}

/// A text with its cursor.
pub struct Frame {
    pub lines: Seq<Seq<char>>,
    pub cursor: Place,
}

/// An edit as the buffer remembers it: what taking it back restores, and what
/// repeating it restores.
pub struct Edit {
    /// Text and cursor after the edit is taken back.
    pub before: Frame,
    /// Text and cursor after the edit is made or repeated.
    pub after: Frame,
}

/// What the editor observes of a buffer.
pub struct BufferView {
    /// The text, line by line, without line terminators.
    pub lines: Seq<Seq<char>>,
    /// Where the cursor stands.
    pub cursor: Place,
    /// Where the running selection started, if one is running. The selected text
    /// lies between this position and the cursor.
    pub anchor: Option<Place>,
    /// The edits that the buffer remembers, the oldest first.
    pub edits: Seq<Edit>,
    /// How many of the remembered edits are in force: the first `done` of them. The
    /// last of these is the next to be taken back; the edit behind them, if there is
    /// one, is the next to be repeated.
    pub done: int,
}

/// How many edits a buffer remembers at most.
pub open spec fn history_limit() -> int {
    50
}

impl Frame {
    /// There is at least one line, and the cursor lies inside the text.
    pub open spec fn wf(self) -> bool {
        &&& self.lines.len() > 0
        &&& 0 <= self.cursor.row < self.lines.len()
        &&& 0 <= self.cursor.col <= self.lines[self.cursor.row].len()
    }
}

/// The ways in which the editor moves the cursor.
#[derive(Clone, Copy, Debug, PartialEq, Eq, Structural)]
pub enum CursorMotion {
    Forward,
    Back,
    Up,
    Down,
    Head,
    End,
    Top,
    Bottom,
}

/// A key as the buffer understands it.
#[derive(Clone, Copy, Debug, PartialEq, Eq, Structural)]
pub enum Key {
    Char(char),
    Backspace,
    Enter,
    Left,
    Right,
    Up,
    Down,
    Tab,
    Delete,
    Home,
    End,
    PageUp,
    PageDown,
    Esc,
    Null,
}

/// A key press handed to the buffer: the key and the modifiers held with it.
#[derive(Clone, Copy, Debug, PartialEq, Eq, Structural)]
pub struct Input {
    pub key: Key,
    pub ctrl: bool,
    pub alt: bool,
    pub shift: bool,
}

/// `rows[from..to]` replaced by `with`.
pub open spec fn replace_rows(
    rows: Seq<Seq<char>>,
    from: int,
    to: int,
    with: Seq<Seq<char>>,
) -> Seq<Seq<char>> {
    rows.subrange(0, from) + with + rows.subrange(to, rows.len() as int)
}

/// Every character of `text` is a printable ASCII character: a space, or one of the
/// characters from `!` to `~`.
pub open spec fn printable_ascii(text: Seq<char>) -> bool {
    forall|i: int| 0 <= i < text.len() ==> ' ' <= #[trigger] text[i] <= '~'
}

/// `col`, or the length of `line` where the line is shorter.
pub open spec fn fit_col(col: int, line: Seq<char>) -> int {
    if col <= line.len() {
        col
    } else {
        line.len() as int
    }
}

impl BufferView {
    /// The position `p` lies inside the text.
    pub open spec fn holds(self, p: Place) -> bool {
        0 <= p.row < self.lines.len() && 0 <= p.col <= self.lines[p.row].len()
    }

    /// There is at least one line, and the cursor and the start of the selection lie
    /// inside the text.
    pub open spec fn text_wf(self) -> bool {
        &&& self.lines.len() > 0
        &&& self.holds(self.cursor)
        &&& self.anchor matches Some(a) ==> self.holds(a)
    }

    /// No more edits are remembered than the limit allows, the edits in force are among
    /// them, and each remembered edit leads from a text with its cursor inside it to
    /// another. The edits follow one another: each starts from the text that the edit
    /// before it left, the last edit in force left the present text, and the next edit
    /// to repeat starts from it.
    pub open spec fn history_wf(self) -> bool {
        &&& 0 <= self.done <= self.edits.len() <= history_limit()
        &&& forall|k: int|
            0 <= k < self.edits.len() ==> (#[trigger] self.edits[k]).before.wf()
                && self.edits[k].after.wf()
        &&& forall|k: int|
            0 <= k < self.edits.len() - 1 ==> (#[trigger] self.edits[k]).after.lines
                == self.edits[k + 1].before.lines
        &&& self.done > 0 ==> self.edits[self.done - 1].after.lines == self.lines
        &&& self.done < self.edits.len() ==> self.edits[self.done].before.lines == self.lines
    }

    /// The buffer is in good order: its text with cursor and selection, and its memory
    /// of edits.
    pub open spec fn wf(self) -> bool {
        self.text_wf() && self.history_wf()
    }

    /// The text with its cursor.
    pub open spec fn frame(self) -> Frame {
        Frame { lines: self.lines, cursor: self.cursor }
    }

    /// This buffer after an edit that leaves the text `lines` with the cursor at
    /// `cursor`. The edit ends the selection and is remembered: taking it back restores
    /// the present text with the cursor at `back`. The edit takes the place of every
    /// edit that was taken back and not repeated; where the limit was reached, the
    /// oldest remembered edit is forgotten first.
    pub open spec fn edited(self, lines: Seq<Seq<char>>, cursor: Place, back: Place) -> BufferView {
        let edit = Edit {
            before: Frame { lines: self.lines, cursor: back },
            after: Frame { lines, cursor },
        };
        let full = self.edits.len() == history_limit();
        let kept = if full {
            self.edits.drop_first()
        } else {
            self.edits
        };
        let done = if full && self.done > 0 {
            self.done - 1
        } else {
            self.done
        };
        let in_force = if done < kept.len() {
            kept.take(done)
        } else {
            kept
        };
        BufferView { lines, cursor, anchor: None, edits: in_force.push(edit), done: done + 1 }
    }

    /// The last edit in force taken back: text and cursor are what they were before it,
    /// and the selection ends. Nothing changes where no edit is in force.
    pub open spec fn undone(self) -> BufferView {
        if self.done <= 0 {
            self
        } else {
            let edit = self.edits[self.done - 1];
            BufferView {
                lines: edit.before.lines,
                cursor: edit.before.cursor,
                anchor: None,
                edits: self.edits,
                done: self.done - 1,
            }
        }
    }

    /// The edit taken back last repeated: text and cursor are what they were after it,
    /// and the selection ends. Nothing changes where no edit is taken back.
    pub open spec fn redone(self) -> BufferView {
        if self.done >= self.edits.len() {
            self
        } else {
            let edit = self.edits[self.done];
            BufferView {
                lines: edit.after.lines,
                cursor: edit.after.cursor,
                anchor: None,
                edits: self.edits,
                done: self.done + 1,
            }
        }
    }

    /// The line on which the cursor stands.
    pub open spec fn line(self) -> Seq<char> {
        self.lines[self.cursor.row]
    }

    /// A buffer that holds `lines` (one empty line where there are none), with the
    /// cursor at the very beginning, nothing selected and no edit remembered.
    pub open spec fn opened(lines: Seq<Seq<char>>) -> BufferView {
        BufferView {
            lines: if lines.len() == 0 {
                seq![Seq::<char>::empty()]
            } else {
                lines
            },
            cursor: Place { row: 0, col: 0 },
            anchor: None,
            edits: Seq::empty(),
            done: 0,
        }
    }

    /// Where `motion` takes the cursor; none where the cursor cannot move that way.
    pub open spec fn target(self, motion: CursorMotion) -> Option<Place> {
        let row = self.cursor.row;
        let col = self.cursor.col;
        let last = self.lines.len() - 1;
        match motion {
            CursorMotion::Forward => if col < self.line().len() {
                Some(Place { row, col: col + 1 })
            } else if row + 1 < self.lines.len() {
                Some(Place { row: row + 1, col: 0 })
            } else {
                None
            },
            CursorMotion::Back => if col > 0 {
                Some(Place { row, col: col - 1 })
            } else if row > 0 {
                Some(Place { row: row - 1, col: self.lines[row - 1].len() as int })
            } else {
                None
            },
            CursorMotion::Up => if row > 0 {
                Some(Place { row: row - 1, col: fit_col(col, self.lines[row - 1]) })
            } else {
                None
            },
            CursorMotion::Down => if row + 1 < self.lines.len() {
                Some(Place { row: row + 1, col: fit_col(col, self.lines[row + 1]) })
            } else {
                None
            },
            CursorMotion::Head => Some(Place { row, col: 0 }),
            CursorMotion::End => Some(Place { row, col: self.line().len() as int }),
            CursorMotion::Top => Some(Place { row: 0, col: fit_col(col, self.lines[0]) }),
            CursorMotion::Bottom => Some(
                Place { row: last, col: fit_col(col, self.lines[last]) },
            ),
        }
    }

    /// The cursor moved by `motion`, with a running selection kept running. Nothing
    /// changes where the cursor cannot move that way.
    pub open spec fn moved(self, motion: CursorMotion) -> BufferView {
        match self.target(motion) {
            Some(place) => BufferView { cursor: place, ..self },
            None => self,
        }
    }

    /// The cursor moved by `motion` with the shift key held (`shift`) or not: with it a
    /// selection starts at the old cursor unless one is running, without it a running
    /// selection ends. Nothing changes where the cursor cannot move that way.
    pub open spec fn moved_with_shift(self, motion: CursorMotion, shift: bool) -> BufferView {
        match self.target(motion) {
            Some(place) => BufferView {
                cursor: place,
                anchor: if !shift {
                    None
                } else if self.anchor is Some {
                    self.anchor
                } else {
                    Some(self.cursor)
                },
                ..self
            },
            None => self,
        }
    }

    /// The two ends of the selected text in reading order; none where nothing is
    /// selected or the selection is empty.
    pub open spec fn selected(self) -> Option<(Place, Place)> {
        match self.anchor {
            Some(a) => if a.precedes(self.cursor) {
                Some((a, self.cursor))
            } else if self.cursor.precedes(a) {
                Some((self.cursor, a))
            } else {
                None
            },
            None => None,
        }
    }

    /// The two ends of the running selection in reading order, the start first where
    /// both are the same position; none where no selection is running.
    pub open spec fn selection_range(self) -> Option<(Place, Place)> {
        match self.anchor {
            Some(a) => if self.cursor.precedes(a) {
                Some((self.cursor, a))
            } else {
                Some((a, self.cursor))
            },
            None => None,
        }
    }

    /// The selection ended and the selected text, if any, removed: the cursor then
    /// stands where that text began. The removal is an edit of its own; taking it back
    /// puts the cursor where the removed text ended.
    pub open spec fn unselected(self) -> BufferView {
        match self.selected() {
            Some((from, to)) => self.edited(
                replace_rows(
                    self.lines,
                    from.row,
                    to.row + 1,
                    seq![self.lines[from.row].take(from.col) + self.lines[to.row].skip(to.col)],
                ),
                from,
                to,
            ),
            None => BufferView { anchor: None, ..self },
        }
    }

    /// The cursor's line broken in two at the cursor, after the selection is removed;
    /// the cursor then stands at the head of the second part.
    pub open spec fn split(self) -> BufferView {
        let b = self.unselected();
        let row = b.cursor.row;
        let col = b.cursor.col;
        b.edited(
            replace_rows(b.lines, row, row + 1, seq![b.line().take(col), b.line().skip(col)]),
            Place { row: row + 1, col: 0 },
            b.cursor,
        )
    }

    /// The character `c` put in at the cursor, after the selection is removed; the
    /// cursor then stands behind it.
    pub open spec fn typed(self, c: char) -> BufferView {
        let b = self.unselected();
        let row = b.cursor.row;
        let col = b.cursor.col;
        b.edited(
            replace_rows(
                b.lines,
                row,
                row + 1,
                seq![b.line().take(col).push(c) + b.line().skip(col)],
            ),
            Place { row, col: col + 1 },
            b.cursor,
        )
    }

    /// The cursor's line joined to the end of the line above, with the cursor at the
    /// joint; taking that back puts the cursor at the head of the line that was joined.
    /// Nothing changes on the first line.
    pub open spec fn joined_up(self) -> BufferView {
        let row = self.cursor.row;
        if row == 0 {
            self
        } else {
            self.edited(
                replace_rows(
                    self.lines,
                    row - 1,
                    row + 1,
                    seq![self.lines[row - 1] + self.line()],
                ),
                Place { row: row - 1, col: self.lines[row - 1].len() as int },
                Place { row, col: 0 },
            )
        }
    }

    /// What deleting towards the head of the line leaves: without the selected text
    /// where some is selected; else without the part of the line before the cursor;
    /// else, with the cursor at the head of its line, that line joined to the one above.
    pub open spec fn head_deleted(self) -> BufferView {
        let b = self.unselected();
        let row = b.cursor.row;
        let col = b.cursor.col;
        if self.selected() is Some {
            b
        } else if col > 0 {
            b.edited(
                replace_rows(b.lines, row, row + 1, seq![b.line().skip(col)]),
                Place { row, col: 0 },
                b.cursor,
            )
        } else {
            b.joined_up()
        }
    }

    /// What the backspace key leaves: without the selected text where some is selected;
    /// else without the character before the cursor; else, with the cursor at the head
    /// of its line, that line joined to the one above.
    pub open spec fn backspaced(self) -> BufferView {
        let b = self.unselected();
        let row = b.cursor.row;
        let col = b.cursor.col;
        if self.selected() is Some {
            b
        } else if col > 0 {
            b.edited(
                replace_rows(
                    b.lines,
                    row,
                    row + 1,
                    seq![b.line().take(col - 1) + b.line().skip(col)],
                ),
                Place { row, col: col - 1 },
                b.cursor,
            )
        } else {
            b.joined_up()
        }
    }

    /// What the delete key leaves: without the selected text where some is selected;
    /// else without the character under the cursor; else, with the cursor at the end of
    /// its line, the line below joined to it. The cursor stays where it is; taking the
    /// removal back puts it behind what was removed.
    pub open spec fn deleted(self) -> BufferView {
        let b = self.unselected();
        let row = b.cursor.row;
        let col = b.cursor.col;
        if self.selected() is Some {
            b
        } else if col < b.line().len() {
            b.edited(
                replace_rows(
                    b.lines,
                    row,
                    row + 1,
                    seq![b.line().take(col) + b.line().skip(col + 1)],
                ),
                b.cursor,
                Place { row, col: col + 1 },
            )
        } else if row + 1 < b.lines.len() {
            b.edited(
                replace_rows(b.lines, row, row + 2, seq![b.line() + b.lines[row + 1]]),
                b.cursor,
                Place { row: row + 1, col: 0 },
            )
        } else {
            b
        }
    }

    /// What paging leaves, with the shift key held (`shift`) or not: the cursor at the
    /// very beginning of the text, and the selection as after a move of the cursor.
    pub open spec fn paged(self, shift: bool) -> BufferView {
        BufferView {
            cursor: Place { row: 0, col: 0 },
            anchor: if !shift {
                None
            } else if self.anchor is Some {
                self.anchor
            } else {
                Some(self.cursor)
            },
            ..self
        }
    }

    /// `count` spaces put in at the cursor, after the selection is removed; the cursor
    /// then stands behind them.
    pub open spec fn indented(self, count: int) -> BufferView {
        let b = self.unselected();
        let row = b.cursor.row;
        let col = b.cursor.col;
        let spaces = Seq::new(count as nat, |i: int| ' ');
        b.edited(
            replace_rows(
                b.lines,
                row,
                row + 1,
                seq![b.line().take(col) + spaces + b.line().skip(col)],
            ),
            Place { row, col: col + count },
            b.cursor,
        )
    }

    /// What the tab key may leave of this buffer: after the selection is removed, one
    /// to four spaces put in at the cursor, as many as lead to the next column that is
    /// a multiple of four where every character before the cursor is a printable ASCII
    /// character.
    pub open spec fn tab_may_leave(self, after: BufferView) -> bool {
        let b = self.unselected();
        let col = b.cursor.col;
        &&& after == self.indented(1) || after == self.indented(2) || after == self.indented(3)
            || after == self.indented(4)
        &&& printable_ascii(b.line().take(col)) ==> after == self.indented(4 - col % 4)
    }

    /// Whether [`BufferView::after_input`] says what `input` does to a buffer.
    pub open spec fn foreseen(input: Input) -> bool {
        let plain = !input.ctrl && !input.alt;
        match input.key {
            Key::Enter | Key::Home | Key::End | Key::Esc | Key::Null => true,
            Key::PageUp | Key::PageDown => true,
            Key::Char(_) | Key::Backspace | Key::Delete => plain,
            Key::Left | Key::Right | Key::Up | Key::Down => plain,
            Key::Tab => false,
        }
    }

    /// The input is the tab key with neither Ctrl nor Alt held.
    pub open spec fn is_plain_tab(input: Input) -> bool {
        input.key == Key::Tab && !input.ctrl && !input.alt
    }

    /// The buffer after `input`, for every input that is [`BufferView::foreseen`]:
    /// Enter or a line break typed breaks the line, any other character is put in,
    /// backspace and delete remove, the arrows, Home and End move the cursor (selecting
    /// with shift), paging brings the cursor to the beginning of the text, Esc and the
    /// null key do nothing.
    pub open spec fn after_input(self, input: Input) -> BufferView {
        match input.key {
            Key::Enter => self.split(),
            Key::Char(c) => if c == '\n' || c == '\r' {
                self.split()
            } else {
                self.typed(c)
            },
            Key::Backspace => self.backspaced(),
            Key::Delete => self.deleted(),
            Key::Left => self.moved_with_shift(CursorMotion::Back, input.shift),
            Key::Right => self.moved_with_shift(CursorMotion::Forward, input.shift),
            Key::Up => self.moved_with_shift(CursorMotion::Up, input.shift),
            Key::Down => self.moved_with_shift(CursorMotion::Down, input.shift),
            Key::Home => self.moved_with_shift(CursorMotion::Head, input.shift),
            Key::End => self.moved_with_shift(CursorMotion::End, input.shift),
            Key::PageUp | Key::PageDown => self.paged(input.shift),
            _ => self,
        }
    }
}

} // verus!
