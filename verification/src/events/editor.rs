//! Keys of the editor pane: the modal (normal / insert) key table.

use crate::api::{ApiError, Request, RequestView};
use crate::buffer::laws::{
    lemma_backspace_takes_back_split, lemma_backspace_takes_back_typing, lemma_deletions_wf,
    lemma_edited, lemma_history_wf, lemma_moved_wf, lemma_replace_rows, lemma_split_wf,
    lemma_typed_wf, lemma_unselected_wf,
};
use crate::buffer::model::replace_rows;
use crate::buffer::{BufferView, CursorMotion, Input, Key, Place};
use crate::keys::{KeyCode, KeyEvent};
use crate::state::{AppState, EditorState, VimMode};
use crate::text::followed_by;
use vstd::prelude::*;

verus! {

/// What a key asks for in normal mode.
pub enum NormalCommand {
    /// `i`: insert before the cursor.
    Insert,
    /// `a`: insert after the cursor.
    Append,
    /// `A`: insert at the end of the line.
    AppendAtEnd,
    /// `I`: insert at the head of the line.
    InsertAtHead,
    /// `o`: open a line below and insert there.
    OpenBelow,
    /// `O`: open a line above and insert there.
    OpenAbove,
    /// `h j k l`, the arrows, `0 $ g G`: move the cursor.
    Move(CursorMotion),
    /// `d`: delete from the head of the line to the cursor.
    DeleteToHead,
    /// `u`: take back the last change.
    Undo,
    /// Ctrl+`r`: repeat the change taken back last.
    Redo,
    /// Any other key.
    Nothing,
}

/// The normal-mode key table.
pub open spec fn normal_command(key: KeyEvent) -> NormalCommand {
    match key.code {
        KeyCode::Char(c) => if c == 'i' {
            NormalCommand::Insert
        } else if c == 'a' {
            NormalCommand::Append
        } else if c == 'A' {
            NormalCommand::AppendAtEnd
        } else if c == 'I' {
            NormalCommand::InsertAtHead
        } else if c == 'o' {
            NormalCommand::OpenBelow
        } else if c == 'O' {
            NormalCommand::OpenAbove
        } else if c == 'h' {
            NormalCommand::Move(CursorMotion::Back)
        } else if c == 'j' {
            NormalCommand::Move(CursorMotion::Down)
        } else if c == 'k' {
            NormalCommand::Move(CursorMotion::Up)
        } else if c == 'l' {
            NormalCommand::Move(CursorMotion::Forward)
        } else if c == '0' {
            NormalCommand::Move(CursorMotion::Head)
        } else if c == '$' {
            NormalCommand::Move(CursorMotion::End)
        } else if c == 'g' {
            NormalCommand::Move(CursorMotion::Top)
        } else if c == 'G' {
            NormalCommand::Move(CursorMotion::Bottom)
        } else if c == 'd' {
            NormalCommand::DeleteToHead
        } else if c == 'u' {
            NormalCommand::Undo
        } else if c == 'r' && key.ctrl {
            NormalCommand::Redo
        } else {
            NormalCommand::Nothing
        },
        KeyCode::Left => NormalCommand::Move(CursorMotion::Back),
        KeyCode::Down => NormalCommand::Move(CursorMotion::Down),
        KeyCode::Up => NormalCommand::Move(CursorMotion::Up),
        KeyCode::Right => NormalCommand::Move(CursorMotion::Forward),
        _ => NormalCommand::Nothing,
    }
}

impl NormalCommand {
    /// The command leaves normal mode for insert mode.
    pub open spec fn enters_insert(self) -> bool {
        self is Insert || self is Append || self is AppendAtEnd || self is InsertAtHead
            || self is OpenBelow || self is OpenAbove
    }

    /// The buffer after the command.
    pub open spec fn applied(self, b: BufferView) -> BufferView {
        match self {
            NormalCommand::Append => b.moved(CursorMotion::Forward),
            NormalCommand::AppendAtEnd => b.moved(CursorMotion::End),
            NormalCommand::InsertAtHead => b.moved(CursorMotion::Head),
            NormalCommand::OpenBelow => b.moved(CursorMotion::End).split(),
            NormalCommand::OpenAbove => b.moved(CursorMotion::Head).split().moved(
                CursorMotion::Up,
            ),
            NormalCommand::Move(motion) => b.moved(motion),
            NormalCommand::DeleteToHead => b.head_deleted(),
            NormalCommand::Undo => b.undone(),
            NormalCommand::Redo => b.redone(),
            NormalCommand::Insert | NormalCommand::Nothing => b,
        }
    }
}

/// `post` differs from `pre` in the editing mode and the buffer at most.
pub open spec fn only_editing_changed(pre: AppState, post: AppState) -> bool {
    post == AppState {
        vim_mode: post.vim_mode,
        editor: EditorState { textarea: post.editor.textarea, ..pre.editor },
        ..pre
    }
}

/// The state after a key in normal mode: the mode becomes insert for the six keys that
/// enter it; the buffer is untouched by `i` and by keys outside the table, and is what
/// [`NormalCommand::applied`] says for the others; nothing else changes.
pub open spec fn normal_mode_step(pre: AppState, key: KeyEvent, post: AppState) -> bool {
    let command = normal_command(key);
    &&& only_editing_changed(pre, post)
    &&& post.vim_mode == if command.enters_insert() {
        VimMode::Insert
    } else {
        pre.vim_mode
    }
    &&& if command is Insert || command is Nothing {
        post.editor.textarea == pre.editor.textarea
    } else {
        post.editor.textarea@ == command.applied(pre.editor.textarea@)
    }
}

/// The buffer's key for a key code: the same key where the buffer has it, the null key
/// for the function keys and for keys that were not identified.
pub open spec fn buffer_key(code: KeyCode) -> Key {
    match code {
        KeyCode::Char(c) => Key::Char(c),
        KeyCode::Backspace => Key::Backspace,
        KeyCode::Enter => Key::Enter,
        KeyCode::Left => Key::Left,
        KeyCode::Right => Key::Right,
        KeyCode::Up => Key::Up,
        KeyCode::Down => Key::Down,
        KeyCode::Tab => Key::Tab,
        KeyCode::Delete => Key::Delete,
        KeyCode::Home => Key::Home,
        KeyCode::End => Key::End,
        KeyCode::PageUp => Key::PageUp,
        KeyCode::PageDown => Key::PageDown,
        KeyCode::Esc => Key::Esc,
        KeyCode::F(_) => Key::Null,
        KeyCode::Unidentified => Key::Null,
    }
}

/// The buffer's input for a key press: its key, with the same modifiers.
pub open spec fn buffer_input(key: KeyEvent) -> Input {
    Input { key: buffer_key(key.code), ctrl: key.ctrl, alt: key.alt, shift: key.shift }
}

/// The state after a key in insert mode: Esc goes back to normal mode and touches
/// nothing else; every other key is handed to the buffer as [`buffer_input`] gives it,
/// and the buffer then is what [`BufferView::after_input`] says wherever that input is
/// [`BufferView::foreseen`], and what [`BufferView::tab_may_leave`] allows after the
/// tab key. The mode stays, and nothing but the buffer changes.
pub open spec fn insert_mode_step(pre: AppState, key: KeyEvent, post: AppState) -> bool {
    if key.code == KeyCode::Esc {
        post == AppState { vim_mode: VimMode::Normal, ..pre }
    } else {
        let input = buffer_input(key);
        &&& only_editing_changed(pre, post)
        &&& post.vim_mode == pre.vim_mode
        &&& post.editor.textarea@.wf()
        &&& BufferView::foreseen(input) ==> post.editor.textarea@
            == pre.editor.textarea@.after_input(input)
        &&& BufferView::is_plain_tab(input) ==> pre.editor.textarea@.tab_may_leave(
            post.editor.textarea@,
        )
    }
}

/// The state after the editor has handled a key: the step of the current mode, and then
/// the dirty flag set to whether the buffer's text differs from the text as loaded.
pub open spec fn editor_step(pre: AppState, key: KeyEvent, post: AppState) -> bool {
    let before_flag = AppState { dirty: pre.dirty, ..post };
    &&& post.dirty == post.differs()
    &&& match pre.vim_mode {
        VimMode::Normal => normal_mode_step(pre, key, before_flag),
        VimMode::Insert => insert_mode_step(pre, key, before_flag),
    }
}

/// Handles a key press while the editor has the keyboard.
pub fn handle_keys(state: &mut AppState, key_event: KeyEvent)
    ensures
        editor_step(*old(state), key_event, *final(state)),
{
    match state.vim_mode {
        VimMode::Normal => handle_normal_mode(state, key_event),
        VimMode::Insert => handle_insert_mode(state, key_event),
    }
    let ghost mid = *state;
    state.check_dirty();
    assert(AppState { dirty: old(state).dirty, ..*state } == mid);
}

/// Handles a key press in normal mode.
pub fn handle_normal_mode(state: &mut AppState, key_event: KeyEvent)
    ensures
        normal_mode_step(*old(state), key_event, *final(state)),
{
    match key_event.code {
        KeyCode::Char('i') => {
            state.vim_mode = VimMode::Insert;
        },
        KeyCode::Char('a') => {
            state.vim_mode = VimMode::Insert;
            state.editor.textarea.move_cursor(CursorMotion::Forward);
        },
        KeyCode::Char('A') => {
            state.vim_mode = VimMode::Insert;
            state.editor.textarea.move_cursor(CursorMotion::End);
        },
        KeyCode::Char('I') => {
            state.vim_mode = VimMode::Insert;
            state.editor.textarea.move_cursor(CursorMotion::Head);
        },
        KeyCode::Char('o') => {
            state.vim_mode = VimMode::Insert;
            state.editor.textarea.move_cursor(CursorMotion::End);
            state.editor.textarea.insert_newline();
        },
        KeyCode::Char('O') => {
            state.vim_mode = VimMode::Insert;
            state.editor.textarea.move_cursor(CursorMotion::Head);
            state.editor.textarea.insert_newline();
            state.editor.textarea.move_cursor(CursorMotion::Up);
        },
        KeyCode::Char('h') | KeyCode::Left => {
            state.editor.textarea.move_cursor(CursorMotion::Back);
        },
        KeyCode::Char('j') | KeyCode::Down => {
            state.editor.textarea.move_cursor(CursorMotion::Down);
        },
        KeyCode::Char('k') | KeyCode::Up => {
            state.editor.textarea.move_cursor(CursorMotion::Up);
        },
        KeyCode::Char('l') | KeyCode::Right => {
            state.editor.textarea.move_cursor(CursorMotion::Forward);
        },
        KeyCode::Char('0') => {
            state.editor.textarea.move_cursor(CursorMotion::Head);
        },
        KeyCode::Char('$') => {
            state.editor.textarea.move_cursor(CursorMotion::End);
        },
        KeyCode::Char('g') => {
            state.editor.textarea.move_cursor(CursorMotion::Top);
        },
        KeyCode::Char('G') => {
            state.editor.textarea.move_cursor(CursorMotion::Bottom);
        },
        KeyCode::Char('d') => {
            state.editor.textarea.delete_line_by_head();
        },
        KeyCode::Char('u') => {
            state.editor.textarea.undo();
        },
        KeyCode::Char('r') => {
            if key_event.ctrl {
                state.editor.textarea.redo();
            }
        },
        _ => {},
    }
}

/// Handles a key press in insert mode.
pub fn handle_insert_mode(state: &mut AppState, key_event: KeyEvent)
    ensures
        insert_mode_step(*old(state), key_event, *final(state)),
{
    match key_event.code {
        KeyCode::Esc => {
            state.vim_mode = VimMode::Normal;
        },
        _ => {
            let input = convert_key_event_to_input(key_event);
            state.editor.textarea.input(input);
        },
    }
}

/// The buffer's input for a key press.
pub fn convert_key_event_to_input(key_event: KeyEvent) -> (input: Input)
    ensures
        input == buffer_input(key_event),
{
    Input {
        key: convert_keycode(key_event.code),
        ctrl: key_event.ctrl,
        alt: key_event.alt,
        shift: key_event.shift,
    }
}

/// The buffer's key for a key code.
pub fn convert_keycode(code: KeyCode) -> (key: Key)
    ensures
        key == buffer_key(code),
{
    match code {
        KeyCode::Char(c) => Key::Char(c),
        KeyCode::Backspace => Key::Backspace,
        KeyCode::Enter => Key::Enter,
        KeyCode::Left => Key::Left,
        KeyCode::Right => Key::Right,
        KeyCode::Up => Key::Up,
        KeyCode::Down => Key::Down,
        KeyCode::Tab => Key::Tab,
        KeyCode::Delete => Key::Delete,
        KeyCode::Home => Key::Home,
        KeyCode::End => Key::End,
        KeyCode::PageUp => Key::PageUp,
        KeyCode::PageDown => Key::PageDown,
        KeyCode::Esc => Key::Esc,
        _ => Key::Null,
    }
}

/// After every key that the editor handles, the dirty flag says whether the buffer's
/// text differs from the text as loaded; the text as loaded and the name of the loaded
/// file are never touched by a key, nor are the panes, the focus or the status line.
pub proof fn lemma_dirty_after_every_key(pre: AppState, key: KeyEvent, post: AppState)
    requires
        editor_step(pre, key, post),
    ensures
        post.dirty <==> post.editor.content() != post.editor.original_content@,
        post.editor.original_content == pre.editor.original_content,
        post.editor.current_file == pre.editor.current_file,
        post.focus == pre.focus,
        post.menu == pre.menu,
        post.file_list == pre.file_list,
        post.container_list == pre.container_list,
        post.status_message == pre.status_message,
{
}

/// A buffer in good order is in good order after every key that the editor handles.
pub proof fn lemma_editor_keeps_buffer_in_order(pre: AppState, key: KeyEvent, post: AppState)
    requires
        editor_step(pre, key, post),
        pre.editor.textarea@.wf(),
    ensures
        post.editor.textarea@.wf(),
{
    let b = pre.editor.textarea@;
    if pre.vim_mode == VimMode::Normal {
        let command = normal_command(key);
        lemma_moved_wf(b, CursorMotion::Forward, false);
        lemma_moved_wf(b, CursorMotion::End, false);
        lemma_moved_wf(b, CursorMotion::Head, false);
        lemma_split_wf(b.moved(CursorMotion::End));
        lemma_split_wf(b.moved(CursorMotion::Head));
        lemma_moved_wf(b.moved(CursorMotion::Head).split(), CursorMotion::Up, false);
        lemma_deletions_wf(b);
        lemma_history_wf(b);
        match command {
            NormalCommand::Move(motion) => {
                lemma_moved_wf(b, motion, false);
            },
            _ => {},
        }
    }
}

/// In normal mode `i` enters insert mode and leaves the editor as it is: the buffer is
/// the very same.
pub proof fn lemma_i_enters_insert(pre: AppState, key: KeyEvent, post: AppState)
    requires
        editor_step(pre, key, post),
        pre.vim_mode == VimMode::Normal,
        key.code == KeyCode::Char('i'),
    ensures
        post.vim_mode == VimMode::Insert,
        post.editor == pre.editor,
{
}

/// In insert mode a character typed without Ctrl or Alt, other than a line break, is
/// put in at the cursor and the mode stays: with nothing selected, the cursor's line is
/// the old one with the character at the cursor's column, every other line is
/// unchanged, and the cursor stands behind the new character.
pub proof fn lemma_typing_inserts_at_cursor(pre: AppState, key: KeyEvent, c: char, post: AppState)
    requires
        editor_step(pre, key, post),
        pre.vim_mode == VimMode::Insert,
        key.code == KeyCode::Char(c),
        !key.ctrl && !key.alt,
        c != '\n' && c != '\r',
        pre.editor.textarea@.wf(),
        pre.editor.textarea@.selected() is None,
    ensures
        post.vim_mode == VimMode::Insert,
        post.editor.textarea@.lines == pre.editor.textarea@.lines.update(
            pre.editor.textarea@.cursor.row,
            pre.editor.textarea@.line().take(pre.editor.textarea@.cursor.col).push(c)
                + pre.editor.textarea@.line().skip(pre.editor.textarea@.cursor.col),
        ),
        post.editor.textarea@.cursor == (Place {
            row: pre.editor.textarea@.cursor.row,
            col: pre.editor.textarea@.cursor.col + 1,
        }),
{
    lemma_typed_wf(pre.editor.textarea@, c);
}

/// An edit taken back leaves a clean buffer clean: where the buffer's text is the text
/// as loaded, typing a character or breaking the line in insert mode raises the dirty
/// flag, and backspace directly after it restores the text and lowers the flag again.
pub proof fn lemma_edit_taken_back_is_clean(
    start: AppState,
    edit: KeyEvent,
    edited: AppState,
    back: KeyEvent,
    restored: AppState,
)
    requires
        start.vim_mode == VimMode::Insert,
        start.editor.textarea@.wf(),
        start.editor.textarea@.selected() is None,
        !start.differs(),
        edit.code is Char || edit.code == KeyCode::Enter,
        !edit.ctrl && !edit.alt,
        back.code == KeyCode::Backspace,
        !back.ctrl && !back.alt,
        editor_step(start, edit, edited),
        editor_step(edited, back, restored),
    ensures
        restored.editor.textarea@.lines == start.editor.textarea@.lines,
        restored.editor.textarea@.cursor == start.editor.textarea@.cursor,
        !restored.dirty,
        restored.vim_mode == VimMode::Insert,
{
    let b = start.editor.textarea@;
    lemma_unselected_wf(b);
    lemma_backspace_takes_back_split(b);
    match edit.code {
        KeyCode::Char(c) => {
            lemma_backspace_takes_back_typing(b, c);
        },
        _ => {},
    }
}

/// An edit taken back by `u` leaves a clean buffer clean: where the buffer's text is the
/// text as loaded, typing a character or breaking the line in insert mode raises the
/// dirty flag, and after Esc the key `u` restores text and cursor and lowers the flag
/// again. Ctrl+`r` then brings the edit back, and with it the flag.
pub proof fn lemma_undo_takes_back_edit(
    start: AppState,
    edit: KeyEvent,
    edited: AppState,
    escape: KeyEvent,
    left: AppState,
    undo: KeyEvent,
    restored: AppState,
    redo: KeyEvent,
    repeated: AppState,
)
    requires
        start.vim_mode == VimMode::Insert,
        start.editor.textarea@.wf(),
        start.editor.textarea@.selected() is None,
        !start.differs(),
        edit.code is Char || edit.code == KeyCode::Enter,
        !edit.ctrl && !edit.alt,
        escape.code == KeyCode::Esc,
        undo.code == KeyCode::Char('u'),
        redo.code == KeyCode::Char('r') && redo.ctrl,
        editor_step(start, edit, edited),
        editor_step(edited, escape, left),
        editor_step(left, undo, restored),
        editor_step(restored, redo, repeated),
    ensures
        left.vim_mode == VimMode::Normal,
        left.editor.textarea == edited.editor.textarea,
        restored.editor.textarea@.lines == start.editor.textarea@.lines,
        restored.editor.textarea@.cursor == start.editor.textarea@.cursor,
        !restored.dirty,
        restored.vim_mode == VimMode::Normal,
        repeated.editor.textarea@.lines == edited.editor.textarea@.lines,
        repeated.editor.textarea@.cursor == edited.editor.textarea@.cursor,
        repeated.dirty == edited.dirty,
{
    let b = start.editor.textarea@;
    lemma_unselected_wf(b);
    lemma_split_wf(b);
    lemma_edited_by_key(b, edit);
}

/// In normal mode `u` takes back the last edit in force and Ctrl+`r` repeats it: after
/// the two keys the text is what it was, and so is the dirty flag where it told the
/// truth before. Where no edit is in force, `u` changes nothing.
pub proof fn lemma_redo_repeats_what_undo_took_back(
    start: AppState,
    undo: KeyEvent,
    taken_back: AppState,
    redo: KeyEvent,
    repeated: AppState,
)
    requires
        start.vim_mode == VimMode::Normal,
        start.editor.textarea@.wf(),
        undo.code == KeyCode::Char('u'),
        redo.code == KeyCode::Char('r') && redo.ctrl,
        editor_step(start, undo, taken_back),
        editor_step(taken_back, redo, repeated),
    ensures
        start.editor.textarea@.done <= 0 ==> taken_back.editor.textarea@
            == start.editor.textarea@,
        start.editor.textarea@.done > 0 ==> {
            &&& taken_back.editor.textarea@.lines == start.editor.textarea@.edits[
                start.editor.textarea@.done - 1
            ].before.lines
            &&& repeated.editor.textarea@.lines == start.editor.textarea@.lines
            &&& repeated.editor.textarea@.done == start.editor.textarea@.done
            &&& repeated.dirty == start.differs()
        },
{
    lemma_history_wf(start.editor.textarea@);
}

/// What typing a character or breaking the line in a buffer with nothing selected
/// leaves can be taken back to the text and cursor as they were, and repeated.
proof fn lemma_edited_by_key(b: BufferView, edit: KeyEvent)
    requires
        b.wf(),
        b.selected() is None,
        edit.code is Char || edit.code == KeyCode::Enter,
        !edit.ctrl && !edit.alt,
    ensures
        b.after_input(buffer_input(edit)).undone().lines == b.lines,
        b.after_input(buffer_input(edit)).undone().cursor == b.cursor,
        b.after_input(buffer_input(edit)).undone().redone().lines == b.after_input(
            buffer_input(edit),
        ).lines,
        b.after_input(buffer_input(edit)).undone().redone().cursor == b.after_input(
            buffer_input(edit),
        ).cursor,
{
    lemma_unselected_wf(b);
    let u = b.unselected();
    let row = u.cursor.row;
    let col = u.cursor.col;
    let broken = seq![u.line().take(col), u.line().skip(col)];
    lemma_replace_rows(u.lines, row, row + 1, broken);
    let broken_lines = replace_rows(u.lines, row, row + 1, broken);
    assert(broken_lines[row + 1] == broken[1]);
    lemma_edited(u, broken_lines, Place { row: row + 1, col: 0 }, u.cursor);
    match edit.code {
        KeyCode::Char(c) => {
            let typed = seq![u.line().take(col).push(c) + u.line().skip(col)];
            lemma_replace_rows(u.lines, row, row + 1, typed);
            let typed_lines = replace_rows(u.lines, row, row + 1, typed);
            assert(typed_lines[row] == typed[0]);
            lemma_edited(u, typed_lines, Place { row, col: col + 1 }, u.cursor);
        },
        _ => {},
    }
}

/// In insert mode Esc goes back to normal mode and leaves the editor as it is: the
/// buffer is the very same.
pub proof fn lemma_escape_leaves_insert(pre: AppState, key: KeyEvent, post: AppState)
    requires
        editor_step(pre, key, post),
        pre.vim_mode == VimMode::Insert,
        key.code == KeyCode::Esc,
    ensures
        post.vim_mode == VimMode::Normal,
        post.editor == pre.editor,
{
}

/// The request that saves the buffer: its whole text under the name of the loaded
/// file; none where no file is loaded.
pub open spec fn save_request_of(state: AppState) -> Option<RequestView> {
    match state.editor.current_file {
        Some(filename) => Some(
            RequestView::SaveFile { filename: filename@, content: state.editor.content() },
        ),
        None => None,
    }
}

/// The request that saves the buffer as the loaded file.
pub fn save_request(state: &AppState) -> (request: Option<Request>)
    ensures
        request.deep_view() == save_request_of(*state),
{
    match &state.editor.current_file {
        Some(filename) => Some(
            Request::SaveFile { filename: filename.clone(), content: state.editor.get_content() },
        ),
        None => None,
    }
}

/// What the status line says after the file `filename` was saved.
pub open spec fn saved_text(filename: Seq<char>) -> Seq<char> {
    "Saved: "@ + filename
}

/// What the status line says after a file failed to save.
pub open spec fn save_error_text(error: ApiError) -> Seq<char> {
    "Error saving: "@ + error.message@
}

/// The state after the answer to a request to save `filename`: the save or the failure
/// is reported, and nothing else changes. In particular the buffer and the dirty flag
/// stay as they are.
pub open spec fn save_result_applied(
    pre: AppState,
    filename: Seq<char>,
    outcome: Result<(), ApiError>,
    post: AppState,
) -> bool {
    &&& post == AppState { status_message: post.status_message, ..pre }
    &&& post.status_message.deep_view() == Some(
        match outcome {
            Ok(_) => saved_text(filename),
            Err(error) => save_error_text(error),
        },
    )
}

/// Applies the answer to a request to save the file `filename`.
pub fn apply_save_result(state: &mut AppState, filename: String, outcome: Result<(), ApiError>)
    ensures
        save_result_applied(*old(state), filename@, outcome, *final(state)),
{
    match outcome {
        Ok(_) => {
            state.set_status(followed_by("Saved: ", filename.as_str()));
        },
        Err(error) => {
            state.set_status(followed_by("Error saving: ", error.message.as_str()));
        },
    }
}

} // verus!
