use config_manager::buffer::{Input, Key};
use config_manager::events::editor::{
    apply_save_result, convert_key_event_to_input, convert_keycode, handle_insert_mode,
    handle_keys, handle_normal_mode, save_request,
};
use config_manager::keys::{KeyCode, KeyEvent};
use config_manager::state::{AppState, BufferSnapshot, EditorState, Pane, VimMode};

fn key(code: KeyCode) -> KeyEvent {
    KeyEvent::plain(code)
}

fn ch(c: char) -> KeyEvent {
    KeyEvent::plain(KeyCode::Char(c))
}

fn ctrl(c: char) -> KeyEvent {
    KeyEvent { code: KeyCode::Char(c), ctrl: true, alt: false, shift: false }
}

fn strings(lines: &[&str]) -> Vec<String> {
    lines.iter().map(|line| line.to_string()).collect()
}

fn loaded(content: &str) -> AppState {
    let mut state = AppState::new();
    state.focus = Pane::Editor;
    state.editor.load_content("a.toml".to_string(), content.to_string());
    state
}

fn loaded_at(content: &str, row: usize, col: usize) -> AppState {
    let mut state = loaded(content);
    for _ in 0..row {
        handle_keys(&mut state, ch('j'));
    }
    handle_keys(&mut state, ch('0'));
    for _ in 0..col {
        handle_keys(&mut state, ch('l'));
    }
    assert_eq!(state.editor.snapshot().cursor, (row, col));
    assert_eq!(state.vim_mode, VimMode::Normal);
    state
}

fn cursor(state: &AppState) -> (usize, usize) {
    state.editor.snapshot().cursor
}

#[test]
fn new_state_starts_at_menu_with_everything_empty() {
    let state = AppState::new();
    assert_eq!(state.focus, Pane::Menu);
    assert_eq!(state.vim_mode, VimMode::Normal);
    assert_eq!(state.menu.selected_index(), 0);
    assert!(state.file_list.is_empty());
    assert!(state.container_list.is_empty());
    assert_eq!(state.editor.current_file, None);
    assert_eq!(state.editor.original_content, "");
    assert_eq!(state.editor.get_content(), "");
    assert_eq!(state.editor.snapshot().lines, strings(&[""]));
    assert!(!state.dirty);
    assert_eq!(state.status_message, None);
}

#[test]
fn status_is_set_and_cleared() {
    let mut state = AppState::new();
    state.set_status("Loaded file list".to_string());
    assert_eq!(state.status_message, Some("Loaded file list".to_string()));
    state.set_status("again".to_string());
    assert_eq!(state.status_message, Some("again".to_string()));
    state.clear_status();
    assert_eq!(state.status_message, None);
    assert_eq!(state.focus, Pane::Menu);
}

#[test]
fn new_editor_is_empty() {
    let editor = EditorState::new();
    assert_eq!(editor.current_file, None);
    assert_eq!(editor.original_content, "");
    assert_eq!(editor.get_content(), "");
    assert_eq!(editor.snapshot().cursor, (0, 0));
}

#[test]
fn load_content_fills_buffer_and_snapshot() {
    let mut editor = EditorState::new();
    editor.load_content("app.toml".to_string(), "a=1\r\nb=2\n".to_string());
    assert_eq!(editor.current_file, Some("app.toml".to_string()));
    assert_eq!(editor.original_content, "a=1\r\nb=2\n");
    assert_eq!(editor.snapshot().lines, strings(&["a=1\r", "b=2", ""]));
    assert_eq!(editor.get_content(), "a=1\r\nb=2\n");
    assert_eq!(editor.snapshot().cursor, (0, 0));
    assert_eq!(editor.snapshot().anchor, None);
}

#[test]
fn loaded_text_is_the_buffer_text_whatever_it_is() {
    let texts = [
        "",
        "a=1",
        "a=1\n",
        "\n",
        "\n\n",
        "a\r\nb\r\n",
        "\r",
        "a\rb\n\nc",
        "ünïcödé\n\tζ\n",
        "no line feed at all",
    ];
    let mut state = AppState::new();
    for text in texts {
        state.editor.load_content("any.conf".to_string(), text.to_string());
        assert_eq!(state.editor.get_content(), text);
        assert_eq!(state.editor.original_content, text);
        let expected: Vec<String> = text.split('\n').map(|line| line.to_string()).collect();
        assert_eq!(state.editor.snapshot().lines, expected);
        state.dirty = true;
        state.check_dirty();
        assert!(!state.dirty);
    }
}

#[test]
fn load_over_an_edited_buffer_leaves_nothing_of_it() {
    let mut state = loaded_at("old text\nmore", 1, 2);
    handle_keys(&mut state, ch('i'));
    handle_keys(&mut state, ch('x'));
    handle_keys(&mut state, KeyEvent { code: KeyCode::Left, ctrl: false, alt: false, shift: true });
    assert!(state.dirty);
    state.editor.load_content("new.toml".to_string(), "k=v\n".to_string());
    assert_eq!(state.editor.current_file, Some("new.toml".to_string()));
    assert_eq!(state.editor.original_content, "k=v\n");
    assert_eq!(state.editor.get_content(), "k=v\n");
    assert_eq!(
        state.editor.snapshot(),
        BufferSnapshot { lines: strings(&["k=v", ""]), cursor: (0, 0), anchor: None }
    );
    state.check_dirty();
    assert!(!state.dirty);
    state.vim_mode = VimMode::Normal;
    handle_keys(&mut state, ch('u'));
    assert_eq!(state.editor.get_content(), "k=v\n");
    assert!(!state.dirty);
}

#[test]
fn load_content_of_empty_text_gives_one_empty_line() {
    let mut editor = EditorState::new();
    editor.load_content("empty.conf".to_string(), String::new());
    assert_eq!(editor.snapshot().lines, strings(&[""]));
    assert_eq!(editor.get_content(), "");
}

#[test]
fn load_content_replaces_previous_buffer() {
    let mut editor = EditorState::new();
    editor.load_content("a.toml".to_string(), "one\ntwo\nthree".to_string());
    editor.load_content("b.toml".to_string(), "four".to_string());
    assert_eq!(editor.current_file, Some("b.toml".to_string()));
    assert_eq!(editor.original_content, "four");
    assert_eq!(editor.get_content(), "four");
}

#[test]
fn check_dirty_compares_buffer_with_snapshot() {
    let mut state = loaded("a=1\nb=2");
    state.check_dirty();
    assert!(!state.dirty);
    state.dirty = true;
    state.check_dirty();
    assert!(!state.dirty);
    state.editor.original_content = "a=1".to_string();
    state.check_dirty();
    assert!(state.dirty);
}

#[test]
fn text_ending_in_line_feed_stays_clean_until_edited() {
    let mut state = loaded("a=1\n");
    assert!(!state.dirty);
    state.check_dirty();
    assert!(!state.dirty);
    handle_keys(&mut state, ch('l'));
    assert_eq!(state.editor.get_content(), "a=1\n");
    assert!(!state.dirty);
    handle_keys(&mut state, ch('G'));
    assert_eq!(state.editor.snapshot().cursor, (1, 0));
    assert!(!state.dirty);
}

#[test]
fn enter_after_loading_a_line_feed_is_an_edit() {
    let mut state = loaded("\n");
    assert_eq!(state.editor.get_content(), "\n");
    handle_keys(&mut state, ch('i'));
    assert!(!state.dirty);
    handle_keys(&mut state, key(KeyCode::Enter));
    assert_eq!(state.editor.get_content(), "\n\n");
    assert!(state.dirty);
    assert_eq!(state.editor.original_content, "\n");
    assert_eq!(state.editor.current_file, Some("a.toml".to_string()));
}

#[test]
fn plain_text_stays_clean_under_motions() {
    let mut state = loaded("a=1\nb=2");
    for c in ['l', 'j', 'h', 'k', '$', '0', 'G', 'g', 'x', 'u'] {
        handle_keys(&mut state, ch(c));
        assert!(!state.dirty);
        assert_eq!(state.editor.get_content(), "a=1\nb=2");
    }
    assert_eq!(state.vim_mode, VimMode::Normal);
}

#[test]
fn normal_i_enters_insert_without_touching_buffer() {
    let mut state = loaded_at("abc\ndef", 1, 1);
    handle_keys(&mut state, ch('i'));
    assert_eq!(state.vim_mode, VimMode::Insert);
    assert_eq!(state.editor.snapshot().lines, strings(&["abc", "def"]));
    assert_eq!(cursor(&state), (1, 1));
    assert!(!state.dirty);
}

#[test]
fn normal_a_advances_one_column_then_inserts() {
    let mut state = loaded_at("abc", 0, 1);
    handle_keys(&mut state, ch('a'));
    assert_eq!(state.vim_mode, VimMode::Insert);
    assert_eq!(cursor(&state), (0, 2));
    handle_keys(&mut state, ch('x'));
    assert_eq!(state.editor.get_content(), "abxc");
}

#[test]
fn normal_capital_a_goes_to_end_of_line() {
    let mut state = loaded_at("abc\ndef", 0, 1);
    handle_keys(&mut state, ch('A'));
    assert_eq!(state.vim_mode, VimMode::Insert);
    assert_eq!(cursor(&state), (0, 3));
    assert_eq!(state.editor.get_content(), "abc\ndef");
}

#[test]
fn normal_capital_i_goes_to_head_of_line() {
    let mut state = loaded_at("abc\ndef", 1, 2);
    handle_keys(&mut state, ch('I'));
    assert_eq!(state.vim_mode, VimMode::Insert);
    assert_eq!(cursor(&state), (1, 0));
    assert_eq!(state.editor.get_content(), "abc\ndef");
}

#[test]
fn normal_o_opens_line_below() {
    let mut state = loaded_at("abc\ndef", 0, 1);
    handle_keys(&mut state, ch('o'));
    assert_eq!(state.vim_mode, VimMode::Insert);
    assert_eq!(state.editor.snapshot().lines, strings(&["abc", "", "def"]));
    assert_eq!(cursor(&state), (1, 0));
    assert!(state.dirty);
}

#[test]
fn normal_capital_o_opens_line_above() {
    let mut state = loaded_at("abc\ndef", 1, 2);
    handle_keys(&mut state, ch('O'));
    assert_eq!(state.vim_mode, VimMode::Insert);
    assert_eq!(state.editor.snapshot().lines, strings(&["abc", "", "def"]));
    assert_eq!(cursor(&state), (1, 0));
    let mut state = loaded_at("abc", 0, 0);
    handle_keys(&mut state, ch('O'));
    assert_eq!(state.editor.snapshot().lines, strings(&["", "abc"]));
    assert_eq!(cursor(&state), (0, 0));
}

#[test]
fn normal_motions_move_the_cursor() {
    let mut state = loaded_at("abcd\nef\nghij", 0, 3);
    let steps = [
        (ch('j'), (1, 2)),
        (ch('j'), (2, 2)),
        (ch('l'), (2, 3)),
        (ch('$'), (2, 4)),
        (ch('l'), (2, 4)),
        (ch('k'), (1, 2)),
        (ch('h'), (1, 1)),
        (ch('0'), (1, 0)),
        (ch('h'), (0, 4)),
        (ch('G'), (2, 4)),
        (ch('g'), (0, 4)),
        (key(KeyCode::Left), (0, 3)),
        (key(KeyCode::Down), (1, 2)),
        (key(KeyCode::Right), (2, 0)),
        (key(KeyCode::Up), (1, 0)),
    ];
    for (event, expected) in steps {
        handle_keys(&mut state, event);
        assert_eq!(cursor(&state), expected);
        assert_eq!(state.vim_mode, VimMode::Normal);
        assert_eq!(state.editor.get_content(), "abcd\nef\nghij");
        assert!(!state.dirty);
    }
}

#[test]
fn normal_d_deletes_from_head_to_cursor() {
    let mut state = loaded_at("abcde\nxyz", 0, 2);
    handle_keys(&mut state, ch('d'));
    assert_eq!(state.editor.snapshot().lines, strings(&["cde", "xyz"]));
    assert_eq!(cursor(&state), (0, 0));
    assert!(state.dirty);
    assert_eq!(state.vim_mode, VimMode::Normal);
    handle_keys(&mut state, ch('j'));
    handle_keys(&mut state, ch('d'));
    assert_eq!(state.editor.snapshot().lines, strings(&["cdexyz"]));
    assert_eq!(cursor(&state), (0, 3));
}

#[test]
fn normal_undo_restores_text_and_clears_dirty() {
    let mut state = loaded_at("abcde", 0, 2);
    handle_keys(&mut state, ch('d'));
    assert!(state.dirty);
    handle_keys(&mut state, ch('u'));
    assert_eq!(state.editor.get_content(), "abcde");
    assert!(!state.dirty);
    handle_keys(&mut state, ctrl('r'));
    assert_eq!(state.editor.get_content(), "cde");
    assert!(state.dirty);
    handle_keys(&mut state, ch('r'));
    assert_eq!(state.editor.get_content(), "cde");
    handle_keys(&mut state, ch('u'));
    handle_keys(&mut state, ch('u'));
    assert_eq!(state.editor.get_content(), "abcde");
    assert!(!state.dirty);
}

#[test]
fn normal_mode_ignores_keys_outside_the_table() {
    let mut state = loaded_at("abc\ndef", 1, 1);
    let events = [
        ch('x'),
        ch('r'),
        ch('z'),
        key(KeyCode::Enter),
        key(KeyCode::Esc),
        key(KeyCode::Tab),
        key(KeyCode::Backspace),
        key(KeyCode::F(5)),
        key(KeyCode::Home),
        key(KeyCode::Unidentified),
    ];
    for event in events {
        handle_keys(&mut state, event);
        assert_eq!(state.vim_mode, VimMode::Normal);
        assert_eq!(state.editor.get_content(), "abc\ndef");
        assert_eq!(cursor(&state), (1, 1));
    }
}

#[test]
fn normal_mode_keys_ignore_modifiers() {
    let mut state = loaded_at("abc", 0, 1);
    handle_keys(&mut state, ctrl('i'));
    assert_eq!(state.vim_mode, VimMode::Insert);
    let mut state = loaded_at("abc", 0, 1);
    handle_keys(&mut state, KeyEvent { code: KeyCode::Left, ctrl: true, alt: true, shift: true });
    assert_eq!(cursor(&state), (0, 0));
}

#[test]
fn insert_mode_types_characters_at_the_cursor() {
    let mut state = loaded_at("abc", 0, 1);
    handle_keys(&mut state, ch('i'));
    handle_keys(&mut state, ch('x'));
    assert_eq!(state.vim_mode, VimMode::Insert);
    assert_eq!(state.editor.get_content(), "axbc");
    assert_eq!(cursor(&state), (0, 2));
    assert!(state.dirty);
    handle_keys(&mut state, ch('i'));
    assert_eq!(state.editor.get_content(), "axibc");
    assert_eq!(state.vim_mode, VimMode::Insert);
}

#[test]
fn insert_mode_escape_returns_to_normal_without_touching_buffer() {
    let mut state = loaded_at("abc", 0, 2);
    handle_keys(&mut state, ch('i'));
    handle_keys(&mut state, key(KeyCode::Esc));
    assert_eq!(state.vim_mode, VimMode::Normal);
    assert_eq!(state.editor.get_content(), "abc");
    assert_eq!(cursor(&state), (0, 2));
    assert!(!state.dirty);
    assert_eq!(state.focus, Pane::Editor);
}

#[test]
fn insert_mode_forwards_control_keys() {
    let mut state = loaded_at("abc\ndef", 1, 0);
    handle_keys(&mut state, ch('i'));
    handle_keys(&mut state, key(KeyCode::Backspace));
    assert_eq!(state.editor.get_content(), "abcdef");
    assert_eq!(cursor(&state), (0, 3));
    handle_keys(&mut state, key(KeyCode::Enter));
    assert_eq!(state.editor.get_content(), "abc\ndef");
    assert!(!state.dirty);
    handle_keys(&mut state, key(KeyCode::Delete));
    assert_eq!(state.editor.get_content(), "abc\nef");
    handle_keys(&mut state, key(KeyCode::End));
    assert_eq!(cursor(&state), (1, 2));
    handle_keys(&mut state, key(KeyCode::Home));
    assert_eq!(cursor(&state), (1, 0));
    handle_keys(&mut state, key(KeyCode::Up));
    assert_eq!(cursor(&state), (0, 0));
    handle_keys(&mut state, key(KeyCode::Right));
    assert_eq!(cursor(&state), (0, 1));
    handle_keys(&mut state, key(KeyCode::Down));
    assert_eq!(cursor(&state), (1, 1));
    handle_keys(&mut state, key(KeyCode::Left));
    assert_eq!(cursor(&state), (1, 0));
    assert_eq!(state.vim_mode, VimMode::Insert);
}

#[test]
fn insert_mode_ignores_function_and_unknown_keys() {
    let mut state = loaded_at("abc", 0, 1);
    handle_keys(&mut state, ch('i'));
    for code in [KeyCode::F(1), KeyCode::F(12), KeyCode::Unidentified] {
        handle_keys(&mut state, key(code));
        assert_eq!(state.editor.get_content(), "abc");
        assert_eq!(cursor(&state), (0, 1));
        assert_eq!(state.vim_mode, VimMode::Insert);
    }
}

#[test]
fn typing_over_a_selection_replaces_it() {
    let mut state = loaded_at("abcdef", 0, 1);
    handle_keys(&mut state, ch('i'));
    let shift_right = KeyEvent { code: KeyCode::Right, ctrl: false, alt: false, shift: true };
    handle_keys(&mut state, shift_right);
    handle_keys(&mut state, shift_right);
    handle_keys(&mut state, ch('X'));
    assert_eq!(state.editor.get_content(), "aXdef");
    assert_eq!(cursor(&state), (0, 2));
}

#[test]
fn handlers_leave_the_dirty_flag_to_handle_keys() {
    let mut state = loaded_at("abc", 0, 2);
    handle_normal_mode(&mut state, ch('d'));
    assert_eq!(state.editor.get_content(), "c");
    assert!(!state.dirty);
    state.vim_mode = VimMode::Insert;
    handle_insert_mode(&mut state, ch('x'));
    assert_eq!(state.editor.get_content(), "xc");
    assert!(!state.dirty);
    handle_insert_mode(&mut state, key(KeyCode::Esc));
    assert_eq!(state.vim_mode, VimMode::Normal);
    assert!(!state.dirty);
    handle_keys(&mut state, key(KeyCode::F(9)));
    assert!(state.dirty);
}

#[test]
fn editor_keys_touch_nothing_outside_the_editor() {
    let mut state = loaded_at("abc", 0, 0);
    state.set_status("Loaded: a.toml".to_string());
    state.file_list.set_files(strings(&["a.toml", "b.toml"]));
    state.file_list.next();
    for event in [ch('i'), ch('x'), key(KeyCode::Esc), ch('d'), ch('u'), ch('o')] {
        handle_keys(&mut state, event);
        assert_eq!(state.focus, Pane::Editor);
        assert_eq!(state.status_message, Some("Loaded: a.toml".to_string()));
        assert_eq!(state.file_list.selected_index(), 1);
        assert_eq!(state.menu.selected_index(), 0);
        assert_eq!(state.editor.current_file, Some("a.toml".to_string()));
        assert_eq!(state.editor.original_content, "abc");
    }
}

#[test]
fn key_codes_become_buffer_keys() {
    let table = [
        (KeyCode::Char('q'), Key::Char('q')),
        (KeyCode::Backspace, Key::Backspace),
        (KeyCode::Enter, Key::Enter),
        (KeyCode::Left, Key::Left),
        (KeyCode::Right, Key::Right),
        (KeyCode::Up, Key::Up),
        (KeyCode::Down, Key::Down),
        (KeyCode::Tab, Key::Tab),
        (KeyCode::Delete, Key::Delete),
        (KeyCode::Home, Key::Home),
        (KeyCode::End, Key::End),
        (KeyCode::PageUp, Key::PageUp),
        (KeyCode::PageDown, Key::PageDown),
        (KeyCode::Esc, Key::Esc),
        (KeyCode::F(2), Key::Null),
        (KeyCode::Unidentified, Key::Null),
    ];
    for (code, expected) in table {
        assert_eq!(convert_keycode(code), expected);
    }
}

#[test]
fn key_events_keep_their_modifiers() {
    for ctrl in [false, true] {
        for alt in [false, true] {
            for shift in [false, true] {
                let event = KeyEvent { code: KeyCode::Char('w'), ctrl, alt, shift };
                assert_eq!(
                    convert_key_event_to_input(event),
                    Input { key: Key::Char('w'), ctrl, alt, shift }
                );
            }
        }
    }
}

#[test]
fn save_request_carries_file_name_and_buffer_text() {
    let state = AppState::new();
    assert_eq!(save_request(&state), None);
    let mut state = loaded("a=1\nb=2");
    handle_keys(&mut state, ch('G'));
    handle_keys(&mut state, ch('o'));
    handle_keys(&mut state, ch('c'));
    assert_eq!(
        save_request(&state),
        Some(config_manager::api::Request::SaveFile {
            filename: "a.toml".to_string(),
            content: "a=1\nb=2\nc".to_string(),
        })
    );
}

#[test]
fn save_result_changes_only_the_status() {
    let mut state = loaded("a=1");
    handle_keys(&mut state, ch('x'));
    let dirty = state.dirty;
    apply_save_result(&mut state, "a.toml".to_string(), Ok(()));
    assert_eq!(state.status_message, Some("Saved: a.toml".to_string()));
    assert_eq!(state.dirty, dirty);
    assert_eq!(state.editor.get_content(), "a=1");
    assert_eq!(state.editor.original_content, "a=1");
}

#[test]
fn edit_taken_back_by_backspace_is_clean_again() {
    let mut state = loaded_at("a=1\nb=2", 1, 1);
    handle_keys(&mut state, ch('i'));
    assert!(!state.dirty);
    handle_keys(&mut state, ch('x'));
    assert!(state.dirty);
    handle_keys(&mut state, key(KeyCode::Backspace));
    assert!(!state.dirty);
    assert_eq!(state.editor.get_content(), "a=1\nb=2");
    handle_keys(&mut state, key(KeyCode::Enter));
    assert!(state.dirty);
    handle_keys(&mut state, key(KeyCode::Backspace));
    assert!(!state.dirty);
    assert_eq!(state.vim_mode, VimMode::Insert);
}

#[test]
fn undo_takes_back_a_typed_character_and_redo_repeats_it() {
    let mut state = loaded_at("abc\ndef", 1, 1);
    handle_keys(&mut state, ch('i'));
    handle_keys(&mut state, ch('x'));
    assert_eq!(state.editor.get_content(), "abc\ndxef");
    assert!(state.dirty);
    handle_keys(&mut state, key(KeyCode::Esc));
    handle_keys(&mut state, ch('$'));
    handle_keys(&mut state, ch('u'));
    assert_eq!(state.editor.get_content(), "abc\ndef");
    assert_eq!(state.editor.snapshot().cursor, (1, 1));
    assert!(!state.dirty);
    handle_keys(&mut state, ch('g'));
    handle_keys(&mut state, ctrl('r'));
    assert_eq!(state.editor.get_content(), "abc\ndxef");
    assert_eq!(state.editor.snapshot().cursor, (1, 2));
    assert!(state.dirty);
    handle_keys(&mut state, ctrl('r'));
    assert_eq!(state.editor.get_content(), "abc\ndxef");
    assert_eq!(state.editor.snapshot().cursor, (1, 2));
}

#[test]
fn undo_and_redo_are_not_each_other() {
    let mut state = loaded_at("abc", 0, 0);
    handle_keys(&mut state, ch('i'));
    handle_keys(&mut state, ch('x'));
    handle_keys(&mut state, key(KeyCode::Esc));
    handle_keys(&mut state, ctrl('r'));
    assert_eq!(state.editor.get_content(), "xabc");
    handle_keys(&mut state, ch('u'));
    assert_eq!(state.editor.get_content(), "abc");
    handle_keys(&mut state, ch('u'));
    assert_eq!(state.editor.get_content(), "abc");
    handle_keys(&mut state, ctrl('r'));
    assert_eq!(state.editor.get_content(), "xabc");
}
