//! The editor pane: the buffer, the file it was loaded from, and the text as loaded.

use crate::buffer::{place_of, BufferView, TextBuffer};
use crate::text::{join_lines, joined, lemma_pieces_rejoin, pieces_of, split_at_char};
use vstd::prelude::*;

verus! {

/// What a buffer holds at one moment, as plain values: enough to show it.
#[derive(Debug, PartialEq, Eq)]
pub struct BufferSnapshot {
    /// The text, line by line.
    pub lines: Vec<String>,
    /// Line and column of the cursor, the column counted in characters.
    pub cursor: (usize, usize),
    /// Line and column at which the running selection started, if one is running. The
    /// selected text lies between this position and the cursor.
    pub anchor: Option<(usize, usize)>,
}

impl BufferSnapshot {
    /// The snapshot shows the buffer `buffer`.
    pub open spec fn shows(self, buffer: BufferView) -> bool {
        &&& self.lines.deep_view() == buffer.lines
        &&& place_of(self.cursor) == buffer.cursor
        &&& match self.anchor {
            Some(at) => buffer.anchor == Some(place_of(at)),
            None => buffer.anchor is None,
        }
    }
}

/// The buffer being edited, the name of the loaded file, and the content as it was
/// when the file was loaded.
pub struct EditorState {
    pub textarea: TextBuffer,
    pub current_file: Option<String>,
    pub original_content: String,
}

impl EditorState {
    /// The buffer's text: its lines with a line feed between each two.
    pub open spec fn content(&self) -> Seq<char> {
        joined(self.textarea@.lines)
    }

    /// An editor with an empty buffer and no file loaded.
    pub fn new() -> (editor: Self)
        ensures
            editor.textarea@ == BufferView::opened(Seq::empty()),
            editor.current_file is None,
            editor.original_content@ == Seq::<char>::empty(),
    {
        let textarea = TextBuffer::blank();
        assert(textarea@.edits =~= Seq::empty());
        EditorState { textarea, current_file: None, original_content: String::new() }
    }

    /// The lines of a text as the buffer holds them: the pieces between its line feeds.
    /// A text that ends in a line feed has an empty last line, and a carriage return
    /// stays in its line.
    pub open spec fn loaded_lines(text: Seq<char>) -> Seq<Seq<char>> {
        pieces_of(text, '\n')
    }

    /// Loads `content` as the file `filename`: the buffer then holds the lines of
    /// `content` and nothing of what it held before, with the cursor at the very
    /// beginning, so that the buffer's text is `content`; and `content` is remembered
    /// as the text to compare against.
    pub fn load_content(&mut self, filename: String, content: String)
        ensures
            final(self).textarea@ == BufferView::opened(Self::loaded_lines(content@)),
            final(self).content() == content@,
            final(self).current_file.deep_view() == Some(filename@),
            final(self).original_content@ == content@,
    {
        proof {
            lemma_pieces_rejoin(content@);
        }
        let lines = split_at_char(content.as_str(), '\n');
        self.current_file = Some(filename);
        self.original_content = content;
        self.textarea = TextBuffer::new(lines);
        assert(self.textarea@.edits =~= Seq::empty());
    }

    /// What the buffer holds right now.
    pub fn snapshot(&self) -> (shown: BufferSnapshot)
        ensures
            shown.shows(self.textarea@),
    {
        let cursor = self.textarea.cursor();
        let anchor = match self.textarea.selection_range() {
            Some((from, to)) => if from.0 == cursor.0 && from.1 == cursor.1 {
                Some(to)
            } else {
                Some(from)
            },
            None => None,
        };
        BufferSnapshot { lines: self.textarea.lines(), cursor, anchor }
    }

    /// The buffer's text.
    pub fn get_content(&self) -> (text: String)
        ensures
            text@ == self.content(),
    {
        let lines = self.textarea.lines();
        join_lines(&lines)
    }
}

/// The buffer's text right after a load is the loaded text itself, whatever that text
/// is, and no line of the buffer holds a line feed.
pub proof fn lemma_loaded_text_is_kept(text: Seq<char>)
    ensures
        joined(BufferView::opened(EditorState::loaded_lines(text)).lines) == text,
        forall|i: int|
            0 <= i < EditorState::loaded_lines(text).len() ==> !(
            #[trigger] EditorState::loaded_lines(text)[i]).contains('\n'),
{
    lemma_pieces_rejoin(text);
}

} // verus!
