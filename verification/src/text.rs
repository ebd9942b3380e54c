//! Text as lines: cutting a text into its lines and putting lines together again.

use vstd::prelude::*;
use vstd::string::StringExecFns;

verus! {

/// `String::push` appends the given character to the end of the string.
pub assume_specification[ String::push ](s: &mut String, ch: char)
    ensures
        final(s)@ == old(s)@.push(ch),
;

/// `String::pop` removes the last character and returns it, or returns `None` and
/// leaves the string as it is where the string is empty.
pub assume_specification[ String::pop ](s: &mut String) -> (last: Option<char>)
    ensures
        old(s)@.len() == 0 ==> last.is_none() && final(s)@ == old(s)@,
        old(s)@.len() > 0 ==> last == Some(old(s)@.last()) && final(s)@ == old(s)@.drop_last(),
;

/// `==` on `str`: two string slices are equal where they hold the same characters.
pub assume_specification[ <str as PartialEq>::eq ](a: &str, b: &str) -> (same: bool)
    ensures
        same == (a@ == b@),
;

/// `line` without the carriage return at its end, if it ends in one.
pub open spec fn without_carriage_return(line: Seq<char>) -> Seq<char> {
    if line.len() > 0 && line.last() == '\r' {
        line.drop_last()
    } else {
        line
    }
}

/// The state of a scan through `text`: the lines that a line feed has closed, each
/// without the carriage return that may precede the line feed, and the characters
/// read since the last line feed.
pub open spec fn scanned(text: Seq<char>) -> (Seq<Seq<char>>, Seq<char>)
    decreases text.len(),
{
    if text.len() == 0 {
        (Seq::empty(), Seq::empty())
    } else {
        let (done, open) = scanned(text.drop_last());
        if text.last() == '\n' {
            (done.push(without_carriage_return(open)), Seq::empty())
        } else {
            (done, open.push(text.last()))
        }
    }
}

/// The lines of `text`. A line ends at a line feed, or at a carriage return directly
/// followed by one; neither belongs to the line. What follows the last line feed is a
/// line of its own unless it is empty, so a text may or may not end in a line feed.
pub open spec fn lines_of(text: Seq<char>) -> Seq<Seq<char>> {
    let (done, open) = scanned(text);
    if open.len() > 0 {
        done.push(open)
    } else {
        done
    }
}

/// `lines` put together with one line feed between each two of them.
pub open spec fn joined(lines: Seq<Seq<char>>) -> Seq<char>
    decreases lines.len(),
{
    if lines.len() == 0 {
        Seq::empty()
    } else if lines.len() == 1 {
        lines[0]
    } else {
        joined(lines.drop_last()) + seq!['\n'] + lines.last()
    }
}

/// No line of a text holds a line feed: neither the lines that a scan has closed nor
/// what it has read since.
pub proof fn lemma_lines_hold_no_line_feed(text: Seq<char>)
    ensures
        forall|i: int|
            0 <= i < scanned(text).0.len() ==> !(#[trigger] scanned(text).0[i]).contains('\n'),
        !scanned(text).1.contains('\n'),
        forall|i: int|
            0 <= i < lines_of(text).len() ==> !(#[trigger] lines_of(text)[i]).contains('\n'),
    decreases text.len(),
{
    if text.len() > 0 {
        lemma_lines_hold_no_line_feed(text.drop_last());
        let (done, open) = scanned(text.drop_last());
        if text.last() == '\n' {
            let closed = without_carriage_return(open);
            assert(!closed.contains('\n')) by {
                if closed.contains('\n') {
                    let k = choose|k: int| 0 <= k < closed.len() && closed[k] == '\n';
                    assert(open[k] == '\n');
                }
            }
            assert forall|i: int| 0 <= i < scanned(text).0.len() implies !(#[trigger] scanned(
                text,
            ).0[i]).contains('\n') by {
                if i < done.len() {
                    assert(scanned(text).0[i] == done[i]);
                }
            }
        } else {
            assert(!open.push(text.last()).contains('\n')) by {
                if open.push(text.last()).contains('\n') {
                    let k = choose|k: int|
                        0 <= k < open.push(text.last()).len() && open.push(text.last())[k] == '\n';
                    if k < open.len() {
                        assert(open[k] == '\n');
                    }
                }
            }
        }
    }
    let (done, open) = scanned(text);
    assert forall|i: int| 0 <= i < lines_of(text).len() implies !(#[trigger] lines_of(
        text,
    )[i]).contains('\n') by {
        if i < done.len() {
            assert(lines_of(text)[i] == done[i]);
        }
    }
}

/// No carriage return in `text` stands directly before a line feed.
pub open spec fn free_of_crlf(text: Seq<char>) -> bool {
    forall|i: int| 0 <= i < text.len() - 1 ==> !(text[i] == '\r' && #[trigger] text[i + 1] == '\n')
}

/// `text` does not end in a line feed.
pub open spec fn ends_open(text: Seq<char>) -> bool {
    text.len() > 0 ==> text.last() != '\n'
}

/// Joining lines of which the last grows by one character grows the joined text by
/// that character.
pub proof fn lemma_joined_push(lines: Seq<Seq<char>>, last: Seq<char>, c: char)
    ensures
        joined(lines.push(last.push(c))) == joined(lines.push(last)).push(c),
{
    let grown = lines.push(last.push(c));
    let before = lines.push(last);
    assert(grown.drop_last() =~= lines);
    assert(before.drop_last() =~= lines);
    if lines.len() == 0 {
    } else {
        assert(joined(grown) =~= joined(before).push(c));
    }
}

/// Joining lines followed by one more, empty line ends the joined text with a line
/// feed.
pub proof fn lemma_joined_push_empty(lines: Seq<Seq<char>>)
    requires
        lines.len() > 0,
    ensures
        joined(lines.push(Seq::empty())) == joined(lines).push('\n'),
{
    let grown = lines.push(Seq::<char>::empty());
    assert(grown.drop_last() =~= lines);
    assert(joined(grown) =~= joined(lines).push('\n'));
}

/// A scan loses nothing of a text in which no carriage return stands before a line
/// feed: the closed lines and the open rest, joined, are the text again. The open rest
/// is empty exactly where the text is empty or ends in a line feed.
pub proof fn lemma_scan_rejoins(text: Seq<char>)
    requires
        free_of_crlf(text),
    ensures
        joined(scanned(text).0.push(scanned(text).1)) == text,
        scanned(text).1.len() > 0 <==> text.len() > 0 && text.last() != '\n',
        scanned(text).1.len() > 0 ==> scanned(text).1.last() == text.last(),
    decreases text.len(),
{
    if text.len() == 0 {
        assert(scanned(text).0.push(scanned(text).1) =~= seq![Seq::<char>::empty()]);
    } else {
        let front = text.drop_last();
        assert(free_of_crlf(front)) by {
            assert forall|i: int| 0 <= i < front.len() - 1 implies !(front[i] == '\r'
                && #[trigger] front[i + 1] == '\n') by {
                assert(text[i + 1] == front[i + 1]);
            }
        }
        lemma_scan_rejoins(front);
        let (done, open) = scanned(front);
        assert(text =~= front.push(text.last()));
        if text.last() == '\n' {
            if open.len() > 0 {
                assert(front.last() == text[front.len() - 1]);
                assert(text[(front.len() - 1) + 1] == '\n');
                assert(open.last() != '\r');
            }
            assert(without_carriage_return(open) == open);
            lemma_joined_push_empty(done.push(open));
        } else {
            lemma_joined_push(done, open, text.last());
        }
    }
}

/// The lines of a text in which no carriage return stands before a line feed and which
/// does not end in a line feed, joined, are that text again. An empty text has no
/// lines.
pub proof fn lemma_lines_rejoin(text: Seq<char>)
    requires
        free_of_crlf(text),
        ends_open(text),
    ensures
        joined(lines_of(text)) == text,
        lines_of(text).len() == 0 <==> text.len() == 0,
{
    lemma_scan_rejoins(text);
}

/// Puts `lines` together, separated by line feeds.
pub fn join_lines(lines: &Vec<String>) -> (text: String)
    ensures
        text@ == joined(lines.deep_view()),
{
    let mut text = String::new();
    let mut i: usize = 0;
    while i < lines.len()
        invariant
            i <= lines.len(),
            text@ == joined(lines.deep_view().take(i as int)),
        decreases lines.len() - i,
    {
        let ghost before = lines.deep_view().take(i as int);
        let ghost now = lines.deep_view().take(i + 1);
        assert(now.drop_last() =~= before);
        assert(now.last() == lines[i as int]@);
        if i > 0 {
            text.push('\n');
        }
        text.append(lines[i].as_str());
        assert(text@ =~= joined(now));
        i += 1;
    }
    assert(lines.deep_view().take(lines.len() as int) =~= lines.deep_view());
    text
}

/// `prefix` followed by `rest`.
pub fn followed_by(prefix: &str, rest: &str) -> (text: String)
    ensures
        text@ == prefix@ + rest@,
{
    let mut text = prefix.to_owned();
    text.append(rest);
    text
}

/// `count` spaces.
pub open spec fn spaces(count: nat) -> Seq<char> {
    Seq::new(count, |i: int| ' ')
}

/// `text` filled up with spaces at its end to `width` characters; a longer text stays
/// as it is.
pub open spec fn padded(text: Seq<char>, width: nat) -> Seq<char> {
    if text.len() >= width {
        text
    } else {
        text + spaces((width - text.len()) as nat)
    }
}

/// Fills `text` up with spaces at its end to `width` characters.
pub fn pad_right(text: &str, width: usize) -> (filled: String)
    ensures
        filled@ == padded(text@, width as nat),
{
    let mut filled = text.to_owned();
    let length = text.unicode_len();
    let mut i: usize = length;
    while i < width
        invariant
            length == text@.len(),
            length <= i,
            length < width ==> i <= width,
            length >= width ==> i == length,
            filled@ == text@ + spaces((i - length) as nat),
        decreases width - i,
    {
        filled.push(' ');
        assert(filled@ =~= text@ + spaces((i + 1 - length) as nat));
        i += 1;
    }
    assert(filled@ =~= padded(text@, width as nat));
    filled
}

/// The first `count` characters of `text`, or all of it where it is shorter.
pub fn first_chars(text: &str, count: usize) -> (head: String)
    ensures
        head@ == if text@.len() <= count {
            text@
        } else {
            text@.take(count as int)
        },
{
    let length = text.unicode_len();
    if length <= count {
        text.to_owned()
    } else {
        text.substring_char(0, count).to_owned()
    }
}

/// The characters of `text`.
pub fn chars_of(text: &str) -> (chars: Vec<char>)
    ensures
        chars@ == text@,
{
    let mut chars: Vec<char> = Vec::new();
    for c in it: text.chars()
        invariant
            it.seq() == text@,
            chars@ == text@.take(it.index() as int),
    {
        chars.push(c);
        assert(chars@ =~= text@.take(it.index() + 1));
    }
    assert(text@.take(text@.len() as int) =~= text@);
    chars
}

/// `text` ends with `suffix`.
pub open spec fn ends_with(text: Seq<char>, suffix: Seq<char>) -> bool {
    text.len() >= suffix.len() && text.skip(text.len() - suffix.len()) == suffix
}

/// Whether `text` ends with `suffix`.
pub fn has_suffix(text: &Vec<char>, suffix: &str) -> (found: bool)
    ensures
        found == ends_with(text@, suffix@),
{
    let tail = chars_of(suffix);
    if text.len() < tail.len() {
        return false;
    }
    let start = text.len() - tail.len();
    let mut i: usize = 0;
    while i < tail.len()
        invariant
            tail@ == suffix@,
            start + tail.len() == text.len(),
            i <= tail.len(),
            forall|j: int| 0 <= j < i ==> text[start + j] == tail[j],
        decreases tail.len() - i,
    {
        if text[start + i] != tail[i] {
            assert(text@.skip(text@.len() - suffix@.len())[i as int] == text[start + i]);
            assert(suffix@[i as int] == tail[i as int]);
            return false;
        }
        i += 1;
    }
    assert(text@.skip(start as int) =~= tail@);
    true
}

/// The pieces of `text` between the occurrences of `separator`, scanned from the
/// left: the pieces that a separator has ended, and the piece that is still open.
pub open spec fn pieces_scanned(text: Seq<char>, separator: char) -> (Seq<Seq<char>>, Seq<char>)
    decreases text.len(),
{
    if text.len() == 0 {
        (Seq::empty(), Seq::empty())
    } else {
        let (done, open) = pieces_scanned(text.drop_last(), separator);
        if text.last() == separator {
            (done.push(open), Seq::empty())
        } else {
            (done, open.push(text.last()))
        }
    }
}

/// The pieces of `text` between the occurrences of `separator`: one more than there
/// are separators, empty pieces included.
pub open spec fn pieces_of(text: Seq<char>, separator: char) -> Seq<Seq<char>> {
    let (done, open) = pieces_scanned(text, separator);
    done.push(open)
}

/// The pieces of a text, with the separator put between each two of them again, are
/// the text: cutting at a character loses nothing. No piece holds the separator.
pub proof fn lemma_pieces_rejoin(text: Seq<char>)
    ensures
        joined(pieces_of(text, '\n')) == text,
        pieces_of(text, '\n').len() > 0,
        forall|i: int|
            0 <= i < pieces_of(text, '\n').len() ==> !(#[trigger] pieces_of(
                text,
                '\n',
            )[i]).contains('\n'),
    decreases text.len(),
{
    if text.len() == 0 {
        assert(pieces_of(text, '\n') =~= seq![Seq::<char>::empty()]);
    } else {
        let front = text.drop_last();
        lemma_pieces_rejoin(front);
        let (done, open) = pieces_scanned(front, '\n');
        assert(text =~= front.push(text.last()));
        assert(forall|i: int| 0 <= i < done.len() ==> done[i] == pieces_of(front, '\n')[i]);
        assert(open == pieces_of(front, '\n')[done.len() as int]);
        if text.last() == '\n' {
            lemma_joined_push_empty(done.push(open));
            assert(!Seq::<char>::empty().contains('\n'));
        } else {
            lemma_joined_push(done, open, text.last());
            assert(!open.push(text.last()).contains('\n')) by {
                if open.push(text.last()).contains('\n') {
                    let k = choose|k: int|
                        0 <= k < open.push(text.last()).len() && open.push(text.last())[k] == '\n';
                    if k < open.len() {
                        assert(open[k] == '\n');
                    }
                }
            }
        }
        assert forall|i: int| 0 <= i < pieces_of(text, '\n').len() implies !(#[trigger] pieces_of(
            text,
            '\n',
        )[i]).contains('\n') by {
            if i < done.len() {
                assert(pieces_of(text, '\n')[i] == done[i]);
            }
        }
    }
}

/// Cuts `text` at every occurrence of `separator`.
pub fn split_at_char(text: &str, separator: char) -> (pieces: Vec<String>)
    ensures
        pieces.deep_view() == pieces_of(text@, separator),
{
    let mut pieces: Vec<String> = Vec::new();
    let mut open = String::new();
    for c in it: text.chars()
        invariant
            it.seq() == text@,
            pieces_scanned(text@.take(it.index() as int), separator) == (
                pieces.deep_view(),
                open@,
            ),
    {
        proof {
            let k = it.index() as int;
            assert(text@.take(k + 1).drop_last() =~= text@.take(k));
            assert(text@.take(k + 1).last() == c);
        }
        let ghost done = pieces.deep_view();
        if c == separator {
            pieces.push(open);
            assert(pieces.deep_view() =~= done.push(open@));
            open = String::new();
        } else {
            open.push(c);
        }
    }
    assert(text@.take(text@.len() as int) =~= text@);
    let ghost done = pieces.deep_view();
    pieces.push(open);
    assert(pieces.deep_view() =~= done.push(open@));
    pieces
}

/// Cuts `content` into its lines.
pub fn split_lines(content: &str) -> (lines: Vec<String>)
    ensures
        lines.deep_view() == lines_of(content@),
{
    let mut lines: Vec<String> = Vec::new();
    let mut open = String::new();
    for c in it: content.chars()
        invariant
            it.seq() == content@,
            scanned(content@.take(it.index() as int)) == (lines.deep_view(), open@),
    {
        proof {
            let k = it.index() as int;
            assert(content@.take(k + 1).drop_last() =~= content@.take(k));
            assert(content@.take(k + 1).last() == c);
        }
        let ghost done = lines.deep_view();
        let ghost pending = open@;
        if c == '\n' {
            match open.pop() {
                Some(last) => {
                    if last != '\r' {
                        open.push(last);
                        assert(open@ =~= pending);
                    }
                },
                None => {},
            }
            assert(open@ == without_carriage_return(pending));
            lines.push(open);
            assert(lines.deep_view() =~= done.push(without_carriage_return(pending)));
            open = String::new();
        } else {
            open.push(c);
        }
    }
    assert(content@.take(content@.len() as int) =~= content@);
    let ghost before = lines.deep_view();
    if open.as_str().unicode_len() > 0 {
        lines.push(open);
        assert(lines.deep_view() =~= before.push(open@));
    }
    lines
}

} // verus!
