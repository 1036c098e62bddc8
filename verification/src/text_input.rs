//! Single-line text input shared by dialogs (mkdir, archive, new file). The cursor is a
//! character index, so multi-byte characters count as one position.
use vstd::prelude::*;
use vstd::string::{StrSliceExecFns, StringExecFns};

use crate::keys::{KeyCode, KeyModifiers};
use crate::strutil::string_push;

verus! {

/// Single-line text input: content and cursor position (characters before the cursor).
pub struct TextInputState {
    pub text: String,
    pub cursor: usize,
}

/// The text after inserting `c` at the cursor (at the end when the cursor is past it).
pub open spec fn text_after_insert(text: Seq<char>, cursor: int, c: char) -> Seq<char> {
    let k = if cursor < text.len() { cursor } else { text.len() as int };
    text.take(k).push(c) + text.skip(k)
}

/// The text after deleting the character before the cursor; a cursor past the end of the
/// text clears it.
pub open spec fn text_after_backspace(text: Seq<char>, cursor: int) -> Seq<char> {
    if cursor == 0 {
        text
    } else if cursor - 1 < text.len() {
        text.take(cursor - 1) + text.skip(cursor)
    } else {
        Seq::empty()
    }
}

/// The text after inserting `s` at the cursor (at the end when the cursor is past it).
pub open spec fn text_after_insert_str(text: Seq<char>, cursor: int, s: Seq<char>) -> Seq<char> {
    let k = if cursor < text.len() { cursor } else { text.len() as int };
    text.take(k) + s + text.skip(k)
}

/// The text after deleting the character at the cursor (unchanged when the cursor is at or past
/// the end).
pub open spec fn text_after_delete(text: Seq<char>, cursor: int) -> Seq<char> {
    if 0 <= cursor < text.len() {
        text.take(cursor) + text.skip(cursor + 1)
    } else {
        text
    }
}

impl TextInputState {
    /// Input holding `initial` with the cursor at its end.
    pub fn new(initial: String) -> (r: Self)
        ensures
            r.text@ == initial@,
            r.cursor == initial@.len(),
    {
        let cursor = initial.as_str().unicode_len();
        TextInputState { text: initial, cursor }
    }

    /// Inserts `c` at the cursor and moves the cursor past it.
    pub fn insert_char(self, c: char) -> (r: Self)
        requires
            self.cursor < usize::MAX,
        ensures
            r.text@ == text_after_insert(self.text@, self.cursor as int, c),
            r.cursor == self.cursor + 1,
    {
        let len = self.text.as_str().unicode_len();
        let k = if self.cursor < len { self.cursor } else { len };
        let mut text = self.text.as_str().substring_char(0, k).to_owned();
        string_push(&mut text, c);
        text.append(self.text.as_str().substring_char(k, len));
        proof {
            assert(self.text@.subrange(0, k as int) =~= self.text@.take(k as int));
            assert(self.text@.subrange(k as int, len as int) =~= self.text@.skip(k as int));
        }
        TextInputState { text, cursor: self.cursor + 1 }
    }

    /// Inserts `s` at the cursor and moves the cursor past it.
    pub fn insert_str(self, s: &str) -> (r: Self)
        requires
            self.cursor + s@.len() < usize::MAX,
        ensures
            r.text@ == text_after_insert_str(self.text@, self.cursor as int, s@),
            r.cursor == self.cursor + s@.len(),
    {
        let ghost text = self.text@;
        let ghost k: int = if self.cursor < text.len() { self.cursor as int } else { text.len() as int };
        let n = s.unicode_len();
        let start = self.cursor;
        let mut t = self;
        let mut j: usize = 0;
        while j < n
            invariant
                n == s@.len(),
                j <= n,
                start + n < usize::MAX,
                0 <= k <= text.len(),
                k == (if start < text.len() { start as int } else { text.len() as int }),
                t.text@ == text.take(k) + s@.take(j as int) + text.skip(k),
                t.cursor == start + j,
            decreases n - j,
        {
            let c = s.get_char(j);
            let ghost before = t.text@;
            proof {
                assert(before.len() == text.len() + j);
                assert(before.take(k + j) =~= text.take(k) + s@.take(j as int));
                assert(before.skip(k + j) =~= text.skip(k));
                assert(s@.take(j + 1) =~= s@.take(j as int).push(c));
            }
            t = t.insert_char(c);
            j = j + 1;
            proof {
                assert(t.text@ =~= text.take(k) + s@.take(j as int) + text.skip(k));
            }
        }
        proof {
            assert(s@.take(n as int) =~= s@);
        }
        t
    }

    /// Deletes the character before the cursor and moves the cursor back one position.
    pub fn backspace(self) -> (r: Self)
        ensures
            r.text@ == text_after_backspace(self.text@, self.cursor as int),
            r.cursor == if self.cursor == 0 { 0 } else { self.cursor - 1 },
    {
        if self.cursor == 0 {
            return self;
        }
        let cursor = self.cursor - 1;
        let len = self.text.as_str().unicode_len();
        if cursor < len {
            let mut text = self.text.as_str().substring_char(0, cursor).to_owned();
            text.append(self.text.as_str().substring_char(cursor + 1, len));
            proof {
                assert(self.text@.subrange(0, cursor as int) =~= self.text@.take(cursor as int));
                assert(self.text@.subrange(cursor + 1, len as int) =~= self.text@.skip(cursor + 1));
            }
            TextInputState { text, cursor }
        } else {
            TextInputState { text: String::new(), cursor }
        }
    }

    /// Deletes the character at the cursor; the cursor stays.
    pub fn delete_forward(self) -> (r: Self)
        ensures
            r.text@ == text_after_delete(self.text@, self.cursor as int),
            r.cursor == self.cursor,
    {
        let len = self.text.as_str().unicode_len();
        if self.cursor < len {
            let mut text = self.text.as_str().substring_char(0, self.cursor).to_owned();
            text.append(self.text.as_str().substring_char(self.cursor + 1, len));
            proof {
                assert(self.text@.subrange(0, self.cursor as int) =~= self.text@.take(self.cursor as int));
                assert(self.text@.subrange(self.cursor + 1, len as int) =~= self.text@.skip(self.cursor + 1));
            }
            TextInputState { text, cursor: self.cursor }
        } else {
            self
        }
    }

    /// Moves the cursor one position left (not below 0).
    pub fn move_left(self) -> (r: Self)
        ensures
            r.text@ == self.text@,
            r.cursor == if self.cursor == 0 { 0 } else { self.cursor - 1 },
    {
        TextInputState { cursor: self.cursor.saturating_sub(1), ..self }
    }

    /// Moves the cursor one position right (not past the end).
    pub fn move_right(self) -> (r: Self)
        requires
            self.cursor < usize::MAX,
        ensures
            r.text@ == self.text@,
            r.cursor == if self.cursor + 1 <= self.text@.len() { self.cursor + 1 } else { self.text@.len() as int },
    {
        let len = self.text.as_str().unicode_len();
        let c = if self.cursor + 1 <= len { self.cursor + 1 } else { len };
        TextInputState { cursor: c, ..self }
    }

    /// Moves the cursor to the start.
    pub fn move_home(self) -> (r: Self)
        ensures
            r.text@ == self.text@,
            r.cursor == 0,
    {
        TextInputState { cursor: 0, ..self }
    }

    /// Moves the cursor to the end.
    pub fn move_end(self) -> (r: Self)
        ensures
            r.text@ == self.text@,
            r.cursor == self.text@.len(),
    {
        let len = self.text.as_str().unicode_len();
        TextInputState { cursor: len, ..self }
    }

    /// Character column of the cursor for rendering.
    pub fn cursor_column(&self) -> (r: usize)
        ensures
            r == self.cursor,
    {
        self.cursor
    }
}

/// The cursor lies within the text (at most just after its last character).
pub open spec fn cursor_within(text: Seq<char>, cursor: int) -> bool {
    0 <= cursor <= text.len()
}

/// Editing keeps the cursor within the text: from a cursor within the text, inserting,
/// backspace and the four cursor moves all leave it within the new text.
pub proof fn law_edits_keep_cursor_within_text(text: Seq<char>, cursor: int, c: char)
    requires
        cursor_within(text, cursor),
    ensures
        cursor_within(text_after_insert(text, cursor, c), cursor + 1),
        cursor_within(text_after_backspace(text, cursor), if cursor == 0 { 0 } else { cursor - 1 }),
        cursor_within(text, if cursor == 0 { 0 } else { cursor - 1 }),
        cursor_within(text, if cursor + 1 <= text.len() { cursor + 1 } else { text.len() as int }),
        cursor_within(text, 0),
        cursor_within(text, text.len() as int),
{
    assert(text_after_insert(text, cursor, c).len() == text.len() + 1);
    if cursor > 0 {
        assert(text_after_backspace(text, cursor).len() == text.len() - 1);
    }
}

/// Inserting a character and deleting it again with backspace gives back the text and cursor.
pub proof fn law_insert_then_backspace(text: Seq<char>, cursor: int, c: char)
    requires
        0 <= cursor <= text.len(),
    ensures
        text_after_backspace(text_after_insert(text, cursor, c), cursor + 1) == text,
{
    let t = text_after_insert(text, cursor, c);
    assert(t.take(cursor) =~= text.take(cursor));
    assert(t.skip(cursor + 1) =~= text.skip(cursor));
    assert(text.take(cursor) + text.skip(cursor) =~= text);
}

/// Result of handling a key in a single-input dialog (one text field + Create + Cancel).
#[derive(Clone, Copy, PartialEq, Eq, Structural)]
pub enum SingleInputKeyResult {
    /// State was updated (focus or text); redraw, no app action.
    Continue,
    /// User confirmed (Enter with focus on input or Create).
    Confirm,
    /// User cancelled (Esc or Ctrl+C or Enter with focus on Cancel).
    Cancel,
    /// Ctrl+O: suspend to shell.
    Suspend,
}

/// Number of focus targets: 0 = text input, 1 = primary button (Create), 2 = Cancel.
pub const FOCUS_COUNT: usize = 3;

/// Printable ASCII: what `char::is_ascii() && !char::is_control()` accepts.
pub open spec fn printable_ascii(c: char) -> bool {
    32 <= c as u32 && c as u32 <= 126
}

pub fn is_printable_ascii(c: char) -> (r: bool)
    ensures
        r == printable_ascii(c),
{
    let u = c as u32;
    32 <= u && u <= 126
}

/// The key after mapping a `'\t'` character to Tab.
pub open spec fn normalize_key(code: KeyCode) -> KeyCode {
    match code {
        KeyCode::Char(c) => if c == '\t' { KeyCode::Tab } else { code },
        _ => code,
    }
}

/// Outcome of a key in a single-input dialog: new text state, new focus and result.
pub open spec fn single_input_outcome(text: Seq<char>, cursor: int, focus: int, code: KeyCode, control: bool) -> (Seq<char>, int, int, SingleInputKeyResult) {
    let unchanged = (text, cursor, focus, SingleInputKeyResult::Continue);
    match normalize_key(code) {
        KeyCode::Tab | KeyCode::Down => (text, cursor, (focus + 1) % 3, SingleInputKeyResult::Continue),
        KeyCode::BackTab | KeyCode::Up => (text, cursor, (focus + 2) % 3, SingleInputKeyResult::Continue),
        KeyCode::Enter => (text, cursor, focus, if focus == 2 { SingleInputKeyResult::Cancel } else { SingleInputKeyResult::Confirm }),
        KeyCode::Esc => (text, cursor, focus, SingleInputKeyResult::Cancel),
        KeyCode::Char(c) => if control && c == 'o' {
            (text, cursor, focus, SingleInputKeyResult::Suspend)
        } else if control && c == 'c' {
            (text, cursor, focus, SingleInputKeyResult::Cancel)
        } else if focus == 0 && printable_ascii(c) {
            (text_after_insert(text, cursor, c), cursor + 1, focus, SingleInputKeyResult::Continue)
        } else {
            unchanged
        },
        KeyCode::Backspace => if focus == 0 {
            (text_after_backspace(text, cursor), if cursor == 0 { 0 } else { cursor - 1 }, focus, SingleInputKeyResult::Continue)
        } else {
            unchanged
        },
        KeyCode::Left => if focus == 0 {
            (text, if cursor == 0 { 0 } else { cursor - 1 }, focus, SingleInputKeyResult::Continue)
        } else {
            unchanged
        },
        KeyCode::Right => if focus == 0 {
            (text, if cursor + 1 <= text.len() { cursor + 1 } else { text.len() as int }, focus, SingleInputKeyResult::Continue)
        } else {
            unchanged
        },
        _ => unchanged,
    }
}

/// Key handler for a dialog with one text field and Create / Cancel buttons:
/// (input, focus) + key → (new input, new focus, result).
pub fn handle_single_input_key(
    input: TextInputState,
    focus: usize,
    code: KeyCode,
    modifiers: KeyModifiers,
) -> (r: (TextInputState, usize, SingleInputKeyResult))
    requires
        focus < usize::MAX - 2,
        input.cursor < usize::MAX,
    ensures
        (r.0.text@, r.0.cursor as int, r.1 as int, r.2) == single_input_outcome(input.text@, input.cursor as int, focus as int, code, modifiers.control),
{
    let code = match code {
        KeyCode::Char(c) => if c == '\t' { KeyCode::Tab } else { code },
        other => other,
    };
    match code {
        KeyCode::Tab | KeyCode::Down => {
            let new_focus = (focus + 1) % FOCUS_COUNT;
            (input, new_focus, SingleInputKeyResult::Continue)
        },
        KeyCode::BackTab | KeyCode::Up => {
            let new_focus = (focus + FOCUS_COUNT - 1) % FOCUS_COUNT;
            (input, new_focus, SingleInputKeyResult::Continue)
        },
        KeyCode::Enter => {
            let result = if focus == 2 {
                SingleInputKeyResult::Cancel
            } else {
                SingleInputKeyResult::Confirm
            };
            (input, focus, result)
        },
        KeyCode::Esc => (input, focus, SingleInputKeyResult::Cancel),
        KeyCode::Char(c) => {
            if modifiers.control {
                if c == 'o' {
                    return (input, focus, SingleInputKeyResult::Suspend);
                }
                if c == 'c' {
                    return (input, focus, SingleInputKeyResult::Cancel);
                }
            }
            if focus == 0 && is_printable_ascii(c) {
                (input.insert_char(c), focus, SingleInputKeyResult::Continue)
            } else {
                (input, focus, SingleInputKeyResult::Continue)
            }
        },
        KeyCode::Backspace => if focus == 0 {
            (input.backspace(), focus, SingleInputKeyResult::Continue)
        } else {
            (input, focus, SingleInputKeyResult::Continue)
        },
        KeyCode::Left => if focus == 0 {
            (input.move_left(), focus, SingleInputKeyResult::Continue)
        } else {
            (input, focus, SingleInputKeyResult::Continue)
        },
        KeyCode::Right => if focus == 0 {
            (input.move_right(), focus, SingleInputKeyResult::Continue)
        } else {
            (input, focus, SingleInputKeyResult::Continue)
        },
        _ => (input, focus, SingleInputKeyResult::Continue),
    }
}

} // verus!
