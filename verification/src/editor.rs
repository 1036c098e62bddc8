//! Embedded editor: the choices of its "Save changes?" dialog and the syntax language chosen
//! from a file's extension.
use vstd::prelude::*;

use crate::app_state::AppState;
use crate::file_ops::{path_file_name, path_file_name_of};
use crate::dialog_layout::{centered_content, centered_dialog};
use crate::dialogs::help_dialog::area_fits;
use crate::keys::{KeyCode, Rect};
use crate::text_input::{TextInputState, text_after_insert, text_after_backspace};
use crate::find_dialog::{lowercase_of, str_to_lowercase};
use crate::strutil::str_eq;
use crate::subshell::{chars_match_at, occurs_at, str_chars};

verus! {

#[derive(Debug, Clone, Copy, PartialEq, Eq, Structural)]
pub enum EditorConfirmChoice {
    Save,
    Discard,
    Cancel,
}

/// The index of the last '.' in the text at or before `i - 1`.
pub open spec fn last_dot_before(s: Seq<char>, i: int) -> Option<int>
    decreases i,
{
    if i <= 0 || i > s.len() {
        None
    } else if s[i - 1] == '.' {
        Some(i - 1)
    } else {
        last_dot_before(s, i - 1)
    }
}

/// The extension of a file name: what follows its last '.', except for "..", a name without a
/// '.', and a name whose only '.' is its first character.
pub open spec fn extension_of_name(name: Seq<char>) -> Option<Seq<char>> {
    if name == seq!['.', '.'] {
        None
    } else {
        match last_dot_before(name, name.len() as int) {
            None => None,
            Some(i) => if i == 0 { None } else { Some(name.skip(i + 1)) },
        }
    }
}

/// The extension of the last component of a path (empty when there is none).
pub open spec fn path_extension(path: Seq<char>) -> Seq<char> {
    match path_file_name_of(path) {
        Some(name) => match extension_of_name(name) {
            Some(e) => e,
            None => Seq::empty(),
        },
        None => Seq::empty(),
    }
}

/// The editor's language name for a lower-cased extension.
pub open spec fn lang_for_ext(e: Seq<char>) -> Seq<char> {
    if e == "rs"@ {
        "rust"@
    } else if e == "py"@ {
        "python"@
    } else if e == "js"@ || e == "mjs"@ || e == "cjs"@ {
        "javascript"@
    } else if e == "ts"@ || e == "mts"@ || e == "cts"@ {
        "typescript"@
    } else if e == "go"@ {
        "go"@
    } else if e == "c"@ || e == "h"@ {
        "c"@
    } else if e == "cpp"@ || e == "cc"@ || e == "cxx"@ || e == "hpp"@ {
        "cpp"@
    } else if e == "html"@ || e == "htm"@ {
        "html"@
    } else if e == "css"@ {
        "css"@
    } else if e == "json"@ {
        "json"@
    } else if e == "toml"@ {
        "toml"@
    } else if e == "yaml"@ || e == "yml"@ {
        "yaml"@
    } else if e == "md"@ {
        "markdown"@
    } else if e == "sh"@ || e == "bash"@ {
        "bash"@
    } else {
        "plain"@
    }
}

fn extension(name: &str) -> (r: Option<String>)
    ensures
        match r {
            Some(e) => extension_of_name(name@) == Some(e@),
            None => extension_of_name(name@) is None,
        },
{
    let n = name.unicode_len();
    if n == 2 && name.get_char(0) == '.' && name.get_char(1) == '.' {
        assert(name@ =~= seq!['.', '.']);
        return None;
    }
    assert(name@ != seq!['.', '.']) by {
        if name@ == seq!['.', '.'] {
            assert(name@[0] == '.' && name@[1] == '.');
        }
    }
    let mut i: usize = n;
    while i > 0
        invariant
            n == name@.len(),
            i <= n,
            last_dot_before(name@, n as int) == last_dot_before(name@, i as int),
            name@ != seq!['.', '.'],
        decreases i,
    {
        if name.get_char(i - 1) == '.' {
            if i - 1 == 0 {
                return None;
            }
            let e = name.substring_char(i, n).to_owned();
            assert(e@ =~= name@.skip(i as int));
            assert(last_dot_before(name@, i as int) == Some(i - 1));
            assert(name@ != seq!['.', '.']);
            return Some(e);
        }
        i = i - 1;
    }
    None
}

/// The language the editor highlights a file in, from its extension (letter case ignored);
/// "plain" when the extension is not known.
pub fn get_lang_from_path(path: &str) -> (r: &'static str)
    ensures
        r@ == lang_for_ext(lowercase_of(path_extension(path@))),
{
    let ext = match path_file_name(path) {
        Some(name) => match extension(name.as_str()) {
            Some(e) => e,
            None => String::new(),
        },
        None => String::new(),
    };
    let lower = str_to_lowercase(ext.as_str());
    let e = lower.as_str();
    if str_eq(e, "rs") {
        "rust"
    } else if str_eq(e, "py") {
        "python"
    } else if str_eq(e, "js") || str_eq(e, "mjs") || str_eq(e, "cjs") {
        "javascript"
    } else if str_eq(e, "ts") || str_eq(e, "mts") || str_eq(e, "cts") {
        "typescript"
    } else if str_eq(e, "go") {
        "go"
    } else if str_eq(e, "c") || str_eq(e, "h") {
        "c"
    } else if str_eq(e, "cpp") || str_eq(e, "cc") || str_eq(e, "cxx") || str_eq(e, "hpp") {
        "cpp"
    } else if str_eq(e, "html") || str_eq(e, "htm") {
        "html"
    } else if str_eq(e, "css") {
        "css"
    } else if str_eq(e, "json") {
        "json"
    } else if str_eq(e, "toml") {
        "toml"
    } else if str_eq(e, "yaml") || str_eq(e, "yml") {
        "yaml"
    } else if str_eq(e, "md") {
        "markdown"
    } else if str_eq(e, "sh") || str_eq(e, "bash") {
        "bash"
    } else {
        "plain"
    }
}

/// The first position from `from` to `to` (both included) where `query` stands in `content`.
pub open spec fn first_match_between(content: Seq<char>, query: Seq<char>, from: int, to: int) -> Option<int>
    decreases to - from + 1,
{
    if from > to {
        None
    } else if occurs_at(content, query, from) {
        Some(from)
    } else {
        first_match_between(content, query, from + 1, to)
    }
}

/// Where Find next in the editor goes for `query` with the cursor at `cursor`: the first match
/// starting after the cursor, else (wrapping round) the first one starting at or before it;
/// `None` when the query is empty, longer than the text, or absent.
pub open spec fn next_match(content: Seq<char>, query: Seq<char>, cursor: int) -> Option<int> {
    let len = content.len() as int;
    let q = query.len() as int;
    if q == 0 || q > len {
        None
    } else {
        let start = if cursor + 1 < len { cursor + 1 } else { len };
        match first_match_between(content, query, start, len - q) {
            Some(p) => Some(p),
            None => first_match_between(content, query, 0, if cursor < len - q { cursor } else { len - q }),
        }
    }
}

proof fn lemma_first_match_between(content: Seq<char>, query: Seq<char>, from: int, to: int)
    ensures
        match first_match_between(content, query, from, to) {
            Some(p) => from <= p <= to && occurs_at(content, query, p),
            None => forall|j: int| from <= j <= to ==> !#[trigger] occurs_at(content, query, j),
        },
    decreases to - from + 1,
{
    if from <= to && !occurs_at(content, query, from) {
        lemma_first_match_between(content, query, from + 1, to);
    }
}

/// Find next lands on a match of the query, and it finds one whenever the (non-empty) query
/// occurs anywhere in the text.
pub proof fn law_find_next(content: Seq<char>, query: Seq<char>, cursor: int)
    requires
        cursor >= 0,
    ensures
        next_match(content, query, cursor) matches Some(p) ==> occurs_at(content, query, p),
        query.len() > 0 && (exists|j: int| occurs_at(content, query, j)) ==> next_match(content, query, cursor) is Some,
{
    let len = content.len() as int;
    let q = query.len() as int;
    let start = if cursor + 1 < len { cursor + 1 } else { len };
    let end = if cursor < len - q { cursor } else { len - q };
    lemma_first_match_between(content, query, start, len - q);
    lemma_first_match_between(content, query, 0, end);
    if q > 0 && (exists|j: int| occurs_at(content, query, j)) {
        let j = choose|j: int| occurs_at(content, query, j);
        if start <= j {
            assert(!(forall|k: int| start <= k <= len - q ==> !#[trigger] occurs_at(content, query, k)));
        } else {
            assert(!(forall|k: int| 0 <= k <= end ==> !#[trigger] occurs_at(content, query, k)));
        }
    }
}

/// The first position from `from` to `to` where `query` stands in `content` (see
/// `first_match_between`).
fn first_match_exec(content: &Vec<char>, query: &Vec<char>, from: usize, to: usize) -> (r: Option<usize>)
    requires
        query@.len() >= 1,
        to + query@.len() <= content@.len(),
    ensures
        match r {
            Some(p) => first_match_between(content@, query@, from as int, to as int) == Some(p as int),
            None => first_match_between(content@, query@, from as int, to as int) is None,
        },
{
    let n = content.len();
    let mut pos = from;
    while pos <= to
        invariant
            n == content@.len(),
            query@.len() >= 1,
            to + query@.len() <= content@.len(),
            from <= pos,
            first_match_between(content@, query@, from as int, to as int) == first_match_between(content@, query@, pos as int, to as int),
        decreases to + 1 - pos,
    {
        if chars_match_at(content, query, pos) {
            return Some(pos);
        }
        pos = pos + 1;
    }
    None
}

/// Find next in the editor's text (see `next_match`).
pub fn find_next_match(content: &str, query: &str, cursor: usize) -> (r: Option<usize>)
    ensures
        match r {
            Some(p) => next_match(content@, query@, cursor as int) == Some(p as int),
            None => next_match(content@, query@, cursor as int) is None,
        },
{
    let text = str_chars(content);
    let q = str_chars(query);
    let len = text.len();
    let qlen = q.len();
    if qlen == 0 || qlen > len {
        return None;
    }
    let last = len - qlen;
    let start = if cursor < len - 1 { cursor + 1 } else { len };
    if start <= last {
        if let Some(p) = first_match_exec(&text, &q, start, last) {
            return Some(p);
        }
    }
    let end = if cursor < last { cursor } else { last };
    first_match_exec(&text, &q, 0, end)
}

/// What the editor screen's own key handling decided, beyond the state it updated.
pub enum EditorKeyAction {
    /// Nothing more to do.
    Continue,
    /// Search the text for this query from the cursor on (Enter in the search bar).
    FindNext(String),
    /// Clear the text editor's selection.
    ClearSelection,
    Quit,
    Save,
    /// Close the editor (the text is unchanged).
    Close,
    /// Not one of the editor screen's keys: the text editor handles it.
    ToEditor,
}

/// The editor screen's own state: the search bar (its query and cursor) when open, and whether
/// the cursor is extending a selection (F3).
pub struct EditorKeyState {
    pub search: Option<TextInputState>,
    pub selection_extend_mode: bool,
}

/// What a key does in the open search bar.
#[derive(Clone, Copy, PartialEq, Eq, Structural)]
pub enum SearchBarResult {
    /// The query or its cursor may have changed.
    Edited,
    /// Enter: search for the query.
    FindNext,
    /// The search bar closes and the selection is cleared.
    Closed,
}

/// The search bar after a key: the query and cursor (the cursor first brought within the
/// query), and what happened.
pub open spec fn search_bar_outcome(q: Seq<char>, cursor0: int, code: KeyCode, control: bool) -> (Seq<char>, int, SearchBarResult) {
    let cursor = if cursor0 > q.len() { q.len() as int } else { cursor0 };
    match code {
        KeyCode::Esc => (q, cursor, SearchBarResult::Closed),
        KeyCode::Enter => (q, cursor, SearchBarResult::FindNext),
        KeyCode::Left => (q, if cursor >= 1 { cursor - 1 } else { 0 }, SearchBarResult::Edited),
        KeyCode::Right => (q, if cursor + 1 <= q.len() { cursor + 1 } else { q.len() as int }, SearchBarResult::Edited),
        KeyCode::Backspace => if cursor > 0 {
            (text_after_backspace(q, cursor), cursor - 1, SearchBarResult::Edited)
        } else {
            (q, cursor, SearchBarResult::Edited)
        },
        KeyCode::Char(c) => if !control {
            (text_after_insert(q, cursor, c), cursor + 1, SearchBarResult::Edited)
        } else if c == 'f' {
            (q, cursor, SearchBarResult::Closed)
        } else {
            (q, cursor, SearchBarResult::Edited)
        },
        KeyCode::F(n) => if n == 3 {
            (q, cursor, SearchBarResult::Closed)
        } else {
            (q, cursor, SearchBarResult::Edited)
        },
        _ => (q, cursor, SearchBarResult::Edited),
    }
}

/// A key on the editor screen, before the text editor sees it.
/// - With the search bar open, the key goes to it (see `search_bar_outcome`): Enter searches
///   (`FindNext`), Esc, Ctrl+F and F3 close it and clear the selection.
/// - Otherwise Ctrl+F opens an empty search bar, F10 quits, F2 saves, F3 starts a selection
///   (clearing any) or stops extending it, Esc closes an unchanged text or else opens the
///   "Save changes?" question; any other key goes to the text editor.
pub fn editor_screen_key(state: &mut EditorKeyState, app: &mut AppState, modified: bool, code: KeyCode, control: bool) -> (r: EditorKeyAction)
    requires
        old(state).search matches Some(q) ==> q.text@.len() < usize::MAX,
    ensures
        match old(state).search {
            Some(q) => {
                let o = search_bar_outcome(q.text@, q.cursor as int, code, control);
                &&& *final(app) == *old(app)
                &&& final(state).selection_extend_mode == old(state).selection_extend_mode
                &&& match o.2 {
                    SearchBarResult::Closed => final(state).search is None && r is ClearSelection,
                    SearchBarResult::FindNext => (final(state).search matches Some(n) && n.text@ == o.0 && n.cursor == o.1)
                        && (r matches EditorKeyAction::FindNext(t) && t@ == o.0),
                    SearchBarResult::Edited => (final(state).search matches Some(n) && n.text@ == o.0 && n.cursor == o.1)
                        && r is Continue,
                }
            },
            None => {
                &&& (code == KeyCode::Char('f') && control) ==> (final(state).search matches Some(n) && n.text@.len() == 0 && n.cursor == 0)
                    && r is Continue && *final(app) == *old(app)
                &&& !(code == KeyCode::Char('f') && control) ==> final(state).search is None && {
                    if code == KeyCode::F(10) {
                        r is Quit && *final(app) == *old(app) && final(state).selection_extend_mode == old(state).selection_extend_mode
                    } else if code == KeyCode::F(2) {
                        r is Save && *final(app) == *old(app) && final(state).selection_extend_mode == old(state).selection_extend_mode
                    } else if code == KeyCode::F(3) {
                        *final(app) == *old(app) && final(state).selection_extend_mode == !old(state).selection_extend_mode
                            && (if old(state).selection_extend_mode { r is Continue } else { r is ClearSelection })
                    } else if code == KeyCode::Esc {
                        final(state).selection_extend_mode == old(state).selection_extend_mode && if modified {
                            r is Continue && *final(app) == (AppState { editor_confirm_pending: true, editor_confirm_focus: 0, ..*old(app) })
                        } else {
                            r is Close && *final(app) == *old(app)
                        }
                    } else {
                        r is ToEditor && *final(app) == *old(app) && final(state).selection_extend_mode == old(state).selection_extend_mode
                    }
                }
            },
        },
{
    match state.search.take() {
        Some(q) => {
            let len = q.text.as_str().unicode_len();
            let q = if q.cursor > len { TextInputState { cursor: len, ..q } } else { q };
            match code {
                KeyCode::Esc => EditorKeyAction::ClearSelection,
                KeyCode::Enter => {
                    let text = q.text.clone();
                    state.search = Some(q);
                    EditorKeyAction::FindNext(text)
                },
                KeyCode::Left => {
                    state.search = Some(q.move_left());
                    EditorKeyAction::Continue
                },
                KeyCode::Right => {
                    state.search = Some(q.move_right());
                    EditorKeyAction::Continue
                },
                KeyCode::Backspace => {
                    state.search = Some(q.backspace());
                    EditorKeyAction::Continue
                },
                KeyCode::Char(c) => {
                    if !control {
                        state.search = Some(q.insert_char(c));
                        EditorKeyAction::Continue
                    } else if c == 'f' {
                        EditorKeyAction::ClearSelection
                    } else {
                        state.search = Some(q);
                        EditorKeyAction::Continue
                    }
                },
                KeyCode::F(n) => {
                    if n == 3 {
                        EditorKeyAction::ClearSelection
                    } else {
                        state.search = Some(q);
                        EditorKeyAction::Continue
                    }
                },
                _ => {
                    state.search = Some(q);
                    EditorKeyAction::Continue
                },
            }
        },
        None => {
            if code == KeyCode::Char('f') && control {
                state.search = Some(TextInputState::new(String::new()));
                return EditorKeyAction::Continue;
            }
            if code == KeyCode::F(10) {
                return EditorKeyAction::Quit;
            }
            if code == KeyCode::F(2) {
                return EditorKeyAction::Save;
            }
            if code == KeyCode::F(3) {
                if state.selection_extend_mode {
                    state.selection_extend_mode = false;
                    return EditorKeyAction::Continue;
                } else {
                    state.selection_extend_mode = true;
                    return EditorKeyAction::ClearSelection;
                }
            }
            if code == KeyCode::Esc {
                if modified {
                    app.editor_confirm_pending = true;
                    app.editor_confirm_focus = 0;
                    return EditorKeyAction::Continue;
                }
                return EditorKeyAction::Close;
            }
            EditorKeyAction::ToEditor
        },
    }
}


/// The rows of the "Save changes?" dialog drawn in the screen `area`, as one-row rectangles
/// across its content area, with the choice each stands for: Save, Discard and Cancel on the
/// third, fourth and fifth rows of a box at most 48 wide and 9 high.
pub open spec fn editor_confirm_rows(area: Rect) -> Seq<(Rect, EditorConfirmChoice)> {
    let c = centered_content(area, 48, 9);
    let row = |k: int| Rect { x: c.x, y: (c.y + k) as u16, width: c.width, height: 1 };
    seq![(row(2), EditorConfirmChoice::Save), (row(3), EditorConfirmChoice::Discard), (row(4), EditorConfirmChoice::Cancel)]
}

/// The dialog's rows lie within the coordinate range.
pub open spec fn editor_confirm_fits(area: Rect) -> bool {
    &&& area_fits(area)
    &&& area.y + 9 <= 65535
    &&& centered_content(area, 48, 9).y + 4 <= 65535
}

/// The rows of the "Save changes?" dialog, for telling which choice a click landed on.
pub fn editor_confirm_option_rects(area: Rect) -> (r: Option<[(Rect, EditorConfirmChoice); 3]>)
    requires
        editor_confirm_fits(area),
    ensures
        r matches Some(a) && a@ == editor_confirm_rows(area),
{
    let (_rect, c) = centered_dialog(area, 48, 9);
    let rows = [
        (Rect { x: c.x, y: c.y + 2, width: c.width, height: 1 }, EditorConfirmChoice::Save),
        (Rect { x: c.x, y: c.y + 3, width: c.width, height: 1 }, EditorConfirmChoice::Discard),
        (Rect { x: c.x, y: c.y + 4, width: c.width, height: 1 }, EditorConfirmChoice::Cancel),
    ];
    assert(rows@ =~= editor_confirm_rows(area));
    Some(rows)
}

} // verus!
