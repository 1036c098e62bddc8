//! + / − : mark or unmark files by a file-name pattern (wildcards as in Find file).
use vstd::prelude::*;

use crate::app_state::AppState;
use crate::events::AppAction;
use crate::file_ops::FileInfo;
use crate::find_dialog::{glob_match, glob_text, lowercase_of};
use crate::panel::{PanelView, PanelOperations};
use crate::strutil::{split_char, split_on, strings_view};
use crate::strutil::{str_trim, trim_end_char, trim_end_spec, trim_of};
use crate::keys::{KeyCode, KeyModifiers};
use crate::text_input::{
    TextInputState, is_printable_ascii, normalize_key, printable_ascii, text_after_backspace, text_after_delete,
    text_after_insert, text_after_insert_str,
};

verus! {

/// Whether the dialog adds marks or removes them.
#[derive(Clone, Copy, PartialEq, Eq, Structural)]
pub enum PatternSelectMode {
    Mark,
    Unmark,
}

/// File pattern, case option, Apply / Cancel.
pub struct PatternSelectDialogState {
    pub mode: PatternSelectMode,
    pub pattern_input: TextInputState,
    pub file_case_sensitive: bool,
    /// 0 = pattern, 1 = case row, 2 = Apply, 3 = Cancel.
    pub focus: usize,
}

fn open_with_mode(app: &mut AppState, mode: PatternSelectMode)
    ensures
        final(app).pattern_select_dialog matches Some(d) && d.mode == mode
            && d.pattern_input.text@ == old(app).last_file_name_pattern@
            && d.pattern_input.cursor == old(app).last_file_name_pattern@.len()
            && !d.file_case_sensitive && d.focus == 0,
        *final(app) == (AppState { pattern_select_dialog: final(app).pattern_select_dialog, ..*old(app) }),
{
    let last = app.last_file_name_pattern.clone();
    app.pattern_select_dialog = Some(PatternSelectDialogState {
        mode,
        pattern_input: TextInputState::new(last),
        file_case_sensitive: false,
        focus: 0,
    });
}

/// Opens the dialog to mark files, prefilled with the last pattern used.
pub fn open_mark(app: &mut AppState)
    ensures
        final(app).pattern_select_dialog matches Some(d) && d.mode == PatternSelectMode::Mark
            && d.pattern_input.text@ == old(app).last_file_name_pattern@
            && d.pattern_input.cursor == old(app).last_file_name_pattern@.len()
            && !d.file_case_sensitive && d.focus == 0,
        *final(app) == (AppState { pattern_select_dialog: final(app).pattern_select_dialog, ..*old(app) }),
{
    open_with_mode(app, PatternSelectMode::Mark)
}

/// Opens the dialog to unmark files, prefilled with the last pattern used.
pub fn open_unmark(app: &mut AppState)
    ensures
        final(app).pattern_select_dialog matches Some(d) && d.mode == PatternSelectMode::Unmark
            && d.pattern_input.text@ == old(app).last_file_name_pattern@
            && d.pattern_input.cursor == old(app).last_file_name_pattern@.len()
            && !d.file_case_sensitive && d.focus == 0,
        *final(app) == (AppState { pattern_select_dialog: final(app).pattern_select_dialog, ..*old(app) }),
{
    open_with_mode(app, PatternSelectMode::Unmark)
}

/// Closes the dialog; its pattern is remembered for the next time.
pub fn cancel(app: &mut AppState)
    ensures
        match old(app).pattern_select_dialog {
            Some(d) => final(app).last_file_name_pattern@ == d.pattern_input.text@
                && *final(app) == (AppState { pattern_select_dialog: None, last_file_name_pattern: final(app).last_file_name_pattern, ..*old(app) }),
            None => *final(app) == *old(app),
        },
{
    if let Some(d) = app.pattern_select_dialog.take() {
        app.last_file_name_pattern = d.pattern_input.text;
    }
}

/// Removes the dialog and hands it to the caller.
pub fn take(app: &mut AppState) -> (r: Option<PatternSelectDialogState>)
    ensures
        r == old(app).pattern_select_dialog,
        *final(app) == (AppState { pattern_select_dialog: None, ..*old(app) }),
{
    app.pattern_select_dialog.take()
}

/// Number of focus targets: 0 = pattern, 1 = case row, 2 = Apply, 3 = Cancel.
pub const FOCUS_COUNT: usize = 4;

/// The dialog's fields that keys change.
pub struct PatternFields {
    pub text: Seq<char>,
    pub cursor: int,
    pub case_sensitive: bool,
    pub focus: int,
}

impl PatternSelectDialogState {
    pub open spec fn fields(self) -> PatternFields {
        PatternFields {
            text: self.pattern_input.text@,
            cursor: self.pattern_input.cursor as int,
            case_sensitive: self.file_case_sensitive,
            focus: self.focus as int,
        }
    }

    /// The counters that keys step stay below the largest index.
    pub open spec fn keys_fit(self) -> bool {
        self.focus < usize::MAX - FOCUS_COUNT && self.pattern_input.cursor < usize::MAX
    }
}

/// `e` is `d` (same mode) with the fields `f`.
pub open spec fn dialog_with(d: PatternSelectDialogState, e: PatternSelectDialogState, f: PatternFields) -> bool {
    &&& e.mode == d.mode
    &&& e.pattern_input.text@ == f.text && e.pattern_input.cursor == f.cursor
    &&& e.file_case_sensitive == f.case_sensitive && e.focus == f.focus
}

/// Effect of a key on the dialog's fields: the new fields, the answer, and whether the dialog
/// stays open.
/// - Esc cancels and closes. Tab/Down and BackTab/Up move the focus round the four targets.
/// - Enter: on Cancel cancels and closes; on the case row toggles it; on the pattern or Apply
///   confirms (the dialog stays until the caller takes it).
/// - Control-C on the pattern copies a non-empty pattern (does nothing on an empty one), and
///   elsewhere cancels and closes; Control-V on the pattern asks for a paste; Control-A does
///   nothing; other control keys count as the plain key.
/// - Space on the case row toggles it. On the pattern: printable ASCII is typed in, Backspace
///   and Delete delete, Left/Right/Home/End move.
pub open spec fn pattern_key_outcome(s: PatternFields, code: KeyCode, control: bool) -> (PatternFields, AppAction, bool) {
    let cont = (s, AppAction::Continue, true);
    let on_text = s.focus == 0;
    let toggled = PatternFields { case_sensitive: !s.case_sensitive, ..s };
    match normalize_key(code) {
        KeyCode::Esc => (s, AppAction::PatternSelectCancel, false),
        KeyCode::Char(c) => if control && c == 'c' {
            if on_text {
                if s.text.len() > 0 { (s, AppAction::PatternSelectCopy, true) } else { cont }
            } else {
                (s, AppAction::PatternSelectCancel, false)
            }
        } else if control && c == 'a' {
            cont
        } else if control && c == 'v' {
            if on_text { (s, AppAction::PatternSelectPaste, true) } else { cont }
        } else if c == ' ' && s.focus == 1 {
            (toggled, AppAction::Continue, true)
        } else if on_text && printable_ascii(c) {
            (PatternFields { text: text_after_insert(s.text, s.cursor, c), cursor: s.cursor + 1, ..s }, AppAction::Continue, true)
        } else {
            cont
        },
        KeyCode::Tab | KeyCode::Down => (PatternFields { focus: (s.focus + 1) % (FOCUS_COUNT as int), ..s }, AppAction::Continue, true),
        KeyCode::BackTab | KeyCode::Up => (PatternFields { focus: (s.focus + FOCUS_COUNT - 1) % (FOCUS_COUNT as int), ..s }, AppAction::Continue, true),
        KeyCode::Enter => if s.focus == 3 {
            (s, AppAction::PatternSelectCancel, false)
        } else if s.focus == 1 {
            (toggled, AppAction::Continue, true)
        } else if s.focus == 2 || s.focus == 0 {
            (s, AppAction::PatternSelectConfirm, true)
        } else {
            cont
        },
        KeyCode::Backspace => if on_text {
            (PatternFields { text: text_after_backspace(s.text, s.cursor), cursor: if s.cursor >= 1 { s.cursor - 1 } else { 0 }, ..s }, AppAction::Continue, true)
        } else {
            cont
        },
        KeyCode::Delete => if on_text { (PatternFields { text: text_after_delete(s.text, s.cursor), ..s }, AppAction::Continue, true) } else { cont },
        KeyCode::Left => if on_text { (PatternFields { cursor: if s.cursor >= 1 { s.cursor - 1 } else { 0 }, ..s }, AppAction::Continue, true) } else { cont },
        KeyCode::Right => if on_text {
            (PatternFields { cursor: if s.cursor + 1 <= s.text.len() { s.cursor + 1 } else { s.text.len() as int }, ..s }, AppAction::Continue, true)
        } else {
            cont
        },
        KeyCode::Home => if on_text { (PatternFields { cursor: 0, ..s }, AppAction::Continue, true) } else { cont },
        KeyCode::End => if on_text { (PatternFields { cursor: s.text.len() as int, ..s }, AppAction::Continue, true) } else { cont },
        _ => cont,
    }
}

/// BackTab undoes Tab, and four Tabs come back to the same target.
pub proof fn law_pattern_focus_cycle(s: PatternFields)
    requires
        0 <= s.focus < FOCUS_COUNT,
    ensures
        ({
            let t = pattern_key_outcome(s, KeyCode::Tab, false).0;
            pattern_key_outcome(t, KeyCode::BackTab, false).0 == s
        }),
        ({
            let t1 = pattern_key_outcome(s, KeyCode::Tab, false).0;
            let t2 = pattern_key_outcome(t1, KeyCode::Tab, false).0;
            let t3 = pattern_key_outcome(t2, KeyCode::Tab, false).0;
            pattern_key_outcome(t3, KeyCode::Tab, false).0 == s
        }),
{
}

impl PatternSelectDialogState {
    /// A key on the dialog (see `pattern_key_outcome`): the dialog afterwards (`None` when it
    /// closed) and the answer.
    pub fn handle_key(self, code: KeyCode, modifiers: KeyModifiers) -> (r: (Option<PatternSelectDialogState>, AppAction))
        requires
            self.keys_fit(),
        ensures
            ({
                let (f, a, open) = pattern_key_outcome(self.fields(), code, modifiers.control);
                &&& r.1 == a
                &&& if open { r.0 matches Some(e) && dialog_with(self, e, f) } else { r.0 is None }
            }),
    {
        let code = if code == KeyCode::Char('\t') { KeyCode::Tab } else { code };
        let on_text = self.focus == 0;
        let mut d = self;
        match code {
            KeyCode::Esc => (None, AppAction::PatternSelectCancel),
            KeyCode::Char(c) => {
                if modifiers.control && c == 'c' {
                    if on_text {
                        if d.pattern_input.text.as_str().unicode_len() > 0 {
                            (Some(d), AppAction::PatternSelectCopy)
                        } else {
                            (Some(d), AppAction::Continue)
                        }
                    } else {
                        (None, AppAction::PatternSelectCancel)
                    }
                } else if modifiers.control && c == 'a' {
                    (Some(d), AppAction::Continue)
                } else if modifiers.control && c == 'v' {
                    if on_text { (Some(d), AppAction::PatternSelectPaste) } else { (Some(d), AppAction::Continue) }
                } else if c == ' ' && d.focus == 1 {
                    d.file_case_sensitive = !d.file_case_sensitive;
                    (Some(d), AppAction::Continue)
                } else if on_text && is_printable_ascii(c) {
                    d.pattern_input = d.pattern_input.insert_char(c);
                    (Some(d), AppAction::Continue)
                } else {
                    (Some(d), AppAction::Continue)
                }
            },
            KeyCode::Tab | KeyCode::Down => {
                d.focus = (d.focus + 1) % FOCUS_COUNT;
                (Some(d), AppAction::Continue)
            },
            KeyCode::BackTab | KeyCode::Up => {
                d.focus = (d.focus + FOCUS_COUNT - 1) % FOCUS_COUNT;
                (Some(d), AppAction::Continue)
            },
            KeyCode::Enter => {
                if d.focus == 3 {
                    (None, AppAction::PatternSelectCancel)
                } else if d.focus == 1 {
                    d.file_case_sensitive = !d.file_case_sensitive;
                    (Some(d), AppAction::Continue)
                } else if d.focus == 2 || d.focus == 0 {
                    (Some(d), AppAction::PatternSelectConfirm)
                } else {
                    (Some(d), AppAction::Continue)
                }
            },
            KeyCode::Backspace | KeyCode::Delete | KeyCode::Left | KeyCode::Right | KeyCode::Home | KeyCode::End => {
                if on_text {
                    d.pattern_input = match code {
                        KeyCode::Backspace => d.pattern_input.backspace(),
                        KeyCode::Delete => d.pattern_input.delete_forward(),
                        KeyCode::Left => d.pattern_input.move_left(),
                        KeyCode::Right => d.pattern_input.move_right(),
                        KeyCode::Home => d.pattern_input.move_home(),
                        _ => d.pattern_input.move_end(),
                    };
                }
                (Some(d), AppAction::Continue)
            },
            _ => (Some(d), AppAction::Continue),
        }
    }
}

/// A key while the pattern dialog may be open (see `pattern_key_outcome`); `None` when it is not
/// open.
pub fn handle_key(app: &mut AppState, code: KeyCode, modifiers: KeyModifiers) -> (r: Option<AppAction>)
    requires
        old(app).pattern_select_dialog matches Some(d) ==> d.keys_fit(),
    ensures
        match old(app).pattern_select_dialog {
            None => r is None && *final(app) == *old(app),
            Some(d) => {
                let (f, a, open) = pattern_key_outcome(d.fields(), code, modifiers.control);
                &&& r == Some(a)
                &&& *final(app) == (AppState { pattern_select_dialog: final(app).pattern_select_dialog, ..*old(app) })
                &&& if open {
                    final(app).pattern_select_dialog matches Some(e) && dialog_with(d, e, f)
                } else {
                    final(app).pattern_select_dialog is None
                }
            },
        },
{
    let d = match app.pattern_select_dialog.take() {
        Some(d) => d,
        None => return None,
    };
    let (nd, a) = d.handle_key(code, modifiers);
    app.pattern_select_dialog = nd;
    Some(a)
}

/// Pastes `text` into the pattern when the pattern has the focus; otherwise nothing changes.
pub fn paste(app: &mut AppState, text: &str)
    requires
        old(app).pattern_select_dialog matches Some(d) ==> d.pattern_input.cursor + text@.len() < usize::MAX,
    ensures
        match old(app).pattern_select_dialog {
            Some(d) => if d.focus == 0 {
                let f = d.fields();
                &&& final(app).pattern_select_dialog matches Some(e) && dialog_with(d, e, PatternFields {
                    text: text_after_insert_str(f.text, f.cursor, text@),
                    cursor: f.cursor + text@.len(),
                    ..f
                })
                &&& *final(app) == (AppState { pattern_select_dialog: final(app).pattern_select_dialog, ..*old(app) })
            } else {
                *final(app) == *old(app)
            },
            None => *final(app) == *old(app),
        },
{
    let mut d = match app.pattern_select_dialog.take() {
        Some(d) => d,
        None => return,
    };
    if d.focus == 0 {
        d.pattern_input = d.pattern_input.insert_str(text);
    }
    app.pattern_select_dialog = Some(d);
}

/// The parts of pattern `p` between '|' characters, in order; the whole pattern when it has
/// none. Each part is a glob of its own.
pub open spec fn alternatives(p: Seq<char>) -> Seq<Seq<char>> {
    split_on(p, '|')
}

/// The alternatives of a pattern (see `alternatives`).
pub fn split_alternatives(p: &str) -> (r: Vec<String>)
    ensures
        strings_view(r@) == alternatives(p@),
{
    split_char(p, '|')
}

/// Glob match with or without regard to case (see `glob_match`).
pub open spec fn glob_with_case(p: Seq<char>, name: Seq<char>, case_sensitive: bool) -> bool {
    if case_sensitive {
        glob_text(p, name)
    } else {
        glob_text(lowercase_of(p), lowercase_of(name))
    }
}

/// Some alternative matches `name`.
pub open spec fn matches_any(alts: Seq<Seq<char>>, name: Seq<char>, case_sensitive: bool) -> bool {
    exists|k: int| 0 <= k < alts.len() && #[trigger] glob_with_case(alts[k], name, case_sensitive)
}

/// The pattern selects entry `f`: not "..", and some alternative matches its name without a
/// trailing '/'.
pub open spec fn pattern_selects(pattern: Seq<char>, f: FileInfo, case_sensitive: bool) -> bool {
    !f.spec_is_parent() && matches_any(alternatives(pattern), trim_end_spec(f.name@, '/'), case_sensitive)
}

/// Whether some alternative of `alts` matches `name`.
pub fn any_alternative_matches(alts: &Vec<String>, name: &str, case_sensitive: bool) -> (r: bool)
    ensures
        r == matches_any(strings_view(alts@), name@, case_sensitive),
{
    let ghost sv = strings_view(alts@);
    let mut k: usize = 0;
    while k < alts.len()
        invariant
            k <= alts@.len(),
            sv == strings_view(alts@),
            forall|j: int| 0 <= j < k ==> !#[trigger] glob_with_case(sv[j], name@, case_sensitive),
        decreases alts@.len() - k,
    {
        assert(sv[k as int] == alts@[k as int]@);
        if glob_match(alts[k].as_str(), name, case_sensitive) {
            assert(glob_with_case(sv[k as int], name@, case_sensitive));
            return true;
        }
        k = k + 1;
    }
    false
}

/// The marks of panel `v` after marking (or, with `mark` off, unmarking) every entry the
/// pattern selects; the other marks stay.
pub open spec fn marks_by_pattern(v: PanelView, pattern: Seq<char>, case_sensitive: bool, mark: bool) -> Set<usize> {
    Set::new(|i: usize| if i < v.files.len() && pattern_selects(pattern, v.files[i as int], case_sensitive) {
        mark
    } else {
        v.marked.contains(i)
    })
}

/// Marking by a pattern twice is marking once, and unmarking after marking by the same pattern
/// is unmarking alone: the entries it selects end unmarked and the others keep their marks.
pub proof fn law_mark_by_pattern(v: PanelView, p: Seq<char>, case_sensitive: bool)
    ensures
        ({
            let marked = PanelView { marked: marks_by_pattern(v, p, case_sensitive, true), ..v };
            &&& marks_by_pattern(marked, p, case_sensitive, true) == marked.marked
            &&& marks_by_pattern(marked, p, case_sensitive, false) == marks_by_pattern(v, p, case_sensitive, false)
        }),
{
    let marked = PanelView { marked: marks_by_pattern(v, p, case_sensitive, true), ..v };
    assert(marks_by_pattern(marked, p, case_sensitive, true) =~= marked.marked);
    assert(marks_by_pattern(marked, p, case_sensitive, false) =~= marks_by_pattern(v, p, case_sensitive, false));
}

/// Applies the open dialog: it closes, its pattern is remembered, and when the pattern with
/// surrounding white space removed is not empty, the entries of the active panel it selects are
/// marked (or unmarked, by the dialog's mode). Returns whether a pattern was applied.
pub fn confirm(app: &mut AppState) -> (applied: bool)
    requires
        old(app).wf(),
    ensures
        match old(app).pattern_select_dialog {
            None => !applied && *final(app) == *old(app),
            Some(d) => {
                let p = trim_of(d.pattern_input.text@);
                &&& applied == (p.len() > 0)
                &&& final(app).last_file_name_pattern@ == d.pattern_input.text@
                &&& final(app).wf()
                &&& *final(app) == (AppState {
                    left_panel: final(app).left_panel,
                    right_panel: final(app).right_panel,
                    pattern_select_dialog: None,
                    last_file_name_pattern: final(app).last_file_name_pattern,
                    ..*old(app)
                })
                &&& final(app).opposite_view() == old(app).opposite_view()
                &&& final(app).active_view() == if p.len() > 0 {
                    PanelView {
                        marked: marks_by_pattern(old(app).active_view(), p, d.file_case_sensitive, d.mode == PatternSelectMode::Mark),
                        ..old(app).active_view()
                    }
                } else {
                    old(app).active_view()
                }
            },
        },
{
    let d = match app.pattern_select_dialog.take() {
        Some(d) => d,
        None => return false,
    };
    app.last_file_name_pattern = d.pattern_input.text.clone();
    let p = str_trim(d.pattern_input.text.as_str());
    if p.unicode_len() == 0 {
        return false;
    }
    let mark = d.mode == PatternSelectMode::Mark;
    if app.active_panel == 0 {
        app.left_panel.mark_by_pattern(p, d.file_case_sensitive, mark);
    } else {
        app.right_panel.mark_by_pattern(p, d.file_case_sensitive, mark);
    }
    true
}

} // verus!
