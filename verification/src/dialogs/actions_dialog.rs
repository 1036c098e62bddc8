//! F1 Actions: a scrollable list of shortcuts whose rows run actions. Tab, arrows and j/k move
//! the focused row (kept on screen); Enter runs it; Esc or q closes.
use vstd::prelude::*;

use crate::app_state::AppState;
use crate::events::AppAction;
use crate::keys::{KeyCode, KeyModifiers, MouseKind, Rect, pointer_in, rect_contains};
use crate::text_input::normalize_key;

verus! {

/// What a row of the Actions list runs.
#[derive(Debug, Clone, Copy, PartialEq, Eq, Structural)]
pub enum ActionsChoice {
    Suspend,
    RefreshBothPanels,
    RefreshActivePanel,
    ToggleShowHidden,
    ViewModeToggled,
    OpenLeftPanelSettings,
    OpenRightPanelSettings,
    PersistPanelState,
    OpenFindDialog,
    OpenDiffViewer,
    OpenSizeInfoDialog,
    OpenArchiveDialog,
    OpenNewFileDialog,
    CommandLineCopy,
    CommandLinePaste,
}

/// The action a row's choice stands for.
pub open spec fn choice_action(c: ActionsChoice) -> AppAction {
    match c {
        ActionsChoice::Suspend => AppAction::Suspend,
        ActionsChoice::RefreshBothPanels => AppAction::RefreshBothPanels,
        ActionsChoice::RefreshActivePanel => AppAction::RefreshActivePanel,
        ActionsChoice::ToggleShowHidden => AppAction::ToggleShowHidden,
        ActionsChoice::ViewModeToggled => AppAction::ViewModeToggled,
        ActionsChoice::OpenLeftPanelSettings => AppAction::OpenLeftPanelSettings,
        ActionsChoice::OpenRightPanelSettings => AppAction::OpenRightPanelSettings,
        ActionsChoice::PersistPanelState => AppAction::PersistPanelState,
        ActionsChoice::OpenFindDialog => AppAction::OpenFindDialog,
        ActionsChoice::OpenDiffViewer => AppAction::OpenDiffViewer,
        ActionsChoice::OpenSizeInfoDialog => AppAction::OpenSizeInfoDialog,
        ActionsChoice::OpenArchiveDialog => AppAction::OpenArchiveDialog,
        ActionsChoice::OpenNewFileDialog => AppAction::OpenNewFileDialog,
        ActionsChoice::CommandLineCopy => AppAction::CommandLineCopy,
        ActionsChoice::CommandLinePaste => AppAction::CommandLinePaste,
    }
}

impl ActionsChoice {
    pub fn to_app_action(self) -> (r: AppAction)
        ensures
            r == choice_action(self),
    {
        match self {
            ActionsChoice::Suspend => AppAction::Suspend,
            ActionsChoice::RefreshBothPanels => AppAction::RefreshBothPanels,
            ActionsChoice::RefreshActivePanel => AppAction::RefreshActivePanel,
            ActionsChoice::ToggleShowHidden => AppAction::ToggleShowHidden,
            ActionsChoice::ViewModeToggled => AppAction::ViewModeToggled,
            ActionsChoice::OpenLeftPanelSettings => AppAction::OpenLeftPanelSettings,
            ActionsChoice::OpenRightPanelSettings => AppAction::OpenRightPanelSettings,
            ActionsChoice::PersistPanelState => AppAction::PersistPanelState,
            ActionsChoice::OpenFindDialog => AppAction::OpenFindDialog,
            ActionsChoice::OpenDiffViewer => AppAction::OpenDiffViewer,
            ActionsChoice::OpenSizeInfoDialog => AppAction::OpenSizeInfoDialog,
            ActionsChoice::OpenArchiveDialog => AppAction::OpenArchiveDialog,
            ActionsChoice::OpenNewFileDialog => AppAction::OpenNewFileDialog,
            ActionsChoice::CommandLineCopy => AppAction::CommandLineCopy,
            ActionsChoice::CommandLinePaste => AppAction::CommandLinePaste,
        }
    }
}

pub struct ActionsDialogState {
    pub scroll: usize,
    /// Index among the rows that run an action, not counting headers.
    pub selected_action: usize,
}

impl ActionsDialogState {
    pub fn default() -> (r: Self)
        ensures
            r.scroll == 0 && r.selected_action == 0,
    {
        ActionsDialogState { scroll: 0, selected_action: 0 }
    }
}

/// Opens the Actions dialog at the top with the first action focused.
pub fn open(app: &mut AppState)
    ensures
        final(app).actions_dialog matches Some(d) && d.scroll == 0 && d.selected_action == 0,
        *final(app) == (AppState { actions_dialog: final(app).actions_dialog, ..*old(app) }),
{
    app.actions_dialog = Some(ActionsDialogState::default());
}

pub fn close(app: &mut AppState)
    ensures
        *final(app) == (AppState { actions_dialog: None, ..*old(app) }),
{
    app.actions_dialog = None;
}

/// The rows of the list, top to bottom: what each runs, `None` for the introduction, blank lines
/// and section titles.
#[verifier::opaque]
pub open spec fn layout_hits() -> Seq<Option<ActionsChoice>> {
    seq![
        None,
        None,
        None,
        Some(ActionsChoice::Suspend),
        Some(ActionsChoice::RefreshBothPanels),
        Some(ActionsChoice::RefreshActivePanel),
        None,
        None,
        Some(ActionsChoice::ToggleShowHidden),
        Some(ActionsChoice::ViewModeToggled),
        Some(ActionsChoice::OpenLeftPanelSettings),
        Some(ActionsChoice::OpenRightPanelSettings),
        Some(ActionsChoice::PersistPanelState),
        None,
        None,
        Some(ActionsChoice::OpenFindDialog),
        Some(ActionsChoice::OpenDiffViewer),
        Some(ActionsChoice::OpenSizeInfoDialog),
        Some(ActionsChoice::OpenArchiveDialog),
        Some(ActionsChoice::OpenNewFileDialog),
        None,
        None,
        Some(ActionsChoice::CommandLineCopy),
        Some(ActionsChoice::CommandLinePaste)
    ]
}

/// The rows of the list (see `layout_hits`).
pub fn action_hits() -> (r: Vec<Option<ActionsChoice>>)
    ensures
        r@ == layout_hits(),
        r@.len() == 24,
{
    let r = vec![
        None,
        None,
        None,
        Some(ActionsChoice::Suspend),
        Some(ActionsChoice::RefreshBothPanels),
        Some(ActionsChoice::RefreshActivePanel),
        None,
        None,
        Some(ActionsChoice::ToggleShowHidden),
        Some(ActionsChoice::ViewModeToggled),
        Some(ActionsChoice::OpenLeftPanelSettings),
        Some(ActionsChoice::OpenRightPanelSettings),
        Some(ActionsChoice::PersistPanelState),
        None,
        None,
        Some(ActionsChoice::OpenFindDialog),
        Some(ActionsChoice::OpenDiffViewer),
        Some(ActionsChoice::OpenSizeInfoDialog),
        Some(ActionsChoice::OpenArchiveDialog),
        Some(ActionsChoice::OpenNewFileDialog),
        None,
        None,
        Some(ActionsChoice::CommandLineCopy),
        Some(ActionsChoice::CommandLinePaste)
    ];
    assert(r@ =~= layout_hits()) by {
        reveal(layout_hits);
    }
    r
}

/// How many rows at or after `i` run an action.
pub open spec fn count_actions_from(hits: Seq<Option<ActionsChoice>>, i: int) -> int
    decreases hits.len() - i,
{
    if i < 0 || i >= hits.len() {
        0
    } else {
        (if hits[i] is Some { 1int } else { 0int }) + count_actions_from(hits, i + 1)
    }
}

/// How many rows run an action.
pub open spec fn action_count() -> int {
    count_actions_from(layout_hits(), 0)
}

/// The row of the `k`-th action row at or after `i`.
pub open spec fn nth_action_from(hits: Seq<Option<ActionsChoice>>, k: int, i: int) -> Option<int>
    decreases hits.len() - i,
{
    if i < 0 || i >= hits.len() {
        None
    } else if hits[i] is Some {
        if k == 0 {
            Some(i)
        } else {
            nth_action_from(hits, k - 1, i + 1)
        }
    } else {
        nth_action_from(hits, k, i + 1)
    }
}

/// The row of the `k`-th action row (0-based among action rows).
pub open spec fn action_line(k: int) -> Option<int> {
    nth_action_from(layout_hits(), k, 0)
}

proof fn lemma_nth_action_from_range(hits: Seq<Option<ActionsChoice>>, k: int, i: int)
    ensures
        nth_action_from(hits, k, i) matches Some(l) ==> 0 <= l < hits.len() && hits[l] is Some,
    decreases hits.len() - i,
{
    if 0 <= i < hits.len() {
        if hits[i] is Some {
            if k != 0 {
                lemma_nth_action_from_range(hits, k - 1, i + 1);
            }
        } else {
            lemma_nth_action_from_range(hits, k, i + 1);
        }
    }
}

fn action_choice_count(hits: &Vec<Option<ActionsChoice>>) -> (r: usize)
    ensures
        r == count_actions_from(hits@, 0),
        r <= hits@.len(),
{
    let n = hits.len();
    let mut i: usize = n;
    let mut c: usize = 0;
    while i > 0
        invariant
            n == hits@.len(),
            i <= n,
            c == count_actions_from(hits@, i as int),
            c <= n - i,
        decreases i,
    {
        i = i - 1;
        if hits[i].is_some() {
            c = c + 1;
        }
    }
    c
}

/// Row of the `selected_action`-th action row (0-based among action rows only).
fn line_index_for_selected_action(hits: &Vec<Option<ActionsChoice>>, selected_action: usize) -> (r: Option<usize>)
    ensures
        match r {
            Some(l) => nth_action_from(hits@, selected_action as int, 0) == Some(l as int),
            None => nth_action_from(hits@, selected_action as int, 0) is None,
        },
{
    let mut remaining = selected_action;
    let mut i: usize = 0;
    while i < hits.len()
        invariant
            i <= hits@.len(),
            nth_action_from(hits@, selected_action as int, 0) == nth_action_from(hits@, remaining as int, i as int),
        decreases hits@.len() - i,
    {
        if hits[i].is_some() {
            if remaining == 0 {
                return Some(i);
            }
            remaining = remaining - 1;
        }
        i = i + 1;
    }
    None
}

/// The first visible row after bringing row `line` on screen: scrolled up to it when above,
/// down so it is the last visible row when below, then clamped so the list does not scroll past
/// its end. `vis` rows are visible (at least one).
pub open spec fn scroll_to_show(scroll: int, line: int, vis: int, total: int) -> int {
    let v = if vis < 1 { 1 } else { vis };
    let s1 = if line < scroll {
        line
    } else if line >= scroll + v {
        if line >= v - 1 { line - (v - 1) } else { 0 }
    } else {
        scroll
    };
    let max_s = if total >= v { total - v } else { 0 };
    if s1 < max_s { s1 } else { max_s }
}

/// The focused row stays on screen: after scrolling to a row of the list, it lies within the
/// visible rows.
pub proof fn law_scroll_to_show_keeps_row_visible(scroll: int, line: int, vis: int, total: int)
    requires
        0 <= scroll,
        0 <= line < total,
    ensures
        ({
            let s = scroll_to_show(scroll, line, vis, total);
            let v = if vis < 1 { 1 } else { vis };
            0 <= s <= line < s + v
        }),
{
}

fn sync_scroll_to_line(state: &mut ActionsDialogState, vis: usize, total_lines: usize, line: usize)
    ensures
        final(state).scroll == scroll_to_show(old(state).scroll as int, line as int, vis as int, total_lines as int),
        final(state).selected_action == old(state).selected_action,
{
    let v = if vis < 1 { 1 } else { vis };
    if line < state.scroll {
        state.scroll = line;
    } else if line - state.scroll >= v {
        state.scroll = line - (v - 1);
    }
    let max_s = if total_lines >= v { total_lines - v } else { 0 };
    if max_s < state.scroll {
        state.scroll = max_s;
    }
}

/// Focus moved to action `new_sel` (capped to the last action): the new selection, and the
/// scroll that shows its row.
pub open spec fn selection_after(scroll: int, new_sel: int, n: int, vis: int) -> (int, int) {
    let sel = if new_sel < n - 1 { new_sel } else { n - 1 };
    match action_line(sel) {
        Some(line) => (sel, scroll_to_show(scroll, line, vis, layout_hits().len() as int)),
        None => (sel, scroll),
    }
}

fn apply_action_selection(state: &mut ActionsDialogState, new_sel: usize, hits: &Vec<Option<ActionsChoice>>, vis: usize, n_actions: usize)
    requires
        hits@ == layout_hits(),
        n_actions >= 1,
    ensures
        (final(state).selected_action as int, final(state).scroll as int)
            == selection_after(old(state).scroll as int, new_sel as int, n_actions as int, vis as int),
{
    state.selected_action = if new_sel < n_actions - 1 { new_sel } else { n_actions - 1 };
    match line_index_for_selected_action(hits, state.selected_action) {
        Some(line) => sync_scroll_to_line(state, vis, hits.len(), line),
        None => {},
    }
}

/// Where a navigation key moves the focus from action `s` of `n`, with `vis` rows per page;
/// `None` for a key that does not navigate (given whether Control is held).
pub open spec fn nav_target(code: KeyCode, control: bool, s: int, n: int, vis: int) -> Option<int> {
    let step = if vis < 1 { 1 } else { vis };
    match code {
        KeyCode::Tab => Some((s + 1) % n),
        KeyCode::BackTab => Some((s + n - 1) % n),
        KeyCode::Up => if control { None } else { Some(if s >= 1 { s - 1 } else { 0 }) },
        KeyCode::Down => if control { None } else { Some(if s + 1 < n - 1 { s + 1 } else { n - 1 }) },
        KeyCode::Char(c) => if control {
            None
        } else if c == 'k' {
            Some(if s >= 1 { s - 1 } else { 0 })
        } else if c == 'j' {
            Some(if s + 1 < n - 1 { s + 1 } else { n - 1 })
        } else {
            None
        },
        KeyCode::PageUp => Some(if s >= step { s - step } else { 0 }),
        KeyCode::PageDown => Some(if s + step < n - 1 { s + step } else { n - 1 }),
        KeyCode::Home => Some(0),
        KeyCode::End => Some(n - 1),
        _ => None,
    }
}

fn nav_target_exec(code: KeyCode, ctrl: bool, s: usize, n: usize, vis: usize) -> (r: Option<usize>)
    requires
        s < n <= 1000,
    ensures
        match r {
            Some(t) => nav_target(code, ctrl, s as int, n as int, vis as int) == Some(t as int),
            None => nav_target(code, ctrl, s as int, n as int, vis as int) is None,
        },
{
    let step = if vis < 1 { 1 } else { vis };
    match code {
        KeyCode::Tab => Some((s + 1) % n),
        KeyCode::BackTab => Some((s + n - 1) % n),
        KeyCode::Up => if ctrl { None } else { Some(if s >= 1 { s - 1 } else { 0 }) },
        KeyCode::Down => if ctrl { None } else { Some(if s + 1 < n - 1 { s + 1 } else { n - 1 }) },
        KeyCode::Char(c) => if ctrl {
            None
        } else if c == 'k' {
            Some(if s >= 1 { s - 1 } else { 0 })
        } else if c == 'j' {
            Some(if s + 1 < n - 1 { s + 1 } else { n - 1 })
        } else {
            None
        },
        KeyCode::PageUp => Some(if s >= step { s - step } else { 0 }),
        KeyCode::PageDown => Some(if step < n - 1 - s { s + step } else { n - 1 }),
        KeyCode::Home => Some(0),
        KeyCode::End => Some(n - 1),
        _ => None,
    }
}

/// A key closes the dialog: Esc, or `q` without Control.
pub open spec fn closes_actions(code: KeyCode, control: bool) -> bool {
    code == KeyCode::Esc || (code == KeyCode::Char('q') && !control)
}

/// A key for the open Actions dialog, whose list shows `vis` rows.
/// - Enter runs the focused action (focus capped to the last action): the dialog closes and the
///   row's action is returned.
/// - Esc, or `q` without Control: `ActionsClose`, the dialog stays for the caller to close.
/// - Tab / BackTab (wrapping), Up / Down / k / j (without Control), PageUp / PageDown (by `vis`
///   rows), Home / End move the focus and scroll so its row is visible: `Continue`.
/// - Any other key: `None`, nothing changes. `None` also when the dialog is not open.
pub fn handle_key(app: &mut AppState, code: KeyCode, modifiers: KeyModifiers, vis: usize) -> (r: Option<AppAction>)
    ensures
        match old(app).actions_dialog {
            None => r is None && *final(app) == *old(app),
            Some(d) => {
                let key = normalize_key(code);
                let n = action_count();
                let s = if (d.selected_action as int) < n - 1 { d.selected_action as int } else { n - 1 };
                &&& *final(app) == (AppState { actions_dialog: final(app).actions_dialog, ..*old(app) })
                &&& if n == 0 {
                    final(app).actions_dialog == old(app).actions_dialog
                        && r == Some(if closes_actions(key, false) { AppAction::ActionsClose } else { AppAction::Continue })
                } else if key == KeyCode::Enter {
                    match action_line(s) {
                        None => r is None && final(app).actions_dialog == old(app).actions_dialog,
                        Some(line) => match layout_hits()[line] {
                            Some(c) => final(app).actions_dialog is None && r == Some(choice_action(c)),
                            None => r == Some(AppAction::Continue) && final(app).actions_dialog == old(app).actions_dialog,
                        },
                    }
                } else if closes_actions(key, modifiers.control) {
                    r == Some(AppAction::ActionsClose) && final(app).actions_dialog == old(app).actions_dialog
                } else {
                    match nav_target(key, modifiers.control, s, n, vis as int) {
                        Some(t) => r == Some(AppAction::Continue) && (final(app).actions_dialog matches Some(nd)
                            && (nd.selected_action as int, nd.scroll as int) == selection_after(d.scroll as int, t, n, vis as int)),
                        None => r is None && final(app).actions_dialog == old(app).actions_dialog,
                    }
                }
            },
        },
{
    let code = match code {
        KeyCode::Char(c) => if c == '\t' { KeyCode::Tab } else { code },
        other => other,
    };
    if app.actions_dialog.is_none() {
        return None;
    }
    let hits = action_hits();
    let n_actions = action_choice_count(&hits);
    if n_actions == 0 {
        return match code {
            KeyCode::Esc => Some(AppAction::ActionsClose),
            KeyCode::Char(c) => if c == 'q' { Some(AppAction::ActionsClose) } else { Some(AppAction::Continue) },
            _ => Some(AppAction::Continue),
        };
    }
    let ctrl = modifiers.control;
    let mut state = match app.actions_dialog.take() {
        Some(st) => st,
        None => return None,
    };
    let ghost d = state;
    let s = if state.selected_action < n_actions - 1 { state.selected_action } else { n_actions - 1 };
    let target: Option<usize> = match code {
        KeyCode::Enter => {
            let line = match line_index_for_selected_action(&hits, s) {
                Some(l) => l,
                None => {
                    app.actions_dialog = Some(state);
                    return None;
                },
            };
            proof {
                lemma_nth_action_from_range(hits@, s as int, 0);
            }
            match hits[line] {
                Some(choice) => {
                    return Some(choice.to_app_action());
                },
                None => {
                    app.actions_dialog = Some(state);
                    return Some(AppAction::Continue);
                },
            }
        },
        KeyCode::Esc => {
            app.actions_dialog = Some(state);
            return Some(AppAction::ActionsClose);
        },
        KeyCode::Char(c) => {
            if c == 'q' && !ctrl {
                app.actions_dialog = Some(state);
                return Some(AppAction::ActionsClose);
            }
            nav_target_exec(code, ctrl, s, n_actions, vis)
        },
        _ => nav_target_exec(code, ctrl, s, n_actions, vis),
    };
    match target {
        Some(t) => {
            state.selected_action = s;
            apply_action_selection(&mut state, t, &hits, vis, n_actions);
            app.actions_dialog = Some(state);
            Some(AppAction::Continue)
        },
        None => {
            app.actions_dialog = Some(state);
            None
        },
    }
}

/// The shortcut shown on each action row, in row order.
pub open spec fn action_chords() -> Seq<Seq<char>> {
    seq![
        "Ctrl+O  or  Ctrl+X O"@,
        "Ctrl+R"@,
        "Ctrl+X R"@,
        "Ctrl+X H"@,
        "Ctrl+X T"@,
        "Ctrl+X 1"@,
        "Ctrl+X 2"@,
        "Ctrl+X C"@,
        "Ctrl+X F"@,
        "Ctrl+X D"@,
        "Ctrl+X S"@,
        "Ctrl+X A"@,
        "Ctrl+X N"@,
        "Ctrl+C"@,
        "Ctrl+V"@
    ]
}

fn action_chords_vec() -> (r: Vec<&'static str>)
    ensures
        r@.len() == action_chords().len(),
        forall|i: int| 0 <= i < r@.len() ==> #[trigger] r@[i]@ == action_chords()[i],
{
    let r = vec![
        "Ctrl+O  or  Ctrl+X O",
        "Ctrl+R",
        "Ctrl+X R",
        "Ctrl+X H",
        "Ctrl+X T",
        "Ctrl+X 1",
        "Ctrl+X 2",
        "Ctrl+X C",
        "Ctrl+X F",
        "Ctrl+X D",
        "Ctrl+X S",
        "Ctrl+X A",
        "Ctrl+X N",
        "Ctrl+C",
        "Ctrl+V"
    ];
    assert(r@.len() == action_chords().len());
    r
}

/// The longest of the first `k` shortcut labels (in characters).
pub open spec fn longest_chord_upto(k: int) -> int
    decreases k,
{
    if k <= 0 {
        0
    } else {
        let prev = longest_chord_upto(k - 1);
        let l = action_chords()[k - 1].len() as int;
        if prev < l { l } else { prev }
    }
}

/// Width of the grey shortcut button: the longest shortcut label plus one.
pub fn chord_button_inner_cols() -> (r: usize)
    ensures
        r == longest_chord_upto(action_chords().len() as int) + 1,
        r <= 21,
{
    let chords = action_chords_vec();
    proof {
        reveal_strlit("Ctrl+O  or  Ctrl+X O");
        reveal_strlit("Ctrl+R");
        reveal_strlit("Ctrl+X R");
        reveal_strlit("Ctrl+X H");
        reveal_strlit("Ctrl+X T");
        reveal_strlit("Ctrl+X 1");
        reveal_strlit("Ctrl+X 2");
        reveal_strlit("Ctrl+X C");
        reveal_strlit("Ctrl+X F");
        reveal_strlit("Ctrl+X D");
        reveal_strlit("Ctrl+X S");
        reveal_strlit("Ctrl+X A");
        reveal_strlit("Ctrl+X N");
        reveal_strlit("Ctrl+C");
        reveal_strlit("Ctrl+V");
        assert forall|j: int| 0 <= j < action_chords().len() implies #[trigger] action_chords()[j].len() <= 20 by {}
    }
    let mut best: usize = 0;
    let mut i: usize = 0;
    while i < chords.len()
        invariant
            i <= chords@.len(),
            chords@.len() == action_chords().len(),
            forall|j: int| 0 <= j < chords@.len() ==> #[trigger] chords@[j]@ == action_chords()[j],
            best == longest_chord_upto(i as int),
            best <= 20,
            forall|j: int| 0 <= j < action_chords().len() ==> #[trigger] action_chords()[j].len() <= 20,
        decreases chords@.len() - i,
    {
        let l = chords[i].unicode_len();
        assert(chords@[i as int]@ == action_chords()[i as int]);
        if best < l {
            best = l;
        }
        i = i + 1;
    }
    best + 1
}

/// Rows scrolled by one wheel step.
pub const WHEEL_LINES: usize = 3;

/// Columns before the grey shortcut button on a row.
pub const CHORD_BTN_INDENT_COLS: u16 = 4;

/// The furthest the list scrolls when `vis` of its rows are visible.
pub open spec fn max_scroll(vis: int) -> int {
    let v = if vis < 1 { 1 } else { vis };
    let total = layout_hits().len() as int;
    if total > v { total - v } else { 0 }
}

/// What a mouse event does to the open Actions dialog drawn in `dialog`, with its list in `text`
/// and its scroll bar in `sb`: the new scroll and the answer, or `None` as the scroll when a
/// row runs (the dialog then closes).
/// - The wheel over the dialog scrolls by `WHEEL_LINES` within the list.
/// - A click outside the dialog closes it (`ActionsClose`).
/// - A click on the scroll bar jumps proportionally to the click's height.
/// - A click on the grey shortcut button of an action row runs that action.
pub open spec fn actions_mouse_outcome(scroll: int, kind: MouseKind, col: int, row: int, dialog: Rect, text: Rect, sb: Rect) -> (Option<int>, AppAction) {
    let vis = if text.height < 1 { 1int } else { text.height as int };
    let max_s = max_scroll(text.height as int);
    match kind {
        MouseKind::ScrollUp => (Some(if rect_contains(dialog, col, row) {
            let s = if scroll >= WHEEL_LINES { scroll - WHEEL_LINES } else { 0 };
            if s < max_s { s } else { max_s }
        } else {
            scroll
        }), AppAction::Continue),
        MouseKind::ScrollDown => (Some(if rect_contains(dialog, col, row) {
            if scroll + WHEEL_LINES < max_s { scroll + WHEEL_LINES } else { max_s }
        } else {
            scroll
        }), AppAction::Continue),
        MouseKind::LeftDown => if !rect_contains(dialog, col, row) {
            (Some(scroll), AppAction::ActionsClose)
        } else if max_s > 0 && rect_contains(sb, col, row) {
            let rel = row - sb.y;
            (Some(if vis > 1 {
                let s = rel * max_s / (vis - 1);
                if s < max_s { s } else { max_s }
            } else {
                max_s
            }), AppAction::Continue)
        } else if rect_contains(text, col, row) && 0 <= scroll + (row - text.y) < layout_hits().len()
            && layout_hits()[scroll + (row - text.y)] is Some {
            let rel_col = col - text.x;
            let btn_end = CHORD_BTN_INDENT_COLS + longest_chord_upto(action_chords().len() as int) + 1;
            if CHORD_BTN_INDENT_COLS <= rel_col < btn_end {
                (None, choice_action(layout_hits()[scroll + (row - text.y)].unwrap()))
            } else {
                (Some(scroll), AppAction::Continue)
            }
        } else {
            (Some(scroll), AppAction::Continue)
        },
        MouseKind::RightDown | MouseKind::MiddleDown | MouseKind::Other => (Some(scroll), AppAction::Continue),
    }
}

/// A mouse event for the Actions dialog (see `actions_mouse_outcome`); `None` when it is not
/// open.
pub fn handle_mouse(app: &mut AppState, kind: MouseKind, col: u16, row: u16, dialog: Rect, text: Rect, sb: Rect) -> (r: Option<AppAction>)
    ensures
        match old(app).actions_dialog {
            None => r is None && *final(app) == *old(app),
            Some(d) => {
                let o = actions_mouse_outcome(d.scroll as int, kind, col as int, row as int, dialog, text, sb);
                &&& *final(app) == (AppState { actions_dialog: final(app).actions_dialog, ..*old(app) })
                &&& r == Some(o.1)
                &&& match o.0 {
                    None => final(app).actions_dialog is None,
                    Some(s) => final(app).actions_dialog matches Some(nd) && nd.scroll == s && nd.selected_action == d.selected_action,
                }
            },
        },
{
    let mut state = match app.actions_dialog.take() {
        Some(st) => st,
        None => return None,
    };
    let hits = action_hits();
    proof {
        reveal(layout_hits);
    }
    let total = hits.len();
    let vis: usize = if text.height < 1 { 1 } else { text.height as usize };
    let max_s = if total > vis { total - vis } else { 0 };
    let in_dialog = pointer_in(dialog, col, row);
    match kind {
        MouseKind::ScrollUp => {
            if in_dialog {
                let s = if state.scroll >= WHEEL_LINES { state.scroll - WHEEL_LINES } else { 0 };
                state.scroll = if s < max_s { s } else { max_s };
            }
        },
        MouseKind::ScrollDown => {
            if in_dialog {
                state.scroll = if state.scroll < max_s && WHEEL_LINES < max_s - state.scroll { state.scroll + WHEEL_LINES } else { max_s };
            }
        },
        MouseKind::LeftDown => {
            if !in_dialog {
                app.actions_dialog = Some(state);
                return Some(AppAction::ActionsClose);
            }
            if max_s > 0 && pointer_in(sb, col, row) {
                let rel = (row - sb.y) as usize;
                state.scroll = if vis > 1 {
                    assert(rel * max_s <= 65535 * 24) by (nonlinear_arith)
                        requires
                            rel <= 65535,
                            max_s <= 24,
                    ;
                    let s = rel * max_s / (vis - 1);
                    if s < max_s { s } else { max_s }
                } else {
                    max_s
                };
            } else if pointer_in(text, col, row) {
                let rel_row = (row - text.y) as usize;
                if state.scroll < total && rel_row < total - state.scroll {
                    let idx = state.scroll + rel_row;
                    match hits[idx] {
                        Some(choice) => {
                            let rel_col = (col - text.x) as usize;
                            let btn_end = (CHORD_BTN_INDENT_COLS as usize) + chord_button_inner_cols();
                            if (CHORD_BTN_INDENT_COLS as usize) <= rel_col && rel_col < btn_end {
                                return Some(choice.to_app_action());
                            }
                        },
                        None => {},
                    }
                }
            }
        },
        MouseKind::RightDown | MouseKind::MiddleDown | MouseKind::Other => {},
    }
    app.actions_dialog = Some(state);
    Some(AppAction::Continue)
}

} // verus!
