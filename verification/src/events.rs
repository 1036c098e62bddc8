//! Actions that key and mouse handling hand to the main loop, and the pure decisions behind
//! the keyboard handling of the modal dialogs and of the panels.
use vstd::prelude::*;

use crate::app_state::{AppState, CopyParams, Focus, Operation};
use crate::editor::EditorConfirmChoice;
use crate::dialog_layout::{centered_content, centered_dialog};
use crate::dialogs::help_dialog::area_fits;
use crate::dialogs::mkdir_dialog::{mkdir_button_rects, mkdir_buttons, mkdir_buttons_fit};
use crate::editor::{editor_confirm_fits, editor_confirm_option_rects, editor_confirm_rows};
use crate::keys::{KeyCode, KeyModifiers, MouseKind, Rect, pointer_in, rect_contains};
use crate::ui::{Renderer, confirm_buttons};
use crate::panel::{Panel, PanelOperations, PanelView, after_set_selection, copy_selection, items_view, opt_view, with_cursor, toggled,
    inverted, after_move_up, after_move_down, after_page_up, after_page_down, after_move_left, after_move_right};
use crate::strutil::str_eq;
use crate::text_input::{is_printable_ascii, printable_ascii};
use crate::strutil::{str_trim, trim_of};
use crate::text_input::{TextInputState, text_after_insert, text_after_backspace};

verus! {

#[derive(Debug, Clone, PartialEq, Eq)]
pub enum AppAction {
    Continue,
    Quit,
    Suspend,
    RunCommand(String),
    /// F5 Copy: copy selected/marked files from the active panel to the opposite panel.
    Copy(CopyParams),
    /// F6 Move: move selected/marked files from the active panel to the opposite panel.
    Move(CopyParams),
    /// User chose 1–5 in the "file exists" overwrite dialog during copy.
    CopyOverwriteChoice(usize),
    /// User chose Ignore, Cancel or Ignore all in the copy error dialog.
    CopyErrorChoice(CopyErrorChoice),
    /// User pressed ESC to cancel the copy operation.
    CopyCancel,
    /// User chose Yes or No in the "Are you sure?" confirmation dialog.
    DeleteConfirmChoice(DeleteConfirmChoice),
    OpenEditor,
    EditorSave,
    EditorClose,
    EditorConfirmChoice(EditorConfirmChoice),
    OpenViewer,
    ViewerClose,
    OpenMkdirDialog,
    MkdirConfirm,
    MkdirCancel,
    OpenRenameAttrDialog,
    RenameAttrConfirm,
    RenameAttrCancel,
    /// Copy the name being edited in the F2 dialog to the clipboard.
    RenameAttrCopy,
    /// Paste the clipboard into the name being edited in the F2 dialog.
    RenameAttrPaste,
    OpenSizeInfoDialog,
    SizeInfoClose,
    OpenSettingsDialog,
    SettingsClose,
    /// Change one persisted setting (from the Settings dialog).
    SettingChange(SettingChange),
    HelpClose,
    ErrorDetailClose,
    ToggleShowHidden,
    FindClose,
    FindStartSearch,
    FindChdir,
    FindView,
    FindEdit,
    /// F1: open the Actions dialog.
    OpenActionsDialog,
    /// The Actions dialog was closed without running anything.
    ActionsClose,
    RefreshBothPanels,
    RefreshActivePanel,
    /// Toggle the active panel between one and two columns.
    ViewModeToggled,
    OpenLeftPanelSettings,
    OpenRightPanelSettings,
    CloseLeftPanelSettings,
    CloseRightPanelSettings,
    /// Save both panel paths and the active panel to the settings.
    PersistPanelState,
    OpenFindDialog,
    OpenDiffViewer,
    OpenArchiveDialog,
    ArchiveConfirm,
    ArchiveCancel,
    OpenNewFileDialog,
    /// Create an empty file with this name in the active panel.
    NewFileConfirm(String),
    NewFileCancel,
    CommandLineCopy,
    CommandLinePaste,
    OpenPatternSelectMark,
    OpenPatternSelectUnmark,
    /// Mark or unmark by the pattern of the open pattern dialog.
    PatternSelectConfirm,
    PatternSelectCancel,
    /// Copy the pattern being edited to the clipboard.
    PatternSelectCopy,
    /// Paste the clipboard into the pattern being edited.
    PatternSelectPaste,
}

/// A change to the persisted settings asked for in the Settings dialog.
#[derive(Debug, Clone, Copy, PartialEq, Eq, Structural)]
pub enum SettingChange {
    AutosaveToggle,
    SyncPanelToShellCwdToggle,
    AutoReopenPanelsAfterCommandToggle,
    AutoReopenPanelsAfterCommandDelayCycle,
    FilePatternModeCycle,
    SafeDeleteToggle,
    LeftViewCycle,
    LeftSortCycle,
    LeftSortCyclePrev,
    LeftDirsFirstToggle,
    LeftShowHiddenToggle,
    RightViewCycle,
    RightSortCycle,
    RightSortCyclePrev,
    RightDirsFirstToggle,
    RightShowHiddenToggle,
    /// Use the theme at this index of the theme list.
    ThemeSelect(usize),
}

#[derive(Debug, Clone, Copy, PartialEq, Eq, Structural)]
pub enum DeleteConfirmChoice {
    Yes,
    No,
}

#[derive(Debug, Clone, Copy, PartialEq, Eq, Structural)]
pub enum CopyErrorChoice {
    Ignore,
    Cancel,
    /// Ignore this file and all future errors.
    IgnoreAll,
}

pub struct EventHandler;

/// Moves the command line out of the state, leaving it empty.
fn take_line(app: &mut AppState) -> (r: TextInputState)
    ensures
        r == old(app).command_line,
        *final(app) == (AppState { command_line: final(app).command_line, ..*old(app) }),
        final(app).command_line.text@.len() == 0,
        final(app).command_line.cursor == 0,
{
    let mut out = TextInputState { text: String::new(), cursor: 0 };
    std::mem::swap(&mut out, &mut app.command_line);
    out
}

/// Tab, also when the terminal sends it as the character '\t'.
pub open spec fn is_tab(code: KeyCode) -> bool {
    code == KeyCode::Tab || code == KeyCode::Char('\t')
}

/// "Save changes?" dialog of the editor: 1/2/3 choose directly, Tab/↑↓ cycle the focus,
/// Enter chooses the focused option, Esc cancels. Returns the new focus and the action.
pub open spec fn editor_confirm_outcome(focus: int, code: KeyCode) -> (int, AppAction) {
    if code == KeyCode::Char('1') {
        (focus, AppAction::EditorConfirmChoice(EditorConfirmChoice::Save))
    } else if code == KeyCode::Char('2') {
        (focus, AppAction::EditorConfirmChoice(EditorConfirmChoice::Discard))
    } else if code == KeyCode::Char('3') || code == KeyCode::Esc {
        (focus, AppAction::EditorConfirmChoice(EditorConfirmChoice::Cancel))
    } else if is_tab(code) || code == KeyCode::Down {
        ((focus + 1) % 3, AppAction::Continue)
    } else if code == KeyCode::BackTab || code == KeyCode::Up {
        ((focus + 2) % 3, AppAction::Continue)
    } else if code == KeyCode::Enter {
        (focus, AppAction::EditorConfirmChoice(
            if focus == 0 { EditorConfirmChoice::Save } else if focus == 1 { EditorConfirmChoice::Discard } else { EditorConfirmChoice::Cancel },
        ))
    } else {
        (focus, AppAction::Continue)
    }
}

/// "File exists" dialog of a copy: 1–4 choose, 5 or Esc cancels (choice 5), Tab/↑↓ cycle the
/// five options, Enter chooses the focused one.
pub open spec fn overwrite_outcome(focus: int, code: KeyCode) -> (int, AppAction) {
    if code == KeyCode::Char('1') {
        (focus, AppAction::CopyOverwriteChoice(1))
    } else if code == KeyCode::Char('2') {
        (focus, AppAction::CopyOverwriteChoice(2))
    } else if code == KeyCode::Char('3') {
        (focus, AppAction::CopyOverwriteChoice(3))
    } else if code == KeyCode::Char('4') {
        (focus, AppAction::CopyOverwriteChoice(4))
    } else if code == KeyCode::Char('5') || code == KeyCode::Esc {
        (focus, AppAction::CopyOverwriteChoice(5))
    } else if is_tab(code) || code == KeyCode::Down {
        ((focus + 1) % 5, AppAction::Continue)
    } else if code == KeyCode::BackTab || code == KeyCode::Up {
        ((focus + 4) % 5, AppAction::Continue)
    } else if code == KeyCode::Enter {
        (focus, AppAction::CopyOverwriteChoice((focus + 1) as usize))
    } else {
        (focus, AppAction::Continue)
    }
}

/// "Are you sure?" dialog: y/Y = Yes, n/N/Esc = No, Tab switches the focused button, Enter
/// chooses it.
pub open spec fn operation_confirm_outcome(focus_yes: bool, code: KeyCode) -> (bool, AppAction) {
    if code == KeyCode::Char('y') || code == KeyCode::Char('Y') {
        (focus_yes, AppAction::DeleteConfirmChoice(DeleteConfirmChoice::Yes))
    } else if code == KeyCode::Char('n') || code == KeyCode::Char('N') || code == KeyCode::Esc {
        (focus_yes, AppAction::DeleteConfirmChoice(DeleteConfirmChoice::No))
    } else if is_tab(code) {
        (!focus_yes, AppAction::Continue)
    } else if code == KeyCode::Enter {
        (focus_yes, AppAction::DeleteConfirmChoice(if focus_yes { DeleteConfirmChoice::Yes } else { DeleteConfirmChoice::No }))
    } else {
        (focus_yes, AppAction::Continue)
    }
}

/// Copy error dialog: 1 = Ignore, 2 or Esc = Cancel, 3 = Ignore all, Tab/↑↓ cycle, Enter
/// chooses the focused option.
pub open spec fn copy_error_outcome(focus: int, code: KeyCode) -> (int, AppAction) {
    if code == KeyCode::Char('1') {
        (focus, AppAction::CopyErrorChoice(CopyErrorChoice::Ignore))
    } else if code == KeyCode::Char('2') || code == KeyCode::Esc {
        (focus, AppAction::CopyErrorChoice(CopyErrorChoice::Cancel))
    } else if code == KeyCode::Char('3') {
        (focus, AppAction::CopyErrorChoice(CopyErrorChoice::IgnoreAll))
    } else if is_tab(code) || code == KeyCode::Down {
        ((focus + 1) % 3, AppAction::Continue)
    } else if code == KeyCode::BackTab || code == KeyCode::Up {
        ((focus + 2) % 3, AppAction::Continue)
    } else if code == KeyCode::Enter {
        (focus, AppAction::CopyErrorChoice(
            if focus == 0 { CopyErrorChoice::Ignore } else if focus == 1 { CopyErrorChoice::Cancel } else { CopyErrorChoice::IgnoreAll },
        ))
    } else {
        (focus, AppAction::Continue)
    }
}

/// What a key on a panel asks of the caller.
pub enum PanelKeyOutcome {
    Action(AppAction),
    /// Enter on a directory: read the listing of `directory_to_enter()` of the active panel and
    /// pass it to `enter_directory`, then continue.
    EnterDirectory,
    /// Tab: make the other panel active.
    SwitchPanel,
    /// Ctrl+T: toggle the active panel between one and two columns.
    ToggleViewMode,
    /// Ctrl+R: re-read the active panel.
    RefreshActivePanel,
}

/// `new_app` differs from `old_app` at most in the active panel, whose view is `v`.
pub open spec fn active_panel_becomes(old_app: AppState, new_app: AppState, v: PanelView) -> bool {
    if old_app.active_panel == 0 {
        new_app.left_panel@ == v && new_app == (AppState { left_panel: new_app.left_panel, ..old_app })
    } else {
        new_app.right_panel@ == v && new_app == (AppState { right_panel: new_app.right_panel, ..old_app })
    }
}

/// A copy / move / delete request built from the active panel's group selection.
pub open spec fn params_from(p: CopyParams, source: Seq<char>, target: Seq<char>, v: PanelView) -> bool {
    let sel = copy_selection(v);
    &&& p.source_dir@ == source
    &&& p.target_dir@ == target
    &&& items_view(p.items@) == sel.0
    &&& opt_view(p.restore_selection_after) == sel.1
    &&& opt_view(p.restore_selection_before) == sel.2
}

/// The selected entry exists and is a regular file (not a directory, not "..").
pub open spec fn selected_is_file(v: PanelView) -> bool {
    0 <= v.sel < v.files.len() && !v.files[v.sel].is_dir && !v.files[v.sel].spec_is_parent()
}

/// Ctrl + key on a panel.
pub open spec fn ctrl_outcome(app: AppState, c: char) -> PanelKeyOutcome {
    if c == 'o' {
        PanelKeyOutcome::Action(AppAction::Suspend)
    } else if c == 'g' {
        PanelKeyOutcome::Action(if copy_selection(app.active_view()).0.len() > 0 { AppAction::OpenSizeInfoDialog } else { AppAction::Continue })
    } else if c == 't' {
        PanelKeyOutcome::ToggleViewMode
    } else if c == 'h' {
        PanelKeyOutcome::Action(AppAction::ToggleShowHidden)
    } else if c == 'r' {
        PanelKeyOutcome::RefreshActivePanel
    } else {
        PanelKeyOutcome::Action(AppAction::Continue)
    }
}

/// The active panel after Space: the mark of the selected real entry flips, then the cursor
/// moves down.
pub open spec fn after_toggle_mark(v: PanelView, h: int) -> PanelView {
    if v.len() == 0 {
        v
    } else {
        with_cursor(
            PanelView {
                marked: if v.files[v.sel].spec_is_parent() { v.marked } else { toggled(v.marked, v.sel as usize) },
                ..v
            },
            after_move_down(v.dc(), v.len(), v.sel, v.scroll, h),
        )
    }
}

/// Effect of a key on a panel (panel focus, no dialog open).
pub open spec fn panel_key_outcome(old_app: AppState, new_app: AppState, code: KeyCode, control: bool, h: int, r: PanelKeyOutcome) -> bool {
    let v = old_app.active_view();
    let unchanged = new_app == old_app;
    let cont = r == PanelKeyOutcome::Action(AppAction::Continue);
    let source = v.dir;
    let target = old_app.opposite_view().dir;
    let items = copy_selection(v).0;
    match code {
        KeyCode::Up => cont && active_panel_becomes(old_app, new_app, with_cursor(v, after_move_up(v.dc(), v.len(), v.sel, v.scroll, h))),
        KeyCode::Down => cont && active_panel_becomes(old_app, new_app, with_cursor(v, after_move_down(v.dc(), v.len(), v.sel, v.scroll, h))),
        KeyCode::Left => cont && active_panel_becomes(old_app, new_app, with_cursor(v, after_move_left(v.len(), v.sel, v.scroll, h))),
        KeyCode::Right => cont && active_panel_becomes(old_app, new_app, with_cursor(v, after_move_right(v.len(), v.sel, v.scroll, h))),
        KeyCode::PageUp => cont && active_panel_becomes(old_app, new_app, with_cursor(v, after_page_up(v.dc(), v.len(), v.sel, v.scroll, h))),
        KeyCode::PageDown => cont && active_panel_becomes(old_app, new_app, with_cursor(v, after_page_down(v.dc(), v.len(), v.sel, v.scroll, h))),
        KeyCode::Enter => unchanged && if 0 <= v.sel < v.len() && !v.files[v.sel].is_dir && v.files[v.sel].is_executable {
            r matches PanelKeyOutcome::Action(AppAction::RunCommand(cmd)) && cmd@ == "./"@ + v.files[v.sel].name@
        } else {
            r == PanelKeyOutcome::EnterDirectory
        },
        KeyCode::Tab => unchanged && r == PanelKeyOutcome::SwitchPanel,
        KeyCode::Char(c) => if c == ' ' {
            cont && active_panel_becomes(old_app, new_app, after_toggle_mark(v, h))
        } else if c == '*' {
            cont && active_panel_becomes(old_app, new_app, PanelView { marked: inverted(v.files, v.marked), ..v })
        } else if control {
            unchanged && r == ctrl_outcome(old_app, c)
        } else if printable_ascii(c) {
            &&& cont
            &&& new_app.command_line.text@ == text_after_insert(old_app.command_line.text@, old_app.command_line.cursor as int, c)
            &&& new_app.command_line.cursor == old_app.command_line.cursor + 1
            &&& new_app == (AppState { focus: Focus::CommandLine, command_line: new_app.command_line, ..old_app })
        } else {
            unchanged && cont
        },
        KeyCode::F(k) => if k == 5 {
            unchanged && if source != target && items.len() > 0 {
                r matches PanelKeyOutcome::Action(AppAction::Copy(p)) && params_from(p, source, target, v)
            } else {
                cont
            }
        } else if k == 6 {
            if source != target && items.len() > 0 {
                unchanged && (r matches PanelKeyOutcome::Action(AppAction::Move(p)) && params_from(p, source, target, v))
            } else {
                cont && new_app == (AppState { focus: Focus::CommandLine, ..old_app })
            }
        } else if k == 3 {
            unchanged && r == PanelKeyOutcome::Action(if selected_is_file(v) { AppAction::OpenViewer } else { AppAction::Continue })
        } else if k == 4 {
            unchanged && r == PanelKeyOutcome::Action(if selected_is_file(v) { AppAction::OpenEditor } else { AppAction::Continue })
        } else if k == 1 {
            unchanged && r == PanelKeyOutcome::Action(AppAction::OpenActionsDialog)
        } else if k == 7 {
            unchanged && r == PanelKeyOutcome::Action(AppAction::OpenMkdirDialog)
        } else if k == 2 {
            unchanged && r == PanelKeyOutcome::Action(AppAction::OpenRenameAttrDialog)
        } else if k == 10 {
            unchanged && r == PanelKeyOutcome::Action(AppAction::Quit)
        } else if k == 8 {
            cont && if items.len() > 0 {
                &&& new_app.operation_confirm_pending matches Some((op, p)) && op == Operation::Delete && params_from(p, source, Seq::empty(), v)
                &&& new_app == (AppState { operation_confirm_pending: new_app.operation_confirm_pending, operation_confirm_focus_yes: true, ..old_app })
            } else {
                unchanged
            }
        } else {
            unchanged && cont
        },
        _ => unchanged && cont,
    }
}

/// Menu bar click: the F-key of the slot under column `col` when the bar of width `term_w` is
/// split into ten equal slots (the last one takes the rest).
pub open spec fn menu_slot_key(col: int, term_w: int) -> int {
    let slot_w = term_w / 10;
    let idx = col / slot_w;
    (if idx < 9 { idx } else { 9 }) + 1
}

/// Effect of a click on the menu bar.
pub open spec fn menu_click_outcome(old_app: AppState, new_app: AppState, key: int, r: Option<AppAction>) -> bool {
    let v = old_app.active_view();
    let unchanged = new_app == old_app;
    let source = v.dir;
    let target = old_app.opposite_view().dir;
    let items = copy_selection(v).0;
    if key == 1 {
        unchanged && r == Some(AppAction::OpenSettingsDialog)
    } else if key == 2 {
        unchanged && r == Some(AppAction::OpenRenameAttrDialog)
    } else if key == 3 {
        unchanged && r == (if selected_is_file(v) { Some(AppAction::OpenViewer) } else { None })
    } else if key == 4 {
        unchanged && r == (if selected_is_file(v) { Some(AppAction::OpenEditor) } else { None })
    } else if key == 5 || key == 6 {
        if source != target && items.len() > 0 {
            &&& r == Some(AppAction::Continue)
            &&& new_app.operation_confirm_pending matches Some((op, p)) && op == (if key == 5 { Operation::Copy } else { Operation::Move })
                && params_from(p, source, target, v)
            &&& new_app == (AppState { operation_confirm_pending: new_app.operation_confirm_pending, operation_confirm_focus_yes: true, ..old_app })
        } else {
            r is None && new_app == (if key == 6 { AppState { focus: Focus::CommandLine, ..old_app } } else { old_app })
        }
    } else if key == 7 {
        unchanged && r == Some(AppAction::OpenMkdirDialog)
    } else if key == 8 {
        if items.len() > 0 {
            &&& r == Some(AppAction::Continue)
            &&& new_app.operation_confirm_pending matches Some((op, p)) && op == Operation::Delete && params_from(p, source, Seq::empty(), v)
            &&& new_app == (AppState { operation_confirm_pending: new_app.operation_confirm_pending, operation_confirm_focus_yes: true, ..old_app })
        } else {
            unchanged && r is None
        }
    } else if key == 10 {
        unchanged && r == Some(AppAction::Quit)
    } else {
        unchanged && r is None
    }
}

/// Layout of the panels view for a terminal of `term_w` x `term_h`: (inner height of the file
/// lists, width of the left panel, width of the right panel).
pub open spec fn panels_layout(term_w: int, term_h: int) -> (int, int, int) {
    let content_height = sat_sub_i(term_h, 2);
    let inner_w = sat_sub_i(term_w, 2);
    let inner_h = sat_sub_i(content_height, 2);
    let list_h = sat_sub_i(inner_h, 1);
    let left_w = inner_w / 2;
    let right_w = sat_sub_i(sat_sub_i(inner_w, left_w), 1);
    (list_h, left_w, right_w)
}

pub open spec fn sat_sub_i(a: int, b: int) -> int {
    if a >= b { a - b } else { 0 }
}

/// Index of the entry drawn at `local_row` of a panel whose list starts at its scroll offset;
/// in two-column mode `in_right_col` selects the second column, `panel_height` entries further.
pub open spec fn entry_at(v: PanelView, local_row: int, in_right_col: bool, panel_height: int) -> int {
    if v.dc() && in_right_col { v.scroll + panel_height + local_row } else { v.scroll + local_row }
}

/// Which panel (0 left, 1 right) and which entry a click at (col, row) hits, if any.
pub open spec fn hit_panel(app: AppState, col: int, row: int, term_w: int, term_h: int, panel_height: int) -> Option<(int, int)> {
    let (list_h, left_w, right_w) = panels_layout(term_w, term_h);
    if row < 1 || row >= 1 + list_h {
        None
    } else {
        let local_row = row - 1;
        let left_idx = entry_at(app.left_panel@, local_row, col >= 1 + left_w / 2, panel_height);
        let right_x = 1 + left_w + 1;
        let right_idx = entry_at(app.right_panel@, local_row, col - right_x >= right_w / 2, panel_height);
        if col >= 1 && col < 1 + left_w && left_idx < app.left_panel@.len() {
            Some((0, left_idx))
        } else if col >= right_x && col < right_x + right_w && right_idx < app.right_panel@.len() {
            Some((1, right_idx))
        } else {
            None
        }
    }
}

/// Effect of a key on the command line (with the command-line focus).
pub open spec fn command_line_outcome(old_app: AppState, new_app: AppState, code: KeyCode, control: bool, r: AppAction) -> bool {
    let t = old_app.command_line;
    let u = new_app.command_line;
    let same_but_line = new_app == (AppState { command_line: u, ..old_app });
    match code {
        KeyCode::Char(c) => if control && c == 'o' {
            r == AppAction::Suspend && new_app == old_app
        } else if control && c == 'c' {
            r == AppAction::Continue && same_but_line && u.text@.len() == 0 && u.cursor == 0
        } else if control && c == 'h' {
            r == AppAction::ToggleShowHidden && new_app == old_app
        } else {
            r == AppAction::Continue && same_but_line
                && u.text@ == text_after_insert(t.text@, t.cursor as int, c) && u.cursor == t.cursor + 1
        },
        KeyCode::Backspace => {
            &&& r == AppAction::Continue
            &&& u.text@ == text_after_backspace(t.text@, t.cursor as int)
            &&& u.cursor == (if t.cursor == 0 { 0 } else { t.cursor - 1 })
            &&& new_app == (AppState { command_line: u, focus: if u.text@.len() == 0 { Focus::Panel } else { old_app.focus }, ..old_app })
        },
        KeyCode::Left => r == AppAction::Continue && same_but_line && u.text@ == t.text@
            && u.cursor == (if t.cursor == 0 { 0 } else { t.cursor - 1 }),
        KeyCode::Right => r == AppAction::Continue && same_but_line && u.text@ == t.text@
            && u.cursor == (if t.cursor + 1 <= t.text@.len() { t.cursor + 1 } else { t.text@.len() as int }),
        KeyCode::Enter => {
            &&& same_but_line && u.text@.len() == 0 && u.cursor == 0
            &&& if trim_of(t.text@).len() == 0 {
                r == AppAction::Continue
            } else {
                r matches AppAction::RunCommand(cmd) && cmd@ == t.text@
            }
        },
        KeyCode::Tab | KeyCode::Esc => r == AppAction::Continue && new_app == (AppState { focus: Focus::Panel, ..old_app }),
        _ => r == AppAction::Continue && new_app == old_app,
    }
}

/// The active panel's group selection packed as a request.
fn group_params(app: &AppState, target: String) -> (r: CopyParams)
    requires
        app.wf(),
    ensures
        params_from(r, app.active_view().dir, target@, app.active_view()),
{
    let (items, after, before) = app.active_panel_ref().get_names_to_copy_with_restore_neighbors();
    CopyParams {
        source_dir: app.get_current_dir().to_owned(),
        target_dir: target,
        items,
        restore_selection_after: after,
        restore_selection_before: before,
    }
}

/// Runs menu key `key` (an F-key number) as the menu bar does (see `menu_click_outcome`).
pub fn menu_bar_action(app: &mut AppState, key: u16) -> (r: Option<AppAction>)
    requires
        old(app).wf(),
    ensures
        menu_click_outcome(*old(app), *final(app), key as int, r),
{
    if key == 1 {
        Some(AppAction::OpenSettingsDialog)
    } else if key == 2 {
        Some(AppAction::OpenRenameAttrDialog)
    } else if key == 3 || key == 4 {
        if let Some(f) = app.active_panel_ref().get_selected_file() {
            if !f.is_dir && !f.is_parent_dir() {
                return Some(if key == 3 { AppAction::OpenViewer } else { AppAction::OpenEditor });
            }
        }
        None
    } else if key == 5 || key == 6 {
        let source = app.get_current_dir();
        let target = app.get_opposite_panel_dir();
        if !str_eq(source, target) {
            let params = group_params(app, target.to_owned());
            if params.items.len() > 0 {
                app.operation_confirm_pending = Some((if key == 5 { Operation::Copy } else { Operation::Move }, params));
                app.operation_confirm_focus_yes = true;
                return Some(AppAction::Continue);
            }
        }
        if key == 6 {
            app.focus = Focus::CommandLine;
        }
        None
    } else if key == 7 {
        Some(AppAction::OpenMkdirDialog)
    } else if key == 8 {
        let params = group_params(app, String::new());
        if params.items.len() > 0 {
            app.operation_confirm_pending = Some((Operation::Delete, params));
            app.operation_confirm_focus_yes = true;
            Some(AppAction::Continue)
        } else {
            None
        }
    } else if key == 10 {
        Some(AppAction::Quit)
    } else {
        None
    }
}

impl EventHandler {
    /// A click on the bottom menu bar at column `col`: runs the F-key of the slot, as far as the
    /// current selection allows; copy, move and delete first ask for confirmation.
    pub fn hit_test_menu_bar(col: u16, term_w: u16, app: &mut AppState) -> (r: Option<AppAction>)
        requires
            old(app).wf(),
            term_w >= 10,
        ensures
            menu_click_outcome(*old(app), *final(app), menu_slot_key(col as int, term_w as int), r),
    {
        let items = crate::ui::Renderer::menu_bar_items();
        let n: u16 = 10;
        let slot_w = term_w / n;
        let q = col / slot_w;
        let slot_index = if q < n - 1 { q } else { n - 1 };
        let key = items[slot_index as usize].1;
        assert(key == slot_index + 1);
        menu_bar_action(app, key)
    }

    /// Maps a click at (col, row) to (panel index, entry index) when it falls on an entry of a
    /// panel's file list. The layout is that of the panels view: one frame row and column,
    /// left and right panels side by side, one header row.
    pub fn hit_test_panel(col: u16, row: u16, term_w: u16, term_h: u16, app: &AppState, panel_height: usize) -> (r: Option<(usize, usize)>)
        requires
            app.wf(),
            app.left_panel@.len() + panel_height + 65536 <= usize::MAX,
            app.right_panel@.len() + panel_height + 65536 <= usize::MAX,
        ensures
            match r {
                Some((p, i)) => hit_panel(*app, col as int, row as int, term_w as int, term_h as int, panel_height as int) == Some((p as int, i as int)),
                None => hit_panel(*app, col as int, row as int, term_w as int, term_h as int, panel_height as int) is None,
            },
    {
        let content_height = term_h.saturating_sub(2);
        let inner_x: u16 = 1;
        let inner_y: u16 = 1;
        let inner_w = term_w.saturating_sub(2);
        let inner_h = content_height.saturating_sub(2);
        let panel_content_height = inner_h.saturating_sub(1);
        let left_w = inner_w / 2;
        let right_w = inner_w.saturating_sub(left_w).saturating_sub(1);
        if row < inner_y || row >= inner_y + panel_content_height {
            return None;
        }
        let local_row = (row - inner_y) as usize;
        if col >= inner_x && col < inner_x + left_w {
            let panel = &app.left_panel;
            let scroll = panel.get_scroll_offset();
            let files_len = panel.get_files().len();
            let file_index = match panel.get_view_mode() {
                crate::panel::ViewMode::SingleColumn => scroll + local_row,
                crate::panel::ViewMode::DoubleColumn => {
                    if col >= inner_x + left_w / 2 {
                        scroll + panel_height + local_row
                    } else {
                        scroll + local_row
                    }
                },
            };
            if file_index < files_len {
                return Some((0, file_index));
            }
        }
        if col >= inner_x + left_w + 1 && col < inner_x + left_w + 1 + right_w {
            let panel = &app.right_panel;
            let scroll = panel.get_scroll_offset();
            let files_len = panel.get_files().len();
            let right_panel_x = inner_x + left_w + 1;
            let col_in_right = col - right_panel_x;
            let file_index = match panel.get_view_mode() {
                crate::panel::ViewMode::SingleColumn => scroll + local_row,
                crate::panel::ViewMode::DoubleColumn => {
                    if col_in_right >= right_w / 2 {
                        scroll + panel_height + local_row
                    } else {
                        scroll + local_row
                    }
                },
            };
            if file_index < files_len {
                return Some((1, file_index));
            }
        }
        None
    }

    /// A key while a panel has the focus and no dialog is open: cursor movement, marking,
    /// opening, the F-key operations, Ctrl shortcuts, and typing into the command line.
    #[verifier::rlimit(60)]
    pub fn handle_panel_key(app: &mut AppState, code: KeyCode, modifiers: KeyModifiers, panel_height: usize) -> (r: PanelKeyOutcome)
        requires
            old(app).wf(),
            old(app).left_panel@.fits(panel_height),
            old(app).right_panel@.fits(panel_height),
            old(app).command_line.cursor < usize::MAX,
        ensures
            panel_key_outcome(*old(app), *final(app), code, modifiers.control, panel_height as int, r),
    {
        let left = app.active_panel == 0;
        match code {
            KeyCode::Up => {
                if left { app.left_panel.move_up(panel_height) } else { app.right_panel.move_up(panel_height) }
                PanelKeyOutcome::Action(AppAction::Continue)
            },
            KeyCode::Down => {
                if left { app.left_panel.move_down(panel_height) } else { app.right_panel.move_down(panel_height) }
                PanelKeyOutcome::Action(AppAction::Continue)
            },
            KeyCode::Left => {
                if left { app.left_panel.smart_move_left(panel_height) } else { app.right_panel.smart_move_left(panel_height) }
                PanelKeyOutcome::Action(AppAction::Continue)
            },
            KeyCode::Right => {
                if left { app.left_panel.smart_move_right(panel_height) } else { app.right_panel.smart_move_right(panel_height) }
                PanelKeyOutcome::Action(AppAction::Continue)
            },
            KeyCode::PageUp => {
                if left { app.left_panel.page_up(panel_height) } else { app.right_panel.page_up(panel_height) }
                PanelKeyOutcome::Action(AppAction::Continue)
            },
            KeyCode::PageDown => {
                if left { app.left_panel.page_down(panel_height) } else { app.right_panel.page_down(panel_height) }
                PanelKeyOutcome::Action(AppAction::Continue)
            },
            KeyCode::Enter => {
                if let Some(file) = app.active_panel_ref().get_selected_file() {
                    if !file.is_dir && file.is_executable {
                        let mut cmd = String::from_str("./");
                        cmd.append(file.name.as_str());
                        return PanelKeyOutcome::Action(AppAction::RunCommand(cmd));
                    }
                }
                PanelKeyOutcome::EnterDirectory
            },
            KeyCode::Tab => PanelKeyOutcome::SwitchPanel,
            KeyCode::Char(c) => {
                if c == ' ' {
                    if left {
                        app.left_panel.toggle_mark_and_move_next(panel_height)
                    } else {
                        app.right_panel.toggle_mark_and_move_next(panel_height)
                    }
                } else if c == '*' {
                    if left { app.left_panel.invert_selection() } else { app.right_panel.invert_selection() }
                } else if modifiers.control {
                    return Self::handle_ctrl_key(app, c);
                } else if is_printable_ascii(c) {
                    app.focus = Focus::CommandLine;
                    let t = take_line(app);
                    app.command_line = t.insert_char(c);
                }
                PanelKeyOutcome::Action(AppAction::Continue)
            },
            KeyCode::F(k) => {
                if k == 5 || k == 6 {
                    let source = app.get_current_dir();
                    let target = app.get_opposite_panel_dir();
                    if !str_eq(source, target) {
                        let params = group_params(app, target.to_owned());
                        if params.items.len() > 0 {
                            return PanelKeyOutcome::Action(if k == 5 { AppAction::Copy(params) } else { AppAction::Move(params) });
                        }
                    }
                    if k == 6 {
                        app.focus = Focus::CommandLine;
                    }
                    PanelKeyOutcome::Action(AppAction::Continue)
                } else if k == 3 || k == 4 {
                    if let Some(file) = app.active_panel_ref().get_selected_file() {
                        if !file.is_dir && !file.is_parent_dir() {
                            return PanelKeyOutcome::Action(if k == 3 { AppAction::OpenViewer } else { AppAction::OpenEditor });
                        }
                    }
                    PanelKeyOutcome::Action(AppAction::Continue)
                } else if k == 1 {
                    PanelKeyOutcome::Action(AppAction::OpenActionsDialog)
                } else if k == 7 {
                    PanelKeyOutcome::Action(AppAction::OpenMkdirDialog)
                } else if k == 2 {
                    PanelKeyOutcome::Action(AppAction::OpenRenameAttrDialog)
                } else if k == 10 {
                    PanelKeyOutcome::Action(AppAction::Quit)
                } else if k == 8 {
                    let params = group_params(app, String::new());
                    if params.items.len() > 0 {
                        app.operation_confirm_pending = Some((Operation::Delete, params));
                        app.operation_confirm_focus_yes = true;
                    }
                    PanelKeyOutcome::Action(AppAction::Continue)
                } else {
                    PanelKeyOutcome::Action(AppAction::Continue)
                }
            },
            _ => PanelKeyOutcome::Action(AppAction::Continue),
        }
    }

    /// Ctrl + key while a panel has the focus: Ctrl+O shell, Ctrl+G size of the selection (when
    /// there is one), Ctrl+T columns, Ctrl+H hidden files, Ctrl+R re-read.
    pub fn handle_ctrl_key(app: &AppState, c: char) -> (r: PanelKeyOutcome)
        requires
            app.wf(),
        ensures
            r == ctrl_outcome(*app, c),
    {
        if c == 'o' {
            PanelKeyOutcome::Action(AppAction::Suspend)
        } else if c == 'g' {
            let (items, _, _) = app.active_panel_ref().get_names_to_copy_with_restore_neighbors();
            if items.len() > 0 {
                PanelKeyOutcome::Action(AppAction::OpenSizeInfoDialog)
            } else {
                PanelKeyOutcome::Action(AppAction::Continue)
            }
        } else if c == 't' {
            PanelKeyOutcome::ToggleViewMode
        } else if c == 'h' {
            PanelKeyOutcome::Action(AppAction::ToggleShowHidden)
        } else if c == 'r' {
            PanelKeyOutcome::RefreshActivePanel
        } else {
            PanelKeyOutcome::Action(AppAction::Continue)
        }
    }

    /// A key while the command line has the focus: typing edits it, Enter runs a non-blank
    /// command (and empties the line), Tab or Esc give the focus back to the panel, Backspace on
    /// the last character does too.
    pub fn handle_command_line_key(app: &mut AppState, code: KeyCode, modifiers: KeyModifiers) -> (r: AppAction)
        requires
            old(app).command_line.cursor < usize::MAX,
        ensures
            command_line_outcome(*old(app), *final(app), code, modifiers.control, r),
    {
        match code {
            KeyCode::Char(c) => {
                if modifiers.control {
                    if c == 'o' {
                        return AppAction::Suspend;
                    }
                    if c == 'c' {
                        app.command_line = TextInputState { text: String::new(), cursor: 0 };
                        return AppAction::Continue;
                    }
                    if c == 'h' {
                        return AppAction::ToggleShowHidden;
                    }
                }
                let t = take_line(app);
                app.command_line = t.insert_char(c);
                AppAction::Continue
            },
            KeyCode::Backspace => {
                let t = take_line(app);
                app.command_line = t.backspace();
                if app.command_line.text.as_str().is_empty() {
                    app.focus = Focus::Panel;
                }
                AppAction::Continue
            },
            KeyCode::Left => {
                let t = take_line(app);
                app.command_line = t.move_left();
                AppAction::Continue
            },
            KeyCode::Right => {
                let t = take_line(app);
                app.command_line = t.move_right();
                AppAction::Continue
            },
            KeyCode::Enter => {
                let t = take_line(app);
                let cmd = t.text;
                if !str_trim(cmd.as_str()).is_empty() {
                    AppAction::RunCommand(cmd)
                } else {
                    AppAction::Continue
                }
            },
            KeyCode::Tab | KeyCode::Esc => {
                app.focus = Focus::Panel;
                AppAction::Continue
            },
            _ => AppAction::Continue,
        }
    }

    /// A key while the editor's "Save changes?" dialog is open.
    pub fn editor_confirm_key(app: &mut AppState, code: KeyCode) -> (r: AppAction)
        requires
            old(app).editor_confirm_focus < usize::MAX - 2,
        ensures
            (final(app).editor_confirm_focus as int, r) == editor_confirm_outcome(old(app).editor_confirm_focus as int, code),
            *final(app) == (AppState { editor_confirm_focus: final(app).editor_confirm_focus, ..*old(app) }),
    {
        let f = app.editor_confirm_focus;
        match code {
            KeyCode::Char('1') => AppAction::EditorConfirmChoice(EditorConfirmChoice::Save),
            KeyCode::Char('2') => AppAction::EditorConfirmChoice(EditorConfirmChoice::Discard),
            KeyCode::Char('3') | KeyCode::Esc => AppAction::EditorConfirmChoice(EditorConfirmChoice::Cancel),
            KeyCode::Tab | KeyCode::Char('\t') | KeyCode::Down => {
                app.editor_confirm_focus = (f + 1) % 3;
                AppAction::Continue
            },
            KeyCode::BackTab | KeyCode::Up => {
                app.editor_confirm_focus = (f + 2) % 3;
                AppAction::Continue
            },
            KeyCode::Enter => AppAction::EditorConfirmChoice(
                if f == 0 { EditorConfirmChoice::Save } else if f == 1 { EditorConfirmChoice::Discard } else { EditorConfirmChoice::Cancel },
            ),
            _ => AppAction::Continue,
        }
    }

    /// A key while the "file exists" dialog of a copy is open.
    pub fn copy_overwrite_key(app: &mut AppState, code: KeyCode) -> (r: AppAction)
        requires
            old(app).copy_overwrite_focus < usize::MAX - 4,
        ensures
            (final(app).copy_overwrite_focus as int, r) == overwrite_outcome(old(app).copy_overwrite_focus as int, code),
            *final(app) == (AppState { copy_overwrite_focus: final(app).copy_overwrite_focus, ..*old(app) }),
    {
        let f = app.copy_overwrite_focus;
        match code {
            KeyCode::Char('1') => AppAction::CopyOverwriteChoice(1),
            KeyCode::Char('2') => AppAction::CopyOverwriteChoice(2),
            KeyCode::Char('3') => AppAction::CopyOverwriteChoice(3),
            KeyCode::Char('4') => AppAction::CopyOverwriteChoice(4),
            KeyCode::Char('5') | KeyCode::Esc => AppAction::CopyOverwriteChoice(5),
            KeyCode::Tab | KeyCode::Char('\t') | KeyCode::Down => {
                app.copy_overwrite_focus = (f + 1) % 5;
                AppAction::Continue
            },
            KeyCode::BackTab | KeyCode::Up => {
                app.copy_overwrite_focus = (f + 4) % 5;
                AppAction::Continue
            },
            KeyCode::Enter => AppAction::CopyOverwriteChoice(f + 1),
            _ => AppAction::Continue,
        }
    }

    /// A key while "Are you sure?" is asked for a copy, move or delete.
    pub fn operation_confirm_key(app: &mut AppState, code: KeyCode) -> (r: AppAction)
        ensures
            (final(app).operation_confirm_focus_yes, r) == operation_confirm_outcome(old(app).operation_confirm_focus_yes, code),
            *final(app) == (AppState { operation_confirm_focus_yes: final(app).operation_confirm_focus_yes, ..*old(app) }),
    {
        let yes = app.operation_confirm_focus_yes;
        match code {
            KeyCode::Char('y') | KeyCode::Char('Y') => AppAction::DeleteConfirmChoice(DeleteConfirmChoice::Yes),
            KeyCode::Char('n') | KeyCode::Char('N') | KeyCode::Esc => AppAction::DeleteConfirmChoice(DeleteConfirmChoice::No),
            KeyCode::Tab | KeyCode::Char('\t') => {
                app.operation_confirm_focus_yes = !yes;
                AppAction::Continue
            },
            KeyCode::Enter => AppAction::DeleteConfirmChoice(if yes { DeleteConfirmChoice::Yes } else { DeleteConfirmChoice::No }),
            _ => AppAction::Continue,
        }
    }

    /// A key while the copy error dialog is open.
    pub fn copy_error_key(app: &mut AppState, code: KeyCode) -> (r: AppAction)
        requires
            old(app).copy_error_focus < usize::MAX - 2,
        ensures
            (final(app).copy_error_focus as int, r) == copy_error_outcome(old(app).copy_error_focus as int, code),
            *final(app) == (AppState { copy_error_focus: final(app).copy_error_focus, ..*old(app) }),
    {
        let f = app.copy_error_focus;
        match code {
            KeyCode::Char('1') => AppAction::CopyErrorChoice(CopyErrorChoice::Ignore),
            KeyCode::Char('2') | KeyCode::Esc => AppAction::CopyErrorChoice(CopyErrorChoice::Cancel),
            KeyCode::Char('3') => AppAction::CopyErrorChoice(CopyErrorChoice::IgnoreAll),
            KeyCode::Tab | KeyCode::Char('\t') | KeyCode::Down => {
                app.copy_error_focus = (f + 1) % 3;
                AppAction::Continue
            },
            KeyCode::BackTab | KeyCode::Up => {
                app.copy_error_focus = (f + 2) % 3;
                AppAction::Continue
            },
            KeyCode::Enter => AppAction::CopyErrorChoice(
                if f == 0 { CopyErrorChoice::Ignore } else if f == 1 { CopyErrorChoice::Cancel } else { CopyErrorChoice::IgnoreAll },
            ),
            _ => AppAction::Continue,
        }
    }
}

/// Which handler a key goes to, by what is open.
#[derive(Clone, Copy, PartialEq, Eq, Structural)]
pub enum KeyRoute {
    ErrorDetail,
    ContextMenu,
    Help,
    PanelOverlay,
    PatternSelect,
    Find,
    Actions,
    Archive,
    NewFile,
    EditorConfirm,
    CopyOverwrite,
    OperationConfirm,
    CopyError,
    /// Esc while a copy runs with no dialog of its own: cancel the copy.
    CopyCancel,
    Mkdir,
    Settings,
    SizeInfo,
    /// A key while the Rename / Attributes error is shown only dismisses the error.
    RenameAttrDismissError,
    RenameAttr,
    CommandLine,
    Panel,
}

/// The handler that gets a key: the first open of, in order, the error details, the panel's
/// context menu, Help, a panel settings overlay, the mark-by-pattern dialog, Find file (when it
/// has the focus), the Actions, Archive and New file dialogs, the editor's save question, the
/// copy overwrite dialog, the operation confirmation, the copy error dialog, (for Esc during a
/// copy) the copy cancel, the Create directory, Settings, Size and Rename / Attributes dialogs;
/// else the command line when it has the focus, else the panels.
pub open spec fn key_route(app: AppState, code: KeyCode) -> KeyRoute {
    if app.error_detail is Some {
        KeyRoute::ErrorDetail
    } else if app.panel_context_menu is Some {
        KeyRoute::ContextMenu
    } else if app.help_dialog is Some {
        KeyRoute::Help
    } else if app.left_panel_settings_overlay is Some || app.right_panel_settings_overlay is Some {
        KeyRoute::PanelOverlay
    } else if app.pattern_select_dialog is Some {
        KeyRoute::PatternSelect
    } else if app.focus == Focus::FindDialog {
        KeyRoute::Find
    } else if app.actions_dialog is Some {
        KeyRoute::Actions
    } else if app.archive_dialog is Some {
        KeyRoute::Archive
    } else if app.new_file_dialog is Some {
        KeyRoute::NewFile
    } else if app.editor_confirm_pending {
        KeyRoute::EditorConfirm
    } else if app.copy_overwrite_dialog_open {
        KeyRoute::CopyOverwrite
    } else if app.operation_confirm_pending is Some {
        KeyRoute::OperationConfirm
    } else if app.copy_error_dialog_open {
        KeyRoute::CopyError
    } else if app.copy_in_progress && code == KeyCode::Esc {
        KeyRoute::CopyCancel
    } else if app.mkdir_dialog is Some {
        KeyRoute::Mkdir
    } else if app.settings_dialog is Some {
        KeyRoute::Settings
    } else if app.size_info_dialog is Some {
        KeyRoute::SizeInfo
    } else if app.rename_attr_dialog is Some {
        if app.rename_attr_error is Some { KeyRoute::RenameAttrDismissError } else { KeyRoute::RenameAttr }
    } else if app.focus == Focus::CommandLine {
        KeyRoute::CommandLine
    } else {
        KeyRoute::Panel
    }
}

impl EventHandler {
    /// Decides which handler gets a key (see `key_route`).
    pub fn route_key(app: &AppState, code: KeyCode) -> (r: KeyRoute)
        ensures
            r == key_route(*app, code),
    {
        if app.error_detail.is_some() {
            KeyRoute::ErrorDetail
        } else if app.panel_context_menu.is_some() {
            KeyRoute::ContextMenu
        } else if app.help_dialog.is_some() {
            KeyRoute::Help
        } else if app.left_panel_settings_overlay.is_some() || app.right_panel_settings_overlay.is_some() {
            KeyRoute::PanelOverlay
        } else if app.pattern_select_dialog.is_some() {
            KeyRoute::PatternSelect
        } else if app.focus == Focus::FindDialog {
            KeyRoute::Find
        } else if app.actions_dialog.is_some() {
            KeyRoute::Actions
        } else if app.archive_dialog.is_some() {
            KeyRoute::Archive
        } else if app.new_file_dialog.is_some() {
            KeyRoute::NewFile
        } else if app.editor_confirm_pending {
            KeyRoute::EditorConfirm
        } else if app.copy_overwrite_dialog_open {
            KeyRoute::CopyOverwrite
        } else if app.operation_confirm_pending.is_some() {
            KeyRoute::OperationConfirm
        } else if app.copy_error_dialog_open {
            KeyRoute::CopyError
        } else if app.copy_in_progress && code == KeyCode::Esc {
            KeyRoute::CopyCancel
        } else if app.mkdir_dialog.is_some() {
            KeyRoute::Mkdir
        } else if app.settings_dialog.is_some() {
            KeyRoute::Settings
        } else if app.size_info_dialog.is_some() {
            KeyRoute::SizeInfo
        } else if app.rename_attr_dialog.is_some() {
            if app.rename_attr_error.is_some() { KeyRoute::RenameAttrDismissError } else { KeyRoute::RenameAttr }
        } else if app.focus == Focus::CommandLine {
            KeyRoute::CommandLine
        } else {
            KeyRoute::Panel
        }
    }
}


/// What a mouse event leaves for the main loop.
pub enum MouseOutcome {
    /// Hand this action to the main loop.
    Action(AppAction),
    /// A click selected entry `.1` of panel `.0` (0 left, 1 right), which now has the focus. The
    /// main loop tells a double click (the same entry again within 400 ms) and then acts on it
    /// with `double_click_outcome`.
    Selected(usize, usize),
    /// Nothing left to do.
    Nothing,
}

/// The choice of the copy error dialog on its option row `k` (from 0).
pub open spec fn copy_error_choice_at(k: int) -> CopyErrorChoice {
    if k == 0 {
        CopyErrorChoice::Ignore
    } else if k == 1 {
        CopyErrorChoice::Cancel
    } else {
        CopyErrorChoice::IgnoreAll
    }
}

/// The option row (from 0) under a click at (col, row) in a list of `n` numbered choices that
/// starts on the third row of the content area `c`.
pub open spec fn option_row(c: Rect, col: int, row: int, n: int) -> Option<int> {
    if c.x <= col < c.x + c.width && row >= c.y + 2 && row - c.y - 2 < n {
        Some(row - c.y - 2)
    } else {
        None
    }
}

/// A mouse button went down.
pub open spec fn is_button_down(kind: MouseKind) -> bool {
    kind is LeftDown || kind is RightDown || kind is MiddleDown
}

/// The confirmation box of a copy or a move also lists the folders.
pub open spec fn shows_paths(op: Operation) -> bool {
    op is Copy || op is Move
}

/// The answer of the open modal dialog to a mouse event at (col, row) on the screen `area`, or
/// `None` when none of these dialogs is open. Each takes every event; only the left button
/// acts, on the choice under the pointer: the "File exists" choices, the copy error choices,
/// the Create and Cancel buttons of the new-folder dialog, the rows of "Save changes?", and the
/// Yes and No buttons of "Are you sure?". Any button closes the Settings and the Size info
/// dialogs.
pub open spec fn dialog_mouse_action(app: AppState, kind: MouseKind, col: int, row: int, area: Rect) -> Option<AppAction> {
    let left = kind is LeftDown;
    if app.copy_overwrite_dialog_open {
        let k = option_row(centered_content(area, 54, 12), col, row, 5);
        Some(if left && k is Some { AppAction::CopyOverwriteChoice((k->0 + 1) as usize) } else { AppAction::Continue })
    } else if app.copy_error_dialog_open {
        let k = option_row(centered_content(area, 52, 10), col, row, 3);
        Some(if left && k is Some { AppAction::CopyErrorChoice(copy_error_choice_at(k->0)) } else { AppAction::Continue })
    } else if app.mkdir_dialog is Some {
        let (create, cancel) = mkdir_buttons(area);
        Some(if left && rect_contains(create, col, row) {
            AppAction::MkdirConfirm
        } else if left && rect_contains(cancel, col, row) {
            AppAction::MkdirCancel
        } else {
            AppAction::Continue
        })
    } else if app.editor_confirm_pending {
        let rows = editor_confirm_rows(area);
        Some(if left && rect_contains(rows[0].0, col, row) {
            AppAction::EditorConfirmChoice(rows[0].1)
        } else if left && rect_contains(rows[1].0, col, row) {
            AppAction::EditorConfirmChoice(rows[1].1)
        } else if left && rect_contains(rows[2].0, col, row) {
            AppAction::EditorConfirmChoice(rows[2].1)
        } else {
            AppAction::Continue
        })
    } else if app.settings_dialog is Some {
        Some(if is_button_down(kind) { AppAction::SettingsClose } else { AppAction::Continue })
    } else if app.size_info_dialog is Some {
        Some(if is_button_down(kind) { AppAction::SizeInfoClose } else { AppAction::Continue })
    } else {
        match app.operation_confirm_pending {
            Some((op, _)) => {
                let (_, yes, no) = confirm_buttons(area, shows_paths(op));
                Some(if left && rect_contains(yes, col, row) {
                    AppAction::DeleteConfirmChoice(DeleteConfirmChoice::Yes)
                } else if left && rect_contains(no, col, row) {
                    AppAction::DeleteConfirmChoice(DeleteConfirmChoice::No)
                } else {
                    AppAction::Continue
                })
            },
            None => None,
        }
    }
}

/// The boxes of the open dialogs lie within the coordinate range.
pub open spec fn dialog_geometry_fits(app: AppState, area: Rect) -> bool {
    &&& area_fits(area)
    &&& area.y + 12 <= 65535
    &&& app.mkdir_dialog is Some ==> mkdir_buttons_fit(area)
    &&& app.editor_confirm_pending ==> editor_confirm_fits(area)
}

/// The whole screen of a terminal `w` columns wide and `h` rows high.
pub open spec fn screen(w: int, h: int) -> Rect {
    Rect { x: 0, y: 0, width: w as u16, height: h as u16 }
}

proof fn lemma_screen_fits(app: AppState, w: u16, h: u16)
    ensures
        dialog_geometry_fits(app, screen(w as int, h as int)),
{
    let area = screen(w as int, h as int);
    crate::dialog_layout::lemma_centered_rect_inside(area, 52, 9);
    crate::dialog_layout::lemma_centered_rect_inside(area, 48, 9);
}

fn option_row_exec(c: Rect, col: u16, row: u16, n: u16) -> (r: Option<u16>)
    requires
        c.x + c.width <= 65535,
    ensures
        match option_row(c, col as int, row as int, n as int) {
            Some(k) => r == Some(k as u16),
            None => r is None,
        },
{
    if col >= c.x && col < c.x + c.width && row >= c.y && row - c.y >= 2 && row - c.y - 2 < n {
        Some(row - c.y - 2)
    } else {
        None
    }
}

impl EventHandler {
    /// The answer of the open modal dialog to a mouse event (see `dialog_mouse_action`).
    pub fn dialog_mouse(app: &AppState, kind: MouseKind, col: u16, row: u16, area: Rect) -> (r: Option<AppAction>)
        requires
            dialog_geometry_fits(*app, area),
        ensures
            r == dialog_mouse_action(*app, kind, col as int, row as int, area),
    {
        let left = kind == MouseKind::LeftDown;
        let down = left || kind == MouseKind::RightDown || kind == MouseKind::MiddleDown;
        if app.copy_overwrite_dialog_open {
            let (_rect, c) = Renderer::overwrite_dialog_layout(area);
            let k = option_row_exec(c, col, row, 5);
            return Some(match k {
                Some(k) if left => AppAction::CopyOverwriteChoice(k as usize + 1),
                _ => AppAction::Continue,
            });
        }
        if app.copy_error_dialog_open {
            let (_rect, c) = Renderer::error_dialog_layout(area);
            let k = option_row_exec(c, col, row, 3);
            return Some(match k {
                Some(k) if left => AppAction::CopyErrorChoice(
                    if k == 0 { CopyErrorChoice::Ignore } else if k == 1 { CopyErrorChoice::Cancel } else { CopyErrorChoice::IgnoreAll },
                ),
                _ => AppAction::Continue,
            });
        }
        if app.mkdir_dialog.is_some() {
            let (create, cancel) = mkdir_button_rects(area).unwrap();
            return Some(if left && pointer_in(create, col, row) {
                AppAction::MkdirConfirm
            } else if left && pointer_in(cancel, col, row) {
                AppAction::MkdirCancel
            } else {
                AppAction::Continue
            });
        }
        if app.editor_confirm_pending {
            if !left {
                return Some(AppAction::Continue);
            }
            let rows = editor_confirm_option_rects(area).unwrap();
            if pointer_in(rows[0].0, col, row) {
                return Some(AppAction::EditorConfirmChoice(rows[0].1));
            }
            if pointer_in(rows[1].0, col, row) {
                return Some(AppAction::EditorConfirmChoice(rows[1].1));
            }
            if pointer_in(rows[2].0, col, row) {
                return Some(AppAction::EditorConfirmChoice(rows[2].1));
            }
            return Some(AppAction::Continue);
        }
        if app.settings_dialog.is_some() {
            return Some(if down { AppAction::SettingsClose } else { AppAction::Continue });
        }
        if app.size_info_dialog.is_some() {
            return Some(if down { AppAction::SizeInfoClose } else { AppAction::Continue });
        }
        match &app.operation_confirm_pending {
            Some((op, _)) => {
                let show_paths = match op {
                    Operation::Copy | Operation::Move => true,
                    _ => false,
                };
                let (_rect, yes, no) = Renderer::operation_confirm_button_rects(area, show_paths).unwrap();
                Some(if left && pointer_in(yes, col, row) {
                    AppAction::DeleteConfirmChoice(DeleteConfirmChoice::Yes)
                } else if left && pointer_in(no, col, row) {
                    AppAction::DeleteConfirmChoice(DeleteConfirmChoice::No)
                } else {
                    AppAction::Continue
                })
            },
            None => None,
        }
    }
}


/// No dialog that hides the panels is open, so a click may land on a panel's entry.
pub open spec fn in_panels_view(app: AppState) -> bool {
    &&& !app.copy_overwrite_dialog_open
    &&& !app.copy_error_dialog_open
    &&& app.operation_confirm_pending is None
    &&& app.mkdir_dialog is None
    &&& app.rename_attr_dialog is None
    &&& app.size_info_dialog is None
    &&& app.settings_dialog is None
}

/// `new_app` is `old_app` with the focus on panel `p` (0 left, 1 right), made active, and its
/// entry `i` selected.
pub open spec fn selected_in(old_app: AppState, new_app: AppState, p: int, i: int, h: int) -> bool {
    if p == 0 {
        &&& new_app.left_panel@ == after_set_selection(old_app.left_panel@, i, h)
        &&& new_app == (AppState { left_panel: new_app.left_panel, focus: Focus::Panel, active_panel: 0, ..old_app })
    } else {
        &&& new_app.right_panel@ == after_set_selection(old_app.right_panel@, i, h)
        &&& new_app == (AppState { right_panel: new_app.right_panel, focus: Focus::Panel, active_panel: 1, ..old_app })
    }
}

/// The action of a mouse outcome, as the menu bar gives it.
pub open spec fn menu_answer(r: MouseOutcome) -> Option<AppAction> {
    match r {
        MouseOutcome::Action(a) => Some(a),
        _ => None,
    }
}

/// Effect of a mouse event at (col, row) on a `term_w` by `term_h` screen whose panels show
/// `h` rows. An open modal dialog answers it (see `dialog_mouse_action`). Otherwise the wheel
/// moves the active panel's cursor one entry up or down; a left click on the bottom row is a
/// click on the menu bar; a left click on an entry of a panel, when no dialog hides the panels,
/// selects that entry and gives that panel the focus; anything else does nothing.
pub open spec fn mouse_event_outcome(old_app: AppState, new_app: AppState, kind: MouseKind, col: int, row: int,
    term_w: int, term_h: int, h: int, r: MouseOutcome) -> bool
{
    let v = old_app.active_view();
    match dialog_mouse_action(old_app, kind, col, row, screen(term_w, term_h)) {
        Some(a) => r == MouseOutcome::Action(a) && new_app == old_app,
        None => match kind {
            MouseKind::ScrollUp => r is Nothing
                && active_panel_becomes(old_app, new_app, with_cursor(v, after_move_up(v.dc(), v.len(), v.sel, v.scroll, h))),
            MouseKind::ScrollDown => r is Nothing
                && active_panel_becomes(old_app, new_app, with_cursor(v, after_move_down(v.dc(), v.len(), v.sel, v.scroll, h))),
            MouseKind::LeftDown => if row == sat_sub_i(term_h, 1) {
                !(r is Selected) && menu_click_outcome(old_app, new_app, menu_slot_key(col, term_w), menu_answer(r))
            } else if in_panels_view(old_app) && hit_panel(old_app, col, row, term_w, term_h, h) is Some {
                let (p, i) = hit_panel(old_app, col, row, term_w, term_h, h)->0;
                r == MouseOutcome::Selected(p as usize, i as usize) && selected_in(old_app, new_app, p, i, h)
            } else {
                r is Nothing && new_app == old_app
            },
            _ => r is Nothing && new_app == old_app,
        },
    }
}

/// After a double click on the selected entry `f` of the active panel: a folder (or "..") is
/// entered, an executable file is run as `./name`, anything else does nothing.
pub open spec fn double_click_result(v: PanelView, r: PanelKeyOutcome) -> bool {
    if 0 <= v.sel < v.len() && v.files[v.sel].is_dir {
        r == PanelKeyOutcome::EnterDirectory
    } else if 0 <= v.sel < v.len() && !v.files[v.sel].spec_is_parent() && v.files[v.sel].is_executable {
        r matches PanelKeyOutcome::Action(AppAction::RunCommand(cmd)) && cmd@ == "./"@ + v.files[v.sel].name@
    } else {
        r == PanelKeyOutcome::Action(AppAction::Continue)
    }
}

impl EventHandler {
    /// A mouse event (see `mouse_event_outcome`).
    pub fn handle_mouse_event(app: &mut AppState, kind: MouseKind, col: u16, row: u16, term_w: u16, term_h: u16, panel_height: usize) -> (r: MouseOutcome)
        requires
            old(app).wf(),
            old(app).left_panel@.fits(panel_height),
            old(app).right_panel@.fits(panel_height),
            old(app).left_panel@.len() + panel_height + 65536 <= usize::MAX,
            old(app).right_panel@.len() + panel_height + 65536 <= usize::MAX,
            kind is LeftDown && row == sat_sub_i(term_h as int, 1) ==> term_w >= 10,
        ensures
            mouse_event_outcome(*old(app), *final(app), kind, col as int, row as int, term_w as int, term_h as int, panel_height as int, r),
            final(app).wf(),
    {
        let area = Rect { x: 0, y: 0, width: term_w, height: term_h };
        proof {
            lemma_screen_fits(*app, term_w, term_h);
            assert(area == screen(term_w as int, term_h as int));
        }
        match Self::dialog_mouse(app, kind, col, row, area) {
            Some(a) => return MouseOutcome::Action(a),
            None => {},
        }
        let left = app.active_panel == 0;
        match kind {
            MouseKind::ScrollUp => {
                if left { app.left_panel.move_up(panel_height) } else { app.right_panel.move_up(panel_height) }
                MouseOutcome::Nothing
            },
            MouseKind::ScrollDown => {
                if left { app.left_panel.move_down(panel_height) } else { app.right_panel.move_down(panel_height) }
                MouseOutcome::Nothing
            },
            MouseKind::LeftDown => {
                if row == term_h.saturating_sub(1) {
                    return match Self::hit_test_menu_bar(col, term_w, app) {
                        Some(a) => MouseOutcome::Action(a),
                        None => MouseOutcome::Nothing,
                    };
                }
                let hidden = app.copy_overwrite_dialog_open || app.copy_error_dialog_open
                    || app.operation_confirm_pending.is_some() || app.mkdir_dialog.is_some()
                    || app.rename_attr_dialog.is_some() || app.size_info_dialog.is_some()
                    || app.settings_dialog.is_some();
                if hidden {
                    return MouseOutcome::Nothing;
                }
                match Self::hit_test_panel(col, row, term_w, term_h, app, panel_height) {
                    Some((p, i)) => {
                        app.focus = Focus::Panel;
                        app.active_panel = p;
                        if p == 0 {
                            app.left_panel.set_selection(i, panel_height);
                        } else {
                            app.right_panel.set_selection(i, panel_height);
                        }
                        MouseOutcome::Selected(p, i)
                    },
                    None => MouseOutcome::Nothing,
                }
            },
            _ => MouseOutcome::Nothing,
        }
    }

    /// What a double click on the active panel's selected entry does (see
    /// `double_click_result`).
    pub fn double_click_outcome(app: &AppState) -> (r: PanelKeyOutcome)
        ensures
            double_click_result(app.active_view(), r),
    {
        match app.active_panel_ref().get_selected_file() {
            Some(file) => {
                if file.is_dir {
                    PanelKeyOutcome::EnterDirectory
                } else if !file.is_parent_dir() && file.is_executable {
                    let mut cmd = String::from_str("./");
                    cmd.append(file.name.as_str());
                    PanelKeyOutcome::Action(AppAction::RunCommand(cmd))
                } else {
                    PanelKeyOutcome::Action(AppAction::Continue)
                }
            },
            None => PanelKeyOutcome::Action(AppAction::Continue),
        }
    }
}

} // verus!
