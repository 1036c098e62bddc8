//! "Size info": total size of the selected files and folders, computed by a worker.
use vstd::prelude::*;

use crate::app_state::AppState;
use crate::panel::{PanelOperations, copy_selection, items_view};
use crate::events::AppAction;
use crate::strutil::{decimal, u64_to_string, usize_to_string};
use crate::dialog_layout::{centered_content, centered_dialog, centered_dialog_rect, centered_rect};
use crate::dialogs::help_dialog::{area_fits, sat_sub};
use crate::keys::{KeyCode, KeyModifiers, Rect};

verus! {

/// Message from the size worker.
pub enum SizeInfoProgress {
    /// Live statistics during the scan.
    Progress { current_path: String, total_bytes: u64, directories_scanned: usize, files_counted: usize },
    /// Calculation complete.
    Done { total_bytes: u64, file_count: usize, dir_count: usize },
}

pub enum SizeInfoDialogState {
    Calculating { current_path: String, total_bytes: u64, directories_scanned: usize, files_counted: usize },
    Done { total_bytes: u64, file_count: usize, dir_count: usize },
}

/// Whether the size dialog is open and still calculating.
pub fn is_calculating(app: &AppState) -> (r: bool)
    ensures
        r == (app.size_info_dialog matches Some(d) && d is Calculating),
{
    match &app.size_info_dialog {
        Some(SizeInfoDialogState::Calculating { .. }) => true,
        _ => false,
    }
}

/// Closes the size dialog; a running calculation is given up (the caller signals its worker).
pub fn close(app: &mut AppState)
    ensures
        *final(app) == (AppState { size_info_dialog: None, ..*old(app) }),
{
    app.size_info_dialog = None;
}

/// A key while the size line is shown: Ctrl+O answers `Suspend` and keeps it; any other key
/// closes it and answers `SizeInfoClose`. `None` when it is not shown.
pub fn handle_key(app: &mut AppState, code: KeyCode, modifiers: KeyModifiers) -> (r: Option<AppAction>)
    ensures
        old(app).size_info_dialog is None ==> r is None && *final(app) == *old(app),
        old(app).size_info_dialog is Some ==> if modifiers.control && code == KeyCode::Char('o') {
            r == Some(AppAction::Suspend) && *final(app) == *old(app)
        } else {
            r == Some(AppAction::SizeInfoClose) && *final(app) == (AppState { size_info_dialog: None, ..*old(app) })
        },
{
    if app.size_info_dialog.is_none() {
        return None;
    }
    match code {
        KeyCode::Char(c) => {
            if modifiers.control && c == 'o' {
                return Some(AppAction::Suspend);
            }
        },
        _ => {},
    }
    close(app);
    Some(AppAction::SizeInfoClose)
}

/// What the size worker is asked to measure: the directory, the items in it, and how many of
/// them are files and directories.
pub struct SizeRequest {
    pub dir: String,
    pub items: Vec<(String, bool)>,
    pub file_count: usize,
    pub dir_count: usize,
}

/// How many of the first `k` items are directories (`dirs`) or files (`!dirs`).
pub open spec fn count_kind(items: Seq<(Seq<char>, bool)>, dirs: bool, k: int) -> int
    decreases k,
{
    if k <= 0 {
        0
    } else {
        count_kind(items, dirs, k - 1) + if items[k - 1].1 == dirs { 1int } else { 0int }
    }
}

fn count_items(items: &Vec<(String, bool)>) -> (r: (usize, usize))
    ensures
        r.0 == count_kind(items_view(items@), false, items@.len() as int),
        r.1 == count_kind(items_view(items@), true, items@.len() as int),
{
    let ghost iv = items_view(items@);
    let mut files: usize = 0;
    let mut dirs: usize = 0;
    let mut i: usize = 0;
    while i < items.len()
        invariant
            i <= items@.len(),
            iv == items_view(items@),
            files == count_kind(iv, false, i as int),
            dirs == count_kind(iv, true, i as int),
            files + dirs == i,
        decreases items@.len() - i,
    {
        assert(iv[i as int].1 == items@[i as int].1);
        if items[i].1 {
            dirs = dirs + 1;
        } else {
            files = files + 1;
        }
        i = i + 1;
    }
    (files, dirs)
}

/// Opens the size dialog for the active panel's group selection (see `copy_selection`): it
/// shows "calculating" from nothing yet, and the returned request is what the worker measures.
/// Nothing happens (`None`) when there is nothing to measure.
pub fn open(app: &mut AppState) -> (r: Option<SizeRequest>)
    requires
        old(app).wf(),
    ensures
        ({
            let items = copy_selection(old(app).active_view()).0;
            if items.len() == 0 {
                r is None && *final(app) == *old(app)
            } else {
                &&& r matches Some(req) && {
                    &&& req.dir@ == old(app).active_view().dir
                    &&& items_view(req.items@) == items
                    &&& req.file_count == count_kind(items, false, items.len() as int)
                    &&& req.dir_count == count_kind(items, true, items.len() as int)
                }
                &&& final(app).size_info_dialog matches Some(SizeInfoDialogState::Calculating { current_path, total_bytes, directories_scanned, files_counted })
                    && current_path@.len() == 0 && total_bytes == 0 && directories_scanned == 0 && files_counted == 0
                &&& *final(app) == (AppState { size_info_dialog: final(app).size_info_dialog, ..*old(app) })
            }
        }),
{
    let (items, _, _) = app.active_panel_ref().get_names_to_copy_with_restore_neighbors();
    if items.len() == 0 {
        return None;
    }
    let (files, dirs) = count_items(&items);
    let dir = app.get_current_dir().to_owned();
    app.size_info_dialog = Some(SizeInfoDialogState::Calculating {
        current_path: String::new(),
        total_bytes: 0,
        directories_scanned: 0,
        files_counted: 0,
    });
    Some(SizeRequest { dir, items, file_count: files, dir_count: dirs })
}

/// Shows a worker message: live statistics while calculating, the totals when done.
pub fn apply_progress(app: &mut AppState, msg: SizeInfoProgress)
    ensures
        *final(app) == (AppState { size_info_dialog: final(app).size_info_dialog, ..*old(app) }),
        match msg {
            SizeInfoProgress::Progress { current_path, total_bytes, directories_scanned, files_counted } =>
                final(app).size_info_dialog matches Some(SizeInfoDialogState::Calculating { current_path: p, total_bytes: b, directories_scanned: d, files_counted: f })
                    && p@ == current_path@ && b == total_bytes && d == directories_scanned && f == files_counted,
            SizeInfoProgress::Done { total_bytes, file_count, dir_count } =>
                final(app).size_info_dialog matches Some(SizeInfoDialogState::Done { total_bytes: b, file_count: f, dir_count: d })
                    && b == total_bytes && f == file_count && d == dir_count,
        },
{
    app.size_info_dialog = Some(match msg {
        SizeInfoProgress::Progress { current_path, total_bytes, directories_scanned, files_counted } =>
            SizeInfoDialogState::Calculating { current_path, total_bytes, directories_scanned, files_counted },
        SizeInfoProgress::Done { total_bytes, file_count, dir_count } =>
            SizeInfoDialogState::Done { total_bytes, file_count, dir_count },
    });
}


/// Width of the text inside the dialog, and the dialog's height.
pub const INNER_W: u16 = 72;
pub const DIALOG_H: u16 = 10;

/// The dialog's box in the screen `area`: room for the text, its padding and frame (78 columns),
/// at most four columns narrower than the area, 10 rows high, centred.
pub fn dialog_rect(area: Rect) -> (r: Rect)
    requires
        area_fits(area),
    ensures
        r == centered_rect(area, 78, 10),
{
    centered_dialog_rect(area, INNER_W + 6, DIALOG_H)
}

/// The `[ Abort ]` button: ten columns centred on the last row of the dialog's content area.
pub open spec fn abort_button(area: Rect) -> Rect {
    let c = centered_content(area, 78, 10);
    Rect {
        x: (c.x + sat_sub(c.width as int, 10) / 2) as u16,
        y: (c.y + sat_sub(c.height as int, 1)) as u16,
        width: 10,
        height: 1,
    }
}

/// The `[ Abort ]` button's rectangle, for telling whether a click landed on it.
pub fn abort_button_rect(area: Rect) -> (r: Rect)
    requires
        area_fits(area),
        area.y + 10 <= 65535,
    ensures
        r == abort_button(area),
{
    let label_w: u16 = 10;
    let (_d, c) = centered_dialog(area, INNER_W + 6, DIALOG_H);
    Rect { x: c.x + c.width.saturating_sub(label_w) / 2, y: c.y + c.height.saturating_sub(1), width: label_w, height: 1 }
}


/// "n file" / "n files" (or the given pair of words), by the count.
pub open spec fn count_text(n: nat, one: Seq<char>, many: Seq<char>) -> Seq<char> {
    decimal(n) + seq![' '] + (if n == 1 { one } else { many })
}

/// The counts shown after the size: files and folders, each only when there are some,
/// separated by ", ".
pub open spec fn counts_text(files: nat, dirs: nat) -> Seq<char> {
    if files > 0 && dirs > 0 {
        count_text(files, "file"@, "files"@) + ", "@ + count_text(dirs, "dir"@, "dirs"@)
    } else if files > 0 {
        count_text(files, "file"@, "files"@)
    } else if dirs > 0 {
        count_text(dirs, "dir"@, "dirs"@)
    } else {
        Seq::empty()
    }
}

/// The summary the panel's bottom bar shows once the calculation is done: "Total: " and the
/// size in bytes, then the counts in brackets when there are any; nothing while calculating or
/// when the dialog is closed.
pub open spec fn bottom_bar_line(d: Option<SizeInfoDialogState>) -> Option<Seq<char>> {
    match d {
        Some(SizeInfoDialogState::Done { total_bytes, file_count, dir_count }) => {
            let head = "Total: "@ + decimal(total_bytes as nat) + " bytes"@;
            let counts = counts_text(file_count as nat, dir_count as nat);
            Some(if counts.len() == 0 { head } else { head + " ("@ + counts + ")"@ })
        },
        _ => None,
    }
}

fn count_string(n: usize, one: &str, many: &str) -> (r: String)
    ensures
        r@ == count_text(n as nat, one@, many@),
{
    let mut s = usize_to_string(n);
    s.append(" ");
    s.append(if n == 1 { one } else { many });
    proof {
        reveal_strlit(" ");
    }
    s
}

/// The size summary for the bottom bar (see `bottom_bar_line`).
pub fn format_bottom_bar_line(app: &AppState) -> (r: Option<String>)
    ensures
        match bottom_bar_line(app.size_info_dialog) {
            Some(t) => r matches Some(s) && s@ == t,
            None => r is None,
        },
{
    match &app.size_info_dialog {
        Some(SizeInfoDialogState::Done { total_bytes, file_count, dir_count }) => {
            let mut line = String::from_str("Total: ");
            line.append(u64_to_string(*total_bytes).as_str());
            line.append(" bytes");
            let mut counts = String::new();
            if *file_count > 0 {
                counts.append(count_string(*file_count, "file", "files").as_str());
            }
            if *dir_count > 0 {
                if *file_count > 0 {
                    counts.append(", ");
                }
                counts.append(count_string(*dir_count, "dir", "dirs").as_str());
            }
            proof {
                reveal_strlit("Total: ");
                reveal_strlit(" bytes");
                reveal_strlit(", ");
                reveal_strlit(" (");
                reveal_strlit(")");
                assert(counts@ =~= counts_text(*file_count as nat, *dir_count as nat));
            }
            if counts.as_str().unicode_len() > 0 {
                line.append(" (");
                line.append(counts.as_str());
                line.append(")");
            }
            Some(line)
        },
        _ => None,
    }
}
} // verus!
