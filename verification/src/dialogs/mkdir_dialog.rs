//! F7 "Create a new Directory" dialog.
use vstd::prelude::*;

use crate::app_state::AppState;
use crate::events::AppAction;
use crate::dialog_layout::{centered_content, centered_dialog};
use crate::dialogs::help_dialog::{area_fits, sat_sub};
use crate::keys::{KeyCode, KeyModifiers, Rect};
use crate::text_input::{TextInputState, SingleInputKeyResult, handle_single_input_key, single_input_outcome, normalize_key};

verus! {

pub struct MkdirDialogState {
    pub input: TextInputState,
    pub focus: usize,
}

/// Opens the dialog with an empty name.
pub fn open(app: &mut AppState)
    ensures
        final(app).mkdir_dialog matches Some(d) && d.input.text@.len() == 0 && d.input.cursor == 0 && d.focus == 0,
        *final(app) == (AppState { mkdir_dialog: final(app).mkdir_dialog, ..*old(app) }),
{
    open_with_name(app, String::new());
}

/// Opens the dialog with `default_name` filled in and the cursor at its end.
pub fn open_with_name(app: &mut AppState, default_name: String)
    ensures
        final(app).mkdir_dialog matches Some(d) && d.input.text@ == default_name@ && d.input.cursor == default_name@.len()
            && d.focus == 0,
        *final(app) == (AppState { mkdir_dialog: final(app).mkdir_dialog, ..*old(app) }),
{
    app.mkdir_dialog = Some(MkdirDialogState { input: TextInputState::new(default_name), focus: 0 });
}

pub fn cancel(app: &mut AppState)
    ensures
        *final(app) == (AppState { mkdir_dialog: None, ..*old(app) }),
{
    app.mkdir_dialog = None;
}

/// Closes the dialog and returns the entered name (`None` when it was not open).
pub fn confirm(app: &mut AppState) -> (r: Option<String>)
    ensures
        match old(app).mkdir_dialog {
            Some(d) => r matches Some(name) && name@ == d.input.text@,
            None => r is None,
        },
        *final(app) == (AppState { mkdir_dialog: None, ..*old(app) }),
{
    match app.mkdir_dialog.take() {
        Some(d) => Some(d.input.text),
        None => None,
    }
}

/// Ctrl+C: the one key that closes the dialog by itself.
pub open spec fn is_ctrl_c(code: KeyCode, control: bool) -> bool {
    control && normalize_key(code) == KeyCode::Char('c')
}

/// A key for the open "Create directory" dialog. The field and focus change as in
/// `single_input_outcome`; Enter answers `MkdirConfirm` (or `MkdirCancel` on the Cancel button)
/// and Esc `MkdirCancel`, leaving the dialog for the caller to take; Ctrl+C closes it and answers
/// `MkdirCancel`; Ctrl+O answers `Suspend`; anything else `Continue`. `None` when not open.
pub fn handle_key(app: &mut AppState, code: KeyCode, modifiers: KeyModifiers) -> (r: Option<AppAction>)
    requires
        old(app).mkdir_dialog matches Some(d) ==> d.focus < 3 && d.input.cursor < usize::MAX,
    ensures
        match old(app).mkdir_dialog {
            None => r is None && *final(app) == *old(app),
            Some(d) => {
                let o = single_input_outcome(d.input.text@, d.input.cursor as int, d.focus as int, code, modifiers.control);
                &&& *final(app) == (AppState { mkdir_dialog: final(app).mkdir_dialog, ..*old(app) })
                &&& if is_ctrl_c(code, modifiers.control) {
                    final(app).mkdir_dialog is None && r == Some(AppAction::MkdirCancel)
                } else {
                    &&& final(app).mkdir_dialog matches Some(n) && n.input.text@ == o.0 && n.input.cursor == o.1 && n.focus == o.2
                    &&& r == Some(match o.3 {
                        SingleInputKeyResult::Confirm => AppAction::MkdirConfirm,
                        SingleInputKeyResult::Cancel => AppAction::MkdirCancel,
                        SingleInputKeyResult::Suspend => AppAction::Suspend,
                        SingleInputKeyResult::Continue => AppAction::Continue,
                    })
                }
            },
        },
{
    let d = match app.mkdir_dialog.take() {
        Some(d) => d,
        None => return None,
    };
    let ctrl_c = modifiers.control && match code {
        KeyCode::Char(c) => c == 'c',
        _ => false,
    };
    let (input, focus, result) = handle_single_input_key(d.input, d.focus, code, modifiers);
    if ctrl_c {
        return Some(AppAction::MkdirCancel);
    }
    app.mkdir_dialog = Some(MkdirDialogState { input, focus });
    Some(match result {
        SingleInputKeyResult::Confirm => AppAction::MkdirConfirm,
        SingleInputKeyResult::Cancel => AppAction::MkdirCancel,
        SingleInputKeyResult::Suspend => AppAction::Suspend,
        SingleInputKeyResult::Continue => AppAction::Continue,
    })
}


/// Width of each of the two buttons, and the gap between them.
pub const BUTTON_W: u16 = 10;
pub const BUTTON_GAP: u16 = 4;

/// The Create and Cancel buttons of the dialog drawn in the screen `area`: side by side, centred
/// on the sixth row of the content area of a box at most 52 wide and 9 high.
pub open spec fn mkdir_buttons(area: Rect) -> (Rect, Rect) {
    let c = centered_content(area, 52, 9);
    let start = c.x + sat_sub(c.width as int, 24) / 2;
    let y = c.y + 5;
    (
        Rect { x: start as u16, y: y as u16, width: 10, height: 1 },
        Rect { x: (start + 14) as u16, y: y as u16, width: 10, height: 1 },
    )
}

/// The dialog's buttons lie within the coordinate range.
pub open spec fn mkdir_buttons_fit(area: Rect) -> bool {
    &&& area_fits(area)
    &&& area.y + 9 <= 65535
    &&& centered_content(area, 52, 9).x + 24 <= 65535
    &&& centered_content(area, 52, 9).y + 5 <= 65535
}

/// The rectangles of the Create and Cancel buttons, for telling where a click landed.
pub fn mkdir_button_rects(area: Rect) -> (r: Option<(Rect, Rect)>)
    requires
        mkdir_buttons_fit(area),
    ensures
        r == Some(mkdir_buttons(area)),
{
    let (_rect, content) = centered_dialog(area, 52, 9);
    let total = BUTTON_W + BUTTON_W + BUTTON_GAP;
    let start = content.x + content.width.saturating_sub(total) / 2;
    let y = content.y + 5;
    Some((
        Rect { x: start, y, width: BUTTON_W, height: 1 },
        Rect { x: start + BUTTON_W + BUTTON_GAP, y, width: BUTTON_W, height: 1 },
    ))
}

} // verus!
