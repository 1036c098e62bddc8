//! Per-panel settings overlay (view, sort, folders first, hidden files). At most one of the two
//! overlays is open.
use vstd::prelude::*;

use crate::app_state::AppState;
use crate::dialogs::settings_dialog::{PANEL_ROWS, panel_change};
use crate::events::{AppAction, SettingChange};
use crate::keys::{KeyCode, KeyModifiers};
use crate::settings::PersistedSettings;

verus! {

/// State of the panel settings overlay. content_focus: 0 = View, 1 = Sort, 2 = Folders first,
/// 3 = Show hidden.
pub struct PanelSettingsOverlayState {
    pub content_focus: usize,
}

impl PanelSettingsOverlayState {
    pub fn default() -> (r: Self)
        ensures
            r.content_focus == 0,
    {
        PanelSettingsOverlayState { content_focus: 0 }
    }
}

/// Opens the left overlay (closing the right one).
pub fn open_left(app: &mut AppState)
    ensures
        final(app).left_panel_settings_overlay matches Some(o) && o.content_focus == 0,
        *final(app) == (AppState { left_panel_settings_overlay: final(app).left_panel_settings_overlay, right_panel_settings_overlay: None, ..*old(app) }),
{
    app.right_panel_settings_overlay = None;
    app.left_panel_settings_overlay = Some(PanelSettingsOverlayState::default());
}

/// Opens the right overlay (closing the left one).
pub fn open_right(app: &mut AppState)
    ensures
        final(app).right_panel_settings_overlay matches Some(o) && o.content_focus == 0,
        *final(app) == (AppState { right_panel_settings_overlay: final(app).right_panel_settings_overlay, left_panel_settings_overlay: None, ..*old(app) }),
{
    app.left_panel_settings_overlay = None;
    app.right_panel_settings_overlay = Some(PanelSettingsOverlayState::default());
}

pub fn close_left(app: &mut AppState)
    ensures
        *final(app) == (AppState { left_panel_settings_overlay: None, ..*old(app) }),
{
    app.left_panel_settings_overlay = None;
}

pub fn close_right(app: &mut AppState)
    ensures
        *final(app) == (AppState { right_panel_settings_overlay: None, ..*old(app) }),
{
    app.right_panel_settings_overlay = None;
}

/// At most one overlay is open after opening either.
pub proof fn law_overlays_exclusive(before: AppState, after_left: AppState, after_right: AppState)
    requires
        after_left == (AppState { left_panel_settings_overlay: after_left.left_panel_settings_overlay, right_panel_settings_overlay: None, ..before }),
        after_right == (AppState { right_panel_settings_overlay: after_right.right_panel_settings_overlay, left_panel_settings_overlay: None, ..before }),
    ensures
        after_left.right_panel_settings_overlay is None,
        after_right.left_panel_settings_overlay is None,
{
}

/// Effect of a key on the overlay of the left (`is_left`) or right panel focused on row `f`,
/// `two` telling whether that panel shows two columns: the new focus and the answer. Esc asks
/// to close the overlay and Control-O to suspend to the shell; Tab moves round the four rows;
/// Up and Down work as on a panel section of the Settings dialog; Enter and Space change the
/// focused setting.
pub open spec fn overlay_key_outcome(is_left: bool, f: int, two: bool, code: KeyCode, control: bool) -> (int, AppAction) {
    if code == KeyCode::Esc {
        (f, if is_left { AppAction::CloseLeftPanelSettings } else { AppAction::CloseRightPanelSettings })
    } else if control && code == KeyCode::Char('o') {
        (f, AppAction::Suspend)
    } else if code == KeyCode::Tab {
        ((f + 1) % (PANEL_ROWS as int), AppAction::Continue)
    } else if code == KeyCode::Up {
        if f == 1 {
            (f, AppAction::SettingChange(if is_left { SettingChange::LeftSortCyclePrev } else { SettingChange::RightSortCyclePrev }))
        } else if f >= 2 {
            (f - 1, AppAction::Continue)
        } else {
            (f, AppAction::SettingChange(panel_change(is_left, 0)))
        }
    } else if code == KeyCode::Down {
        if f == 0 {
            if two { (f, AppAction::SettingChange(panel_change(is_left, 0))) } else { (1, AppAction::Continue) }
        } else if f == 1 {
            (f, AppAction::SettingChange(panel_change(is_left, 1)))
        } else if f < 3 {
            (f + 1, AppAction::Continue)
        } else {
            (0, AppAction::Continue)
        }
    } else if code == KeyCode::Enter || code == KeyCode::Char(' ') {
        (f, AppAction::SettingChange(panel_change(is_left, f)))
    } else {
        (f, AppAction::Continue)
    }
}

/// A key for the open overlay (the left one when both are set; see `overlay_key_outcome`);
/// `None` when neither is open. The overlay stays open; only its focus changes.
pub fn handle_key(app: &mut AppState, code: KeyCode, modifiers: KeyModifiers, settings: &PersistedSettings) -> (r: Option<AppAction>)
    requires
        old(app).left_panel_settings_overlay matches Some(o) ==> o.content_focus < usize::MAX,
        old(app).right_panel_settings_overlay matches Some(o) ==> o.content_focus < usize::MAX,
    ensures
        match (old(app).left_panel_settings_overlay, old(app).right_panel_settings_overlay) {
            (Some(o), _) => {
                let (f, a) = overlay_key_outcome(true, o.content_focus as int, settings.left_view@ == "two"@, code, modifiers.control);
                &&& r == Some(a)
                &&& final(app).left_panel_settings_overlay matches Some(n) && n.content_focus == f
                &&& *final(app) == (AppState { left_panel_settings_overlay: final(app).left_panel_settings_overlay, ..*old(app) })
            },
            (None, Some(o)) => {
                let (f, a) = overlay_key_outcome(false, o.content_focus as int, settings.right_view@ == "two"@, code, modifiers.control);
                &&& r == Some(a)
                &&& final(app).right_panel_settings_overlay matches Some(n) && n.content_focus == f
                &&& *final(app) == (AppState { right_panel_settings_overlay: final(app).right_panel_settings_overlay, ..*old(app) })
            },
            (None, None) => r is None && *final(app) == *old(app),
        },
{
    let (is_left, f) = match (&app.left_panel_settings_overlay, &app.right_panel_settings_overlay) {
        (Some(o), _) => (true, o.content_focus),
        (None, Some(o)) => (false, o.content_focus),
        (None, None) => return None,
    };
    let two = crate::strutil::str_eq(if is_left { settings.left_view.as_str() } else { settings.right_view.as_str() }, "two");
    let view = if is_left { SettingChange::LeftViewCycle } else { SettingChange::RightViewCycle };
    let sort = if is_left { SettingChange::LeftSortCycle } else { SettingChange::RightSortCycle };
    let (nf, a) = if code == KeyCode::Esc {
        (f, if is_left { AppAction::CloseLeftPanelSettings } else { AppAction::CloseRightPanelSettings })
    } else if modifiers.control && code == KeyCode::Char('o') {
        (f, AppAction::Suspend)
    } else if code == KeyCode::Tab {
        ((f + 1) % PANEL_ROWS, AppAction::Continue)
    } else if code == KeyCode::Up {
        if f == 1 {
            (f, AppAction::SettingChange(if is_left { SettingChange::LeftSortCyclePrev } else { SettingChange::RightSortCyclePrev }))
        } else if f >= 2 {
            (f - 1, AppAction::Continue)
        } else {
            (f, AppAction::SettingChange(view))
        }
    } else if code == KeyCode::Down {
        if f == 0 {
            if two { (f, AppAction::SettingChange(view)) } else { (1, AppAction::Continue) }
        } else if f == 1 {
            (f, AppAction::SettingChange(sort))
        } else if f < 3 {
            (f + 1, AppAction::Continue)
        } else {
            (0, AppAction::Continue)
        }
    } else if code == KeyCode::Enter || code == KeyCode::Char(' ') {
        (f, AppAction::SettingChange(if f == 0 {
            view
        } else if f == 1 {
            sort
        } else if f == 2 {
            if is_left { SettingChange::LeftDirsFirstToggle } else { SettingChange::RightDirsFirstToggle }
        } else {
            if is_left { SettingChange::LeftShowHiddenToggle } else { SettingChange::RightShowHiddenToggle }
        }))
    } else {
        (f, AppAction::Continue)
    };
    proof {
        reveal_strlit("two");
    }
    if is_left {
        app.left_panel_settings_overlay = Some(PanelSettingsOverlayState { content_focus: nf });
    } else {
        app.right_panel_settings_overlay = Some(PanelSettingsOverlayState { content_focus: nf });
    }
    Some(a)
}

} // verus!
