//! Settings dialog: the sections on the left (General, Left panel, Right panel, Theme, Info),
//! the options of the selected one on the right. The dialog only navigates; each change is
//! handed to the caller as a `SettingChange` to apply to the persisted settings.
use vstd::prelude::*;

use crate::app_state::AppState;
use crate::events::{AppAction, SettingChange};
use crate::keys::{KeyCode, KeyModifiers};
use crate::settings::PersistedSettings;

verus! {

pub struct SettingsDialogState {
    /// 0 General, 1 Left panel, 2 Right panel, 3 Theme, 4 Info.
    pub selected_section: usize,
    /// The focus is on the section list (else on the options).
    pub focus_left: bool,
    /// The focused option: on a panel section 0 view, 1 sort, 2 folders first, 3 show hidden.
    pub content_focus: usize,
}

impl SettingsDialogState {
    /// First section selected, focus on the section list.
    pub fn default() -> (r: Self)
        ensures
            r.selected_section == 0 && r.focus_left && r.content_focus == 0,
    {
        SettingsDialogState { selected_section: 0, focus_left: true, content_focus: 0 }
    }
}

pub fn open(app: &mut AppState)
    ensures
        final(app).settings_dialog matches Some(d) && d.selected_section == 0 && d.focus_left && d.content_focus == 0,
        *final(app) == (AppState { settings_dialog: final(app).settings_dialog, ..*old(app) }),
{
    app.settings_dialog = Some(SettingsDialogState::default());
}

pub fn close(app: &mut AppState)
    ensures
        *final(app) == (AppState { settings_dialog: None, ..*old(app) }),
{
    app.settings_dialog = None;
}

/// Number of sections.
pub const SECTION_COUNT: usize = 5;

/// Rows of the General section.
pub const GENERAL_ROWS: usize = 6;

/// Rows of a panel section: view, sort, folders first, show hidden.
pub const PANEL_ROWS: usize = 4;

/// The dialog's navigation state as plain values.
pub struct SettingsNav {
    pub section: int,
    pub focus_left: bool,
    pub focus: int,
}

pub open spec fn nav_of(d: SettingsDialogState) -> SettingsNav {
    SettingsNav { section: d.selected_section as int, focus_left: d.focus_left, focus: d.content_focus as int }
}

/// What the option row `focus` of panel section `left` (else right) changes.
pub open spec fn panel_change(left: bool, focus: int) -> SettingChange {
    if focus == 0 {
        if left { SettingChange::LeftViewCycle } else { SettingChange::RightViewCycle }
    } else if focus == 1 {
        if left { SettingChange::LeftSortCycle } else { SettingChange::RightSortCycle }
    } else if focus == 2 {
        if left { SettingChange::LeftDirsFirstToggle } else { SettingChange::RightDirsFirstToggle }
    } else {
        if left { SettingChange::LeftShowHiddenToggle } else { SettingChange::RightShowHiddenToggle }
    }
}

/// What option row `focus` of the General section changes, if it is one.
pub open spec fn general_change(focus: int) -> Option<SettingChange> {
    if focus == 0 {
        Some(SettingChange::AutosaveToggle)
    } else if focus == 1 {
        Some(SettingChange::SyncPanelToShellCwdToggle)
    } else if focus == 2 {
        Some(SettingChange::AutoReopenPanelsAfterCommandToggle)
    } else if focus == 3 {
        Some(SettingChange::AutoReopenPanelsAfterCommandDelayCycle)
    } else if focus == 4 {
        Some(SettingChange::FilePatternModeCycle)
    } else if focus == 5 {
        Some(SettingChange::SafeDeleteToggle)
    } else {
        None
    }
}

/// Effect of a key on the dialog; `two_columns` tells, for the left and the right panel,
/// whether its view is two columns, and `themes` how many themes there are. The result is the
/// new state, the answer, and whether the dialog stays open.
/// - On the Theme section the focus is first brought onto the theme list.
/// - Esc closes the dialog. Tab and BackTab move the focus between the two columns.
/// - Up and Down on the section list select the previous or next section round the list,
///   focusing its first option when the section changes.
/// - Up and Down on the options move round the General rows and the theme list. On a panel
///   section, Up on the view row or Down on it while two columns are shown changes the view,
///   Up and Down on the sort row change the sort backwards or forwards, and otherwise they move
///   between the rows (Down after the last goes back to the first; Up stops at the sort row).
/// - Enter and Space on the options change the focused setting.
pub open spec fn settings_key_outcome(d: SettingsNav, two_columns: (bool, bool), themes: int, code: KeyCode) -> (SettingsNav, AppAction, bool) {
    let n = if themes >= 1 { themes } else { 1 };
    let s = if d.section == 3 { SettingsNav { focus: if d.focus <= n - 1 { d.focus } else { n - 1 }, ..d } } else { d };
    let cont = (s, AppAction::Continue, true);
    let change = |c: SettingChange| (s, AppAction::SettingChange(c), true);
    let refocus = |f: int| (SettingsNav { focus: f, ..s }, AppAction::Continue, true);
    if code == KeyCode::Esc {
        (s, AppAction::SettingsClose, false)
    } else if code == KeyCode::Tab || code == KeyCode::BackTab {
        (SettingsNav { focus_left: !s.focus_left, ..s }, AppAction::Continue, true)
    } else if code == KeyCode::Up || code == KeyCode::Down {
        let up = code == KeyCode::Up;
        if s.focus_left {
            let sec = if up { (s.section + SECTION_COUNT - 1) % (SECTION_COUNT as int) } else { (s.section + 1) % (SECTION_COUNT as int) };
            (SettingsNav { section: sec, focus: if sec != s.section { 0 } else { s.focus }, ..s }, AppAction::Continue, true)
        } else if s.section == 0 {
            refocus(if up { (s.focus + GENERAL_ROWS - 1) % (GENERAL_ROWS as int) } else { (s.focus + 1) % (GENERAL_ROWS as int) })
        } else if s.section == 1 || s.section == 2 {
            let left = s.section == 1;
            let two = if left { two_columns.0 } else { two_columns.1 };
            if up {
                if s.focus == 1 {
                    change(if left { SettingChange::LeftSortCyclePrev } else { SettingChange::RightSortCyclePrev })
                } else if s.focus >= 2 {
                    refocus(s.focus - 1)
                } else {
                    change(panel_change(left, 0))
                }
            } else {
                if s.focus == 0 {
                    if two { change(panel_change(left, 0)) } else { refocus(1) }
                } else if s.focus == 1 {
                    change(panel_change(left, 1))
                } else if s.focus < 3 {
                    refocus(s.focus + 1)
                } else {
                    refocus(0)
                }
            }
        } else if s.section == 3 {
            refocus(if up { (s.focus + n - 1) % n } else { (s.focus + 1) % n })
        } else {
            cont
        }
    } else if code == KeyCode::Enter || code == KeyCode::Char(' ') {
        if s.focus_left {
            cont
        } else if s.section == 0 {
            match general_change(s.focus) {
                Some(c) => change(c),
                None => cont,
            }
        } else if s.section == 1 || s.section == 2 {
            change(panel_change(s.section == 1, s.focus))
        } else if s.section == 3 {
            change(SettingChange::ThemeSelect(s.focus as usize))
        } else {
            cont
        }
    } else {
        cont
    }
}

/// The dialog's counters are far enough from the largest index for the arithmetic of a key.
pub open spec fn keys_fit(d: SettingsDialogState, themes: int) -> bool {
    &&& d.selected_section + SECTION_COUNT < usize::MAX
    &&& d.content_focus + GENERAL_ROWS + themes < usize::MAX
}

/// A key while the Settings dialog may be open (see `settings_key_outcome`; the views of the two
/// panels come from `settings`, `themes` is the number of themes); `None` when it is not open.
pub fn handle_key(app: &mut AppState, code: KeyCode, _modifiers: KeyModifiers, settings: &PersistedSettings, themes: usize) -> (r: Option<AppAction>)
    requires
        old(app).settings_dialog matches Some(d) ==> keys_fit(d, themes as int),
    ensures
        match old(app).settings_dialog {
            None => r is None && *final(app) == *old(app),
            Some(d) => {
                let (t, a, open) = settings_key_outcome(nav_of(d), (settings.left_view@ == "two"@, settings.right_view@ == "two"@), themes as int, code);
                &&& r == Some(a)
                &&& if open {
                    &&& final(app).settings_dialog matches Some(e) && nav_of(e) == t
                    &&& *final(app) == (AppState { settings_dialog: final(app).settings_dialog, ..*old(app) })
                } else {
                    *final(app) == (AppState { settings_dialog: None, ..*old(app) })
                }
            },
        },
{
    let d = match &app.settings_dialog {
        Some(d) => SettingsDialogState { selected_section: d.selected_section, focus_left: d.focus_left, content_focus: d.content_focus },
        None => return None,
    };
    let n: usize = if themes >= 1 { themes } else { 1 };
    let mut s = d;
    if s.selected_section == 3 && s.content_focus > n - 1 {
        s.content_focus = n - 1;
    }
    let left_two = crate::strutil::str_eq(settings.left_view.as_str(), "two");
    let right_two = crate::strutil::str_eq(settings.right_view.as_str(), "two");
    let mut action = AppAction::Continue;
    if code == KeyCode::Esc {
        app.settings_dialog = None;
        return Some(AppAction::SettingsClose);
    } else if code == KeyCode::Tab || code == KeyCode::BackTab {
        s.focus_left = !s.focus_left;
    } else if code == KeyCode::Up || code == KeyCode::Down {
        let up = code == KeyCode::Up;
        if s.focus_left {
            let sec = if up { (s.selected_section + SECTION_COUNT - 1) % SECTION_COUNT } else { (s.selected_section + 1) % SECTION_COUNT };
            if sec != s.selected_section {
                s.content_focus = 0;
            }
            s.selected_section = sec;
        } else if s.selected_section == 0 {
            s.content_focus = if up { (s.content_focus + GENERAL_ROWS - 1) % GENERAL_ROWS } else { (s.content_focus + 1) % GENERAL_ROWS };
        } else if s.selected_section == 1 || s.selected_section == 2 {
            let left = s.selected_section == 1;
            let two = if left { left_two } else { right_two };
            if up {
                if s.content_focus == 1 {
                    action = AppAction::SettingChange(if left { SettingChange::LeftSortCyclePrev } else { SettingChange::RightSortCyclePrev });
                } else if s.content_focus >= 2 {
                    s.content_focus = s.content_focus - 1;
                } else {
                    action = AppAction::SettingChange(if left { SettingChange::LeftViewCycle } else { SettingChange::RightViewCycle });
                }
            } else {
                if s.content_focus == 0 {
                    if two {
                        action = AppAction::SettingChange(if left { SettingChange::LeftViewCycle } else { SettingChange::RightViewCycle });
                    } else {
                        s.content_focus = 1;
                    }
                } else if s.content_focus == 1 {
                    action = AppAction::SettingChange(if left { SettingChange::LeftSortCycle } else { SettingChange::RightSortCycle });
                } else if s.content_focus < 3 {
                    s.content_focus = s.content_focus + 1;
                } else {
                    s.content_focus = 0;
                }
            }
        } else if s.selected_section == 3 {
            s.content_focus = if up { (s.content_focus + n - 1) % n } else { (s.content_focus + 1) % n };
        }
    } else if code == KeyCode::Enter || code == KeyCode::Char(' ') {
        if !s.focus_left {
            let f = s.content_focus;
            if s.selected_section == 0 {
                if f == 0 {
                    action = AppAction::SettingChange(SettingChange::AutosaveToggle);
                } else if f == 1 {
                    action = AppAction::SettingChange(SettingChange::SyncPanelToShellCwdToggle);
                } else if f == 2 {
                    action = AppAction::SettingChange(SettingChange::AutoReopenPanelsAfterCommandToggle);
                } else if f == 3 {
                    action = AppAction::SettingChange(SettingChange::AutoReopenPanelsAfterCommandDelayCycle);
                } else if f == 4 {
                    action = AppAction::SettingChange(SettingChange::FilePatternModeCycle);
                } else if f == 5 {
                    action = AppAction::SettingChange(SettingChange::SafeDeleteToggle);
                }
            } else if s.selected_section == 1 || s.selected_section == 2 {
                let left = s.selected_section == 1;
                action = AppAction::SettingChange(if f == 0 {
                    if left { SettingChange::LeftViewCycle } else { SettingChange::RightViewCycle }
                } else if f == 1 {
                    if left { SettingChange::LeftSortCycle } else { SettingChange::RightSortCycle }
                } else if f == 2 {
                    if left { SettingChange::LeftDirsFirstToggle } else { SettingChange::RightDirsFirstToggle }
                } else {
                    if left { SettingChange::LeftShowHiddenToggle } else { SettingChange::RightShowHiddenToggle }
                });
            } else if s.selected_section == 3 {
                action = AppAction::SettingChange(SettingChange::ThemeSelect(f));
            }
        }
    }
    proof {
        reveal_strlit("two");
    }
    app.settings_dialog = Some(s);
    Some(action)
}

} // verus!
