use oxide::app_state::{AppState, Focus};
use oxide::dialogs::actions_dialog::{self, action_hits, ActionsChoice};
use oxide::dialogs::archive_dialog;
use oxide::dialogs::error_detail_dialog;
use oxide::dialogs::new_file_dialog;
use oxide::dialogs::rename_attr::{mode_has_bit, toggle_perm_bit};
use oxide::events::AppAction;
use oxide::file_ops::FileInfo;
use oxide::keys::{KeyCode, KeyModifiers};
use oxide::panel::Panel;
use oxide::dialogs::error_detail_dialog::wrap_paragraphs;
use oxide::dialogs::actions_dialog::{chord_button_inner_cols, handle_mouse};
use oxide::keys::{MouseKind, Rect};

fn app() -> AppState {
    let files = vec![
        FileInfo::new("..".to_string(), true, false),
        FileInfo::new("a.txt".to_string(), false, false),
    ];
    AppState::new(Panel::new("/l".to_string(), files.clone()), Panel::new("/r".to_string(), files))
}

const NO_MODS: KeyModifiers = KeyModifiers { control: false };
const CTRL: KeyModifiers = KeyModifiers { control: true };

#[test]
fn new_app_state_is_idle() {
    let a = app();
    assert!(a.focus == Focus::Panel);
    assert_eq!(a.active_panel, 0);
    assert!(a.actions_dialog.is_none());
    assert_eq!(a.get_current_dir(), "/l");
    assert_eq!(a.get_opposite_panel_dir(), "/r");
}

#[test]
fn actions_layout_has_fifteen_actions() {
    let hits = action_hits();
    assert_eq!(hits.len(), 24);
    assert_eq!(hits.iter().filter(|h| h.is_some()).count(), 15);
    assert!(matches!(hits[3], Some(ActionsChoice::Suspend)));
    assert!(matches!(hits[23], Some(ActionsChoice::CommandLinePaste)));
    assert!(matches!(ActionsChoice::OpenFindDialog.to_app_action(), AppAction::OpenFindDialog));
}

#[test]
fn actions_navigation_keeps_focus_visible() {
    let mut a = app();
    actions_dialog::open(&mut a);
    assert!(matches!(actions_dialog::handle_key(&mut a, KeyCode::End, NO_MODS, 5), Some(AppAction::Continue)));
    let d = a.actions_dialog.as_ref().unwrap();
    assert_eq!(d.selected_action, 14);
    assert_eq!(d.scroll, 19);
    assert!(matches!(actions_dialog::handle_key(&mut a, KeyCode::Tab, NO_MODS, 5), Some(AppAction::Continue)));
    let d = a.actions_dialog.as_ref().unwrap();
    assert_eq!(d.selected_action, 0);
    assert_eq!(d.scroll, 3);
    assert!(matches!(actions_dialog::handle_key(&mut a, KeyCode::BackTab, NO_MODS, 5), Some(AppAction::Continue)));
    assert_eq!(a.actions_dialog.as_ref().unwrap().selected_action, 14);
    assert!(matches!(actions_dialog::handle_key(&mut a, KeyCode::Char('k'), NO_MODS, 5), Some(AppAction::Continue)));
    assert_eq!(a.actions_dialog.as_ref().unwrap().selected_action, 13);
    assert!(actions_dialog::handle_key(&mut a, KeyCode::Char('k'), CTRL, 5).is_none());
    assert!(actions_dialog::handle_key(&mut a, KeyCode::Char('z'), NO_MODS, 5).is_none());
}

#[test]
fn actions_enter_runs_focused_row() {
    let mut a = app();
    actions_dialog::open(&mut a);
    assert!(matches!(actions_dialog::handle_key(&mut a, KeyCode::Down, NO_MODS, 5), Some(AppAction::Continue)));
    let r = actions_dialog::handle_key(&mut a, KeyCode::Enter, NO_MODS, 5);
    assert!(matches!(r, Some(AppAction::RefreshBothPanels)));
    assert!(a.actions_dialog.is_none());
}

#[test]
fn actions_close_keys() {
    let mut a = app();
    assert!(actions_dialog::handle_key(&mut a, KeyCode::Esc, NO_MODS, 5).is_none());
    actions_dialog::open(&mut a);
    assert!(matches!(actions_dialog::handle_key(&mut a, KeyCode::Esc, NO_MODS, 5), Some(AppAction::ActionsClose)));
    assert!(matches!(actions_dialog::handle_key(&mut a, KeyCode::Char('q'), NO_MODS, 5), Some(AppAction::ActionsClose)));
    assert!(a.actions_dialog.is_some());
}

#[test]
fn new_file_dialog_typing_and_confirm() {
    let mut a = app();
    assert!(new_file_dialog::handle_key(&mut a, KeyCode::Enter, NO_MODS).is_none());
    new_file_dialog::open(&mut a);
    for c in "x.md".chars() {
        assert!(matches!(new_file_dialog::handle_key(&mut a, KeyCode::Char(c), NO_MODS), Some(AppAction::Continue)));
    }
    match new_file_dialog::handle_key(&mut a, KeyCode::Enter, NO_MODS) {
        Some(AppAction::NewFileConfirm(name)) => assert_eq!(name, "x.md"),
        _ => panic!("expected confirm"),
    }
    assert!(a.new_file_dialog.is_none());
}

#[test]
fn new_file_dialog_cancel_and_suspend() {
    let mut a = app();
    new_file_dialog::open(&mut a);
    assert!(matches!(new_file_dialog::handle_key(&mut a, KeyCode::Char('o'), CTRL), Some(AppAction::Suspend)));
    assert!(a.new_file_dialog.is_some());
    assert!(matches!(new_file_dialog::handle_key(&mut a, KeyCode::Esc, NO_MODS), Some(AppAction::NewFileCancel)));
    assert!(a.new_file_dialog.is_none());
}

#[test]
fn archive_dialog_focus_cancel_button() {
    let mut a = app();
    archive_dialog::open(&mut a);
    assert!(matches!(archive_dialog::handle_key(&mut a, KeyCode::Tab, NO_MODS), Some(AppAction::Continue)));
    assert!(matches!(archive_dialog::handle_key(&mut a, KeyCode::Tab, NO_MODS), Some(AppAction::Continue)));
    assert_eq!(a.archive_dialog.as_ref().unwrap().focus, 2);
    assert!(matches!(archive_dialog::handle_key(&mut a, KeyCode::Enter, NO_MODS), Some(AppAction::ArchiveCancel)));
    assert!(a.archive_dialog.is_none());
}

#[test]
fn error_detail_from_io_appends_os_code() {
    let mut a = app();
    error_detail_dialog::open_from_io(&mut a, "Copy".to_string(), "Permission denied".to_string(), Some(13));
    let d = a.error_detail.as_ref().unwrap();
    assert_eq!(d.title, "Copy");
    assert_eq!(d.body, "Permission denied\n\nOS error code: 13");
    assert_eq!(d.scroll, 0);
    error_detail_dialog::open_from_io(&mut a, "X".to_string(), "custom".to_string(), None);
    assert_eq!(a.error_detail.as_ref().unwrap().body, "custom");
    error_detail_dialog::open_from_io(&mut a, "X".to_string(), "neg".to_string(), Some(-2));
    assert_eq!(a.error_detail.as_ref().unwrap().body, "neg\n\nOS error code: -2");
}

#[test]
fn permission_bits_toggle() {
    assert!(mode_has_bit(0o755, 0o100));
    assert!(!mode_has_bit(0o644, 0o100));
    assert_eq!(toggle_perm_bit(0o644, 0o100), 0o744);
    assert_eq!(toggle_perm_bit(toggle_perm_bit(0o644, 0o020), 0o020), 0o644);
}

#[test]
fn error_text_wraps_at_words() {
    assert_eq!(wrap_paragraphs("hello world", 5), vec!["hello world".to_string()]);
    assert_eq!(wrap_paragraphs("aaa bbb ccc ddd", 0), vec!["aaa bbb ccc".to_string(), "ddd".to_string()]);
    assert_eq!(wrap_paragraphs("line1\n\nline2", 40), vec!["line1".to_string(), "".to_string(), "line2".to_string()]);
    assert_eq!(wrap_paragraphs("   ", 40), vec!["(no message)".to_string()]);
    assert_eq!(wrap_paragraphs("", 40), vec!["".to_string()]);
    assert_eq!(wrap_paragraphs("abcdefghijklmnopq x", 12), vec!["abcdefghijklmnopq".to_string(), "x".to_string()]);
    assert_eq!(wrap_paragraphs("a\tb  c", 20), vec!["a b c".to_string()]);
}

#[test]
fn actions_mouse_wheel_click_and_close() {
    assert_eq!(chord_button_inner_cols(), 21);
    let dialog = Rect { x: 8, y: 3, width: 70, height: 12 };
    let text = Rect { x: 10, y: 5, width: 60, height: 5 };
    let sb = Rect { x: 71, y: 5, width: 1, height: 5 };
    let mut a = app();
    assert!(handle_mouse(&mut a, MouseKind::ScrollDown, 20, 6, dialog, text, sb).is_none());
    actions_dialog::open(&mut a);
    assert!(matches!(handle_mouse(&mut a, MouseKind::ScrollDown, 20, 6, dialog, text, sb), Some(AppAction::Continue)));
    assert_eq!(a.actions_dialog.as_ref().unwrap().scroll, 3);
    assert!(matches!(handle_mouse(&mut a, MouseKind::ScrollUp, 20, 6, dialog, text, sb), Some(AppAction::Continue)));
    assert_eq!(a.actions_dialog.as_ref().unwrap().scroll, 0);
    assert!(matches!(handle_mouse(&mut a, MouseKind::LeftDown, 71, 9, dialog, text, sb), Some(AppAction::Continue)));
    assert_eq!(a.actions_dialog.as_ref().unwrap().scroll, 19);
    assert!(matches!(handle_mouse(&mut a, MouseKind::LeftDown, 71, 5, dialog, text, sb), Some(AppAction::Continue)));
    assert_eq!(a.actions_dialog.as_ref().unwrap().scroll, 0);
    assert!(matches!(handle_mouse(&mut a, MouseKind::LeftDown, 14, 8, dialog, text, sb), Some(AppAction::Suspend)));
    assert!(a.actions_dialog.is_none());
    actions_dialog::open(&mut a);
    assert!(matches!(handle_mouse(&mut a, MouseKind::LeftDown, 12, 8, dialog, text, sb), Some(AppAction::Continue)));
    assert!(matches!(handle_mouse(&mut a, MouseKind::LeftDown, 0, 0, dialog, text, sb), Some(AppAction::ActionsClose)));
}
