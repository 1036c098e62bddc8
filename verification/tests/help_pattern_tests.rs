use oxide::app_state::AppState;
use oxide::editor::find_next_match;
use oxide::ui::truncate_for_width;
use oxide::dialogs::help_dialog::{self, dialog_rect, help_layout, inner, scrollbar_thumb};
use oxide::dialogs::pattern_select_dialog::{self, split_alternatives};
use oxide::dialogs::panel_overlay;
use oxide::dialogs::settings_dialog::{self, SettingsDialogState};
use oxide::events::{AppAction, SettingChange};
use oxide::settings::PersistedSettings;
use oxide::file_ops::FileInfo;
use oxide::keys::{KeyCode, KeyModifiers, MouseKind, Rect};
use oxide::panel::{Panel, PanelOperations};

const NO_MODS: KeyModifiers = KeyModifiers { control: false };
const CTRL: KeyModifiers = KeyModifiers { control: true };

fn app() -> AppState {
    let files = vec![
        FileInfo::new("..".to_string(), true, false),
        FileInfo::new("a.txt".to_string(), false, false),
        FileInfo::new("b/".to_string(), true, false),
        FileInfo::new("c.rs".to_string(), false, false),
    ];
    AppState::new(Panel::new("/l".to_string(), files), Panel::new("/r".to_string(), vec![]))
}

fn rect(x: u16, y: u16, width: u16, height: u16) -> Rect {
    Rect { x, y, width, height }
}

fn tuple(r: Rect) -> (u16, u16, u16, u16) {
    (r.x, r.y, r.width, r.height)
}

fn scroll(a: &AppState) -> usize {
    a.help_dialog.as_ref().unwrap().scroll
}

#[test]
fn help_layout_in_a_terminal() {
    let area = rect(0, 0, 80, 24);
    assert_eq!(tuple(dialog_rect(area)), (2, 2, 76, 20));
    let (d, text, bar) = help_layout(area);
    assert_eq!(tuple(d), (2, 2, 76, 20));
    assert_eq!(tuple(text), (4, 3, 71, 17));
    assert_eq!(tuple(bar), (75, 3, 1, 17));
    let small = rect(0, 0, 10, 5);
    assert_eq!(tuple(dialog_rect(small)), (2, 0, 6, 16));
    assert_eq!(tuple(help_layout(small).1), (4, 1, 1, 13));
    assert_eq!(tuple(inner(rect(3, 3, 3, 10), 2, 1)), (0, 0, 0, 0));
    assert_eq!(tuple(inner(rect(3, 3, 4, 10), 2, 1)), (5, 4, 0, 8));
}

#[test]
fn help_keys_scroll_within_the_text() {
    let area = rect(0, 0, 80, 24);
    let mut a = app();
    assert_eq!(help_dialog::handle_key(&mut a, KeyCode::Down, NO_MODS, area, 50), None);
    help_dialog::open(&mut a);
    assert_eq!(help_dialog::handle_key(&mut a, KeyCode::Down, NO_MODS, area, 50), Some(AppAction::Continue));
    assert_eq!(scroll(&a), 1);
    help_dialog::handle_key(&mut a, KeyCode::End, NO_MODS, area, 50);
    assert_eq!(scroll(&a), 33);
    help_dialog::handle_key(&mut a, KeyCode::Char('j'), NO_MODS, area, 50);
    assert_eq!(scroll(&a), 33);
    help_dialog::handle_key(&mut a, KeyCode::PageUp, NO_MODS, area, 50);
    assert_eq!(scroll(&a), 16);
    help_dialog::handle_key(&mut a, KeyCode::Home, NO_MODS, area, 50);
    assert_eq!(scroll(&a), 0);
    help_dialog::handle_key(&mut a, KeyCode::PageDown, NO_MODS, area, 50);
    assert_eq!(scroll(&a), 17);
    help_dialog::handle_key(&mut a, KeyCode::Char('k'), NO_MODS, area, 50);
    assert_eq!(scroll(&a), 16);
    assert_eq!(help_dialog::handle_key(&mut a, KeyCode::Char('x'), NO_MODS, area, 50), None);
    assert_eq!(help_dialog::handle_key(&mut a, KeyCode::Char('q'), NO_MODS, area, 50), Some(AppAction::HelpClose));
    assert_eq!(help_dialog::handle_key(&mut a, KeyCode::Esc, NO_MODS, area, 50), Some(AppAction::HelpClose));
    assert_eq!(scroll(&a), 16);
    // Short text: nothing to scroll.
    help_dialog::handle_key(&mut a, KeyCode::End, NO_MODS, area, 5);
    assert_eq!(scroll(&a), 0);
}

#[test]
fn help_mouse() {
    let area = rect(0, 0, 80, 24);
    let mut a = app();
    help_dialog::open(&mut a);
    assert_eq!(help_dialog::handle_mouse(&mut a, MouseKind::ScrollDown, 10, 10, area, 50), Some(AppAction::Continue));
    assert_eq!(scroll(&a), 3);
    help_dialog::handle_mouse(&mut a, MouseKind::ScrollDown, 0, 0, area, 50);
    assert_eq!(scroll(&a), 3);
    help_dialog::handle_mouse(&mut a, MouseKind::ScrollUp, 10, 10, area, 50);
    assert_eq!(scroll(&a), 0);
    help_dialog::handle_mouse(&mut a, MouseKind::LeftDown, 75, 11, area, 50);
    assert_eq!(scroll(&a), 16);
    help_dialog::handle_mouse(&mut a, MouseKind::LeftDown, 75, 19, area, 50);
    assert_eq!(scroll(&a), 33);
    assert_eq!(help_dialog::handle_mouse(&mut a, MouseKind::LeftDown, 0, 0, area, 50), Some(AppAction::HelpClose));
    help_dialog::close(&mut a);
    assert_eq!(help_dialog::handle_mouse(&mut a, MouseKind::LeftDown, 0, 0, area, 50), None);
}

#[test]
fn help_scrollbar_thumb() {
    assert_eq!(scrollbar_thumb(17, 0, 50), Some((0, 6)));
    assert_eq!(scrollbar_thumb(17, 33, 50), Some((11, 6)));
    assert_eq!(scrollbar_thumb(17, 0, 10), None);
    assert_eq!(scrollbar_thumb(0, 0, 10), None);
    assert_eq!(scrollbar_thumb(2, 0, 1000), Some((0, 1)));
}

fn pattern(a: &AppState) -> (String, usize, bool, usize) {
    let d = a.pattern_select_dialog.as_ref().unwrap();
    (d.pattern_input.text.clone(), d.pattern_input.cursor, d.file_case_sensitive, d.focus)
}

#[test]
fn pattern_alternatives() {
    assert_eq!(split_alternatives("a|b||c"), vec!["a", "b", "", "c"]);
    assert_eq!(split_alternatives("abc"), vec!["abc"]);
    assert_eq!(split_alternatives(""), vec![""]);
}

#[test]
fn pattern_dialog_keys() {
    let mut a = app();
    pattern_select_dialog::open_mark(&mut a);
    for c in "*.txt".chars() {
        assert_eq!(pattern_select_dialog::handle_key(&mut a, KeyCode::Char(c), NO_MODS), Some(AppAction::Continue));
    }
    assert_eq!(pattern(&a), ("*.txt".to_string(), 5, false, 0));
    assert_eq!(pattern_select_dialog::handle_key(&mut a, KeyCode::Char('c'), CTRL), Some(AppAction::PatternSelectCopy));
    assert_eq!(pattern_select_dialog::handle_key(&mut a, KeyCode::Char('v'), CTRL), Some(AppAction::PatternSelectPaste));
    pattern_select_dialog::paste(&mut a, "|b*");
    assert_eq!(pattern(&a), ("*.txt|b*".to_string(), 8, false, 0));
    pattern_select_dialog::handle_key(&mut a, KeyCode::Home, NO_MODS);
    pattern_select_dialog::handle_key(&mut a, KeyCode::Delete, NO_MODS);
    assert_eq!(pattern(&a).0, ".txt|b*");
    pattern_select_dialog::handle_key(&mut a, KeyCode::Char('*'), NO_MODS);
    assert_eq!(pattern(&a).0, "*.txt|b*");
    pattern_select_dialog::handle_key(&mut a, KeyCode::Tab, NO_MODS);
    pattern_select_dialog::handle_key(&mut a, KeyCode::Char(' '), NO_MODS);
    assert_eq!(pattern(&a).2, true);
    pattern_select_dialog::handle_key(&mut a, KeyCode::Enter, NO_MODS);
    assert_eq!(pattern(&a).2, false);
    // Typing off the pattern does nothing.
    pattern_select_dialog::handle_key(&mut a, KeyCode::Char('z'), NO_MODS);
    assert_eq!(pattern(&a).0, "*.txt|b*");
    pattern_select_dialog::handle_key(&mut a, KeyCode::Char('\t'), NO_MODS);
    assert_eq!(pattern(&a).3, 2);
    pattern_select_dialog::handle_key(&mut a, KeyCode::Up, NO_MODS);
    pattern_select_dialog::handle_key(&mut a, KeyCode::BackTab, NO_MODS);
    assert_eq!(pattern(&a).3, 0);
    pattern_select_dialog::handle_key(&mut a, KeyCode::BackTab, NO_MODS);
    assert_eq!(pattern(&a).3, 3);
    pattern_select_dialog::handle_key(&mut a, KeyCode::Down, NO_MODS);
    assert_eq!(pattern_select_dialog::handle_key(&mut a, KeyCode::Enter, NO_MODS), Some(AppAction::PatternSelectConfirm));
    assert!(a.pattern_select_dialog.is_some());
    assert!(pattern_select_dialog::confirm(&mut a));
    assert!(a.pattern_select_dialog.is_none());
    assert_eq!(a.last_file_name_pattern, "*.txt|b*");
    let p = &a.left_panel;
    assert_eq!((p.is_marked(0), p.is_marked(1), p.is_marked(2), p.is_marked(3)), (false, true, true, false));
    // Unmark with the remembered pattern.
    pattern_select_dialog::open_unmark(&mut a);
    assert_eq!(pattern(&a).0, "*.txt|b*");
    assert!(pattern_select_dialog::confirm(&mut a));
    let p = &a.left_panel;
    assert_eq!((p.is_marked(1), p.is_marked(2)), (false, false));
}

#[test]
fn pattern_dialog_case_and_closing() {
    let mut a = app();
    pattern_select_dialog::open_mark(&mut a);
    pattern_select_dialog::paste(&mut a, "*.TXT");
    assert!(pattern_select_dialog::confirm(&mut a));
    assert!(a.left_panel.is_marked(1));
    let mut b = app();
    pattern_select_dialog::open_mark(&mut b);
    pattern_select_dialog::paste(&mut b, "*.TXT");
    pattern_select_dialog::handle_key(&mut b, KeyCode::Tab, NO_MODS);
    pattern_select_dialog::handle_key(&mut b, KeyCode::Char(' '), NO_MODS);
    assert!(pattern_select_dialog::confirm(&mut b));
    assert!(!b.left_panel.is_marked(1));
    // A blank pattern marks nothing.
    pattern_select_dialog::open_mark(&mut b);
    pattern_select_dialog::handle_key(&mut b, KeyCode::End, NO_MODS);
    for _ in 0..5 {
        pattern_select_dialog::handle_key(&mut b, KeyCode::Backspace, NO_MODS);
    }
    pattern_select_dialog::paste(&mut b, "  ");
    assert!(!pattern_select_dialog::confirm(&mut b));
    assert_eq!(b.last_file_name_pattern, "  ");
    // Closing keys.
    pattern_select_dialog::open_mark(&mut b);
    assert_eq!(pattern_select_dialog::handle_key(&mut b, KeyCode::Esc, NO_MODS), Some(AppAction::PatternSelectCancel));
    assert!(b.pattern_select_dialog.is_none());
    pattern_select_dialog::open_mark(&mut b);
    pattern_select_dialog::handle_key(&mut b, KeyCode::Tab, NO_MODS);
    assert_eq!(pattern_select_dialog::handle_key(&mut b, KeyCode::Char('c'), CTRL), Some(AppAction::PatternSelectCancel));
    assert!(b.pattern_select_dialog.is_none());
    pattern_select_dialog::open_mark(&mut b);
    pattern_select_dialog::handle_key(&mut b, KeyCode::BackTab, NO_MODS);
    assert_eq!(pattern_select_dialog::handle_key(&mut b, KeyCode::Enter, NO_MODS), Some(AppAction::PatternSelectCancel));
    assert!(b.pattern_select_dialog.is_none());
    assert_eq!(pattern_select_dialog::handle_key(&mut b, KeyCode::Enter, NO_MODS), None);
    assert!(!pattern_select_dialog::confirm(&mut b));
}

#[test]
fn editor_find_next_wraps_round() {
    let text = "abcabcab";
    assert_eq!(find_next_match(text, "ab", 0), Some(3));
    assert_eq!(find_next_match(text, "ab", 3), Some(6));
    assert_eq!(find_next_match(text, "ab", 6), Some(0));
    assert_eq!(find_next_match(text, "ca", 7), Some(2));
    assert_eq!(find_next_match(text, "zz", 0), None);
    assert_eq!(find_next_match(text, "", 0), None);
    assert_eq!(find_next_match("ab", "abc", 0), None);
    assert_eq!(find_next_match("ééx", "x", 0), Some(2));
}

#[test]
fn entry_labels_fit_the_column() {
    let dir = FileInfo::new("docs".to_string(), true, false);
    let exe = FileInfo::new("run.sh".to_string(), false, true);
    let plain = FileInfo::new("notes.txt".to_string(), false, false);
    let parent = FileInfo::new("..".to_string(), true, false);
    assert_eq!(truncate_for_width(&dir, 10), "/docs");
    assert_eq!(truncate_for_width(&exe, 10), "*run.sh");
    assert_eq!(truncate_for_width(&plain, 10), " notes.txt");
    assert_eq!(truncate_for_width(&plain, 6), " note…");
    assert_eq!(truncate_for_width(&plain, 0), "…");
    assert_eq!(truncate_for_width(&parent, 1), "..");
}

fn nav(a: &AppState) -> (usize, bool, usize) {
    let d = a.settings_dialog.as_ref().unwrap();
    (d.selected_section, d.focus_left, d.content_focus)
}

#[test]
fn settings_dialog_navigation() {
    let mut a = app();
    let st = PersistedSettings::default();
    assert_eq!(settings_dialog::handle_key(&mut a, KeyCode::Down, NO_MODS, &st, 6), None);
    settings_dialog::open(&mut a);
    settings_dialog::handle_key(&mut a, KeyCode::Down, NO_MODS, &st, 6);
    assert_eq!(nav(&a), (1, true, 0));
    settings_dialog::handle_key(&mut a, KeyCode::Up, NO_MODS, &st, 6);
    settings_dialog::handle_key(&mut a, KeyCode::Up, NO_MODS, &st, 6);
    assert_eq!(nav(&a), (4, true, 0));
    settings_dialog::handle_key(&mut a, KeyCode::Down, NO_MODS, &st, 6);
    settings_dialog::handle_key(&mut a, KeyCode::Tab, NO_MODS, &st, 6);
    assert_eq!(nav(&a), (0, false, 0));
    assert_eq!(settings_dialog::handle_key(&mut a, KeyCode::Enter, NO_MODS, &st, 6), Some(AppAction::SettingChange(SettingChange::AutosaveToggle)));
    settings_dialog::handle_key(&mut a, KeyCode::Up, NO_MODS, &st, 6);
    assert_eq!(nav(&a), (0, false, 5));
    assert_eq!(settings_dialog::handle_key(&mut a, KeyCode::Char(' '), NO_MODS, &st, 6), Some(AppAction::SettingChange(SettingChange::SafeDeleteToggle)));
    settings_dialog::handle_key(&mut a, KeyCode::Down, NO_MODS, &st, 6);
    assert_eq!(nav(&a), (0, false, 0));
    assert_eq!(settings_dialog::handle_key(&mut a, KeyCode::Esc, NO_MODS, &st, 6), Some(AppAction::SettingsClose));
    assert!(a.settings_dialog.is_none());
}

#[test]
fn settings_dialog_panel_and_theme_sections() {
    let mut a = app();
    let mut st = PersistedSettings::default();
    a.settings_dialog = Some(SettingsDialogState { selected_section: 1, focus_left: false, content_focus: 0 });
    assert_eq!(settings_dialog::handle_key(&mut a, KeyCode::Down, NO_MODS, &st, 6), Some(AppAction::SettingChange(SettingChange::LeftViewCycle)));
    assert_eq!(nav(&a), (1, false, 0));
    st.left_view = "one".to_string();
    assert_eq!(settings_dialog::handle_key(&mut a, KeyCode::Down, NO_MODS, &st, 6), Some(AppAction::Continue));
    assert_eq!(nav(&a), (1, false, 1));
    assert_eq!(settings_dialog::handle_key(&mut a, KeyCode::Down, NO_MODS, &st, 6), Some(AppAction::SettingChange(SettingChange::LeftSortCycle)));
    assert_eq!(settings_dialog::handle_key(&mut a, KeyCode::Up, NO_MODS, &st, 6), Some(AppAction::SettingChange(SettingChange::LeftSortCyclePrev)));
    a.settings_dialog = Some(SettingsDialogState { selected_section: 2, focus_left: false, content_focus: 2 });
    settings_dialog::handle_key(&mut a, KeyCode::Down, NO_MODS, &st, 6);
    assert_eq!(nav(&a), (2, false, 3));
    assert_eq!(settings_dialog::handle_key(&mut a, KeyCode::Enter, NO_MODS, &st, 6), Some(AppAction::SettingChange(SettingChange::RightShowHiddenToggle)));
    settings_dialog::handle_key(&mut a, KeyCode::Down, NO_MODS, &st, 6);
    assert_eq!(nav(&a), (2, false, 0));
    assert_eq!(settings_dialog::handle_key(&mut a, KeyCode::Up, NO_MODS, &st, 6), Some(AppAction::SettingChange(SettingChange::RightViewCycle)));
    a.settings_dialog = Some(SettingsDialogState { selected_section: 3, focus_left: false, content_focus: 9 });
    assert_eq!(settings_dialog::handle_key(&mut a, KeyCode::Enter, NO_MODS, &st, 6), Some(AppAction::SettingChange(SettingChange::ThemeSelect(5))));
    settings_dialog::handle_key(&mut a, KeyCode::Down, NO_MODS, &st, 6);
    assert_eq!(nav(&a), (3, false, 0));
    a.settings_dialog = Some(SettingsDialogState { selected_section: 4, focus_left: false, content_focus: 0 });
    assert_eq!(settings_dialog::handle_key(&mut a, KeyCode::Down, NO_MODS, &st, 6), Some(AppAction::Continue));
    assert_eq!(nav(&a), (4, false, 0));
}

#[test]
fn settings_changes_apply() {
    let mut st = PersistedSettings::default();
    st.apply_change(SettingChange::LeftViewCycle);
    assert_eq!(st.left_view, "one");
    st.apply_change(SettingChange::LeftViewCycle);
    assert_eq!(st.left_view, "two");
    st.apply_change(SettingChange::LeftSortCycle);
    assert_eq!(st.left_sort, "name_desc");
    st.apply_change(SettingChange::LeftSortCyclePrev);
    st.apply_change(SettingChange::LeftSortCyclePrev);
    assert_eq!(st.left_sort, "mtime_desc");
    st.right_sort = "weird".to_string();
    st.apply_change(SettingChange::RightSortCyclePrev);
    assert_eq!(st.right_sort, "name_asc");
    st.apply_change(SettingChange::AutosaveToggle);
    assert!(st.autosave);
    st.apply_change(SettingChange::RightShowHiddenToggle);
    assert!(!st.right_show_hidden);
    st.apply_change(SettingChange::LeftDirsFirstToggle);
    assert!(!st.left_dirs_first);
    st.apply_change(SettingChange::ThemeSelect(2));
    st.apply_change(SettingChange::SafeDeleteToggle);
    assert_eq!(st.right_view, "two");
}

#[test]
fn panel_settings_overlay_keys() {
    let mut a = app();
    let mut st = PersistedSettings::default();
    assert_eq!(panel_overlay::handle_key(&mut a, KeyCode::Tab, NO_MODS, &st), None);
    panel_overlay::open_left(&mut a);
    let focus = |a: &AppState| a.left_panel_settings_overlay.as_ref().unwrap().content_focus;
    assert_eq!(panel_overlay::handle_key(&mut a, KeyCode::Down, NO_MODS, &st), Some(AppAction::SettingChange(SettingChange::LeftViewCycle)));
    assert_eq!(focus(&a), 0);
    st.left_view = "one".to_string();
    assert_eq!(panel_overlay::handle_key(&mut a, KeyCode::Down, NO_MODS, &st), Some(AppAction::Continue));
    assert_eq!(focus(&a), 1);
    assert_eq!(panel_overlay::handle_key(&mut a, KeyCode::Down, NO_MODS, &st), Some(AppAction::SettingChange(SettingChange::LeftSortCycle)));
    assert_eq!(panel_overlay::handle_key(&mut a, KeyCode::Up, NO_MODS, &st), Some(AppAction::SettingChange(SettingChange::LeftSortCyclePrev)));
    panel_overlay::handle_key(&mut a, KeyCode::Tab, NO_MODS, &st);
    assert_eq!(focus(&a), 2);
    assert_eq!(panel_overlay::handle_key(&mut a, KeyCode::Enter, NO_MODS, &st), Some(AppAction::SettingChange(SettingChange::LeftDirsFirstToggle)));
    panel_overlay::handle_key(&mut a, KeyCode::Down, NO_MODS, &st);
    assert_eq!(panel_overlay::handle_key(&mut a, KeyCode::Char(' '), NO_MODS, &st), Some(AppAction::SettingChange(SettingChange::LeftShowHiddenToggle)));
    panel_overlay::handle_key(&mut a, KeyCode::Down, NO_MODS, &st);
    assert_eq!(focus(&a), 0);
    assert_eq!(panel_overlay::handle_key(&mut a, KeyCode::Up, NO_MODS, &st), Some(AppAction::SettingChange(SettingChange::LeftViewCycle)));
    assert_eq!(panel_overlay::handle_key(&mut a, KeyCode::Char('o'), CTRL, &st), Some(AppAction::Suspend));
    assert_eq!(panel_overlay::handle_key(&mut a, KeyCode::Esc, NO_MODS, &st), Some(AppAction::CloseLeftPanelSettings));
    assert!(a.left_panel_settings_overlay.is_some());
    panel_overlay::open_right(&mut a);
    assert!(a.left_panel_settings_overlay.is_none());
    panel_overlay::handle_key(&mut a, KeyCode::Tab, NO_MODS, &st);
    assert_eq!(panel_overlay::handle_key(&mut a, KeyCode::Enter, NO_MODS, &st), Some(AppAction::SettingChange(SettingChange::RightSortCycle)));
    assert_eq!(panel_overlay::handle_key(&mut a, KeyCode::Esc, NO_MODS, &st), Some(AppAction::CloseRightPanelSettings));
}
