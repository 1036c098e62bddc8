use oxide::app_state::AppState;
use oxide::editor::{editor_screen_key, get_lang_from_path, EditorKeyAction, EditorKeyState};
use oxide::keys::KeyCode;
use oxide::file_ops::{FileInfo, SortMode};
use oxide::panel::Panel;
use oxide::panel_backend::{join_path_display, zip_dir_entries, zip_list, zip_member_path, zip_member_removed, PanelLocation};
use oxide::settings::{default_sort, default_true, default_view, settings_path_in, PersistedSettings};
use oxide::text_input::TextInputState;
use oxide::ui::{filename_for_bottom_bar, is_zip_file, Renderer};

#[test]
fn language_from_extension() {
    assert_eq!(get_lang_from_path("/src/main.rs"), "rust");
    assert_eq!(get_lang_from_path("SCRIPT.PY"), "python");
    assert_eq!(get_lang_from_path("a/b/c.yml"), "yaml");
    assert_eq!(get_lang_from_path("x.cxx"), "cpp");
    assert_eq!(get_lang_from_path(".bashrc"), "plain");
    assert_eq!(get_lang_from_path("Makefile"), "plain");
    assert_eq!(get_lang_from_path("notes."), "plain");
    assert_eq!(get_lang_from_path("dir/x.tar.md"), "markdown");
}

#[test]
fn zip_entries_group_children() {
    let names = vec![
        "docs/".to_string(),
        "docs/a.txt".to_string(),
        "docs/sub/b.txt".to_string(),
        "top.txt".to_string(),
        ".hidden".to_string(),
    ];
    let root = zip_dir_entries(&names, "", false);
    let shown: Vec<(String, bool)> = root.iter().map(|e| (e.0.clone(), e.1)).collect();
    assert_eq!(shown, vec![("docs/".to_string(), true), ("top.txt".to_string(), false)]);
    let with_hidden = zip_dir_entries(&names, "", true);
    assert_eq!(with_hidden.len(), 3);
    let docs = zip_dir_entries(&names, "docs/", false);
    let shown: Vec<(String, bool)> = docs.iter().map(|e| (e.0.clone(), e.1)).collect();
    assert_eq!(shown, vec![("a.txt".to_string(), false), ("sub/".to_string(), true)]);
}

#[test]
fn zip_list_adds_parent_entry() {
    let names = vec!["a.txt".to_string()];
    let inside = zip_list("/tmp/x.zip", "", false, &names, SortMode::NameAsc, true);
    assert_eq!(inside.len(), 2);
    assert!(inside[0].is_parent_dir());
    assert_eq!(inside[1].name, "a.txt");
    let at_root = zip_list("/", "", false, &names, SortMode::NameAsc, true);
    assert_eq!(at_root.len(), 1);
    let sub = zip_list("/", "docs", false, &names, SortMode::NameAsc, true);
    assert_eq!(sub.len(), 1);
    assert!(sub[0].is_parent_dir());
}

#[test]
fn display_paths() {
    let fs = PanelLocation::Fs("/tmp".to_string());
    assert_eq!(join_path_display(&fs, "f"), "/tmp/f");
    let z = PanelLocation::Zip { archive: "/tmp/a.zip".to_string(), path_inside: "dir".to_string() };
    assert_eq!(join_path_display(&z, "f"), "/tmp/a.zip/dir/f");
}

#[test]
fn bottom_bar_and_zip_detection() {
    let f = FileInfo::new("Data.ZIP".to_string(), false, false);
    assert!(is_zip_file(&f));
    assert!(!is_zip_file(&FileInfo::new("dir.zip".to_string(), true, false)));
    assert!(!is_zip_file(&FileInfo::new("zip".to_string(), false, false)));
    assert_eq!(filename_for_bottom_bar(Some(&FileInfo::new("sub/".to_string(), true, false))), "sub");
    assert_eq!(filename_for_bottom_bar(None), "");
}

#[test]
fn menu_bar_has_ten_keys() {
    let items = Renderer::menu_bar_items();
    assert_eq!(items.len(), 10);
    assert_eq!(items[0], ("1 Help", 1));
    assert_eq!(items[9], ("10 Quit", 10));
}

#[test]
fn menu_actions_availability() {
    let files = vec![FileInfo::new("..".to_string(), true, false), FileInfo::new("f".to_string(), false, false)];
    let mut a = AppState::new(Panel::new("/l".to_string(), files.clone()), Panel::new("/r".to_string(), files));
    let loc = PanelLocation::Fs("/l".to_string());
    assert!(!Renderer::is_menu_action_available(&a, 3, &loc));
    assert!(!Renderer::is_menu_action_available(&a, 8, &loc));
    assert!(Renderer::is_menu_action_available(&a, 7, &loc));
    a.left_panel.set_selection(1, 10);
    assert!(Renderer::is_menu_action_available(&a, 3, &loc));
    assert!(Renderer::is_menu_action_available(&a, 5, &loc));
    let zip = PanelLocation::Zip { archive: "/l/a.zip".to_string(), path_inside: String::new() };
    assert!(!Renderer::is_menu_action_available(&a, 4, &zip));
    assert!(!Renderer::is_menu_action_available(&a, 7, &zip));
}

#[test]
fn settings_defaults() {
    let s = PersistedSettings::default();
    assert_eq!(default_view(), s.left_view);
    assert!(default_true());
    assert_eq!(default_sort(), "name_asc");
    assert_eq!(settings_path_in(Some("/home/u".to_string())), Some("/home/u/.oxide/settings.json".to_string()));
    assert_eq!(settings_path_in(None), None);
}

#[test]
fn text_input_insert_then_backspace() {
    let t = TextInputState::new("ab".to_string());
    assert_eq!(t.cursor, 2);
    let t = t.move_left().insert_char('x');
    assert_eq!(t.text, "axb");
    let t = t.backspace();
    assert_eq!(t.text, "ab");
    assert_eq!(t.cursor, 1);
    let t = t.move_end().move_right();
    assert_eq!(t.cursor, 2);
    assert_eq!(t.move_home().cursor, 0);
}

#[test]
fn zip_member_names_and_removal() {
    assert_eq!(zip_member_path("", "/a.txt"), "a.txt");
    assert_eq!(zip_member_path("docs/", "/sub/"), "docs/sub");
    let dir_item = vec![("docs/".to_string(), true)];
    assert!(zip_member_removed("docs/a.txt", "", &dir_item));
    assert!(zip_member_removed("docs/", "", &dir_item));
    assert!(!zip_member_removed("docs2/x", "", &dir_item));
    let file_item = vec![("top.txt".to_string(), false)];
    assert!(zip_member_removed("top.txt", "", &file_item));
    assert!(!zip_member_removed("top.txt.bak", "", &file_item));
    let nested = vec![("a.txt".to_string(), false)];
    assert!(zip_member_removed("docs/a.txt", "docs/", &nested));
    assert!(!zip_member_removed("a.txt", "docs/", &nested));
}

#[test]
fn editor_screen_keys_and_search_bar() {
    let files = vec![FileInfo::new("..".to_string(), true, false)];
    let mut a = AppState::new(Panel::new("/l".to_string(), files.clone()), Panel::new("/r".to_string(), files));
    let mut st = EditorKeyState { search: None, selection_extend_mode: false };
    assert!(matches!(editor_screen_key(&mut st, &mut a, false, KeyCode::Char('x'), false), EditorKeyAction::ToEditor));
    assert!(matches!(editor_screen_key(&mut st, &mut a, false, KeyCode::Char('f'), true), EditorKeyAction::Continue));
    assert!(st.search.is_some());
    for c in "fo".chars() {
        assert!(matches!(editor_screen_key(&mut st, &mut a, false, KeyCode::Char(c), false), EditorKeyAction::Continue));
    }
    assert!(matches!(editor_screen_key(&mut st, &mut a, false, KeyCode::Left, false), EditorKeyAction::Continue));
    assert!(matches!(editor_screen_key(&mut st, &mut a, false, KeyCode::Char('x'), false), EditorKeyAction::Continue));
    match editor_screen_key(&mut st, &mut a, false, KeyCode::Enter, false) {
        EditorKeyAction::FindNext(q) => assert_eq!(q, "fxo"),
        _ => panic!("expected a search"),
    }
    assert!(matches!(editor_screen_key(&mut st, &mut a, false, KeyCode::Esc, false), EditorKeyAction::ClearSelection));
    assert!(st.search.is_none());
    assert!(matches!(editor_screen_key(&mut st, &mut a, false, KeyCode::F(3), false), EditorKeyAction::ClearSelection));
    assert!(st.selection_extend_mode);
    assert!(matches!(editor_screen_key(&mut st, &mut a, false, KeyCode::F(3), false), EditorKeyAction::Continue));
    assert!(!st.selection_extend_mode);
    assert!(matches!(editor_screen_key(&mut st, &mut a, false, KeyCode::F(2), false), EditorKeyAction::Save));
    assert!(matches!(editor_screen_key(&mut st, &mut a, false, KeyCode::Esc, false), EditorKeyAction::Close));
    assert!(matches!(editor_screen_key(&mut st, &mut a, true, KeyCode::Esc, false), EditorKeyAction::Continue));
    assert!(a.editor_confirm_pending);
    assert!(matches!(editor_screen_key(&mut st, &mut a, false, KeyCode::F(10), false), EditorKeyAction::Quit));
}
