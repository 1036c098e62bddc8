use std::io::Write;

use oxide::app_state::AppState;
use oxide::dialogs::panel_context_menu::{self, entries, MENU_HEIGHT, MENU_WIDTH};
use oxide::dialogs::rename_attr::{self, AttrStep, RenameAttrDialogState, RenameAttrField};
use oxide::events::AppAction;
use oxide::file_ops::{FileInfo, SortMode};
use oxide::keys::{KeyCode, KeyModifiers, MouseKind};
use oxide::panel::{Panel, PanelOperations};
use oxide::panel_backend::{zip_extract_plan, zip_kept_members, zip_list_archive, zip_read_file, ExtractStep, PanelLocation};
use oxide::strutil::{char_index, split_char};
use oxide::text_input::TextInputState;

const NO_MODS: KeyModifiers = KeyModifiers { control: false };
const CTRL: KeyModifiers = KeyModifiers { control: true };

fn files(names: &[(&str, bool)]) -> Vec<FileInfo> {
    names.iter().map(|(n, d)| FileInfo::new(n.to_string(), *d, false)).collect()
}

fn app_with(left: &[(&str, bool)]) -> AppState {
    AppState::new(Panel::new("/l".to_string(), files(left)), Panel::new("/r".to_string(), files(&[("..", true)])))
}

fn fs_loc() -> PanelLocation {
    PanelLocation::Fs("/l".to_string())
}

fn focus(a: &AppState) -> usize {
    a.panel_context_menu.as_ref().unwrap().focus
}

#[test]
fn context_menu_entries_follow_the_menu_keys() {
    let e = entries();
    assert_eq!(e.len(), 9);
    assert_eq!(e[0], ("Actions", 1));
    assert_eq!(e[8], ("Settings", 9));
}

#[test]
fn context_menu_opens_inside_the_terminal_on_first_available_entry() {
    let mut a = app_with(&[("..", true), ("a.txt", false)]);
    panel_context_menu::open(&mut a, 70, 20, 80, 24, &fs_loc());
    let m = a.panel_context_menu.as_ref().unwrap();
    assert_eq!((m.rect.x, m.rect.y, m.rect.width, m.rect.height), (58, 13, MENU_WIDTH, MENU_HEIGHT));
    assert_eq!(m.focus, 0);
    let mut b = app_with(&[("..", true)]);
    panel_context_menu::open(&mut b, 5, 5, 10, 5, &fs_loc());
    let m = b.panel_context_menu.as_ref().unwrap();
    assert_eq!((m.rect.x, m.rect.y), (0, 0));
}

#[test]
fn context_menu_focus_skips_unavailable_entries_and_wraps() {
    // With ".." selected only Actions, File, Folder and Settings can act.
    let mut a = app_with(&[("..", true), ("a.txt", false)]);
    let loc = fs_loc();
    panel_context_menu::open(&mut a, 1, 1, 80, 24, &loc);
    let mut seen = Vec::new();
    for _ in 0..4 {
        assert_eq!(panel_context_menu::handle_key(&mut a, &loc, KeyCode::Down, NO_MODS), Some(AppAction::Continue));
        seen.push(focus(&a));
    }
    assert_eq!(seen, vec![1, 6, 8, 0]);
    assert_eq!(panel_context_menu::handle_key(&mut a, &loc, KeyCode::Char('k'), NO_MODS), Some(AppAction::Continue));
    assert_eq!(focus(&a), 8);
    // Down then Up comes back.
    panel_context_menu::handle_key(&mut a, &loc, KeyCode::Char('j'), NO_MODS);
    panel_context_menu::handle_key(&mut a, &loc, KeyCode::Up, NO_MODS);
    assert_eq!(focus(&a), 8);
    panel_context_menu::handle_key(&mut a, &loc, KeyCode::Home, NO_MODS);
    assert_eq!(focus(&a), 0);
    panel_context_menu::handle_key(&mut a, &loc, KeyCode::End, NO_MODS);
    assert_eq!(focus(&a), 8);
}

#[test]
fn context_menu_choosing_runs_the_menu_key() {
    let mut a = app_with(&[("..", true), ("a.txt", false)]);
    let loc = fs_loc();
    panel_context_menu::open(&mut a, 1, 1, 80, 24, &loc);
    // View (3) cannot act on "..": nothing runs, the menu stays.
    assert_eq!(panel_context_menu::handle_key(&mut a, &loc, KeyCode::Char('3'), NO_MODS), Some(AppAction::Continue));
    assert!(a.panel_context_menu.is_some());
    assert_eq!(panel_context_menu::handle_key(&mut a, &loc, KeyCode::Char('0'), NO_MODS), Some(AppAction::Continue));
    assert!(a.panel_context_menu.is_some());
    assert_eq!(panel_context_menu::handle_key(&mut a, &loc, KeyCode::Char('7'), NO_MODS), Some(AppAction::OpenMkdirDialog));
    assert!(a.panel_context_menu.is_none());
    panel_context_menu::open(&mut a, 1, 1, 80, 24, &loc);
    panel_context_menu::handle_key(&mut a, &loc, KeyCode::Down, NO_MODS);
    assert_eq!(panel_context_menu::handle_key(&mut a, &loc, KeyCode::Enter, NO_MODS), Some(AppAction::OpenRenameAttrDialog));
    assert!(a.panel_context_menu.is_none());
    assert_eq!(panel_context_menu::handle_key(&mut a, &loc, KeyCode::Esc, NO_MODS), None);
}

#[test]
fn context_menu_mouse() {
    let mut a = app_with(&[("..", true), ("a.txt", false)]);
    let loc = fs_loc();
    panel_context_menu::open(&mut a, 5, 5, 80, 24, &loc);
    // The bottom frame row chooses nothing.
    assert_eq!(panel_context_menu::handle_mouse(&mut a, &loc, MouseKind::LeftDown, 6, 15), Some(AppAction::Continue));
    assert!(a.panel_context_menu.is_some());
    // The top frame row counts as the first entry.
    assert_eq!(panel_context_menu::handle_mouse(&mut a, &loc, MouseKind::LeftDown, 6, 5), Some(AppAction::OpenSettingsDialog));
    assert!(a.panel_context_menu.is_none());
    panel_context_menu::open(&mut a, 5, 5, 80, 24, &loc);
    assert_eq!(panel_context_menu::handle_mouse(&mut a, &loc, MouseKind::ScrollDown, 6, 6), Some(AppAction::Continue));
    assert!(a.panel_context_menu.is_some());
    assert_eq!(panel_context_menu::handle_mouse(&mut a, &loc, MouseKind::LeftDown, 0, 0), Some(AppAction::Continue));
    assert!(a.panel_context_menu.is_none());
    panel_context_menu::open(&mut a, 5, 5, 80, 24, &loc);
    assert_eq!(panel_context_menu::handle_mouse(&mut a, &loc, MouseKind::RightDown, 6, 6), Some(AppAction::Continue));
    assert!(a.panel_context_menu.is_none());
    assert_eq!(panel_context_menu::handle_mouse(&mut a, &loc, MouseKind::RightDown, 6, 6), None);
}

fn single_open() -> AppState {
    let mut a = app_with(&[("..", true), ("a.txt", false)]);
    a.left_panel.set_selection(1, 10);
    rename_attr::open(
        &mut a,
        Some(0o100755),
        "alice".to_string(),
        "staff".to_string(),
        vec!["root".to_string(), "bob".to_string()],
        vec!["wheel".to_string(), "staff".to_string()],
    );
    a
}

fn single_fields(a: &AppState) -> (String, usize, u32, usize, usize, usize, RenameAttrField, Vec<String>) {
    match a.rename_attr_dialog.as_ref().unwrap() {
        RenameAttrDialogState::Single { name_input, mode, perm_focus, user_index, group_index, focus, user_list, .. } => (
            name_input.text.clone(),
            name_input.cursor,
            *mode,
            *perm_focus,
            *user_index,
            *group_index,
            *focus,
            user_list.clone(),
        ),
        _ => panic!("expected the dialog for one item"),
    }
}

#[test]
fn rename_attr_open_for_one_item() {
    let a = single_open();
    let (text, cursor, mode, pf, ui, gi, focus, users) = single_fields(&a);
    assert_eq!(text, "a.txt");
    assert_eq!(cursor, 5);
    assert_eq!(mode, 0o755);
    assert_eq!((pf, ui, gi), (0, 0, 1));
    assert!(focus == RenameAttrField::Name);
    assert_eq!(users, vec!["alice", "root", "bob"]);
    // Nothing selected: nothing opens.
    let mut b = app_with(&[("..", true)]);
    rename_attr::open(&mut b, None, String::new(), String::new(), vec![], vec![]);
    assert!(b.rename_attr_dialog.is_none());
}

#[test]
fn rename_attr_open_for_several_items_uses_default_mode() {
    let mut a = app_with(&[("..", true), ("a.txt", false), ("b/", true)]);
    a.left_panel.invert_selection();
    rename_attr::open(&mut a, None, String::new(), "wheel".to_string(), vec!["root".to_string()], vec!["wheel".to_string()]);
    match a.rename_attr_dialog.as_ref().unwrap() {
        RenameAttrDialogState::Group { count, mode, focus, user_index, group_index, current_name, .. } => {
            assert_eq!(*count, 2);
            assert_eq!(*mode, 0o644);
            assert!(*focus == RenameAttrField::Permissions);
            assert_eq!((*user_index, *group_index), (0, 0));
            assert_eq!(current_name, "..");
        }
        _ => panic!("expected the dialog for several items"),
    }
}

#[test]
fn rename_attr_keys() {
    let mut a = single_open();
    assert_eq!(rename_attr::handle_key(&mut a, KeyCode::Char('x'), NO_MODS), Some(AppAction::Continue));
    assert_eq!(single_fields(&a).0, "a.txtx");
    rename_attr::handle_key(&mut a, KeyCode::Backspace, NO_MODS);
    rename_attr::handle_key(&mut a, KeyCode::Home, NO_MODS);
    assert_eq!(single_fields(&a).1, 0);
    assert_eq!(rename_attr::handle_key(&mut a, KeyCode::Char(' '), NO_MODS), Some(AppAction::RenameAttrConfirm));
    assert_eq!(rename_attr::handle_key(&mut a, KeyCode::Char('\t'), NO_MODS), Some(AppAction::Continue));
    assert!(single_fields(&a).6 == RenameAttrField::Permissions);
    rename_attr::handle_key(&mut a, KeyCode::Char(' '), NO_MODS);
    assert_eq!(single_fields(&a).2, 0o4755);
    rename_attr::handle_key(&mut a, KeyCode::Char(' '), NO_MODS);
    assert_eq!(single_fields(&a).2, 0o755);
    for _ in 0..20 {
        rename_attr::handle_key(&mut a, KeyCode::Down, NO_MODS);
    }
    assert_eq!(single_fields(&a).3, 11);
    rename_attr::handle_key(&mut a, KeyCode::Char(' '), NO_MODS);
    assert_eq!(single_fields(&a).2, 0o754);
    rename_attr::handle_key(&mut a, KeyCode::Up, NO_MODS);
    assert_eq!(single_fields(&a).3, 10);
    rename_attr::handle_key(&mut a, KeyCode::Tab, NO_MODS);
    for _ in 0..5 {
        rename_attr::handle_key(&mut a, KeyCode::Down, NO_MODS);
    }
    assert_eq!(single_fields(&a).4, 2);
    rename_attr::handle_key(&mut a, KeyCode::Tab, NO_MODS);
    rename_attr::handle_key(&mut a, KeyCode::Up, NO_MODS);
    rename_attr::handle_key(&mut a, KeyCode::Up, NO_MODS);
    assert_eq!(single_fields(&a).5, 0);
    rename_attr::handle_key(&mut a, KeyCode::Tab, NO_MODS);
    assert!(single_fields(&a).6 == RenameAttrField::Name);
    assert_eq!(rename_attr::handle_key(&mut a, KeyCode::Enter, NO_MODS), Some(AppAction::RenameAttrConfirm));
    assert_eq!(rename_attr::handle_key(&mut a, KeyCode::Esc, NO_MODS), Some(AppAction::RenameAttrCancel));
    assert!(a.rename_attr_dialog.is_some());
    assert_eq!(rename_attr::handle_key(&mut a, KeyCode::Char('o'), CTRL), Some(AppAction::Suspend));
    assert_eq!(rename_attr::handle_key(&mut a, KeyCode::Char('c'), CTRL), Some(AppAction::RenameAttrCopy));
    assert_eq!(rename_attr::handle_key(&mut a, KeyCode::Char('v'), CTRL), Some(AppAction::RenameAttrPaste));
    rename_attr::paste(&mut a, "yz");
    assert_eq!(single_fields(&a).0, "yza.txt");
    assert_eq!(single_fields(&a).1, 2);
}

#[test]
fn rename_attr_control_c_on_empty_name_cancels() {
    let mut a = single_open();
    rename_attr::handle_key(&mut a, KeyCode::End, NO_MODS);
    for _ in 0..5 {
        rename_attr::handle_key(&mut a, KeyCode::Backspace, NO_MODS);
    }
    assert_eq!(single_fields(&a).0, "");
    // Control-A on an empty name types the letter.
    rename_attr::handle_key(&mut a, KeyCode::Char('a'), CTRL);
    assert_eq!(single_fields(&a).0, "a");
    rename_attr::handle_key(&mut a, KeyCode::Backspace, NO_MODS);
    a.rename_attr_error = Some("old".to_string());
    assert_eq!(rename_attr::handle_key(&mut a, KeyCode::Char('c'), CTRL), Some(AppAction::RenameAttrCancel));
    assert!(a.rename_attr_dialog.is_none());
    assert!(a.rename_attr_error.is_none());
    assert_eq!(rename_attr::handle_key(&mut a, KeyCode::Enter, NO_MODS), None);
}

#[test]
fn rename_attr_plan_for_one_item() {
    let mut a = single_open();
    if let Some(RenameAttrDialogState::Single { name_input, .. }) = a.rename_attr_dialog.as_mut() {
        *name_input = TextInputState::new("  b.txt ".to_string());
    }
    let plan = rename_attr::apply_plan(&a).unwrap();
    assert_eq!(plan.reselect, "b.txt");
    assert_eq!(plan.steps.len(), 3);
    match &plan.steps[0] {
        AttrStep::Rename { from, to } => {
            assert_eq!(from, "/l/a.txt");
            assert_eq!(to, "/l/b.txt");
        }
        _ => panic!("rename first"),
    }
    match &plan.steps[1] {
        AttrStep::SetMode { path, mode, item } => {
            assert_eq!(path, "/l/b.txt");
            assert_eq!(*mode, 0o755);
            assert!(item.is_none());
        }
        _ => panic!("then the mode"),
    }
    match &plan.steps[2] {
        AttrStep::Chown { path, user, group, .. } => {
            assert_eq!((path.as_str(), user.as_str(), group.as_str()), ("/l/b.txt", "alice", "staff"));
        }
        _ => panic!("then the owner"),
    }
    rename_attr::step_failed(&mut a, &plan.steps[0], "denied");
    assert_eq!(a.rename_attr_error.as_deref(), Some("Rename failed: denied"));
    assert!(a.rename_attr_dialog.is_some());
    rename_attr::applied(&mut a);
    assert!(a.rename_attr_dialog.is_none());
}

#[test]
fn rename_attr_plan_without_rename_or_owner() {
    let mut a = app_with(&[("..", true), ("a.txt", false)]);
    a.left_panel.set_selection(1, 10);
    rename_attr::open(&mut a, Some(0o600), String::new(), String::new(), vec![], vec![]);
    let plan = rename_attr::apply_plan(&a).unwrap();
    assert_eq!(plan.steps.len(), 1);
    assert!(matches!(&plan.steps[0], AttrStep::SetMode { path, .. } if path == "/l/a.txt"));
    assert_eq!(plan.reselect, "a.txt");
}

#[test]
fn rename_attr_plan_for_several_items() {
    let mut a = app_with(&[("..", true), ("a.txt", false), ("b/", true)]);
    a.left_panel.invert_selection();
    rename_attr::open(&mut a, Some(0o640), String::new(), String::new(), vec!["root".to_string()], vec!["wheel".to_string()]);
    let plan = rename_attr::apply_plan(&a).unwrap();
    assert_eq!(plan.steps.len(), 4);
    assert!(matches!(&plan.steps[2], AttrStep::SetMode { path, mode: 0o640, item: Some(n) } if path == "/l/b" && n == "b/"));
    assert!(matches!(&plan.steps[3], AttrStep::Chown { user, group, .. } if user == "root" && group == "wheel"));
    rename_attr::step_failed(&mut a, &plan.steps[3], "no");
    assert_eq!(a.rename_attr_error.as_deref(), Some("Chown failed: b/: no"));
    assert!(rename_attr::apply_plan(&app_with(&[("..", true)])).is_none());
}

fn sample_zip() -> Vec<u8> {
    let mut w = zip::ZipWriter::new(std::io::Cursor::new(Vec::new()));
    let opts = zip::write::SimpleFileOptions::default();
    w.add_directory("docs/", opts).unwrap();
    w.start_file("docs/readme.txt", opts).unwrap();
    w.write_all(b"hello").unwrap();
    w.start_file("top.txt", opts).unwrap();
    w.write_all(b"top").unwrap();
    w.start_file(".hidden", opts).unwrap();
    w.write_all(b"h").unwrap();
    w.finish().unwrap().into_inner()
}

#[test]
fn zip_listing_from_archive_bytes() {
    let bytes = sample_zip();
    let root = zip_list_archive("/tmp/a.zip", "", false, &bytes, SortMode::NameAsc, true).unwrap();
    let names: Vec<(String, bool)> = root.iter().map(|f| (f.name.clone(), f.is_dir)).collect();
    assert_eq!(
        names,
        vec![("..".to_string(), true), ("docs/".to_string(), true), ("top.txt".to_string(), false)]
    );
    let docs = zip_list_archive("/tmp/a.zip", "docs", true, &bytes, SortMode::NameAsc, true).unwrap();
    assert_eq!(docs.len(), 2);
    assert_eq!(docs[1].name, "readme.txt");
    assert!(zip_list_archive("/tmp/a.zip", "", false, b"not a zip", SortMode::NameAsc, true).is_none());
}

#[test]
fn zip_read_member() {
    let bytes = sample_zip();
    assert_eq!(zip_read_file(&bytes, "docs/", "readme.txt"), Some(b"hello".to_vec()));
    assert_eq!(zip_read_file(&bytes, "", "/top.txt"), Some(b"top".to_vec()));
    assert_eq!(zip_read_file(&bytes, "", "docs"), None);
    assert_eq!(zip_read_file(&bytes, "", "missing"), None);
    assert_eq!(zip_read_file(b"junk", "", "top.txt"), None);
}

#[test]
fn account_database_names_and_ids() {
    let passwd = "# users\nroot:x:0:0:root:/root:/bin/sh\n\nalice:x:1000:1000::/home/alice:/bin/sh\nbroken\n";
    assert_eq!(rename_attr::account_names(passwd), vec!["root", "alice", "broken"]);
    assert_eq!(rename_attr::account_name_with_id(passwd, "1000").as_deref(), Some("alice"));
    assert_eq!(rename_attr::account_name_with_id(passwd, "0").as_deref(), Some("root"));
    assert_eq!(rename_attr::account_name_with_id(passwd, "7"), None);
    assert_eq!(rename_attr::account_names(""), Vec::<String>::new());
}

#[test]
fn split_on_a_character() {
    assert_eq!(split_char("a:b::c", ':'), vec!["a", "b", "", "c"]);
    assert_eq!(split_char("", ':'), vec![""]);
    assert_eq!(char_index("a/b/c", '/'), Some(1));
    assert_eq!(char_index("abc", '/'), None);
}

fn show(steps: &[ExtractStep]) -> Vec<String> {
    steps
        .iter()
        .map(|s| match s {
            ExtractStep::MakeDirs { dest } => format!("dirs {}", dest),
            ExtractStep::WriteMember { member, dest } => format!("write {} {}", member, dest),
            ExtractStep::CopyFile { name, dest } => format!("copy {} {}", name, dest),
            ExtractStep::MakeItemDir { dest } => format!("item {}", dest),
        })
        .collect()
}

#[test]
fn zip_extraction_plan() {
    let names: Vec<String> = ["docs/", "docs/readme.txt", "docs/sub/", "docs/sub/x", "top.txt", "docsx"]
        .iter()
        .map(|n| n.to_string())
        .collect();
    let items = vec![("docs/".to_string(), true), ("top.txt".to_string(), false)];
    let plan = zip_extract_plan(&names, "", &items, "/t");
    assert_eq!(
        show(&plan),
        vec![
            "dirs /t/docs/",
            "write 1 /t/docs/readme.txt",
            "dirs /t/docs/sub",
            "write 3 /t/docs/sub/x",
            "item /t/docs",
            "copy top.txt /t/top.txt",
        ]
    );
    let inner = zip_extract_plan(&names, "docs/", &vec![("sub/".to_string(), true)], "/t");
    assert_eq!(show(&inner), vec!["dirs /t/sub/", "write 3 /t/sub/x", "item /t/sub"]);
    assert!(zip_extract_plan(&names, "", &vec![], "/t").is_empty());
}

#[test]
fn zip_members_kept_after_delete() {
    let names: Vec<String> = ["docs/", "docs/a", "docs/sub/x", "top.txt", "keep/", "keep/b", "topx"]
        .iter()
        .map(|n| n.to_string())
        .collect();
    let items = vec![("docs/".to_string(), true), ("top.txt".to_string(), false)];
    assert_eq!(zip_kept_members(&names, "", &items), vec![5, 6]);
    assert_eq!(zip_kept_members(&names, "", &vec![]), vec![1, 2, 3, 5, 6]);
}
