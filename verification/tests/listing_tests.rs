use oxide::app_state::AppState;
use oxide::dialogs::{mkdir_dialog, size_info_dialog};
use oxide::dialogs::size_info_dialog::{SizeInfoDialogState, SizeInfoProgress};
use oxide::panel::PanelOperations;
use oxide::events::{AppAction, EventHandler, KeyRoute};
use oxide::file_ops::{sort_listing, FileInfo, FileOperations, SortMode};
use oxide::find_dialog::{content_line_matches, search_visits_entry, trimmed_request, FindSearchRequest};
use oxide::keys::{KeyCode, KeyModifiers};
use oxide::panel::Panel;

fn names(v: &[FileInfo]) -> Vec<String> {
    v.iter().map(|f| f.name.clone()).collect()
}

fn entry(name: &str, is_dir: bool) -> FileInfo {
    FileInfo::new(name.to_string(), is_dir, false)
}

#[test]
fn sort_puts_directories_first_then_names_bytewise() {
    let files = vec![entry("b.txt", false), entry("Zeta", true), entry("a.txt", false), entry("alpha", true), entry("B.txt", false)];
    let sorted = sort_listing(files, true, SortMode::NameAsc, true);
    assert_eq!(names(&sorted), vec!["Zeta", "alpha", "B.txt", "a.txt", "b.txt"]);
}

#[test]
fn sort_drops_hidden_unless_asked() {
    let files = vec![entry(".git", true), entry("src", true), entry(".env", false), entry("..", true)];
    assert_eq!(names(&sort_listing(files.clone(), false, SortMode::NameAsc, true)), vec!["..", "src"]);
    assert_eq!(names(&sort_listing(files, true, SortMode::NameAsc, true)), vec!["..", ".git", "src", ".env"]);
}

#[test]
fn listing_adds_parent_below_root_only() {
    let entries = vec![entry("x", false), entry("d", true)];
    let inside = FileOperations::listing_from_entries("/tmp", entries.clone(), true, SortMode::NameAsc, true);
    assert_eq!(names(&inside), vec!["..", "d", "x"]);
    let root = FileOperations::listing_from_entries("/", entries, true, SortMode::NameAsc, true);
    assert_eq!(names(&root), vec!["d", "x"]);
}

#[test]
fn listing_keeps_parent_first_in_every_order() {
    let entries = vec![entry("-dash", true), entry("a", true)];
    let listing = FileOperations::listing_from_entries("/tmp", entries.clone(), true, SortMode::NameAsc, true);
    assert_eq!(names(&listing), vec!["..", "-dash", "a"]);
    let listing = FileOperations::listing_from_entries("/tmp", entries, true, SortMode::NameDesc, true);
    assert_eq!(names(&listing), vec!["..", "a", "-dash"]);
}

#[test]
fn listing_sort_modes_and_directories_first() {
    let f = |n: &str, d: bool, size: u64, t: Option<i64>| FileInfo::with_metadata(n.to_string(), d, false, size, t);
    let entries = vec![f("b.txt", false, 10, Some(5)), f("a.txt", false, 30, None), f("dir", true, 0, Some(9)), f("c.txt", false, 10, Some(1))];
    let by = |mode: SortMode, dirs_first: bool| names(&FileOperations::listing_from_entries("/", entries.clone(), true, mode, dirs_first));
    assert_eq!(by(SortMode::NameAsc, true), vec!["dir", "a.txt", "b.txt", "c.txt"]);
    assert_eq!(by(SortMode::NameAsc, false), vec!["a.txt", "b.txt", "c.txt", "dir"]);
    assert_eq!(by(SortMode::NameDesc, false), vec!["dir", "c.txt", "b.txt", "a.txt"]);
    assert_eq!(by(SortMode::SizeAsc, false), vec!["dir", "b.txt", "c.txt", "a.txt"]);
    assert_eq!(by(SortMode::SizeDesc, true), vec!["dir", "a.txt", "b.txt", "c.txt"]);
    assert_eq!(by(SortMode::MtimeAsc, false), vec!["a.txt", "c.txt", "b.txt", "dir"]);
    assert_eq!(by(SortMode::MtimeDesc, false), vec!["dir", "b.txt", "c.txt", "a.txt"]);
    assert_eq!(oxide::file_ops::sort_mode_of("size_desc"), SortMode::SizeDesc);
    assert_eq!(oxide::file_ops::sort_mode_of("bogus"), SortMode::NameAsc);
}

fn app() -> AppState {
    let files = vec![entry("..", true), entry("f", false)];
    AppState::new(Panel::new("/l".to_string(), files.clone()), Panel::new("/r".to_string(), files))
}

const NO_MODS: KeyModifiers = KeyModifiers { control: false };
const CTRL: KeyModifiers = KeyModifiers { control: true };

#[test]
fn key_routing_priority() {
    let mut a = app();
    assert!(EventHandler::route_key(&a, KeyCode::Esc) == KeyRoute::Panel);
    a.copy_in_progress = true;
    assert!(EventHandler::route_key(&a, KeyCode::Esc) == KeyRoute::CopyCancel);
    assert!(EventHandler::route_key(&a, KeyCode::Enter) == KeyRoute::Panel);
    mkdir_dialog::open(&mut a);
    assert!(EventHandler::route_key(&a, KeyCode::Enter) == KeyRoute::Mkdir);
    a.copy_error_dialog_open = true;
    assert!(EventHandler::route_key(&a, KeyCode::Esc) == KeyRoute::CopyError);
    a.editor_confirm_pending = true;
    assert!(EventHandler::route_key(&a, KeyCode::Esc) == KeyRoute::EditorConfirm);
}

#[test]
fn mkdir_dialog_keys() {
    let mut a = app();
    mkdir_dialog::open(&mut a);
    for c in "new".chars() {
        assert!(matches!(mkdir_dialog::handle_key(&mut a, KeyCode::Char(c), NO_MODS), Some(AppAction::Continue)));
    }
    assert!(matches!(mkdir_dialog::handle_key(&mut a, KeyCode::Enter, NO_MODS), Some(AppAction::MkdirConfirm)));
    assert!(a.mkdir_dialog.is_some());
    assert_eq!(mkdir_dialog::confirm(&mut a), Some("new".to_string()));
    assert!(a.mkdir_dialog.is_none());
    mkdir_dialog::open(&mut a);
    assert!(matches!(mkdir_dialog::handle_key(&mut a, KeyCode::Esc, NO_MODS), Some(AppAction::MkdirCancel)));
    assert!(a.mkdir_dialog.is_some());
    assert!(matches!(mkdir_dialog::handle_key(&mut a, KeyCode::Char('c'), CTRL), Some(AppAction::MkdirCancel)));
    assert!(a.mkdir_dialog.is_none());
}

#[test]
fn size_info_any_key_closes() {
    let mut a = app();
    assert!(size_info_dialog::handle_key(&mut a, KeyCode::Enter, NO_MODS).is_none());
    a.size_info_dialog = Some(SizeInfoDialogState::Done { total_bytes: 10, file_count: 1, dir_count: 0 });
    assert!(matches!(size_info_dialog::handle_key(&mut a, KeyCode::Char('o'), CTRL), Some(AppAction::Suspend)));
    assert!(a.size_info_dialog.is_some());
    assert!(matches!(size_info_dialog::handle_key(&mut a, KeyCode::Char('x'), NO_MODS), Some(AppAction::SizeInfoClose)));
    assert!(a.size_info_dialog.is_none());
}

#[test]
fn content_matching_and_search_options() {
    assert!(content_line_matches("Hello World", "world", false));
    assert!(!content_line_matches("Hello World", "world", true));
    assert!(content_line_matches("abc", "", true));
    assert!(!content_line_matches("ab", "abc", false));
    assert!(search_visits_entry(".git", false));
    assert!(!search_visits_entry(".git", true));
    assert!(search_visits_entry("src", true));
    let req = FindSearchRequest {
        start_dir: "  /tmp ".to_string(),
        file_pattern: "*.rs\t".to_string(),
        ignore_pattern: " target* ".to_string(),
        content_pattern: " fn ".to_string(),
        recursive: true,
        file_case_sens: false,
        content_case_sens: true,
        skip_hidden: true,
    };
    let t = trimmed_request(&req);
    assert_eq!(t.start_dir, "/tmp");
    assert_eq!(t.file_pattern, "*.rs");
    assert_eq!(t.content_pattern, "fn");
    assert_eq!(t.ignore_pattern, "target*");
    assert!(t.recursive && t.skip_hidden && t.content_case_sens && !t.file_case_sens);
}

#[test]
fn size_request_counts_files_and_dirs() {
    let files = vec![entry("..", true), entry("d", true), entry("f", false), entry("g", false)];
    let mut a = AppState::new(Panel::new("/w".to_string(), files.clone()), Panel::new("/r".to_string(), files));
    assert!(size_info_dialog::open(&mut a).is_none());
    assert!(a.size_info_dialog.is_none());
    a.left_panel.invert_selection();
    let req = size_info_dialog::open(&mut a).expect("items selected");
    assert_eq!(req.dir, "/w");
    assert_eq!(req.items.len(), 3);
    assert_eq!((req.file_count, req.dir_count), (2, 1));
    assert!(matches!(a.size_info_dialog, Some(SizeInfoDialogState::Calculating { total_bytes: 0, .. })));
    size_info_dialog::apply_progress(&mut a, SizeInfoProgress::Done { total_bytes: 42, file_count: 2, dir_count: 1 });
    assert!(matches!(a.size_info_dialog, Some(SizeInfoDialogState::Done { total_bytes: 42, file_count: 2, dir_count: 1 })));
}
