use std::io::Write;

use oxide::app_state::{AppState, Focus};
use oxide::dialogs::size_info_dialog::{format_bottom_bar_line, SizeInfoDialogState};
use oxide::copy_flow::{advance, apply_error_choice, apply_overwrite_choice, next_step, CopyFlow, CopyStep, FlowAction};
use oxide::events::{AppAction, CopyErrorChoice};
use oxide::file_ops::FileInfo;
use oxide::find_dialog::{self, build_display_rows, glob_match, FindDialogPhase, FindDisplayRow, FindResult};
use oxide::keys::{KeyCode, KeyModifiers};
use oxide::panel::Panel;
use oxide::panel_backend::{zip_create, zip_entry_exists, zip_list_names, zip_read_file, zip_with_file, zip_without};
use oxide::ui::truncate_str_ellipsis;

fn app() -> AppState {
    let files = vec![FileInfo::new("..".to_string(), true, false), FileInfo::new("a.txt".to_string(), false, false)];
    AppState::new(Panel::new("/l".to_string(), files), Panel::new("/r".to_string(), vec![]))
}

fn result(path: &str) -> FindResult {
    FindResult { path: path.to_string(), line: None }
}

fn row_text(r: &FindDisplayRow) -> String {
    match r {
        FindDisplayRow::Folder(p) => format!("D {}", p),
        FindDisplayRow::File(f) => format!("F {}", f.path),
    }
}

#[test]
fn question_mark_matches_one_character_not_one_byte() {
    assert!(glob_match("?", "é", true));
    assert!(glob_match("caf?", "café", true));
    assert!(!glob_match("caf??", "café", true));
}

#[test]
fn results_grouped_by_folder_in_order_of_first_appearance() {
    let rows = build_display_rows(&[result("a/x"), result("b/y"), result("a/z")]);
    let texts: Vec<String> = rows.iter().map(row_text).collect();
    assert_eq!(texts, vec!["D a", "F a/x", "F a/z", "D b", "F b/y"]);
}

#[test]
fn find_parameter_keys_through_the_public_handler() {
    let mut a = app();
    find_dialog::open(&mut a);
    let ctrl = KeyModifiers { control: true };
    let none = KeyModifiers { control: false };
    assert_eq!(find_dialog::handle_key(&mut a, KeyCode::Tab, none), Some(AppAction::Continue));
    assert_eq!(a.find_dialog.as_ref().unwrap().focus, 1);
    assert!(a.find_dialog.as_ref().unwrap().phase == FindDialogPhase::Parameter);
    assert_eq!(find_dialog::handle_key(&mut a, KeyCode::Char('c'), ctrl), Some(AppAction::FindClose));
    assert!(a.find_dialog.is_none());
    assert!(a.focus == Focus::Panel);
}

#[test]
fn archive_created_in_memory_reads_back() {
    let members = vec![
        ("docs/".to_string(), Vec::new()),
        ("docs/readme.txt".to_string(), b"hello".to_vec()),
        ("top.txt".to_string(), b"top".to_vec()),
    ];
    let bytes = zip_create(&members).unwrap();
    assert_eq!(zip_list_names(&bytes).unwrap(), vec!["docs/", "docs/readme.txt", "top.txt"]);
    assert_eq!(zip_read_file(&bytes, "docs", "readme.txt"), Some(b"hello".to_vec()));
    let twice = vec![("a".to_string(), Vec::new()), ("a".to_string(), Vec::new())];
    assert_eq!(zip_create(&twice), None);
}

#[test]
fn deleting_from_an_archive_keeps_the_rest() {
    let mut w = zip::ZipWriter::new(std::io::Cursor::new(Vec::new()));
    let opts = zip::write::SimpleFileOptions::default();
    w.add_directory("docs/", opts).unwrap();
    w.start_file("docs/readme.txt", opts).unwrap();
    w.write_all(b"hello").unwrap();
    w.start_file("top.txt", opts).unwrap();
    w.write_all(b"top").unwrap();
    w.start_file("other.txt", opts).unwrap();
    w.write_all(b"other").unwrap();
    let bytes = w.finish().unwrap().into_inner();
    let out = zip_without(&bytes, "", &vec![("top.txt".to_string(), false)]).unwrap();
    assert_eq!(zip_list_names(&out).unwrap(), vec!["docs/readme.txt", "other.txt"]);
    assert_eq!(zip_read_file(&out, "", "other.txt"), Some(b"other".to_vec()));
    let out = zip_without(&bytes, "", &vec![("docs".to_string(), true)]).unwrap();
    assert_eq!(zip_list_names(&out).unwrap(), vec!["top.txt", "other.txt"]);
    assert_eq!(zip_without(b"junk", "", &vec![]), None);
}

#[test]
fn writing_a_file_into_an_archive() {
    let members = vec![
        ("docs/".to_string(), Vec::new()),
        ("docs/readme.txt".to_string(), b"hello".to_vec()),
        ("top.txt".to_string(), b"top".to_vec()),
    ];
    let bytes = zip_create(&members).unwrap();
    assert_eq!(zip_entry_exists(&bytes, "docs", "readme.txt"), Some(true));
    assert_eq!(zip_entry_exists(&bytes, "", "docs"), Some(true));
    assert_eq!(zip_entry_exists(&bytes, "docs", "new.txt"), Some(false));
    assert_eq!(zip_entry_exists(b"junk", "", "a"), None);
    let out = zip_with_file(&bytes, "docs/", "new.txt", Vec::new()).unwrap();
    assert_eq!(zip_list_names(&out).unwrap(), vec!["docs/readme.txt", "top.txt", "docs/new.txt"]);
    assert_eq!(zip_read_file(&out, "docs", "new.txt"), Some(Vec::new()));
    let out = zip_with_file(&out, "", "top.txt", b"changed".to_vec()).unwrap();
    assert_eq!(zip_list_names(&out).unwrap(), vec!["docs/readme.txt", "docs/new.txt", "top.txt"]);
    assert_eq!(zip_read_file(&out, "", "top.txt"), Some(b"changed".to_vec()));
    assert_eq!(zip_with_file(b"junk", "", "a", Vec::new()), None);
}

#[test]
fn size_summary_for_the_bottom_bar() {
    let mut a = app();
    assert_eq!(format_bottom_bar_line(&a), None);
    a.size_info_dialog = Some(SizeInfoDialogState::Calculating {
        current_path: String::new(),
        total_bytes: 5,
        directories_scanned: 0,
        files_counted: 0,
    });
    assert_eq!(format_bottom_bar_line(&a), None);
    a.size_info_dialog = Some(SizeInfoDialogState::Done { total_bytes: 1234, file_count: 1, dir_count: 2 });
    assert_eq!(format_bottom_bar_line(&a), Some("Total: 1234 bytes (1 file, 2 dirs)".to_string()));
    a.size_info_dialog = Some(SizeInfoDialogState::Done { total_bytes: 0, file_count: 0, dir_count: 1 });
    assert_eq!(format_bottom_bar_line(&a), Some("Total: 0 bytes (1 dir)".to_string()));
    a.size_info_dialog = Some(SizeInfoDialogState::Done { total_bytes: 7, file_count: 0, dir_count: 0 });
    assert_eq!(format_bottom_bar_line(&a), Some("Total: 7 bytes".to_string()));
}

#[test]
fn text_fitted_with_an_ellipsis() {
    assert_eq!(truncate_str_ellipsis("short", 10), "short");
    assert_eq!(truncate_str_ellipsis("abcdefgh", 5), "abcd…");
    assert_eq!(truncate_str_ellipsis("abc", 0), "…");
}

#[test]
fn copy_flow_answers() {
    let mut f = CopyFlow::new();
    assert_eq!(next_step(&f, 3, false), CopyStep::Copy(0));
    assert_eq!(next_step(&f, 3, true), CopyStep::Ask(0));
    assert_eq!(apply_overwrite_choice(&mut f, 3), FlowAction::SkipCurrent);
    advance(&mut f);
    assert_eq!(apply_overwrite_choice(&mut f, 2), FlowAction::CopyCurrent);
    assert_eq!(next_step(&f, 3, true), CopyStep::Copy(1));
    let mut g = CopyFlow::new();
    assert_eq!(apply_overwrite_choice(&mut g, 4), FlowAction::SkipCurrent);
    assert_eq!(next_step(&g, 3, true), CopyStep::Skip(0));
    assert_eq!(next_step(&g, 3, false), CopyStep::Copy(0));
    assert_eq!(apply_overwrite_choice(&mut g, 5), FlowAction::Stop);
    assert_eq!(apply_error_choice(&mut g, CopyErrorChoice::IgnoreAll), FlowAction::SkipCurrent);
    assert!(g.ignore_errors);
    assert_eq!(apply_error_choice(&mut g, CopyErrorChoice::Cancel), FlowAction::Stop);
    advance(&mut g);
    advance(&mut g);
    advance(&mut g);
    assert_eq!(next_step(&g, 3, true), CopyStep::Done);
}

#[test]
fn settings_file_under_a_home_with_a_trailing_slash() {
    assert_eq!(oxide::settings::settings_path_in(Some("/home/u/".to_string())), Some("/home/u/.oxide/settings.json".to_string()));
    assert_eq!(oxide::file_ops::FileOperations::join_path("/home/u", "/docs/"), "/home/u/docs");
}

#[test]
fn find_patterns_with_alternatives_and_ignore() {
    assert!(find_dialog::file_pattern_matches("*.rs|*.toml", "Cargo.toml", true));
    assert!(find_dialog::file_pattern_matches("a*|b?", "bx", true));
    assert!(!find_dialog::file_pattern_matches("a*|b?", "bxy", true));
    assert!(find_dialog::file_pattern_matches("", "any", true));
    assert!(find_dialog::ignored_path("target*", "target/debug", true));
    assert!(!find_dialog::ignored_path("", "target", true));
    assert!(!find_dialog::ignored_path("target", "src/main.rs", true));
}

#[test]
fn grouped_results_keep_their_order() {
    let rows = build_display_rows(&[result("a/x"), result("a/y"), result("b/z")]);
    let texts: Vec<String> = rows.iter().map(row_text).collect();
    assert_eq!(texts, vec!["D a", "F a/x", "F a/y", "D b", "F b/z"]);
}
