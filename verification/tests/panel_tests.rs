use oxide::file_ops::{FileInfo, FileOperations};
use oxide::panel::{Panel, PanelOperations, ViewMode};

fn listing() -> Vec<FileInfo> {
    vec![
        FileInfo::new("..".to_string(), true, false),
        FileInfo::new("a".to_string(), true, false),
        FileInfo::new("b".to_string(), false, false),
        FileInfo::new("c".to_string(), false, true),
    ]
}

fn single_column_panel() -> Panel {
    let mut p = Panel::new("/home/u".to_string(), listing());
    p.set_view_mode(ViewMode::SingleColumn);
    p
}

#[test]
fn new_panel_starts_at_top() {
    let p = Panel::new("/home/u".to_string(), listing());
    assert_eq!(p.get_selected_index(), 0);
    assert_eq!(p.get_scroll_offset(), 0);
    assert_eq!(p.get_current_dir(), "/home/u");
    assert_eq!(p.get_files().len(), 4);
    assert!(p.get_view_mode() == ViewMode::DoubleColumn);
}

#[test]
fn move_down_and_up_stay_in_listing() {
    let mut p = single_column_panel();
    p.move_down(10);
    p.move_down(10);
    p.move_down(10);
    assert_eq!(p.get_selected_index(), 3);
    p.move_down(10);
    assert_eq!(p.get_selected_index(), 3);
    p.move_up(10);
    assert_eq!(p.get_selected_index(), 2);
}

#[test]
fn single_column_scroll_follows_cursor() {
    let mut p = single_column_panel();
    p.move_down(2);
    p.move_down(2);
    assert_eq!(p.get_selected_index(), 2);
    assert_eq!(p.get_scroll_offset(), 1);
    p.move_up(2);
    p.move_up(2);
    assert_eq!(p.get_scroll_offset(), 0);
}

#[test]
fn page_down_and_up_clamp() {
    let mut p = single_column_panel();
    p.page_down(10);
    assert_eq!(p.get_selected_index(), 3);
    p.page_up(10);
    assert_eq!(p.get_selected_index(), 0);
}

#[test]
fn invert_selection_twice_restores_marks_and_skips_parent() {
    let mut p = single_column_panel();
    p.toggle_mark_and_move_next(10);
    assert!(!p.is_marked(0));
    p.invert_selection();
    assert!(!p.is_marked(0));
    assert!(p.is_marked(1) && p.is_marked(2) && p.is_marked(3));
    p.invert_selection();
    assert!(!p.is_marked(1) && !p.is_marked(2) && !p.is_marked(3));
}

#[test]
fn toggle_mark_moves_next() {
    let mut p = single_column_panel();
    p.move_down(10);
    p.toggle_mark_and_move_next(10);
    assert!(p.is_marked(1));
    assert_eq!(p.get_selected_index(), 2);
    p.toggle_mark_and_move_next(10);
    assert!(p.is_marked(2));
}

#[test]
fn names_to_copy_from_cursor_with_neighbors() {
    let mut p = single_column_panel();
    p.move_down(10);
    p.move_down(10);
    let (items, after, before) = p.get_names_to_copy_with_restore_neighbors();
    assert_eq!(items, vec![("b".to_string(), false)]);
    assert_eq!(after, Some("c".to_string()));
    assert_eq!(before, Some("a".to_string()));
}

#[test]
fn names_to_copy_on_parent_is_empty() {
    let p = single_column_panel();
    let (items, after, before) = p.get_names_to_copy_with_restore_neighbors();
    assert!(items.is_empty());
    assert_eq!(after, None);
    assert_eq!(before, None);
}

#[test]
fn names_to_copy_uses_marks_in_order() {
    let mut p = single_column_panel();
    p.move_down(10);
    p.toggle_mark_and_move_next(10);
    p.move_down(10);
    p.toggle_mark_and_move_next(10);
    let (items, after, before) = p.get_names_to_copy_with_restore_neighbors();
    assert_eq!(items, vec![("a".to_string(), true), ("c".to_string(), false)]);
    assert_eq!(after, Some("c".to_string()));
    assert_eq!(before, None);
}

#[test]
fn refresh_restores_selection_by_name() {
    let mut p = single_column_panel();
    let fresh = vec![
        FileInfo::new("..".to_string(), true, false),
        FileInfo::new("b".to_string(), false, false),
        FileInfo::new("z".to_string(), false, false),
    ];
    let ok = p.refresh_files_restore_selection(Some("z"), Some("b"), Some(10), Some(fresh));
    assert!(ok);
    assert_eq!(p.get_selected_index(), 2);
    let again = vec![
        FileInfo::new("..".to_string(), true, false),
        FileInfo::new("b".to_string(), false, false),
    ];
    assert!(p.refresh_files_restore_selection(Some("gone"), Some("b"), Some(10), Some(again)));
    assert_eq!(p.get_selected_index(), 1);
}

#[test]
fn refresh_failure_is_reported() {
    let mut p = single_column_panel();
    assert!(!p.refresh_files(None));
    assert!(!p.refresh_files_restore_selection(None, None, Some(10), None));
}

#[test]
fn set_selection_clamps_to_last() {
    let mut p = single_column_panel();
    p.set_selection(99, 10);
    assert_eq!(p.get_selected_index(), 3);
}

#[test]
fn enter_directory_joins_path() {
    let mut p = single_column_panel();
    p.move_down(10);
    assert_eq!(p.directory_to_enter(), Some("/home/u/a".to_string()));
    let inside = vec![FileInfo::new("..".to_string(), true, false), FileInfo::new("x".to_string(), false, false)];
    assert!(p.enter_directory(Some(inside)));
    assert_eq!(p.get_current_dir(), "/home/u/a");
    assert_eq!(p.get_selected_index(), 0);
}

#[test]
fn file_info_parent_and_join() {
    assert!(FileInfo::new("..".to_string(), true, false).is_parent_dir());
    assert!(!FileInfo::new("...".to_string(), true, false).is_parent_dir());
    assert_eq!(FileOperations::join_path("/tmp", "/x/"), "/tmp/x");
    assert_eq!(FileOperations::join_path("/tmp/", "y"), "/tmp/y");
}
