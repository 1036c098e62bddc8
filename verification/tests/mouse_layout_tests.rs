use oxide::app_state::{AppState, CopyParams, Focus, Operation};
use oxide::dialog_layout::{centered_dialog, centered_dialog_rect, dialog_content_rect};
use oxide::dialogs::error_detail_dialog;
use oxide::dialogs::mkdir_dialog::{self, mkdir_button_rects};
use oxide::dialogs::settings_dialog;
use oxide::dialogs::size_info_dialog::{abort_button_rect, dialog_rect};
use oxide::editor::{editor_confirm_option_rects, EditorConfirmChoice};
use oxide::events::{AppAction, CopyErrorChoice, DeleteConfirmChoice, EventHandler, MouseOutcome, PanelKeyOutcome};
use oxide::file_ops::FileInfo;
use oxide::keys::{KeyCode, KeyModifiers, MouseKind, Rect};
use oxide::panel::{Panel, PanelOperations};
use oxide::settings::{config_dir_in, settings_path_in};
use oxide::ui::Renderer;

const NO_MODS: KeyModifiers = KeyModifiers { control: false };

fn app() -> AppState {
    let files = vec![
        FileInfo::new("..".to_string(), true, false),
        FileInfo::new("a.txt".to_string(), false, false),
        FileInfo::new("b".to_string(), true, false),
        FileInfo::new("run.sh".to_string(), false, true),
    ];
    AppState::new(Panel::new("/l".to_string(), files), Panel::new("/r".to_string(), vec![]))
}

fn screen() -> Rect {
    Rect { x: 0, y: 0, width: 80, height: 24 }
}

fn tuple(r: Rect) -> (u16, u16, u16, u16) {
    (r.x, r.y, r.width, r.height)
}

fn detail_scroll(a: &AppState) -> usize {
    a.error_detail.as_ref().unwrap().scroll
}

#[test]
fn centered_boxes_and_their_content() {
    assert_eq!(tuple(centered_dialog_rect(screen(), 52, 9)), (14, 7, 52, 9));
    assert_eq!(tuple(dialog_content_rect(Rect { x: 14, y: 7, width: 52, height: 9 }, 2)), (17, 8, 46, 7));
    let (b, c) = centered_dialog(Rect { x: 0, y: 0, width: 3, height: 4 }, 52, 9);
    assert_eq!(tuple(b), (1, 0, 0, 9));
    assert_eq!(tuple(c), (2, 0, 0, 0));
}

#[test]
fn dialog_button_rectangles() {
    let (create, cancel) = mkdir_button_rects(screen()).unwrap();
    assert_eq!(tuple(create), (28, 13, 10, 1));
    assert_eq!(tuple(cancel), (42, 13, 10, 1));
    let rows = editor_confirm_option_rects(screen()).unwrap();
    assert_eq!(tuple(rows[0].0), (19, 10, 42, 1));
    assert_eq!(rows[0].1, EditorConfirmChoice::Save);
    assert_eq!(tuple(rows[2].0), (19, 12, 42, 1));
    assert_eq!(rows[2].1, EditorConfirmChoice::Cancel);
    assert_eq!(tuple(dialog_rect(screen())), (2, 7, 76, 10));
    assert_eq!(tuple(abort_button_rect(screen())), (35, 15, 10, 1));
    let (d, yes, no) = Renderer::operation_confirm_button_rects(screen(), false).unwrap();
    assert_eq!((tuple(d), tuple(yes), tuple(no)), ((10, 8, 60, 8), (13, 13, 27, 2), (40, 13, 27, 2)));
    let (d, yes, _) = Renderer::operation_confirm_button_rects(screen(), true).unwrap();
    assert_eq!((tuple(d), tuple(yes)), ((10, 6, 60, 11), (13, 14, 27, 2)));
    let (r, c) = Renderer::overwrite_dialog_layout(screen());
    assert_eq!((tuple(r), tuple(c)), ((13, 6, 54, 12), (16, 7, 48, 10)));
    let (r, c) = Renderer::error_dialog_layout(screen());
    assert_eq!((tuple(r), tuple(c)), ((14, 7, 52, 10), (17, 8, 46, 8)));
    assert_eq!(tuple(Renderer::new_file_error_ok_rect(screen()).unwrap()), (37, 13, 6, 1));
}

#[test]
fn clicks_on_dialog_choices() {
    let mut a = app();
    assert_eq!(EventHandler::dialog_mouse(&a, MouseKind::LeftDown, 30, 13, screen()), None);
    mkdir_dialog::open(&mut a);
    assert_eq!(EventHandler::dialog_mouse(&a, MouseKind::LeftDown, 30, 13, screen()), Some(AppAction::MkdirConfirm));
    assert_eq!(EventHandler::dialog_mouse(&a, MouseKind::LeftDown, 45, 13, screen()), Some(AppAction::MkdirCancel));
    assert_eq!(EventHandler::dialog_mouse(&a, MouseKind::RightDown, 30, 13, screen()), Some(AppAction::Continue));
    assert_eq!(EventHandler::dialog_mouse(&a, MouseKind::LeftDown, 0, 0, screen()), Some(AppAction::Continue));

    let mut a = app();
    a.copy_overwrite_dialog_open = true;
    assert_eq!(EventHandler::dialog_mouse(&a, MouseKind::LeftDown, 20, 9, screen()), Some(AppAction::CopyOverwriteChoice(1)));
    assert_eq!(EventHandler::dialog_mouse(&a, MouseKind::LeftDown, 20, 13, screen()), Some(AppAction::CopyOverwriteChoice(5)));
    assert_eq!(EventHandler::dialog_mouse(&a, MouseKind::LeftDown, 20, 14, screen()), Some(AppAction::Continue));

    let mut a = app();
    a.copy_error_dialog_open = true;
    assert_eq!(EventHandler::dialog_mouse(&a, MouseKind::LeftDown, 20, 11, screen()), Some(AppAction::CopyErrorChoice(CopyErrorChoice::Cancel)));
    assert_eq!(EventHandler::dialog_mouse(&a, MouseKind::LeftDown, 20, 12, screen()), Some(AppAction::CopyErrorChoice(CopyErrorChoice::IgnoreAll)));

    let mut a = app();
    a.editor_confirm_pending = true;
    assert_eq!(EventHandler::dialog_mouse(&a, MouseKind::LeftDown, 20, 11, screen()), Some(AppAction::EditorConfirmChoice(EditorConfirmChoice::Discard)));

    let mut a = app();
    settings_dialog::open(&mut a);
    assert_eq!(EventHandler::dialog_mouse(&a, MouseKind::MiddleDown, 1, 1, screen()), Some(AppAction::SettingsClose));
    assert_eq!(EventHandler::dialog_mouse(&a, MouseKind::ScrollUp, 1, 1, screen()), Some(AppAction::Continue));

    let mut a = app();
    let params = CopyParams {
        source_dir: "/l".to_string(),
        target_dir: "/r".to_string(),
        items: vec![("a.txt".to_string(), false)],
        restore_selection_after: None,
        restore_selection_before: None,
    };
    a.operation_confirm_pending = Some((Operation::Delete, params));
    assert_eq!(EventHandler::dialog_mouse(&a, MouseKind::LeftDown, 14, 13, screen()), Some(AppAction::DeleteConfirmChoice(DeleteConfirmChoice::Yes)));
    assert_eq!(EventHandler::dialog_mouse(&a, MouseKind::LeftDown, 41, 14, screen()), Some(AppAction::DeleteConfirmChoice(DeleteConfirmChoice::No)));
}

#[test]
fn mouse_events_on_the_panels() {
    let mut a = app();
    let r = EventHandler::handle_mouse_event(&mut a, MouseKind::ScrollDown, 5, 5, 80, 24, 10);
    assert!(matches!(r, MouseOutcome::Nothing));
    assert_eq!(a.left_panel.get_selected_index(), 1);
    a.focus = Focus::CommandLine;
    let r = EventHandler::handle_mouse_event(&mut a, MouseKind::LeftDown, 5, 3, 80, 24, 10);
    assert!(matches!(r, MouseOutcome::Selected(0, 2)));
    assert_eq!(a.left_panel.get_selected_index(), 2);
    assert!(a.focus == Focus::Panel);
    assert!(matches!(EventHandler::double_click_outcome(&a), PanelKeyOutcome::EnterDirectory));
    let r = EventHandler::handle_mouse_event(&mut a, MouseKind::LeftDown, 5, 4, 80, 24, 10);
    assert!(matches!(r, MouseOutcome::Selected(0, 3)));
    match EventHandler::double_click_outcome(&a) {
        PanelKeyOutcome::Action(AppAction::RunCommand(cmd)) => assert_eq!(cmd, "./run.sh"),
        _ => panic!("expected a command"),
    }
    EventHandler::handle_mouse_event(&mut a, MouseKind::ScrollUp, 5, 5, 80, 24, 10);
    EventHandler::handle_mouse_event(&mut a, MouseKind::ScrollUp, 5, 5, 80, 24, 10);
    assert!(matches!(EventHandler::double_click_outcome(&a), PanelKeyOutcome::Action(AppAction::Continue)));
    // A row past the listing selects nothing.
    assert!(matches!(EventHandler::handle_mouse_event(&mut a, MouseKind::LeftDown, 5, 10, 80, 24, 10), MouseOutcome::Nothing));
    // The bottom row is the menu bar: its first slot opens the settings.
    let r = EventHandler::handle_mouse_event(&mut a, MouseKind::LeftDown, 0, 23, 80, 24, 10);
    assert!(matches!(r, MouseOutcome::Action(AppAction::OpenSettingsDialog)));
    // With a dialog open, the dialog takes the click.
    mkdir_dialog::open(&mut a);
    let r = EventHandler::handle_mouse_event(&mut a, MouseKind::LeftDown, 30, 13, 80, 24, 10);
    assert!(matches!(r, MouseOutcome::Action(AppAction::MkdirConfirm)));
}

#[test]
fn error_detail_scrolls_and_closes() {
    let mut a = app();
    assert_eq!(error_detail_dialog::handle_key(&mut a, KeyCode::Down, NO_MODS, screen()), None);
    let body: Vec<String> = (0..40).map(|i| format!("line {}", i)).collect();
    error_detail_dialog::open(&mut a, "Error".to_string(), body.join("\n"));
    assert_eq!(error_detail_dialog::handle_key(&mut a, KeyCode::Down, NO_MODS, screen()), Some(AppAction::Continue));
    assert_eq!(detail_scroll(&a), 1);
    error_detail_dialog::handle_key(&mut a, KeyCode::End, NO_MODS, screen());
    assert_eq!(detail_scroll(&a), 23);
    assert_eq!(error_detail_dialog::handle_key(&mut a, KeyCode::Char('x'), NO_MODS, screen()), None);
    assert_eq!(error_detail_dialog::handle_key(&mut a, KeyCode::Enter, NO_MODS, screen()), Some(AppAction::ErrorDetailClose));
    assert_eq!(error_detail_dialog::handle_key(&mut a, KeyCode::Char('q'), NO_MODS, screen()), Some(AppAction::ErrorDetailClose));
    assert_eq!(error_detail_dialog::handle_mouse(&mut a, MouseKind::LeftDown, 75, 3, screen()), Some(AppAction::Continue));
    assert_eq!(detail_scroll(&a), 0);
    assert_eq!(error_detail_dialog::handle_mouse(&mut a, MouseKind::LeftDown, 75, 19, screen()), Some(AppAction::Continue));
    assert_eq!(detail_scroll(&a), 23);
    error_detail_dialog::handle_mouse(&mut a, MouseKind::ScrollUp, 10, 10, screen());
    assert_eq!(detail_scroll(&a), 20);
    assert_eq!(error_detail_dialog::handle_mouse(&mut a, MouseKind::LeftDown, 0, 0, screen()), Some(AppAction::ErrorDetailClose));
}

#[test]
fn configuration_paths_under_a_home() {
    assert_eq!(config_dir_in(Some("/home/u".to_string())), Some("/home/u/.oxide".to_string()));
    assert_eq!(config_dir_in(None), None);
    assert_eq!(settings_path_in(Some("/home/u".to_string())), Some("/home/u/.oxide/settings.json".to_string()));
}
