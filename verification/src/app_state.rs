//! The application state that key handling and dialogs act on: the two panels, which one is
//! active, where keyboard focus is, and the open dialogs.
use vstd::prelude::*;

use crate::dialogs::actions_dialog::ActionsDialogState;
use crate::dialogs::archive_dialog::ArchiveDialogState;
use crate::dialogs::error_detail_dialog::ErrorDetailState;
use crate::dialogs::help_dialog::HelpDialogState;
use crate::dialogs::mkdir_dialog::MkdirDialogState;
use crate::dialogs::new_file_dialog::NewFileDialogState;
use crate::dialogs::panel_context_menu::PanelContextMenuState;
use crate::dialogs::panel_overlay::PanelSettingsOverlayState;
use crate::dialogs::pattern_select_dialog::PatternSelectDialogState;
use crate::dialogs::rename_attr::RenameAttrDialogState;
use crate::dialogs::settings_dialog::SettingsDialogState;
use crate::dialogs::size_info_dialog::SizeInfoDialogState;
use crate::find_dialog::FindDialogState;
use crate::panel::{Panel, PanelOperations, PanelView};
use crate::text_input::TextInputState;

verus! {

/// What a copy, move or delete acts on: source and target directories, the items (name, is
/// directory), and the names to reselect afterwards.
#[derive(Debug, Clone, PartialEq, Eq)]
pub struct CopyParams {
    pub source_dir: String,
    pub target_dir: String,
    pub items: Vec<(String, bool)>,
    pub restore_selection_after: Option<String>,
    pub restore_selection_before: Option<String>,
}

/// The group operation awaiting confirmation.
#[derive(Debug, Clone, Copy, PartialEq, Eq, Structural)]
pub enum Operation {
    Copy,
    Move,
    Delete,
}

/// Where keyboard input goes.
#[derive(Clone, Copy, PartialEq, Eq, Structural)]
pub enum Focus {
    Panel,
    CommandLine,
    FindDialog,
}

pub struct AppState {
    pub focus: Focus,
    pub left_panel: Panel,
    pub right_panel: Panel,
    /// 0 = left, 1 = right.
    pub active_panel: usize,
    pub find_dialog: Option<FindDialogState>,
    /// A Find file search is running and its messages are still being read.
    pub find_search_running: bool,
    /// The command line under the panels.
    pub command_line: TextInputState,
    /// The editor's "Save changes?" dialog is open; focused option 0 = Save, 1 = Discard, 2 = Cancel.
    pub editor_confirm_pending: bool,
    pub editor_confirm_focus: usize,
    /// The "file exists" dialog of a copy is open; focused option 0..4.
    pub copy_overwrite_dialog_open: bool,
    pub copy_overwrite_focus: usize,
    /// A copy, move or delete waiting for "Are you sure?"; whether Yes has the focus.
    pub operation_confirm_pending: Option<(Operation, CopyParams)>,
    pub operation_confirm_focus_yes: bool,
    /// The copy error dialog is open; focused option 0 = Ignore, 1 = Cancel, 2 = Ignore all.
    pub copy_error_dialog_open: bool,
    pub copy_error_focus: usize,
    /// A copy is running.
    pub copy_in_progress: bool,
    pub actions_dialog: Option<ActionsDialogState>,
    pub archive_dialog: Option<ArchiveDialogState>,
    pub error_detail: Option<ErrorDetailState>,
    pub help_dialog: Option<HelpDialogState>,
    pub mkdir_dialog: Option<MkdirDialogState>,
    pub new_file_dialog: Option<NewFileDialogState>,
    pub left_panel_settings_overlay: Option<PanelSettingsOverlayState>,
    pub right_panel_settings_overlay: Option<PanelSettingsOverlayState>,
    pub pattern_select_dialog: Option<PatternSelectDialogState>,
    /// The pattern last used to mark or unmark files.
    pub last_file_name_pattern: String,
    pub rename_attr_dialog: Option<RenameAttrDialogState>,
    /// Error of the last F2 apply, shown as an alert over the dialog.
    pub rename_attr_error: Option<String>,
    pub settings_dialog: Option<SettingsDialogState>,
    pub size_info_dialog: Option<SizeInfoDialogState>,
    /// The right-click menu over the panels.
    pub panel_context_menu: Option<PanelContextMenuState>,
}

impl AppState {
    /// The state at start: the two panels, the left one active with the keyboard, an empty
    /// command line, nothing running and no dialog open.
    pub fn new(left_panel: Panel, right_panel: Panel) -> (r: Self)
        ensures
            r.left_panel == left_panel,
            r.right_panel == right_panel,
            r.active_panel == 0,
            r.focus == Focus::Panel,
            r.command_line.text@.len() == 0 && r.command_line.cursor == 0,
            r.find_dialog is None && !r.find_search_running,
            !r.editor_confirm_pending && r.editor_confirm_focus == 0,
            !r.copy_overwrite_dialog_open && r.copy_overwrite_focus == 0,
            r.operation_confirm_pending is None && r.operation_confirm_focus_yes,
            !r.copy_error_dialog_open && r.copy_error_focus == 0 && !r.copy_in_progress,
            r.actions_dialog is None && r.archive_dialog is None && r.error_detail is None,
            r.help_dialog is None && r.mkdir_dialog is None && r.new_file_dialog is None,
            r.left_panel_settings_overlay is None && r.right_panel_settings_overlay is None,
            r.pattern_select_dialog is None && r.last_file_name_pattern@.len() == 0,
            r.rename_attr_dialog is None && r.rename_attr_error is None,
            r.settings_dialog is None && r.size_info_dialog is None,
            r.panel_context_menu is None,
    {
        AppState {
            focus: Focus::Panel,
            left_panel,
            right_panel,
            active_panel: 0,
            find_dialog: None,
            find_search_running: false,
            command_line: TextInputState::new(String::new()),
            editor_confirm_pending: false,
            editor_confirm_focus: 0,
            copy_overwrite_dialog_open: false,
            copy_overwrite_focus: 0,
            operation_confirm_pending: None,
            operation_confirm_focus_yes: true,
            copy_error_dialog_open: false,
            copy_error_focus: 0,
            copy_in_progress: false,
            actions_dialog: None,
            archive_dialog: None,
            error_detail: None,
            help_dialog: None,
            mkdir_dialog: None,
            new_file_dialog: None,
            left_panel_settings_overlay: None,
            right_panel_settings_overlay: None,
            pattern_select_dialog: None,
            last_file_name_pattern: String::new(),
            rename_attr_dialog: None,
            rename_attr_error: None,
            settings_dialog: None,
            size_info_dialog: None,
            panel_context_menu: None,
        }
    }

    /// Both panels are well formed and one of them is active.
    pub open spec fn wf(&self) -> bool {
        &&& self.left_panel@.wf()
        &&& self.right_panel@.wf()
        &&& self.active_panel < 2
    }

    pub open spec fn opposite_view(&self) -> PanelView {
        if self.active_panel == 0 { self.right_panel@ } else { self.left_panel@ }
    }

    /// The current directory of the panel that is not active.
    pub fn get_opposite_panel_dir(&self) -> (r: &str)
        ensures
            r@ == self.opposite_view().dir,
    {
        if self.active_panel == 0 { self.right_panel.get_current_dir() } else { self.left_panel.get_current_dir() }
    }

    pub open spec fn active_view(&self) -> PanelView {
        if self.active_panel == 0 { self.left_panel@ } else { self.right_panel@ }
    }

    pub fn active_panel_ref(&self) -> (r: &Panel)
        ensures
            r@ == self.active_view(),
    {
        if self.active_panel == 0 { &self.left_panel } else { &self.right_panel }
    }

    /// The current directory of the active panel.
    pub fn get_current_dir(&self) -> (r: &str)
        ensures
            r@ == self.active_view().dir,
    {
        self.active_panel_ref().get_current_dir()
    }
}

} // verus!
