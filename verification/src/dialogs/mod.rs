//! Modal dialogs: their state and the operations that open and close them.
pub mod actions_dialog;
pub mod archive_dialog;
pub mod error_detail_dialog;
pub mod help_dialog;
pub mod mkdir_dialog;
pub mod new_file_dialog;
pub mod panel_context_menu;
pub mod panel_overlay;
pub mod pattern_select_dialog;
pub mod rename_attr;
pub mod settings_dialog;
pub mod size_info_dialog;
