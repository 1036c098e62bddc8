//! Verified core of a dual-panel terminal file manager: panel navigation and marking,
//! single-line text input, Find-file matching and result grouping, dialog state, and the
//! pure decisions behind key and mouse handling.
pub mod app_state;
pub mod copy_flow;
pub mod dialog_layout;
pub mod dialogs;
pub mod editor;
pub mod events;
pub mod file_ops;
pub mod find_dialog;
pub mod keys;
pub mod strutil;
pub mod subshell;
pub mod panel;
pub mod panel_backend;
pub mod root_probe;
pub mod settings;
pub mod text_input;
pub mod ui;
