//! "New file" dialog: one text field for the file name, Create and Cancel.
use vstd::prelude::*;

use crate::app_state::AppState;
use crate::events::AppAction;
use crate::keys::{KeyCode, KeyModifiers};
use crate::text_input::{TextInputState, SingleInputKeyResult, handle_single_input_key, single_input_outcome};

verus! {

pub struct NewFileDialogState {
    pub input: TextInputState,
    pub focus: usize,
}

pub fn open(app: &mut AppState)
    ensures
        final(app).new_file_dialog matches Some(d) && d.input.text@.len() == 0 && d.input.cursor == 0 && d.focus == 0,
        *final(app) == (AppState { new_file_dialog: final(app).new_file_dialog, ..*old(app) }),
{
    app.new_file_dialog = Some(NewFileDialogState { input: TextInputState::new(String::new()), focus: 0 });
}

pub fn cancel(app: &mut AppState)
    ensures
        *final(app) == (AppState { new_file_dialog: None, ..*old(app) }),
{
    app.new_file_dialog = None;
}

/// A key for the open "New file" dialog (see `single_input_outcome`): Confirm closes it and
/// hands over the entered name, Cancel closes it, anything else keeps it with the new field
/// and focus. `None` when the dialog is not open.
pub fn handle_key(app: &mut AppState, code: KeyCode, modifiers: KeyModifiers) -> (r: Option<AppAction>)
    requires
        old(app).new_file_dialog matches Some(d) ==> d.focus < 3 && d.input.cursor < usize::MAX,
    ensures
        match old(app).new_file_dialog {
            None => r is None && *final(app) == *old(app),
            Some(d) => {
                let o = single_input_outcome(d.input.text@, d.input.cursor as int, d.focus as int, code, modifiers.control);
                &&& *final(app) == (AppState { new_file_dialog: final(app).new_file_dialog, ..*old(app) })
                &&& match o.3 {
                    SingleInputKeyResult::Confirm => final(app).new_file_dialog is None
                        && (r matches Some(AppAction::NewFileConfirm(name)) && name@ == o.0),
                    SingleInputKeyResult::Cancel => final(app).new_file_dialog is None && r == Some(AppAction::NewFileCancel),
                    SingleInputKeyResult::Suspend => r == Some(AppAction::Suspend)
                        && (final(app).new_file_dialog matches Some(n) && n.input.text@ == o.0 && n.input.cursor == o.1 && n.focus == o.2),
                    SingleInputKeyResult::Continue => r == Some(AppAction::Continue)
                        && (final(app).new_file_dialog matches Some(n) && n.input.text@ == o.0 && n.input.cursor == o.1 && n.focus == o.2),
                }
            },
        },
{
    let d = match app.new_file_dialog.take() {
        Some(d) => d,
        None => return None,
    };
    let (input, focus, result) = handle_single_input_key(d.input, d.focus, code, modifiers);
    match result {
        SingleInputKeyResult::Confirm => {
            app.new_file_dialog = None;
            Some(AppAction::NewFileConfirm(input.text))
        },
        SingleInputKeyResult::Cancel => {
            app.new_file_dialog = None;
            Some(AppAction::NewFileCancel)
        },
        SingleInputKeyResult::Suspend => {
            app.new_file_dialog = Some(NewFileDialogState { input, focus });
            Some(AppAction::Suspend)
        },
        SingleInputKeyResult::Continue => {
            app.new_file_dialog = Some(NewFileDialogState { input, focus });
            Some(AppAction::Continue)
        },
    }
}

} // verus!
