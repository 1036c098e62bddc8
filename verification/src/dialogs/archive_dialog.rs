//! "Archive" dialog: one text field for the archive name, Create and Cancel.
use vstd::prelude::*;

use crate::app_state::AppState;
use crate::events::AppAction;
use crate::keys::{KeyCode, KeyModifiers};
use crate::text_input::{TextInputState, SingleInputKeyResult, handle_single_input_key, single_input_outcome};

verus! {

pub struct ArchiveDialogState {
    pub input: TextInputState,
    pub focus: usize,
}

/// Opens the dialog with an empty name field focused.
pub fn open(app: &mut AppState)
    ensures
        final(app).archive_dialog matches Some(d) && d.input.text@.len() == 0 && d.input.cursor == 0 && d.focus == 0,
        *final(app) == (AppState { archive_dialog: final(app).archive_dialog, ..*old(app) }),
{
    app.archive_dialog = Some(ArchiveDialogState { input: TextInputState::new(String::new()), focus: 0 });
}

pub fn cancel(app: &mut AppState)
    ensures
        *final(app) == (AppState { archive_dialog: None, ..*old(app) }),
{
    app.archive_dialog = None;
}

/// Closes the dialog and returns the entered name (`None` when it was not open).
pub fn confirm(app: &mut AppState) -> (r: Option<String>)
    ensures
        match old(app).archive_dialog {
            Some(d) => r matches Some(name) && name@ == d.input.text@,
            None => r is None,
        },
        *final(app) == (AppState { archive_dialog: None, ..*old(app) }),
{
    match app.archive_dialog.take() {
        Some(d) => Some(d.input.text),
        None => None,
    }
}

impl ArchiveDialogState {
    /// A key for the dialog (see `single_input_outcome`): Confirm and Cancel close it, anything
    /// else keeps it with the new field and focus.
    pub fn handle_key(self, code: KeyCode, modifiers: KeyModifiers) -> (r: (Option<Self>, AppAction))
        requires
            self.focus < 3,
            self.input.cursor < usize::MAX,
        ensures
            ({
                let o = single_input_outcome(self.input.text@, self.input.cursor as int, self.focus as int, code, modifiers.control);
                match o.3 {
                    SingleInputKeyResult::Confirm => r.0 is None && r.1 == AppAction::ArchiveConfirm,
                    SingleInputKeyResult::Cancel => r.0 is None && r.1 == AppAction::ArchiveCancel,
                    SingleInputKeyResult::Suspend => r.1 == AppAction::Suspend
                        && (r.0 matches Some(n) && n.input.text@ == o.0 && n.input.cursor == o.1 && n.focus == o.2),
                    SingleInputKeyResult::Continue => r.1 == AppAction::Continue
                        && (r.0 matches Some(n) && n.input.text@ == o.0 && n.input.cursor == o.1 && n.focus == o.2),
                }
            }),
    {
        let (input, focus, result) = handle_single_input_key(self.input, self.focus, code, modifiers);
        match result {
            SingleInputKeyResult::Confirm => (None, AppAction::ArchiveConfirm),
            SingleInputKeyResult::Cancel => (None, AppAction::ArchiveCancel),
            SingleInputKeyResult::Suspend => (Some(ArchiveDialogState { input, focus }), AppAction::Suspend),
            SingleInputKeyResult::Continue => (Some(ArchiveDialogState { input, focus }), AppAction::Continue),
        }
    }
}

/// A key for the open "Archive" dialog: the dialog is replaced by what `handle_key` of its
/// state gives and that action is returned; `None` when the dialog is not open.
pub fn handle_key(app: &mut AppState, code: KeyCode, modifiers: KeyModifiers) -> (r: Option<AppAction>)
    requires
        old(app).archive_dialog matches Some(d) ==> d.focus < 3 && d.input.cursor < usize::MAX,
    ensures
        match old(app).archive_dialog {
            None => r is None && *final(app) == *old(app),
            Some(d) => {
                let o = single_input_outcome(d.input.text@, d.input.cursor as int, d.focus as int, code, modifiers.control);
                &&& *final(app) == (AppState { archive_dialog: final(app).archive_dialog, ..*old(app) })
                &&& match o.3 {
                    SingleInputKeyResult::Confirm => final(app).archive_dialog is None && r == Some(AppAction::ArchiveConfirm),
                    SingleInputKeyResult::Cancel => final(app).archive_dialog is None && r == Some(AppAction::ArchiveCancel),
                    SingleInputKeyResult::Suspend => r == Some(AppAction::Suspend)
                        && (final(app).archive_dialog matches Some(n) && n.input.text@ == o.0 && n.input.cursor == o.1 && n.focus == o.2),
                    SingleInputKeyResult::Continue => r == Some(AppAction::Continue)
                        && (final(app).archive_dialog matches Some(n) && n.input.text@ == o.0 && n.input.cursor == o.1 && n.focus == o.2),
                }
            },
        },
{
    let d = match app.archive_dialog.take() {
        Some(d) => d,
        None => return None,
    };
    let (new_dialog, action) = d.handle_key(code, modifiers);
    app.archive_dialog = new_dialog;
    Some(action)
}

} // verus!
