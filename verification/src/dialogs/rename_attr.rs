//! F2 "Rename / Attributes" dialog: name (single file), twelve permission checkboxes, owner and
//! group lists.
use vstd::prelude::*;

use crate::app_state::AppState;
use crate::panel::{PanelOperations, PanelView, copy_selection, items_view};
use crate::strutil::{split_char, split_on, strings_view};
use crate::file_ops::{path_join, path_join_of};
use crate::strutil::{str_eq, str_trim, trim_end_char, trim_end_spec, trim_of};
use crate::events::AppAction;
use crate::keys::{KeyCode, KeyModifiers};
use crate::text_input::{
    TextInputState, is_printable_ascii, normalize_key, printable_ascii, text_after_backspace,
    text_after_insert, text_after_insert_str,
};

verus! {

/// Which part of the dialog has the focus.
#[derive(Clone, Copy, PartialEq, Eq, Structural)]
pub enum RenameAttrField {
    Name,
    Permissions,
    User,
    Group,
}

pub enum RenameAttrDialogState {
    Single {
        name_input: TextInputState,
        /// Unix mode bits (0o7777: setuid, setgid, sticky + rwx).
        mode: u32,
        /// Index into the twelve permission checkboxes.
        perm_focus: usize,
        owner: String,
        group: String,
        user_list: Vec<String>,
        group_list: Vec<String>,
        user_index: usize,
        group_index: usize,
        old_name: String,
        focus: RenameAttrField,
    },
    Group {
        count: usize,
        mode: u32,
        perm_focus: usize,
        owner: String,
        group: String,
        user_list: Vec<String>,
        group_list: Vec<String>,
        user_index: usize,
        group_index: usize,
        items: Vec<(String, bool)>,
        /// Entry under the cursor when the dialog opened; reselected after applying.
        current_name: String,
        focus: RenameAttrField,
    },
}

/// Mode bits kept from a file's mode: setuid, setgid, sticky and the rwx bits.
pub const MODE_MASK: u32 = 0o7777;

/// Mode assumed when the file's mode cannot be read.
pub const DEFAULT_MODE: u32 = 0o644;

/// The first index from `k` on where `list` holds `name`.
pub open spec fn position_from(list: Seq<Seq<char>>, name: Seq<char>, k: int) -> Option<int>
    decreases list.len() - k,
{
    if k < 0 || k >= list.len() {
        None
    } else if list[k] == name {
        Some(k)
    } else {
        position_from(list, name, k + 1)
    }
}

/// The list offered for an owner (or group) and the index selected in it: the first entry when
/// `name` is empty; the entry `name` when listed; else `name` put in front of the list (as for a
/// numeric id that has no name) and selected.
pub open spec fn chooser(list: Seq<Seq<char>>, name: Seq<char>) -> (int, Seq<Seq<char>>) {
    if name.len() == 0 {
        (0, list)
    } else {
        match position_from(list, name, 0) {
            Some(i) => (i, list),
            None => (0, seq![name] + list),
        }
    }
}

/// The mode the dialog starts with: the file's mode (the default when it could not be read)
/// restricted to the permission bits.
pub open spec fn start_mode(file_mode: Option<u32>) -> u32 {
    (match file_mode {
        Some(m) => m,
        None => DEFAULT_MODE,
    }) & MODE_MASK
}

/// The dialog `d` is the one opened for the selection of panel `v`: for one item, its name
/// (trailing '/' removed) to edit, with the focus on the name; for several, the items, how many
/// there are and the name under the cursor to reselect later, with the focus on the
/// permissions. Both start with the mode of the first item, the first checkbox focused, and the
/// user and group lists chosen for `owner` and `group` (see `chooser`).
pub open spec fn opened_dialog(
    d: RenameAttrDialogState,
    v: PanelView,
    file_mode: Option<u32>,
    owner: Seq<char>,
    group: Seq<char>,
    users: Seq<Seq<char>>,
    groups: Seq<Seq<char>>,
) -> bool {
    let items = copy_selection(v).0;
    let first = trim_end_spec(items[0].0, '/');
    let (ui, ul) = chooser(users, owner);
    let (gi, gl) = chooser(groups, group);
    if items.len() == 1 {
        d matches RenameAttrDialogState::Single {
            name_input, mode, perm_focus, owner: o, group: g, user_list, group_list, user_index,
            group_index, old_name, focus,
        } && {
            &&& name_input.text@ == first && name_input.cursor == first.len() && old_name@ == first
            &&& mode == start_mode(file_mode) && perm_focus == 0 && focus == RenameAttrField::Name
            &&& o@ == owner && g@ == group
            &&& strings_view(user_list@) == ul && user_index == ui
            &&& strings_view(group_list@) == gl && group_index == gi
        }
    } else {
        d matches RenameAttrDialogState::Group {
            count, mode, perm_focus, owner: o, group: g, user_list, group_list, user_index,
            group_index, items: its, current_name, focus,
        } && {
            &&& count == items.len() && items_view(its@) == items
            &&& current_name@ == (if 0 <= v.sel < v.len() { trim_end_spec(v.files[v.sel].name@, '/') } else { first })
            &&& mode == start_mode(file_mode) && perm_focus == 0 && focus == RenameAttrField::Permissions
            &&& o@ == owner && g@ == group
            &&& strings_view(user_list@) == ul && user_index == ui
            &&& strings_view(group_list@) == gl && group_index == gi
        }
    }
}

/// Opens the F2 dialog for the active panel's selection (see `opened_dialog`); nothing happens
/// when nothing is selected. `file_mode` is the first item's mode as read (`None` when it could
/// not be), `owner` and `group` its owner and group names (empty when unknown), and
/// `user_list` and `group_list` the users and groups of the system.
pub fn open(
    app: &mut AppState,
    file_mode: Option<u32>,
    owner: String,
    group: String,
    user_list: Vec<String>,
    group_list: Vec<String>,
)
    requires
        old(app).wf(),
    ensures
        if copy_selection(old(app).active_view()).0.len() == 0 {
            *final(app) == *old(app)
        } else {
            &&& *final(app) == (AppState { rename_attr_dialog: final(app).rename_attr_dialog, ..*old(app) })
            &&& final(app).rename_attr_dialog matches Some(d) && opened_dialog(
                d,
                old(app).active_view(),
                file_mode,
                owner@,
                group@,
                strings_view(user_list@),
                strings_view(group_list@),
            )
        },
{
    let (items, _, _) = app.active_panel_ref().get_names_to_copy_with_restore_neighbors();
    if items.len() == 0 {
        return;
    }
    let mode = (match file_mode {
        Some(m) => m,
        None => DEFAULT_MODE,
    }) & MODE_MASK;
    let (user_index, user_list) = list_choice(user_list, &owner);
    let (group_index, group_list) = list_choice(group_list, &group);
    let first_name = trim_end_char(items[0].0.as_str(), '/').to_owned();
    proof {
        assert(items@[0].0@ == items_view(items@)[0].0);
    }
    if items.len() == 1 {
        app.rename_attr_dialog = Some(RenameAttrDialogState::Single {
            name_input: TextInputState::new(first_name.clone()),
            mode,
            perm_focus: 0,
            owner,
            group,
            user_list,
            group_list,
            user_index,
            group_index,
            old_name: first_name,
            focus: RenameAttrField::Name,
        });
    } else {
        let current_name = match app.active_panel_ref().get_selected_file() {
            Some(f) => trim_end_char(f.name.as_str(), '/').to_owned(),
            None => first_name,
        };
        let count = items.len();
        app.rename_attr_dialog = Some(RenameAttrDialogState::Group {
            count,
            mode,
            perm_focus: 0,
            owner,
            group,
            user_list,
            group_list,
            user_index,
            group_index,
            items,
            current_name,
            focus: RenameAttrField::Permissions,
        });
    }
}

/// The list offered for `name` and the index selected in it (see `chooser`).
fn list_choice(list: Vec<String>, name: &String) -> (r: (usize, Vec<String>))
    ensures
        (r.0 as int, strings_view(r.1@)) == chooser(strings_view(list@), name@),
{
    let ghost sv = strings_view(list@);
    if name.as_str().unicode_len() == 0 {
        return (0, list);
    }
    let mut i: usize = 0;
    while i < list.len()
        invariant
            i <= list@.len(),
            name@.len() != 0,
            sv == strings_view(list@),
            position_from(sv, name@, 0) == position_from(sv, name@, i as int),
        decreases list@.len() - i,
    {
        assert(sv.len() == list@.len());
        assert(sv[i as int] == list@[i as int]@);
        if str_eq(list[i].as_str(), name.as_str()) {
            return (i, list);
        }
        i = i + 1;
    }
    let mut l = list;
    l.insert(0, name.clone());
    proof {
        assert(strings_view(l@) =~= seq![name@] + sv);
    }
    (0, l)
}

/// Number of permission checkboxes.
pub const PERM_COUNT: usize = 12;

/// The mode bit of checkbox `i`, top to bottom: setuid, setgid, sticky, then read, write and
/// execute for owner, group and others.
pub open spec fn perm_bit(i: int) -> u32 {
    seq![0o4000u32, 0o2000u32, 0o1000u32, 0o400u32, 0o200u32, 0o100u32, 0o40u32, 0o20u32, 0o10u32, 0o4u32, 0o2u32, 0o1u32][i]
}

fn perm_bit_exec(i: usize) -> (r: u32)
    requires
        i < PERM_COUNT,
    ensures
        r == perm_bit(i as int),
{
    let bits: Vec<u32> = vec![0o4000, 0o2000, 0o1000, 0o400, 0o200, 0o100, 0o40, 0o20, 0o10, 0o4, 0o2, 0o1];
    proof {
        assert(bits@ =~= seq![0o4000u32, 0o2000u32, 0o1000u32, 0o400u32, 0o200u32, 0o100u32, 0o40u32, 0o20u32, 0o10u32, 0o4u32, 0o2u32, 0o1u32]);
    }
    bits[i]
}

/// The fields of the dialog that keys change: the name being edited (empty for several items)
/// and its cursor, the mode, the focused checkbox, the selected user and group, and the focus.
pub struct AttrFields {
    pub text: Seq<char>,
    pub cursor: int,
    pub mode: u32,
    pub perm_focus: int,
    pub user_index: int,
    pub group_index: int,
    pub focus: RenameAttrField,
}

impl RenameAttrDialogState {
    pub open spec fn fields(self) -> AttrFields {
        match self {
            RenameAttrDialogState::Single { name_input, mode, perm_focus, user_index, group_index, focus, .. } => AttrFields {
                text: name_input.text@,
                cursor: name_input.cursor as int,
                mode,
                perm_focus: perm_focus as int,
                user_index: user_index as int,
                group_index: group_index as int,
                focus,
            },
            RenameAttrDialogState::Group { mode, perm_focus, user_index, group_index, focus, .. } => AttrFields {
                text: Seq::empty(),
                cursor: 0,
                mode,
                perm_focus: perm_focus as int,
                user_index: user_index as int,
                group_index: group_index as int,
                focus,
            },
        }
    }

    pub open spec fn user_count(self) -> int {
        match self {
            RenameAttrDialogState::Single { user_list, .. } => user_list@.len() as int,
            RenameAttrDialogState::Group { user_list, .. } => user_list@.len() as int,
        }
    }

    pub open spec fn group_count(self) -> int {
        match self {
            RenameAttrDialogState::Single { group_list, .. } => group_list@.len() as int,
            RenameAttrDialogState::Group { group_list, .. } => group_list@.len() as int,
        }
    }

    /// The counters that keys step stay below the largest index, so that stepping cannot
    /// overflow.
    pub open spec fn keys_fit(self) -> bool {
        let f = self.fields();
        &&& f.perm_focus < usize::MAX
        &&& f.user_index < usize::MAX
        &&& f.group_index < usize::MAX
        &&& f.cursor < usize::MAX
    }
}

/// `e` is `d` with the key-changed fields `f` and everything else as it was.
pub open spec fn dialog_with(d: RenameAttrDialogState, e: RenameAttrDialogState, f: AttrFields) -> bool {
    match d {
        RenameAttrDialogState::Single { owner, group, user_list, group_list, old_name, .. } => e matches RenameAttrDialogState::Single {
            name_input: ni, mode: m, perm_focus: pf, owner: o, group: g, user_list: ul, group_list: gl,
            user_index: ui, group_index: gi, old_name: on, focus: fo,
        } && {
            &&& ni.text@ == f.text && ni.cursor == f.cursor && m == f.mode && pf == f.perm_focus
            &&& ui == f.user_index && gi == f.group_index && fo == f.focus
            &&& o == owner && g == group && ul == user_list && gl == group_list && on == old_name
        },
        RenameAttrDialogState::Group { count, owner, group, user_list, group_list, items, current_name, .. } => e matches RenameAttrDialogState::Group {
            count: c, mode: m, perm_focus: pf, owner: o, group: g, user_list: ul, group_list: gl,
            user_index: ui, group_index: gi, items: its, current_name: cn, focus: fo,
        } && {
            &&& m == f.mode && pf == f.perm_focus && ui == f.user_index && gi == f.group_index && fo == f.focus
            &&& c == count && o == owner && g == group && ul == user_list && gl == group_list
            &&& its == items && cn == current_name
        },
    }
}

/// The part that Tab moves to: name, permissions, user, group and round again for one item;
/// permissions, user, group for several.
pub open spec fn next_field(single: bool, f: RenameAttrField) -> RenameAttrField {
    if single {
        match f {
            RenameAttrField::Name => RenameAttrField::Permissions,
            RenameAttrField::Permissions => RenameAttrField::User,
            RenameAttrField::User => RenameAttrField::Group,
            RenameAttrField::Group => RenameAttrField::Name,
        }
    } else {
        match f {
            RenameAttrField::Permissions => RenameAttrField::User,
            RenameAttrField::User => RenameAttrField::Group,
            RenameAttrField::Group => RenameAttrField::Permissions,
            RenameAttrField::Name => RenameAttrField::Permissions,
        }
    }
}

pub open spec fn sat_dec(x: int) -> int {
    if x >= 1 { x - 1 } else { 0 }
}

pub open spec fn min_i(a: int, b: int) -> int {
    if a <= b { a } else { b }
}

/// Effect of a key on the dialog's fields: the new fields, the answer, and whether the dialog
/// stays open. `single` tells one item (with an editable name) from several; `users` and
/// `groups` are the lengths of the two lists.
/// - Tab moves the focus (see `next_field`); Enter confirms; Esc cancels.
/// - Control-V on the name asks for a paste, Control-C copies a non-empty name or else cancels
///   and closes the dialog, Control-A on a non-empty name does nothing, Control-O suspends to
///   the shell; other control keys count as the plain key.
/// - Space toggles the focused checkbox on the permissions, and confirms elsewhere.
/// - On the name, printable ASCII is typed in, Backspace deletes, Left/Right/Home/End move.
/// - Up and Down move within the checkboxes or the user or group list, staying inside it.
pub open spec fn attr_key_outcome(single: bool, s: AttrFields, users: int, groups: int, code: KeyCode, control: bool) -> (AttrFields, AppAction, bool) {
    let named = single && s.focus == RenameAttrField::Name;
    let cont = (s, AppAction::Continue, true);
    match normalize_key(code) {
        KeyCode::Tab => (AttrFields { focus: next_field(single, s.focus), ..s }, AppAction::Continue, true),
        KeyCode::Char(c) => if control && c == 'v' && named {
            (s, AppAction::RenameAttrPaste, true)
        } else if control && c == 'c' {
            if named && s.text.len() > 0 {
                (s, AppAction::RenameAttrCopy, true)
            } else {
                (s, AppAction::RenameAttrCancel, false)
            }
        } else if control && c == 'a' && named && s.text.len() > 0 {
            cont
        } else if control && c == 'o' {
            (s, AppAction::Suspend, true)
        } else if c == ' ' {
            if s.focus == RenameAttrField::Permissions {
                let m = if 0 <= s.perm_focus < PERM_COUNT { s.mode ^ perm_bit(s.perm_focus) } else { s.mode };
                (AttrFields { mode: m, ..s }, AppAction::Continue, true)
            } else {
                (s, AppAction::RenameAttrConfirm, true)
            }
        } else if printable_ascii(c) && named {
            (AttrFields { text: text_after_insert(s.text, s.cursor, c), cursor: s.cursor + 1, ..s }, AppAction::Continue, true)
        } else {
            cont
        },
        KeyCode::Backspace => if named {
            (AttrFields { text: text_after_backspace(s.text, s.cursor), cursor: sat_dec(s.cursor), ..s }, AppAction::Continue, true)
        } else {
            cont
        },
        KeyCode::Left => if named { (AttrFields { cursor: sat_dec(s.cursor), ..s }, AppAction::Continue, true) } else { cont },
        KeyCode::Right => if named {
            (AttrFields { cursor: min_i(s.cursor + 1, s.text.len() as int), ..s }, AppAction::Continue, true)
        } else {
            cont
        },
        KeyCode::Home => if named { (AttrFields { cursor: 0, ..s }, AppAction::Continue, true) } else { cont },
        KeyCode::End => if named { (AttrFields { cursor: s.text.len() as int, ..s }, AppAction::Continue, true) } else { cont },
        KeyCode::Up => match s.focus {
            RenameAttrField::Permissions => (AttrFields { perm_focus: sat_dec(s.perm_focus), ..s }, AppAction::Continue, true),
            RenameAttrField::User => (AttrFields { user_index: min_i(sat_dec(s.user_index), sat_dec(users)), ..s }, AppAction::Continue, true),
            RenameAttrField::Group => (AttrFields { group_index: min_i(sat_dec(s.group_index), sat_dec(groups)), ..s }, AppAction::Continue, true),
            RenameAttrField::Name => cont,
        },
        KeyCode::Down => match s.focus {
            RenameAttrField::Permissions => (AttrFields { perm_focus: min_i(s.perm_focus + 1, PERM_COUNT - 1), ..s }, AppAction::Continue, true),
            RenameAttrField::User => (AttrFields { user_index: min_i(s.user_index + 1, sat_dec(users)), ..s }, AppAction::Continue, true),
            RenameAttrField::Group => (AttrFields { group_index: min_i(s.group_index + 1, sat_dec(groups)), ..s }, AppAction::Continue, true),
            RenameAttrField::Name => cont,
        },
        KeyCode::Enter => (s, AppAction::RenameAttrConfirm, true),
        KeyCode::Esc => (s, AppAction::RenameAttrCancel, true),
        _ => cont,
    }
}

/// Keys keep the focused checkbox among the twelve and the selected user and group inside their
/// lists.
pub proof fn law_keys_keep_selection_in_range(single: bool, s: AttrFields, users: int, groups: int, code: KeyCode, control: bool)
    requires
        0 <= s.perm_focus < PERM_COUNT,
        0 <= s.user_index < users,
        0 <= s.group_index < groups,
    ensures
        ({
            let t = attr_key_outcome(single, s, users, groups, code, control).0;
            &&& 0 <= t.perm_focus < PERM_COUNT
            &&& 0 <= t.user_index < users
            &&& 0 <= t.group_index < groups
        }),
{
}

/// Tab visits every part of the dialog and comes back: after four presses for one item, and
/// after three from any part but the name for several.
pub proof fn law_tab_cycles(f: RenameAttrField)
    ensures
        next_field(true, next_field(true, next_field(true, next_field(true, f)))) == f,
        f != RenameAttrField::Name ==> next_field(false, next_field(false, next_field(false, f))) == f,
{
}

/// The key-changed fields after a key, given as plain values (see `attr_key_outcome`).
fn fields_after_key(
    single: bool,
    name_input: TextInputState,
    mode: u32,
    perm_focus: usize,
    user_index: usize,
    group_index: usize,
    focus: RenameAttrField,
    users: usize,
    groups: usize,
    code: KeyCode,
    control: bool,
) -> (r: (TextInputState, u32, usize, usize, usize, RenameAttrField, AppAction, bool))
    requires
        perm_focus < usize::MAX,
        user_index < usize::MAX,
        group_index < usize::MAX,
        name_input.cursor < usize::MAX,
    ensures
        ({
            let s = AttrFields {
                text: name_input.text@,
                cursor: name_input.cursor as int,
                mode,
                perm_focus: perm_focus as int,
                user_index: user_index as int,
                group_index: group_index as int,
                focus,
            };
            let (t, a, open) = attr_key_outcome(single, s, users as int, groups as int, code, control);
            &&& r.0.text@ == t.text && r.0.cursor == t.cursor && r.1 == t.mode && r.2 == t.perm_focus
            &&& r.3 == t.user_index && r.4 == t.group_index && r.5 == t.focus && r.6 == a && r.7 == open
        }),
{
    let named = single && focus == RenameAttrField::Name;
    let code = if code == KeyCode::Char('\t') { KeyCode::Tab } else { code };
    let unchanged = (AppAction::Continue, true);
    match code {
        KeyCode::Tab => {
            let next = if single {
                match focus {
                    RenameAttrField::Name => RenameAttrField::Permissions,
                    RenameAttrField::Permissions => RenameAttrField::User,
                    RenameAttrField::User => RenameAttrField::Group,
                    RenameAttrField::Group => RenameAttrField::Name,
                }
            } else {
                match focus {
                    RenameAttrField::Permissions => RenameAttrField::User,
                    RenameAttrField::User => RenameAttrField::Group,
                    RenameAttrField::Group => RenameAttrField::Permissions,
                    RenameAttrField::Name => RenameAttrField::Permissions,
                }
            };
            (name_input, mode, perm_focus, user_index, group_index, next, AppAction::Continue, true)
        },
        KeyCode::Char(c) => {
            let non_empty = name_input.text.as_str().unicode_len() > 0;
            if control && c == 'v' && named {
                (name_input, mode, perm_focus, user_index, group_index, focus, AppAction::RenameAttrPaste, true)
            } else if control && c == 'c' {
                if named && non_empty {
                    (name_input, mode, perm_focus, user_index, group_index, focus, AppAction::RenameAttrCopy, true)
                } else {
                    (name_input, mode, perm_focus, user_index, group_index, focus, AppAction::RenameAttrCancel, false)
                }
            } else if control && c == 'a' && named && non_empty {
                (name_input, mode, perm_focus, user_index, group_index, focus, unchanged.0, unchanged.1)
            } else if control && c == 'o' {
                (name_input, mode, perm_focus, user_index, group_index, focus, AppAction::Suspend, true)
            } else if c == ' ' {
                if focus == RenameAttrField::Permissions {
                    let m = if perm_focus < PERM_COUNT { mode ^ perm_bit_exec(perm_focus) } else { mode };
                    (name_input, m, perm_focus, user_index, group_index, focus, AppAction::Continue, true)
                } else {
                    (name_input, mode, perm_focus, user_index, group_index, focus, AppAction::RenameAttrConfirm, true)
                }
            } else if is_printable_ascii(c) && named {
                (name_input.insert_char(c), mode, perm_focus, user_index, group_index, focus, AppAction::Continue, true)
            } else {
                (name_input, mode, perm_focus, user_index, group_index, focus, unchanged.0, unchanged.1)
            }
        },
        KeyCode::Backspace | KeyCode::Left | KeyCode::Right | KeyCode::Home | KeyCode::End => {
            if named {
                let ni = match code {
                    KeyCode::Backspace => name_input.backspace(),
                    KeyCode::Left => name_input.move_left(),
                    KeyCode::Right => name_input.move_right(),
                    KeyCode::Home => name_input.move_home(),
                    _ => name_input.move_end(),
                };
                (ni, mode, perm_focus, user_index, group_index, focus, AppAction::Continue, true)
            } else {
                (name_input, mode, perm_focus, user_index, group_index, focus, unchanged.0, unchanged.1)
            }
        },
        KeyCode::Up | KeyCode::Down => {
            let up = code == KeyCode::Up;
            let last_user = if users >= 1 { users - 1 } else { 0 };
            let last_group = if groups >= 1 { groups - 1 } else { 0 };
            match focus {
                RenameAttrField::Permissions => {
                    let pf = if up {
                        if perm_focus >= 1 { perm_focus - 1 } else { 0 }
                    } else {
                        if perm_focus + 1 <= PERM_COUNT - 1 { perm_focus + 1 } else { PERM_COUNT - 1 }
                    };
                    (name_input, mode, pf, user_index, group_index, focus, AppAction::Continue, true)
                },
                RenameAttrField::User => {
                    let n = if up { if user_index >= 1 { user_index - 1 } else { 0 } } else { user_index + 1 };
                    let ui = if n <= last_user { n } else { last_user };
                    (name_input, mode, perm_focus, ui, group_index, focus, AppAction::Continue, true)
                },
                RenameAttrField::Group => {
                    let n = if up { if group_index >= 1 { group_index - 1 } else { 0 } } else { group_index + 1 };
                    let gi = if n <= last_group { n } else { last_group };
                    (name_input, mode, perm_focus, user_index, gi, focus, AppAction::Continue, true)
                },
                RenameAttrField::Name => (name_input, mode, perm_focus, user_index, group_index, focus, AppAction::Continue, true),
            }
        },
        KeyCode::Enter => (name_input, mode, perm_focus, user_index, group_index, focus, AppAction::RenameAttrConfirm, true),
        KeyCode::Esc => (name_input, mode, perm_focus, user_index, group_index, focus, AppAction::RenameAttrCancel, true),
        _ => (name_input, mode, perm_focus, user_index, group_index, focus, unchanged.0, unchanged.1),
    }
}

/// A key on the dialog `d`: the dialog afterwards (`None` when it closed) and the answer.
fn dialog_after_key(d: RenameAttrDialogState, code: KeyCode, control: bool) -> (r: (Option<RenameAttrDialogState>, AppAction))
    requires
        d.keys_fit(),
    ensures
        ({
            let (f, a, open) = attr_key_outcome(d is Single, d.fields(), d.user_count(), d.group_count(), code, control);
            &&& r.1 == a
            &&& if open { r.0 matches Some(e) && dialog_with(d, e, f) } else { r.0 is None }
        }),
{
    match d {
        RenameAttrDialogState::Single {
            name_input, mode, perm_focus, owner, group, user_list, group_list, user_index, group_index, old_name, focus,
        } => {
            let users = user_list.len();
            let groups = group_list.len();
            let (ni, m, pf, ui, gi, fo, a, open) = fields_after_key(
                true, name_input, mode, perm_focus, user_index, group_index, focus, users, groups, code, control,
            );
            if !open {
                return (None, a);
            }
            (Some(RenameAttrDialogState::Single {
                name_input: ni, mode: m, perm_focus: pf, owner, group, user_list, group_list,
                user_index: ui, group_index: gi, old_name, focus: fo,
            }), a)
        },
        RenameAttrDialogState::Group {
            count, mode, perm_focus, owner, group, user_list, group_list, user_index, group_index, items, current_name, focus,
        } => {
            let users = user_list.len();
            let groups = group_list.len();
            let (_, m, pf, ui, gi, fo, a, open) = fields_after_key(
                false, TextInputState::new(String::new()), mode, perm_focus, user_index, group_index, focus, users, groups, code, control,
            );
            if !open {
                return (None, a);
            }
            (Some(RenameAttrDialogState::Group {
                count, mode: m, perm_focus: pf, owner, group, user_list, group_list,
                user_index: ui, group_index: gi, items, current_name, focus: fo,
            }), a)
        },
    }
}

/// A key while the F2 dialog may be open (see `attr_key_outcome`); `None` when it is not open.
/// When the key closes the dialog, its error is dropped as well.
pub fn handle_key(app: &mut AppState, code: KeyCode, modifiers: KeyModifiers) -> (r: Option<AppAction>)
    requires
        old(app).rename_attr_dialog matches Some(d) ==> d.keys_fit(),
    ensures
        match old(app).rename_attr_dialog {
            None => r is None && *final(app) == *old(app),
            Some(d) => {
                let (f, a, open) = attr_key_outcome(d is Single, d.fields(), d.user_count(), d.group_count(), code, modifiers.control);
                &&& r == Some(a)
                &&& if open {
                    &&& final(app).rename_attr_dialog matches Some(e) && dialog_with(d, e, f)
                    &&& *final(app) == (AppState { rename_attr_dialog: final(app).rename_attr_dialog, ..*old(app) })
                } else {
                    *final(app) == (AppState { rename_attr_dialog: None, rename_attr_error: None, ..*old(app) })
                }
            },
        },
{
    let d = match app.rename_attr_dialog.take() {
        Some(d) => d,
        None => return None,
    };
    let (nd, a) = dialog_after_key(d, code, modifiers.control);
    match nd {
        Some(e) => {
            app.rename_attr_dialog = Some(e);
        },
        None => {
            app.rename_attr_error = None;
        },
    }
    Some(a)
}

/// Pastes `text` into the name being edited, when the dialog is open for one item with the
/// focus on the name; otherwise nothing changes.
pub fn paste(app: &mut AppState, text: &str)
    requires
        old(app).rename_attr_dialog matches Some(d) ==> d.fields().cursor + text@.len() < usize::MAX,
    ensures
        match old(app).rename_attr_dialog {
            Some(d) => if d is Single && d.fields().focus == RenameAttrField::Name {
                let f = d.fields();
                &&& final(app).rename_attr_dialog matches Some(e) && dialog_with(d, e, AttrFields {
                    text: text_after_insert_str(f.text, f.cursor, text@),
                    cursor: f.cursor + text@.len(),
                    ..f
                })
                &&& *final(app) == (AppState { rename_attr_dialog: final(app).rename_attr_dialog, ..*old(app) })
            } else {
                *final(app) == *old(app)
            },
            None => *final(app) == *old(app),
        },
{
    let d = match app.rename_attr_dialog.take() {
        Some(d) => d,
        None => return,
    };
    let nd = match d {
        RenameAttrDialogState::Single {
            name_input, mode, perm_focus, owner, group, user_list, group_list, user_index, group_index, old_name, focus,
        } => {
            let ni = if focus == RenameAttrField::Name { name_input.insert_str(text) } else { name_input };
            RenameAttrDialogState::Single {
                name_input: ni, mode, perm_focus, owner, group, user_list, group_list, user_index, group_index, old_name, focus,
            }
        },
        other => other,
    };
    app.rename_attr_dialog = Some(nd);
}

/// One step of applying the dialog, run in order by the caller; the first that fails stops the
/// rest.
pub enum AttrStep {
    /// Rename the file at `from` to `to` (full paths).
    Rename { from: String, to: String },
    /// Set the mode of `path`; `item` is the item as listed, named in the error for several items.
    SetMode { path: String, mode: u32, item: Option<String> },
    /// Give `path` to `user` and `group`.
    Chown { path: String, user: String, group: String, item: Option<String> },
}

/// What applying the dialog does: the steps, and the entry to reselect once they all succeeded
/// and the panel was read again.
pub struct AttrPlan {
    pub steps: Vec<AttrStep>,
    pub reselect: String,
}

pub open spec fn opt_str_view(o: Option<String>) -> Option<Seq<char>> {
    match o {
        Some(s) => Some(s@),
        None => None,
    }
}

pub open spec fn is_rename(s: AttrStep, from: Seq<char>, to: Seq<char>) -> bool {
    s matches AttrStep::Rename { from: f, to: t } && f@ == from && t@ == to
}

pub open spec fn is_set_mode(s: AttrStep, path: Seq<char>, mode: u32, item: Option<Seq<char>>) -> bool {
    s matches AttrStep::SetMode { path: p, mode: m, item: i } && p@ == path && m == mode && opt_str_view(i) == item
}

pub open spec fn is_chown(s: AttrStep, path: Seq<char>, user: Seq<char>, group: Seq<char>, item: Option<Seq<char>>) -> bool {
    s matches AttrStep::Chown { path: p, user: u, group: g, item: i } && p@ == path && u@ == user && g@ == group
        && opt_str_view(i) == item
}

/// `p` is the plan for dialog `d` in directory `cwd`.
/// - One item: when the trimmed name is non-empty and differs from the old name (trailing '/'
///   removed), rename first; then set the mode of the file under its new name (the old one when
///   the name was cleared); then, when a user and a group are selected, give it to them.
///   Reselect that name.
/// - Several items: for each item in turn, set its mode and, when a user and a group are
///   selected, give it to them. Reselect the entry that was under the cursor.
pub open spec fn plan_is(p: AttrPlan, d: RenameAttrDialogState, cwd: Seq<char>) -> bool {
    match d {
        RenameAttrDialogState::Single { name_input, mode, user_list, group_list, user_index, group_index, old_name, .. } => {
            let n = trim_of(name_input.text@);
            let old = trim_end_spec(old_name@, '/');
            let renames = n.len() > 0 && n != old;
            let name = if n.len() == 0 { old } else { n };
            let target = path_join_of(cwd, name);
            let chown = user_index < user_list@.len() && group_index < group_list@.len();
            let r: int = if renames { 1 } else { 0 };
            &&& p.steps@.len() == r + 1 + (if chown { 1int } else { 0 })
            &&& renames ==> is_rename(p.steps@[0], path_join_of(cwd, old), path_join_of(cwd, n))
            &&& is_set_mode(p.steps@[r], target, mode, None)
            &&& chown ==> is_chown(p.steps@[r + 1], target, user_list@[user_index as int]@, group_list@[group_index as int]@, None)
            &&& p.reselect@ == name
        },
        RenameAttrDialogState::Group { mode, user_list, group_list, user_index, group_index, items, current_name, .. } => {
            let chown = user_index < user_list@.len() && group_index < group_list@.len();
            let user = user_list@[user_index as int]@;
            let group = group_list@[group_index as int]@;
            &&& p.steps@.len() == (if chown { 2 * items@.len() as int } else { items@.len() as int })
            &&& forall|k: int| 0 <= k < items@.len() ==> {
                let path = path_join_of(cwd, trim_end_spec(#[trigger] items@[k].0@, '/'));
                let item = Some(items@[k].0@);
                if chown {
                    is_set_mode(p.steps@[2 * k], path, mode, item) && is_chown(p.steps@[2 * k + 1], path, user, group, item)
                } else {
                    is_set_mode(p.steps@[k], path, mode, item)
                }
            }
            &&& p.reselect@ == current_name@
        },
    }
}

/// The plan for applying the open dialog in the active panel's directory (see `plan_is`);
/// `None` when the dialog is not open. The dialog stays open: the caller runs the steps, then
/// calls `applied` when all succeeded or `step_failed` with the first failure.
pub fn apply_plan(app: &AppState) -> (r: Option<AttrPlan>)
    requires
        app.wf(),
    ensures
        match app.rename_attr_dialog {
            None => r is None,
            Some(d) => r matches Some(p) && plan_is(p, d, app.active_view().dir),
        },
{
    let cwd = app.get_current_dir();
    let d = match &app.rename_attr_dialog {
        Some(d) => d,
        None => return None,
    };
    match d {
        RenameAttrDialogState::Single { name_input, mode, user_list, group_list, user_index, group_index, old_name, .. } => {
            let n = str_trim(name_input.text.as_str());
            let old = trim_end_char(old_name.as_str(), '/');
            let mut steps: Vec<AttrStep> = Vec::new();
            let renames = n.unicode_len() > 0 && !str_eq(n, old);
            if renames {
                steps.push(AttrStep::Rename { from: path_join(cwd, old), to: path_join(cwd, n) });
            }
            let name = if n.unicode_len() == 0 { old } else { n };
            let target = path_join(cwd, name);
            steps.push(AttrStep::SetMode { path: target.clone(), mode: *mode, item: None });
            if *user_index < user_list.len() && *group_index < group_list.len() {
                steps.push(AttrStep::Chown {
                    path: target,
                    user: user_list[*user_index].clone(),
                    group: group_list[*group_index].clone(),
                    item: None,
                });
            }
            Some(AttrPlan { steps, reselect: name.to_owned() })
        },
        RenameAttrDialogState::Group { mode, user_list, group_list, user_index, group_index, items, current_name, .. } => {
            let chown = *user_index < user_list.len() && *group_index < group_list.len();
            let ghost user = user_list@[*user_index as int]@;
            let ghost group = group_list@[*group_index as int]@;
            let mut steps: Vec<AttrStep> = Vec::new();
            let n = items.len();
            let mut k: usize = 0;
            while k < n
                invariant
                    n == items@.len(),
                    k <= n,
                    chown == (*user_index < user_list@.len() && *group_index < group_list@.len()),
                    chown ==> user == user_list@[*user_index as int]@ && group == group_list@[*group_index as int]@,
                    steps@.len() == (if chown { 2 * k } else { k as int }),
                    forall|j: int| 0 <= j < k ==> {
                        let path = path_join_of(cwd@, trim_end_spec(#[trigger] items@[j].0@, '/'));
                        let item = Some(items@[j].0@);
                        if chown {
                            is_set_mode(steps@[2 * j], path, *mode, item) && is_chown(steps@[2 * j + 1], path, user, group, item)
                        } else {
                            is_set_mode(steps@[j], path, *mode, item)
                        }
                    },
                decreases n - k,
            {
                let name = &items[k].0;
                let path = path_join(cwd, trim_end_char(name.as_str(), '/'));
                steps.push(AttrStep::SetMode { path: path.clone(), mode: *mode, item: Some(name.clone()) });
                if chown {
                    steps.push(AttrStep::Chown {
                        path,
                        user: user_list[*user_index].clone(),
                        group: group_list[*group_index].clone(),
                        item: Some(name.clone()),
                    });
                }
                k = k + 1;
            }
            Some(AttrPlan { steps, reselect: current_name.clone() })
        },
    }
}

/// Start of the error shown when `step` fails, before the system's message.
pub open spec fn failure_prefix(step: AttrStep) -> Seq<char> {
    match step {
        AttrStep::Rename { .. } => "Rename failed: "@,
        AttrStep::SetMode { item, .. } => match item {
            None => "Set permissions failed: "@,
            Some(n) => "Set permissions failed: "@ + n@ + ": "@,
        },
        AttrStep::Chown { item, .. } => match item {
            None => "Chown failed: "@,
            Some(n) => "Chown failed: "@ + n@ + ": "@,
        },
    }
}

/// Records that `step` failed with the system's message `error`: the dialog stays open and
/// shows the error.
pub fn step_failed(app: &mut AppState, step: &AttrStep, error: &str)
    ensures
        final(app).rename_attr_error matches Some(m) && m@ == failure_prefix(*step) + error@,
        *final(app) == (AppState { rename_attr_error: final(app).rename_attr_error, ..*old(app) }),
{
    let mut m = String::new();
    match step {
        AttrStep::Rename { .. } => {
            m.append("Rename failed: ");
        },
        AttrStep::SetMode { item, .. } => {
            m.append("Set permissions failed: ");
            if let Some(n) = item {
                m.append(n.as_str());
                m.append(": ");
            }
        },
        AttrStep::Chown { item, .. } => {
            m.append("Chown failed: ");
            if let Some(n) = item {
                m.append(n.as_str());
                m.append(": ");
            }
        },
    }
    m.append(error);
    proof {
        assert(Seq::<char>::empty() + "Rename failed: "@ =~= "Rename failed: "@);
        assert(Seq::<char>::empty() + "Set permissions failed: "@ =~= "Set permissions failed: "@);
        assert(Seq::<char>::empty() + "Chown failed: "@ =~= "Chown failed: "@);
    }
    app.rename_attr_error = Some(m);
}

/// All steps succeeded: the dialog closes.
pub fn applied(app: &mut AppState)
    ensures
        *final(app) == (AppState { rename_attr_dialog: None, ..*old(app) }),
{
    app.rename_attr_dialog = None;
}

/// A line of an account database (`/etc/passwd`, `/etc/group`) that describes an account: not
/// empty and not a comment.
pub open spec fn account_line(l: Seq<char>) -> bool {
    l.len() > 0 && l[0] != '#'
}

/// The account names of the lines `ls`: the text before the first ':' of each account line, in
/// order.
pub open spec fn names_of_lines(ls: Seq<Seq<char>>) -> Seq<Seq<char>>
    decreases ls.len(),
{
    if ls.len() == 0 {
        Seq::empty()
    } else {
        let rest = names_of_lines(ls.drop_last());
        if account_line(ls.last()) {
            rest.push(split_on(ls.last(), ':')[0])
        } else {
            rest
        }
    }
}

/// The account names listed in the database text `text`.
pub open spec fn account_names_of(text: Seq<char>) -> Seq<Seq<char>> {
    names_of_lines(split_on(text, '\n'))
}

/// The name of the first account line from index `k` of `ls` whose third field (the numeric id)
/// is `id`.
pub open spec fn name_with_id_from(ls: Seq<Seq<char>>, id: Seq<char>, k: int) -> Option<Seq<char>>
    decreases ls.len() - k,
{
    if k < 0 || k >= ls.len() {
        None
    } else {
        let f = split_on(ls[k], ':');
        if account_line(ls[k]) && f.len() > 2 && f[2] == id {
            Some(f[0])
        } else {
            name_with_id_from(ls, id, k + 1)
        }
    }
}

/// The name of the account with numeric id `id` (as text) in the database text `text`.
pub open spec fn account_name_with_id_of(text: Seq<char>, id: Seq<char>) -> Option<Seq<char>> {
    name_with_id_from(split_on(text, '\n'), id, 0)
}

proof fn lemma_split_nonempty(s: Seq<char>, c: char)
    ensures
        split_on(s, c).len() >= 1,
{
    reveal_with_fuel(split_on, 2);
}

/// The account names of a database text (see `account_names_of`).
pub fn account_names(text: &str) -> (r: Vec<String>)
    ensures
        strings_view(r@) == account_names_of(text@),
{
    let lines = split_char(text, '\n');
    let ghost ls = strings_view(lines@);
    let mut out: Vec<String> = Vec::new();
    let mut k: usize = 0;
    while k < lines.len()
        invariant
            k <= lines@.len(),
            ls == strings_view(lines@),
            ls == split_on(text@, '\n'),
            strings_view(out@) == names_of_lines(ls.take(k as int)),
        decreases lines@.len() - k,
    {
        let line = lines[k].as_str();
        assert(ls[k as int] == line@);
        assert(ls.take(k + 1).drop_last() =~= ls.take(k as int));
        assert(ls.take(k + 1).last() == line@);
        let account = line.unicode_len() > 0 && line.get_char(0) != '#';
        if account {
            let fields = split_char(line, ':');
            proof {
                lemma_split_nonempty(line@, ':');
            }
            assert(strings_view(fields@)[0] == fields@[0]@);
            let ghost before = out@;
            out.push(fields[0].clone());
            assert(strings_view(out@) =~= strings_view(before).push(fields@[0]@));
        }
        k = k + 1;
    }
    assert(ls.take(lines@.len() as int) =~= ls);
    out
}

/// The name of the account with numeric id `id` in a database text (see
/// `account_name_with_id_of`).
pub fn account_name_with_id(text: &str, id: &str) -> (r: Option<String>)
    ensures
        match r {
            Some(n) => account_name_with_id_of(text@, id@) == Some(n@),
            None => account_name_with_id_of(text@, id@) is None,
        },
{
    let lines = split_char(text, '\n');
    let ghost ls = strings_view(lines@);
    let mut k: usize = 0;
    while k < lines.len()
        invariant
            k <= lines@.len(),
            ls == strings_view(lines@),
            ls == split_on(text@, '\n'),
            name_with_id_from(ls, id@, 0) == name_with_id_from(ls, id@, k as int),
        decreases lines@.len() - k,
    {
        let line = lines[k].as_str();
        assert(ls[k as int] == line@);
        if line.unicode_len() > 0 && line.get_char(0) != '#' {
            let fields = split_char(line, ':');
            assert(strings_view(fields@).len() == fields@.len());
            if fields.len() > 2 {
                assert(strings_view(fields@)[2] == fields@[2]@);
                assert(strings_view(fields@)[0] == fields@[0]@);
                if str_eq(fields[2].as_str(), id) {
                    return Some(fields[0].clone());
                }
            }
        }
        k = k + 1;
    }
    None
}

/// Whether the permission checkbox for `bit` is set in `mode`.
pub fn mode_has_bit(mode: u32, bit: u32) -> (r: bool)
    ensures
        r == (mode & bit != 0),
{
    (mode & bit) != 0
}

/// `mode` with the checkbox for `bit` flipped.
pub fn toggle_perm_bit(mode: u32, bit: u32) -> (r: u32)
    ensures
        r == mode ^ bit,
{
    mode ^ bit
}

/// Toggling a checkbox twice gives back the mode, and toggling one checkbox leaves the bits of
/// every other checkbox as they were.
pub proof fn law_toggle_perm_bit(mode: u32, bit: u32, other: u32)
    ensures
        (mode ^ bit) ^ bit == mode,
        (bit & other == 0) ==> (((mode ^ bit) & other) == (mode & other)),
{
    assert((mode ^ bit) ^ bit == mode) by (bit_vector);
    assert((bit & other == 0) ==> (((mode ^ bit) & other) == (mode & other))) by (bit_vector);
}

/// Closes the dialog without applying, dropping any error shown for it.
pub fn close_dialog(app: &mut AppState)
    ensures
        *final(app) == (AppState { rename_attr_dialog: None, rename_attr_error: None, ..*old(app) }),
{
    app.rename_attr_dialog = None;
    app.rename_attr_error = None;
}

/// Cancel: the same as closing without applying.
pub fn cancel(app: &mut AppState)
    ensures
        *final(app) == (AppState { rename_attr_dialog: None, rename_attr_error: None, ..*old(app) }),
{
    close_dialog(app);
}

} // verus!
