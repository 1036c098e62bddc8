//! Right-click popup menu over the panels: the actions of the bottom menu bar as a list.
use vstd::prelude::*;

use crate::app_state::AppState;
use crate::events::{AppAction, menu_bar_action, menu_click_outcome};
use crate::keys::{KeyCode, KeyModifiers, MouseKind, Rect, pointer_in, rect_contains};
use crate::panel_backend::PanelLocation;
use crate::ui::{Renderer, menu_action_available};

verus! {

/// Width of the popup, frame included.
pub const MENU_WIDTH: u16 = 22;

/// Number of entries.
pub const ENTRY_COUNT: usize = 9;

/// Height of the popup: the entries and the two frame rows.
pub const MENU_HEIGHT: u16 = 11;

/// The open menu: where it is drawn and which entry has the focus.
#[derive(Clone, Copy)]
pub struct PanelContextMenuState {
    pub rect: Rect,
    pub focus: usize,
}

/// Labels of the entries, top to bottom. Entry `i` runs menu key `i + 1`, so the digit keys
/// pick the entry with the same number.
pub open spec fn entry_labels() -> Seq<Seq<char>> {
    seq![
        "Actions"@,
        "File"@,
        "View"@,
        "Edit"@,
        "Copy"@,
        "Move"@,
        "Folder"@,
        "Delete"@,
        "Settings"@,
    ]
}

/// The entries (label, menu key), for drawing.
pub fn entries() -> (r: Vec<(&'static str, u16)>)
    ensures
        r@.len() == ENTRY_COUNT,
        forall|i: int| 0 <= i < ENTRY_COUNT ==> #[trigger] r@[i].1 == i + 1 && r@[i].0@ == entry_labels()[i],
{
    vec![
        ("Actions", 1u16),
        ("File", 2u16),
        ("View", 3u16),
        ("Edit", 4u16),
        ("Copy", 5u16),
        ("Move", 6u16),
        ("Folder", 7u16),
        ("Delete", 8u16),
        ("Settings", 9u16),
    ]
}

/// Entry `i` exists and its menu key can act now (`loc` is where the active panel is).
pub open spec fn entry_available(app: AppState, loc: PanelLocation, i: int) -> bool {
    0 <= i < ENTRY_COUNT && menu_action_available(app, (i + 1) as u16, loc)
}

/// The first available entry at index `i` or later.
pub open spec fn first_available_from(app: AppState, loc: PanelLocation, i: int) -> Option<int>
    decreases ENTRY_COUNT - i,
{
    if i >= ENTRY_COUNT {
        None
    } else if entry_available(app, loc, i) {
        Some(i)
    } else {
        first_available_from(app, loc, i + 1)
    }
}

/// The last available entry below index `i`.
pub open spec fn last_available_below(app: AppState, loc: PanelLocation, i: int) -> Option<int>
    decreases i,
{
    if i <= 0 {
        None
    } else if entry_available(app, loc, i - 1) {
        Some(i - 1)
    } else {
        last_available_below(app, loc, i - 1)
    }
}

/// The entry `j` steps from `focus`, downwards or upwards, wrapping around the list.
pub open spec fn wrap_pos(focus: int, forward: bool, j: int) -> int {
    if forward {
        (focus + j) % (ENTRY_COUNT as int)
    } else {
        (focus - j) % (ENTRY_COUNT as int)
    }
}

/// The first available entry `j` or more steps from `focus` (at most a full turn), or `focus`
/// itself when none is.
pub open spec fn search_from(app: AppState, loc: PanelLocation, focus: int, forward: bool, j: int) -> int
    decreases ENTRY_COUNT + 1 - j,
{
    if j > ENTRY_COUNT {
        focus
    } else if entry_available(app, loc, wrap_pos(focus, forward, j)) {
        wrap_pos(focus, forward, j)
    } else {
        search_from(app, loc, focus, forward, j + 1)
    }
}

/// Where the focus goes on Down (`forward`) or Up: the next available entry in that direction,
/// wrapping around; it stays when no entry is available.
pub open spec fn moved_focus(app: AppState, loc: PanelLocation, focus: int, forward: bool) -> int {
    search_from(app, loc, focus, forward, 1)
}

/// Moving the focus lands on an available entry, or leaves it where it was.
pub proof fn law_moved_focus_is_available_or_kept(app: AppState, loc: PanelLocation, focus: int, forward: bool)
    ensures
        moved_focus(app, loc, focus, forward) == focus
            || entry_available(app, loc, moved_focus(app, loc, focus, forward)),
{
    lemma_search_kept_or_available(app, loc, focus, forward, 1);
}

proof fn lemma_search_kept_or_available(app: AppState, loc: PanelLocation, focus: int, forward: bool, j: int)
    ensures
        search_from(app, loc, focus, forward, j) == focus
            || entry_available(app, loc, search_from(app, loc, focus, forward, j)),
    decreases ENTRY_COUNT + 1 - j,
{
    if j <= ENTRY_COUNT && !entry_available(app, loc, wrap_pos(focus, forward, j)) {
        lemma_search_kept_or_available(app, loc, focus, forward, j + 1);
    }
}

/// When some entry is reached within the remaining steps, the search stops at the first one.
proof fn lemma_search_finds(app: AppState, loc: PanelLocation, focus: int, forward: bool, j: int) -> (k: int)
    requires
        1 <= j <= ENTRY_COUNT,
        entry_available(app, loc, wrap_pos(focus, forward, ENTRY_COUNT as int)),
    ensures
        j <= k <= ENTRY_COUNT,
        search_from(app, loc, focus, forward, j) == wrap_pos(focus, forward, k),
        entry_available(app, loc, wrap_pos(focus, forward, k)),
        forall|m: int| j <= m < k ==> !entry_available(app, loc, #[trigger] wrap_pos(focus, forward, m)),
    decreases ENTRY_COUNT - j,
{
    if entry_available(app, loc, wrap_pos(focus, forward, j)) {
        j
    } else {
        lemma_search_finds(app, loc, focus, forward, j + 1)
    }
}

/// Walking `k` steps one way and `m` steps back is walking `k - m` steps.
proof fn lemma_walk_back(focus: int, forward: bool, k: int, m: int)
    ensures
        wrap_pos(wrap_pos(focus, forward, k), !forward, m) == wrap_pos(focus, forward, k - m),
{
    let n = ENTRY_COUNT as int;
    if forward {
        vstd::arithmetic::div_mod::lemma_sub_mod_noop(focus + k, m, n);
        vstd::arithmetic::div_mod::lemma_sub_mod_noop_right((focus + k) % n, m, n);
    } else {
        vstd::arithmetic::div_mod::lemma_add_mod_noop(focus - k, m, n);
        vstd::arithmetic::div_mod::lemma_add_mod_noop_right((focus - k) % n, m, n);
    }
}

/// From an entry of the list, no steps and a full turn both stay on it.
proof fn lemma_walk_still(focus: int, forward: bool)
    requires
        0 <= focus < ENTRY_COUNT,
    ensures
        wrap_pos(focus, forward, 0) == focus,
        wrap_pos(focus, forward, ENTRY_COUNT as int) == focus,
{
    let n = ENTRY_COUNT as int;
    vstd::arithmetic::div_mod::lemma_small_mod(focus as nat, n as nat);
    vstd::arithmetic::div_mod::lemma_mod_add_multiples_vanish(focus, n);
    vstd::arithmetic::div_mod::lemma_mod_sub_multiples_vanish(focus, n);
}

/// Moving the focus one way and then back returns to the entry it was on, when that entry is
/// available.
pub proof fn law_move_then_back(app: AppState, loc: PanelLocation, focus: int, forward: bool)
    requires
        entry_available(app, loc, focus),
    ensures
        moved_focus(app, loc, moved_focus(app, loc, focus, forward), !forward) == focus,
{
    let n = ENTRY_COUNT as int;
    lemma_walk_still(focus, forward);
    let k = lemma_search_finds(app, loc, focus, forward, 1);
    let g = wrap_pos(focus, forward, k);
    lemma_walk_still(g, !forward);
    let k2 = lemma_search_finds(app, loc, g, !forward, 1);
    lemma_walk_back(focus, forward, k, k2);
    lemma_walk_back(focus, forward, k, k);
    if k2 < k {
        assert(!entry_available(app, loc, wrap_pos(focus, forward, k - k2)));
        assert(false);
    }
    if k2 > k {
        assert(!entry_available(app, loc, wrap_pos(g, !forward, k)));
        assert(false);
    }
}

/// The app with the menu closed.
pub open spec fn without_menu(app: AppState) -> AppState {
    AppState { panel_context_menu: None, ..app }
}

/// The app with the open menu `m` focused on entry `f`.
pub open spec fn refocused(app: AppState, m: PanelContextMenuState, f: int) -> AppState {
    AppState { panel_context_menu: Some(PanelContextMenuState { focus: f as usize, ..m }), ..app }
}

/// Choosing entry `index`: an available entry closes the menu and runs its menu key as the
/// menu bar does; otherwise nothing happens and the answer is `None`.
pub open spec fn activation_outcome(old_app: AppState, new_app: AppState, loc: PanelLocation, index: int, r: Option<AppAction>) -> bool {
    if entry_available(old_app, loc, index) {
        menu_click_outcome(without_menu(old_app), new_app, index + 1, r)
    } else {
        new_app == old_app && r is None
    }
}

/// `Continue` in place of no answer.
pub open spec fn or_continue(r: Option<AppAction>) -> Option<AppAction> {
    match r {
        Some(a) => Some(a),
        None => Some(AppAction::Continue),
    }
}

/// Choosing entry `index`, with `Continue` as the answer when nothing ran.
pub open spec fn chosen(old_app: AppState, new_app: AppState, loc: PanelLocation, index: int, r: Option<AppAction>) -> bool {
    exists|r0: Option<AppAction>| #[trigger] activation_outcome(old_app, new_app, loc, index, r0) && r == or_continue(r0)
}

/// Effect of a key on the open menu: Esc closes it; Up/`k` and Down/`j` move the focus to the
/// previous or next available entry; Home and End go to the first and last available entry;
/// Enter chooses the focused entry and a digit 1..9 the entry with that number; any other key
/// does nothing. Every key answers (`Continue` unless an entry ran).
pub open spec fn context_key_outcome(old_app: AppState, new_app: AppState, loc: PanelLocation, code: KeyCode, r: Option<AppAction>) -> bool {
    match old_app.panel_context_menu {
        None => r is None && new_app == old_app,
        Some(m) => {
            let cont = r == Some(AppAction::Continue);
            if code == KeyCode::Esc {
                cont && new_app == without_menu(old_app)
            } else if code == KeyCode::Up || code == KeyCode::Char('k') {
                cont && new_app == refocused(old_app, m, moved_focus(old_app, loc, m.focus as int, false))
            } else if code == KeyCode::Down || code == KeyCode::Char('j') {
                cont && new_app == refocused(old_app, m, moved_focus(old_app, loc, m.focus as int, true))
            } else if code == KeyCode::Home {
                cont && new_app == refocused(old_app, m, match first_available_from(old_app, loc, 0) {
                    Some(i) => i,
                    None => 0,
                })
            } else if code == KeyCode::End {
                cont && new_app == refocused(old_app, m, match last_available_below(old_app, loc, ENTRY_COUNT as int) {
                    Some(i) => i,
                    None => m.focus as int,
                })
            } else if code == KeyCode::Enter {
                chosen(old_app, new_app, loc, m.focus as int, r)
            } else {
                match code {
                    KeyCode::Char(c) => if 49 <= c as u32 <= 57 {
                        chosen(old_app, new_app, loc, c as u32 - 49, r)
                    } else {
                        cont && new_app == old_app
                    },
                    _ => cont && new_app == old_app,
                }
            }
        },
    }
}

/// Effect of a mouse event on the open menu: a left click outside closes it; a left click
/// inside chooses the entry on that row (the top frame row counts as the first entry); a right
/// click closes it; anything else does nothing. Every event answers.
pub open spec fn context_mouse_outcome(old_app: AppState, new_app: AppState, loc: PanelLocation, kind: MouseKind, col: int, row: int, r: Option<AppAction>) -> bool {
    match old_app.panel_context_menu {
        None => r is None && new_app == old_app,
        Some(m) => {
            let cont = r == Some(AppAction::Continue);
            match kind {
                MouseKind::LeftDown => if !rect_contains(m.rect, col, row) {
                    cont && new_app == without_menu(old_app)
                } else {
                    let rel = if row - m.rect.y >= 1 { row - m.rect.y - 1 } else { 0 };
                    if rel < ENTRY_COUNT {
                        chosen(old_app, new_app, loc, rel, r)
                    } else {
                        cont && new_app == old_app
                    }
                },
                MouseKind::RightDown => cont && new_app == without_menu(old_app),
                _ => cont && new_app == old_app,
            }
        },
    }
}

/// Opens the menu at the click (col, row), moved left and up as far as needed to fit a
/// terminal of `term_w` x `term_h`, with the focus on the first available entry (or the first
/// entry when none is).
pub fn open(app: &mut AppState, col: u16, row: u16, term_w: u16, term_h: u16, loc: &PanelLocation)
    requires
        old(app).wf(),
    ensures
        final(app).panel_context_menu matches Some(m) && {
            &&& m.rect.x as int == min_of(col as int, sat_sub_int(term_w as int, MENU_WIDTH as int))
            &&& m.rect.y as int == min_of(row as int, sat_sub_int(term_h as int, MENU_HEIGHT as int))
            &&& m.rect.width == MENU_WIDTH && m.rect.height == MENU_HEIGHT
            &&& m.focus as int == match first_available_from(*old(app), *loc, 0) {
                Some(i) => i,
                None => 0,
            }
        },
        *final(app) == (AppState { panel_context_menu: final(app).panel_context_menu, ..*old(app) }),
{
    let x = if term_w >= MENU_WIDTH { if col < term_w - MENU_WIDTH { col } else { term_w - MENU_WIDTH } } else { 0 };
    let y = if term_h >= MENU_HEIGHT { if row < term_h - MENU_HEIGHT { row } else { term_h - MENU_HEIGHT } } else { 0 };
    let focus = match first_available_index(app, loc) {
        Some(i) => i,
        None => 0,
    };
    app.panel_context_menu = Some(PanelContextMenuState {
        rect: Rect { x, y, width: MENU_WIDTH, height: MENU_HEIGHT },
        focus,
    });
}

pub open spec fn min_of(a: int, b: int) -> int {
    if a <= b { a } else { b }
}

pub open spec fn sat_sub_int(a: int, b: int) -> int {
    if a >= b { a - b } else { 0 }
}

/// Closes the menu.
pub fn close(app: &mut AppState)
    ensures
        *final(app) == without_menu(*old(app)),
{
    app.panel_context_menu = None;
}

/// Whether entry `i` can act now.
fn is_entry_available(app: &AppState, loc: &PanelLocation, i: usize) -> (r: bool)
    requires
        app.wf(),
        i < ENTRY_COUNT,
    ensures
        r == entry_available(*app, *loc, i as int),
{
    Renderer::is_menu_action_available(app, (i + 1) as u16, loc)
}

/// The first available entry.
fn first_available_index(app: &AppState, loc: &PanelLocation) -> (r: Option<usize>)
    requires
        app.wf(),
    ensures
        match r {
            Some(i) => first_available_from(*app, *loc, 0) == Some(i as int),
            None => first_available_from(*app, *loc, 0) is None,
        },
{
    let mut i: usize = 0;
    while i < ENTRY_COUNT
        invariant
            i <= ENTRY_COUNT,
            app.wf(),
            first_available_from(*app, *loc, 0) == first_available_from(*app, *loc, i as int),
        decreases ENTRY_COUNT - i,
    {
        if is_entry_available(app, loc, i) {
            return Some(i);
        }
        i = i + 1;
    }
    None
}

/// The last available entry.
fn last_available_index(app: &AppState, loc: &PanelLocation) -> (r: Option<usize>)
    requires
        app.wf(),
    ensures
        match r {
            Some(i) => last_available_below(*app, *loc, ENTRY_COUNT as int) == Some(i as int),
            None => last_available_below(*app, *loc, ENTRY_COUNT as int) is None,
        },
{
    let mut i: usize = ENTRY_COUNT;
    while i > 0
        invariant
            i <= ENTRY_COUNT,
            app.wf(),
            last_available_below(*app, *loc, ENTRY_COUNT as int) == last_available_below(*app, *loc, i as int),
        decreases i,
    {
        if is_entry_available(app, loc, i - 1) {
            return Some(i - 1);
        }
        i = i - 1;
    }
    None
}

/// One step from entry `i` (an index of the list), wrapping around.
fn step(i: usize, forward: bool) -> (r: usize)
    requires
        i < ENTRY_COUNT,
    ensures
        r as int == (if forward { (i + 1) % (ENTRY_COUNT as int) } else { (i - 1) % (ENTRY_COUNT as int) }),
{
    if forward {
        if i + 1 == ENTRY_COUNT { 0 } else { i + 1 }
    } else {
        if i == 0 { ENTRY_COUNT - 1 } else { i - 1 }
    }
}

/// The focus after Down (`forward`) or Up from `focus`.
fn move_focus(app: &AppState, loc: &PanelLocation, focus: usize, forward: bool) -> (r: usize)
    requires
        app.wf(),
    ensures
        r as int == moved_focus(*app, *loc, focus as int, forward),
{
    let mut i = focus % ENTRY_COUNT;
    let mut j: usize = 0;
    while j < ENTRY_COUNT
        invariant
            j <= ENTRY_COUNT,
            app.wf(),
            i < ENTRY_COUNT,
            i as int == wrap_pos(focus as int, forward, j as int),
            moved_focus(*app, *loc, focus as int, forward) == search_from(*app, *loc, focus as int, forward, j + 1),
        decreases ENTRY_COUNT - j,
    {
        let ghost prev = i as int;
        i = step(i, forward);
        proof {
            let n = ENTRY_COUNT as int;
            if forward {
                vstd::arithmetic::div_mod::lemma_add_mod_noop(focus + j, 1, n);
            } else {
                vstd::arithmetic::div_mod::lemma_sub_mod_noop(focus - j, 1, n);
            }
        }
        j = j + 1;
        if is_entry_available(app, loc, i) {
            return i;
        }
    }
    focus
}

/// Chooses entry `index` (see `activation_outcome`).
fn activate(app: &mut AppState, loc: &PanelLocation, index: usize) -> (r: Option<AppAction>)
    requires
        old(app).wf(),
    ensures
        activation_outcome(*old(app), *final(app), *loc, index as int, r),
{
    if index >= ENTRY_COUNT {
        return None;
    }
    if !is_entry_available(app, loc, index) {
        return None;
    }
    close(app);
    menu_bar_action(app, (index + 1) as u16)
}

/// Chooses entry `index`, answering `Continue` when nothing ran.
fn choose_entry(app: &mut AppState, loc: &PanelLocation, index: usize) -> (r: Option<AppAction>)
    requires
        old(app).wf(),
    ensures
        chosen(*old(app), *final(app), *loc, index as int, r),
{
    let ghost before = *app;
    let r0 = activate(app, loc, index);
    assert(activation_outcome(before, *app, *loc, index as int, r0));
    match r0 {
        Some(a) => Some(a),
        None => Some(AppAction::Continue),
    }
}

/// Gives the open menu the focus `f`.
fn set_focus(app: &mut AppState, f: usize)
    requires
        old(app).panel_context_menu is Some,
    ensures
        *final(app) == refocused(*old(app), old(app).panel_context_menu.unwrap(), f as int),
{
    if let Some(m) = app.panel_context_menu {
        app.panel_context_menu = Some(PanelContextMenuState { focus: f, ..m });
    }
}

/// A key while the menu may be open (see `context_key_outcome`); `None` when it is not open.
pub fn handle_key(app: &mut AppState, loc: &PanelLocation, code: KeyCode, _modifiers: KeyModifiers) -> (r: Option<AppAction>)
    requires
        old(app).wf(),
    ensures
        context_key_outcome(*old(app), *final(app), *loc, code, r),
{
    let m = match app.panel_context_menu {
        Some(m) => m,
        None => return None,
    };
    match code {
        KeyCode::Esc => {
            close(app);
            Some(AppAction::Continue)
        },
        KeyCode::Up | KeyCode::Down => {
            let f = move_focus(app, loc, m.focus, code == KeyCode::Down);
            set_focus(app, f);
            Some(AppAction::Continue)
        },
        KeyCode::Home => {
            let f = match first_available_index(app, loc) {
                Some(i) => i,
                None => 0,
            };
            set_focus(app, f);
            Some(AppAction::Continue)
        },
        KeyCode::End => {
            let f = match last_available_index(app, loc) {
                Some(i) => i,
                None => m.focus,
            };
            set_focus(app, f);
            Some(AppAction::Continue)
        },
        KeyCode::Enter => choose_entry(app, loc, m.focus),
        KeyCode::Char(c) => {
            if c == 'k' || c == 'j' {
                let f = move_focus(app, loc, m.focus, c == 'j');
                set_focus(app, f);
                Some(AppAction::Continue)
            } else {
                let u = c as u32;
                if 49 <= u && u <= 57 {
                    choose_entry(app, loc, (u - 49) as usize)
                } else {
                    Some(AppAction::Continue)
                }
            }
        },
        _ => Some(AppAction::Continue),
    }
}

/// A mouse event at (col, row) while the menu may be open (see `context_mouse_outcome`);
/// `None` when it is not open.
pub fn handle_mouse(app: &mut AppState, loc: &PanelLocation, kind: MouseKind, col: u16, row: u16) -> (r: Option<AppAction>)
    requires
        old(app).wf(),
    ensures
        context_mouse_outcome(*old(app), *final(app), *loc, kind, col as int, row as int, r),
{
    let m = match app.panel_context_menu {
        Some(m) => m,
        None => return None,
    };
    match kind {
        MouseKind::LeftDown => {
            if !pointer_in(m.rect, col, row) {
                close(app);
                return Some(AppAction::Continue);
            }
            let d = row - m.rect.y;
            let rel: usize = if d >= 1 { (d - 1) as usize } else { 0 };
            if rel < ENTRY_COUNT {
                choose_entry(app, loc, rel)
            } else {
                Some(AppAction::Continue)
            }
        },
        MouseKind::RightDown => {
            close(app);
            Some(AppAction::Continue)
        },
        _ => Some(AppAction::Continue),
    }
}

} // verus!
