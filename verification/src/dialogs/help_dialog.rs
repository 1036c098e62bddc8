//! Help dialog: a scrollable reference of the key bindings with a one-column scroll bar; Esc, q
//! or a click outside closes it. The text itself is drawn by the caller, which passes the number
//! of its lines.
use vstd::prelude::*;

use crate::app_state::AppState;
use crate::events::AppAction;
use crate::keys::{KeyCode, KeyModifiers, MouseKind, Rect, pointer_in, rect_contains};

verus! {

pub struct HelpDialogState {
    /// Index of the top visible line.
    pub scroll: usize,
}

/// Opens the dialog at the top of the text.
pub fn open(app: &mut AppState)
    ensures
        final(app).help_dialog matches Some(d) && d.scroll == 0,
        *final(app) == (AppState { help_dialog: final(app).help_dialog, ..*old(app) }),
{
    app.help_dialog = Some(HelpDialogState { scroll: 0 });
}

pub fn close(app: &mut AppState)
    ensures
        *final(app) == (AppState { help_dialog: None, ..*old(app) }),
{
    app.help_dialog = None;
}

/// Lines the mouse wheel scrolls.
pub const WHEEL_LINES: usize = 3;

/// Rows of the key hint under the text.
pub const HINT_ROWS: u16 = 1;

pub open spec fn sat_sub(a: int, b: int) -> int {
    if a >= b { a - b } else { 0 }
}

pub open spec fn min_of(a: int, b: int) -> int {
    if a <= b { a } else { b }
}

pub open spec fn max_of(a: int, b: int) -> int {
    if a >= b { a } else { b }
}

/// `r` with `h` columns and `v` rows taken off each side, as ratatui's `Rect::inner` does: the
/// empty rectangle at the origin when `r` is too small for that.
pub open spec fn inner_rect(r: Rect, h: int, v: int) -> Rect {
    let dh = min_of(2 * h, 65535);
    let dv = min_of(2 * v, 65535);
    if r.width < dh || r.height < dv {
        Rect { x: 0, y: 0, width: 0, height: 0 }
    } else {
        Rect {
            x: min_of(r.x + h, 65535) as u16,
            y: min_of(r.y + v, 65535) as u16,
            width: (r.width - dh) as u16,
            height: (r.height - dv) as u16,
        }
    }
}

pub fn inner(r: Rect, h: u16, v: u16) -> (out: Rect)
    ensures
        out == inner_rect(r, h as int, v as int),
{
    let dh: u16 = if h <= 32767 { 2 * h } else { 65535 };
    let dv: u16 = if v <= 32767 { 2 * v } else { 65535 };
    if r.width < dh || r.height < dv {
        Rect { x: 0, y: 0, width: 0, height: 0 }
    } else {
        Rect {
            x: r.x.saturating_add(h),
            y: r.y.saturating_add(v),
            width: r.width - dh,
            height: r.height - dv,
        }
    }
}

/// The dialog's box in the screen `area`: 4 cells narrower and lower than the screen, at most
/// 122 wide and between 16 and 60 high, centred.
pub open spec fn help_rect(area: Rect) -> Rect {
    let w = min_of(sat_sub(area.width as int, 4), 122);
    let h = max_of(min_of(sat_sub(area.height as int, 4), 60), 16);
    Rect {
        x: (area.x + sat_sub(area.width as int, w) / 2) as u16,
        y: (area.y + sat_sub(area.height as int, h) / 2) as u16,
        width: w as u16,
        height: h as u16,
    }
}

/// The screen area ends inside the coordinate range.
pub open spec fn area_fits(area: Rect) -> bool {
    area.x + area.width <= 65535 && area.y + area.height <= 65535
}

pub fn dialog_rect(area: Rect) -> (r: Rect)
    requires
        area_fits(area),
    ensures
        r == help_rect(area),
{
    let margin: u16 = 4;
    let max_w = area.width.saturating_sub(margin);
    let max_h = area.height.saturating_sub(margin);
    let w = if max_w < 122 { max_w } else { 122 };
    let h0 = if max_h < 60 { max_h } else { 60 };
    let h = if h0 > 16 { h0 } else { 16 };
    let x = area.x + area.width.saturating_sub(w) / 2;
    let y = area.y + area.height.saturating_sub(h) / 2;
    Rect { x, y, width: w, height: h }
}

/// The layout of the dialog in `area`: its box, the text body, and the scroll bar column at the
/// body's right edge; the box's frame takes two columns and one row on each side, the key hint
/// the last row inside.
pub open spec fn help_layout_spec(area: Rect) -> (Rect, Rect, Rect) {
    let rect = help_rect(area);
    let inn = inner_rect(rect, 2, 1);
    let body_h = sat_sub(inn.height as int, HINT_ROWS as int) as u16;
    let text = Rect { x: inn.x, y: inn.y, width: sat_sub(inn.width as int, 1) as u16, height: body_h };
    let bar = Rect { x: (inn.x + sat_sub(inn.width as int, 1)) as u16, y: inn.y, width: 1, height: body_h };
    (rect, text, bar)
}

pub fn help_layout(area: Rect) -> (r: (Rect, Rect, Rect))
    requires
        area_fits(area),
    ensures
        r == help_layout_spec(area),
{
    let rect = dialog_rect(area);
    let inn = inner(rect, 2, 1);
    let body_h = inn.height.saturating_sub(HINT_ROWS);
    let text = Rect { x: inn.x, y: inn.y, width: inn.width.saturating_sub(1), height: body_h };
    let bar = Rect { x: inn.x + inn.width.saturating_sub(1), y: inn.y, width: 1, height: body_h };
    (rect, text, bar)
}

/// Rows of text shown at once (at least one).
pub open spec fn view_rows(area: Rect) -> int {
    max_of(help_layout_spec(area).1.height as int, 1)
}

/// The largest scroll for `total` lines: the last line at the bottom of the view.
pub open spec fn max_scroll(area: Rect, total: int) -> int {
    sat_sub(total, view_rows(area))
}

fn max_scroll_exec(area: Rect, total: usize) -> (r: (usize, usize))
    requires
        area_fits(area),
    ensures
        r.0 == view_rows(area),
        r.1 == max_scroll(area, total as int),
{
    let (_, text, _) = help_layout(area);
    let vis: usize = if text.height >= 1 { text.height as usize } else { 1 };
    (vis, total.saturating_sub(vis))
}

/// Effect of a key on the scroll `s` of the open dialog in `area` over `total` lines: the new
/// scroll and the answer, or `None` for a key the dialog does not take. Esc and q close it; Up/k
/// and Down/j move one line, PageUp and PageDown one view, Home and End to the ends; the scroll
/// stays within 0 and `max_scroll`.
pub open spec fn help_key_outcome(s: int, area: Rect, total: int, code: KeyCode) -> Option<(int, AppAction)> {
    let m = max_scroll(area, total);
    let v = view_rows(area);
    if code == KeyCode::Esc || code == KeyCode::Char('q') {
        Some((s, AppAction::HelpClose))
    } else if code == KeyCode::Up || code == KeyCode::Char('k') {
        Some((min_of(sat_sub(s, 1), m), AppAction::Continue))
    } else if code == KeyCode::Down || code == KeyCode::Char('j') {
        Some((min_of(s + 1, m), AppAction::Continue))
    } else if code == KeyCode::PageUp {
        Some((min_of(sat_sub(s, v), m), AppAction::Continue))
    } else if code == KeyCode::PageDown {
        Some((min_of(s + v, m), AppAction::Continue))
    } else if code == KeyCode::Home {
        Some((0, AppAction::Continue))
    } else if code == KeyCode::End {
        Some((m, AppAction::Continue))
    } else {
        None
    }
}

/// The scroll after a key (see `help_key_outcome`), for any dialog laid out as this one.
pub fn key_scroll(scroll: usize, area: Rect, total: usize, code: KeyCode) -> (r: Option<(usize, AppAction)>)
    requires
        area_fits(area),
    ensures
        match help_key_outcome(scroll as int, area, total as int, code) {
            None => r is None,
            Some((s, a)) => r matches Some((t, b)) && t == s && b == a,
        },
{
    let (vis, m) = max_scroll_exec(area, total);
    if code == KeyCode::Esc || code == KeyCode::Char('q') {
        Some((scroll, AppAction::HelpClose))
    } else if code == KeyCode::Up || code == KeyCode::Char('k') {
        let t = scroll.saturating_sub(1);
        Some((if t < m { t } else { m }, AppAction::Continue))
    } else if code == KeyCode::Down || code == KeyCode::Char('j') {
        let t = scroll.saturating_add(1);
        Some((if t < m { t } else { m }, AppAction::Continue))
    } else if code == KeyCode::PageUp {
        let t = scroll.saturating_sub(vis);
        Some((if t < m { t } else { m }, AppAction::Continue))
    } else if code == KeyCode::PageDown {
        let t = scroll.saturating_add(vis);
        Some((if t < m { t } else { m }, AppAction::Continue))
    } else if code == KeyCode::Home {
        Some((0, AppAction::Continue))
    } else if code == KeyCode::End {
        Some((m, AppAction::Continue))
    } else {
        None
    }
}

/// A key for the dialog in `area` showing `total` lines (see `help_key_outcome`); `None` when
/// the dialog is not open or does not take the key.
pub fn handle_key(app: &mut AppState, code: KeyCode, _modifiers: KeyModifiers, area: Rect, total: usize) -> (r: Option<AppAction>)
    requires
        area_fits(area),
    ensures
        match old(app).help_dialog {
            None => r is None && *final(app) == *old(app),
            Some(d) => match help_key_outcome(d.scroll as int, area, total as int, code) {
                None => r is None && *final(app) == *old(app),
                Some((s, a)) => {
                    &&& r == Some(a)
                    &&& final(app).help_dialog matches Some(nd) && nd.scroll == s
                    &&& *final(app) == (AppState { help_dialog: final(app).help_dialog, ..*old(app) })
                },
            },
        },
{
    let scroll = match &app.help_dialog {
        Some(d) => d.scroll,
        None => return None,
    };
    match key_scroll(scroll, area, total, code) {
        Some((s, a)) => {
            app.help_dialog = Some(HelpDialogState { scroll: s });
            Some(a)
        },
        None => None,
    }
}

/// Effect of a mouse event at (col, row) on the scroll `s` of the open dialog in `area` over
/// `total` lines: the new scroll and the answer. The wheel over the dialog scrolls by
/// `WHEEL_LINES`; a click outside closes it; a click on the scroll bar, when the text can
/// scroll, jumps to the same fraction of the text as of the bar; anything else does nothing.
pub open spec fn help_mouse_outcome(s: int, area: Rect, total: int, kind: MouseKind, col: int, row: int) -> (int, AppAction) {
    let (rect, _text, bar) = help_layout_spec(area);
    let m = max_scroll(area, total);
    let v = view_rows(area);
    match kind {
        MouseKind::ScrollUp => (if rect_contains(rect, col, row) { min_of(sat_sub(s, WHEEL_LINES as int), m) } else { s }, AppAction::Continue),
        MouseKind::ScrollDown => (if rect_contains(rect, col, row) { min_of(s + WHEEL_LINES, m) } else { s }, AppAction::Continue),
        MouseKind::LeftDown => if !rect_contains(rect, col, row) {
            (s, AppAction::HelpClose)
        } else if m > 0 && rect_contains(bar, col, row) {
            let rel = sat_sub(row, bar.y as int);
            (if v > 1 { min_of(rel * m / (v - 1), m) } else { m }, AppAction::Continue)
        } else {
            (s, AppAction::Continue)
        },
        _ => (s, AppAction::Continue),
    }
}

/// The scroll after a mouse event (see `help_mouse_outcome`), for any dialog laid out as this
/// one.
pub fn mouse_scroll(scroll: usize, area: Rect, total: usize, kind: MouseKind, col: u16, row: u16) -> (r: (usize, AppAction))
    requires
        area_fits(area),
    ensures
        r.0 as int == help_mouse_outcome(scroll as int, area, total as int, kind, col as int, row as int).0,
        r.1 == help_mouse_outcome(scroll as int, area, total as int, kind, col as int, row as int).1,
{
    let (rect, _text, bar) = help_layout(area);
    let (vis, m) = max_scroll_exec(area, total);
    let in_dialog = pointer_in(rect, col, row);
    match kind {
        MouseKind::ScrollUp => {
            let t = scroll.saturating_sub(WHEEL_LINES);
            (if in_dialog { if t < m { t } else { m } } else { scroll }, AppAction::Continue)
        },
        MouseKind::ScrollDown => {
            let t = scroll.saturating_add(WHEEL_LINES);
            (if in_dialog { if t < m { t } else { m } } else { scroll }, AppAction::Continue)
        },
        MouseKind::LeftDown => {
            if !in_dialog {
                (scroll, AppAction::HelpClose)
            } else if m > 0 && pointer_in(bar, col, row) {
                let rel: u16 = row.saturating_sub(bar.y);
                if vis > 1 {
                    let r128: u128 = rel as u128;
                    let m128: u128 = m as u128;
                    assert(r128 * m128 <= 65535 * 0xffff_ffff_ffff_ffffu128) by (nonlinear_arith)
                        requires
                            r128 <= 65535,
                            m128 <= 0xffff_ffff_ffff_ffffu128,
                    ;
                    let wide: u128 = r128 * m128;
                    let q: u128 = wide / ((vis - 1) as u128);
                    (if q < m as u128 { q as usize } else { m }, AppAction::Continue)
                } else {
                    (m, AppAction::Continue)
                }
            } else {
                (scroll, AppAction::Continue)
            }
        },
        _ => (scroll, AppAction::Continue),
    }
}

/// A mouse event for the dialog in `area` showing `total` lines (see `help_mouse_outcome`);
/// `None` when the dialog is not open.
pub fn handle_mouse(app: &mut AppState, kind: MouseKind, col: u16, row: u16, area: Rect, total: usize) -> (r: Option<AppAction>)
    requires
        area_fits(area),
    ensures
        match old(app).help_dialog {
            None => r is None && *final(app) == *old(app),
            Some(d) => {
                let (s, a) = help_mouse_outcome(d.scroll as int, area, total as int, kind, col as int, row as int);
                &&& r == Some(a)
                &&& final(app).help_dialog matches Some(nd) && nd.scroll == s
                &&& *final(app) == (AppState { help_dialog: final(app).help_dialog, ..*old(app) })
            },
        },
{
    let scroll = match &app.help_dialog {
        Some(d) => d.scroll,
        None => return None,
    };
    let (s, a) = mouse_scroll(scroll, area, total, kind, col, row);
    app.help_dialog = Some(HelpDialogState { scroll: s });
    Some(a)
}

/// Keys and mouse events keep the scroll between the top and `max_scroll`.
pub proof fn law_help_scroll_stays_in_range(s: int, area: Rect, total: int, code: KeyCode, kind: MouseKind, col: int, row: int)
    requires
        0 <= s <= max_scroll(area, total),
    ensures
        help_key_outcome(s, area, total, code) matches Some((t, _)) ==> 0 <= t <= max_scroll(area, total),
        0 <= help_mouse_outcome(s, area, total, kind, col, row).0 <= max_scroll(area, total),
{
    let (rect, _text, bar) = help_layout_spec(area);
    let m = max_scroll(area, total);
    let v = view_rows(area);
    let rel = sat_sub(row, bar.y as int);
    if m > 0 && v > 1 {
        assert(rel * m / (v - 1) >= 0) by (nonlinear_arith)
            requires
                rel >= 0,
                m > 0,
                v > 1,
        ;
    }
}

/// The scroll bar's thumb for a bar of `rows` rows over `total` lines scrolled to `scroll`:
/// `None` when there is no bar or nothing to scroll; else (first row, rows) with a height in
/// proportion to the part shown (at least one row) and a position in proportion to the scroll.
pub open spec fn thumb_of(rows: int, scroll: int, total: int) -> Option<(int, int)> {
    let m = sat_sub(total, rows);
    if rows == 0 || m == 0 {
        None
    } else {
        let h = min_of(max_of((rows * rows + total - 1) / total, 1), rows);
        Some((scroll * (rows - h) / m, h))
    }
}

pub fn scrollbar_thumb(rows: u16, scroll: usize, total: usize) -> (r: Option<(usize, usize)>)
    ensures
        match r {
            Some((top, h)) => thumb_of(rows as int, scroll as int, total as int) == Some((top as int, h as int)),
            None => thumb_of(rows as int, scroll as int, total as int) is None,
        },
{
    let vis = rows as usize;
    let m = total.saturating_sub(vis);
    if vis == 0 || m == 0 {
        return None;
    }
    let v128: u128 = vis as u128;
    let t128: u128 = total as u128;
    assert(v128 * v128 <= 65535 * 65535) by (nonlinear_arith)
        requires
            v128 <= 65535,
    ;
    let q128: u128 = (v128 * v128 + t128 - 1) / t128;
    let h: usize = if q128 < 1 { 1 } else if q128 >= v128 { vis } else { q128 as usize };
    proof {
        let v = vis as int;
        let t = total as int;
        let q = q128 as int;
        assert(q * t >= v * v) by (nonlinear_arith)
            requires
                t >= 1,
                v >= 0,
                q == (v * v + t - 1) / t,
        ;
        if h < vis {
            assert(h as int >= q);
            assert(h as int * t >= v * v) by (nonlinear_arith)
                requires
                    h as int >= q,
                    q * t >= v * v,
                    t >= 1,
            ;
            assert((v - t) * (v - t) >= 0) by (nonlinear_arith);
            assert(h as int >= 2 * v - t) by (nonlinear_arith)
                requires
                    h as int * t >= v * v,
                    (v - t) * (v - t) >= 0,
                    t >= 1,
            ;
        }
        assert(vis - h <= m);
    }
    let s128: u128 = scroll as u128;
    let d128: u128 = (vis - h) as u128;
    assert(s128 * d128 <= 0xffff_ffff_ffff_ffffu128 * 65535) by (nonlinear_arith)
        requires
            s128 <= 0xffff_ffff_ffff_ffffu128,
            d128 <= 65535,
    ;
    let top128: u128 = s128 * d128 / (m as u128);
    assert(top128 <= s128) by (nonlinear_arith)
        requires
            top128 == s128 * d128 / (m as int),
            d128 <= m,
            m >= 1,
    ;
    let top: usize = top128 as usize;
    Some((top, h))
}

} // verus!
