//! Geometry shared by the small modal dialogs: a box centred on the screen, and the content
//! area inside its frame with a horizontal padding.
use vstd::prelude::*;

use crate::dialogs::help_dialog::{area_fits, inner, inner_rect, min_of, sat_sub};
use crate::keys::Rect;

verus! {

/// Columns of padding between a dialog's frame and its content.
pub const DEFAULT_PAD_H: u16 = 2;

/// A box at most `max_w` wide (and four columns narrower than `area`), `h` high, centred in
/// `area`.
pub open spec fn centered_rect(area: Rect, max_w: int, h: int) -> Rect {
    let w = min_of(max_w, sat_sub(area.width as int, 4));
    Rect {
        x: (area.x + sat_sub(area.width as int, w) / 2) as u16,
        y: (area.y + sat_sub(area.height as int, h) / 2) as u16,
        width: w as u16,
        height: h as u16,
    }
}

/// The centred box leaves at least two columns on its right inside the area, or is empty.
pub proof fn lemma_centered_rect_inside(area: Rect, max_w: int, h: int)
    requires
        area_fits(area),
        0 <= max_w <= 65535,
        0 <= h <= 65535,
    ensures
        ({
            let r = centered_rect(area, max_w, h);
            &&& r.x + r.width <= area.x + area.width
            &&& (r.width > 0 ==> r.x + r.width + 2 <= area.x + area.width)
            &&& area.x <= r.x
            &&& area.y <= r.y <= area.y + area.height
            &&& r.width as int == min_of(max_w, sat_sub(area.width as int, 4))
            &&& r.height == h
            &&& (area.y + h <= 65535 ==> r.y + r.height <= 65535)
        }),
{
}

pub fn centered_dialog_rect(area: Rect, max_w: u16, h: u16) -> (r: Rect)
    requires
        area_fits(area),
    ensures
        r == centered_rect(area, max_w as int, h as int),
{
    let limit = area.width.saturating_sub(4);
    let w = if max_w < limit { max_w } else { limit };
    let x = area.x + area.width.saturating_sub(w) / 2;
    let y = area.y + area.height.saturating_sub(h) / 2;
    Rect { x, y, width: w, height: h }
}

/// The content area of a dialog box: inside its one-cell frame, `pad` columns in from each
/// side.
pub open spec fn content_rect(rect: Rect, pad: int) -> Rect {
    let inn = inner_rect(rect, 1, 1);
    Rect {
        x: (inn.x + pad) as u16,
        y: inn.y,
        width: sat_sub(inn.width as int, 2 * pad) as u16,
        height: inn.height,
    }
}

pub fn dialog_content_rect(rect: Rect, pad: u16) -> (r: Rect)
    requires
        rect.width >= 2 ==> rect.x + 1 + pad <= 65535,
        pad <= 32767,
    ensures
        r == content_rect(rect, pad as int),
{
    let inn = inner(rect, 1, 1);
    Rect { x: inn.x + pad, y: inn.y, width: inn.width.saturating_sub(2 * pad), height: inn.height }
}

/// The content area of the box `centered_rect(area, max_w, h)` with the usual padding.
pub open spec fn centered_content(area: Rect, max_w: int, h: int) -> Rect {
    content_rect(centered_rect(area, max_w, h), DEFAULT_PAD_H as int)
}

/// The centred box of a dialog and its content area.
pub fn centered_dialog(area: Rect, max_w: u16, h: u16) -> (r: (Rect, Rect))
    requires
        area_fits(area),
        area.y + h <= 65535,
    ensures
        r.0 == centered_rect(area, max_w as int, h as int),
        r.1 == centered_content(area, max_w as int, h as int),
        r.1.x + r.1.width <= 65535,
        r.1.y + r.1.height <= 65535,
{
    proof {
        lemma_centered_rect_inside(area, max_w as int, h as int);
    }
    let rect = centered_dialog_rect(area, max_w, h);
    let content = dialog_content_rect(rect, DEFAULT_PAD_H);
    (rect, content)
}

} // verus!
