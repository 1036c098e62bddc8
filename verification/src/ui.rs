//! Text shown in the main screen: the bottom menu bar and the entries of the file lists.
use vstd::prelude::*;

use crate::app_state::{AppState, Focus};
use crate::dialog_layout::{centered_content, centered_dialog, centered_rect};
use crate::dialogs::help_dialog::{area_fits, sat_sub};
use crate::file_ops::FileInfo;
use crate::keys::Rect;
use crate::panel::{PanelOperations, copy_selection};
use crate::panel_backend::{PanelLocation, supports_edit, supports_mkdir};
use crate::strutil::{digit, digit_char, str_eq, string_push, trim_end_char, trim_end_spec};
use crate::subshell::{ascii_lowered, chars_match_at, lower_chars};

verus! {

pub struct Renderer;

/// Labels of the bottom menu bar, left to right; slot `i` is F-key `i + 1`.
pub open spec fn menu_labels() -> Seq<Seq<char>> {
    seq![
        "1 Help"@,
        "2 File"@,
        "3 View"@,
        "4 Edit"@,
        "5 Copy"@,
        "6 Move"@,
        "7 Folder"@,
        "8 Delete"@,
        "9 Settings"@,
        "10 Quit"@,
    ]
}

impl Renderer {
    /// Menu bar items (label, F-key number), used for drawing and hit testing.
    pub fn menu_bar_items() -> (r: Vec<(&'static str, u16)>)
        ensures
            r@.len() == 10,
            forall|i: int| 0 <= i < 10 ==> #[trigger] r@[i].1 == i + 1 && r@[i].0@ == menu_labels()[i],
    {
        let v = vec![
            ("1 Help", 1u16),
            ("2 File", 2u16),
            ("3 View", 3u16),
            ("4 Edit", 4u16),
            ("5 Copy", 5u16),
            ("6 Move", 6u16),
            ("7 Folder", 7u16),
            ("8 Delete", 8u16),
            ("9 Settings", 9u16),
            ("10 Quit", 10u16),
        ];
        v
    }
}

/// Whether menu key `key` (F-key number) can act now: nothing while Find file is open; only
/// Quit from the command line; View and Edit need a selected file (Edit also a location that
/// can be edited); Copy and Move need items to act on and two different directories; Folder
/// needs a location where directories can be made; Delete needs items; the rest always.
pub open spec fn menu_action_available(app: AppState, key: u16, loc: PanelLocation) -> bool {
    let v = app.active_view();
    let selected_file = 0 <= v.sel < v.len() && !v.files[v.sel].is_dir && !v.files[v.sel].spec_is_parent();
    let has_items = copy_selection(v).0.len() > 0;
    if app.find_dialog is Some {
        false
    } else if app.focus == Focus::CommandLine {
        key == 10
    } else if key == 3 {
        selected_file
    } else if key == 4 {
        loc is Fs && selected_file
    } else if key == 5 || key == 6 {
        v.dir != app.opposite_view().dir && has_items
    } else if key == 7 {
        loc is Fs
    } else if key == 8 {
        has_items
    } else {
        true
    }
}

impl Renderer {
    /// Whether menu key `key` can act now (see `menu_action_available`); `loc` is where the
    /// active panel is.
    pub fn is_menu_action_available(app: &AppState, key: u16, loc: &PanelLocation) -> (r: bool)
        requires
            app.wf(),
        ensures
            r == menu_action_available(*app, key, *loc),
    {
        if app.find_dialog.is_some() {
            return false;
        }
        if app.focus == Focus::CommandLine {
            return key == 10;
        }
        let panel = app.active_panel_ref();
        if key == 3 {
            match panel.get_selected_file() {
                Some(f) => !f.is_dir && !f.is_parent_dir(),
                None => false,
            }
        } else if key == 4 {
            supports_edit(loc) && match panel.get_selected_file() {
                Some(f) => !f.is_dir && !f.is_parent_dir(),
                None => false,
            }
        } else if key == 5 || key == 6 {
            let source = app.get_current_dir();
            let target = app.get_opposite_panel_dir();
            let (items, _, _) = panel.get_names_to_copy_with_restore_neighbors();
            !str_eq(source, target) && items.len() > 0
        } else if key == 7 {
            supports_mkdir(loc)
        } else if key == 8 {
            let (items, _, _) = panel.get_names_to_copy_with_restore_neighbors();
            items.len() > 0
        } else {
            true
        }
    }
}

/// An entry as listed in a panel: ".." for the parent entry; otherwise its name after a
/// one-character mark, '/' for a directory, '*' for an executable file, a space otherwise.
pub open spec fn entry_label(f: FileInfo) -> Seq<char> {
    if f.spec_is_parent() {
        seq!['.', '.']
    } else if f.is_dir {
        seq!['/'] + f.name@
    } else if f.is_executable {
        seq!['*'] + f.name@
    } else {
        seq![' '] + f.name@
    }
}

/// `full` fitted to `width` characters: unchanged when it fits, else its first `width - 1`
/// characters and '…'.
pub open spec fn fitted(full: Seq<char>, width: int) -> Seq<char> {
    if full.len() <= width {
        full
    } else {
        full.take(if width >= 1 { width - 1 } else { 0 }).push('…')
    }
}

/// The label of an entry in a column `max_width` characters wide (see `entry_label` and
/// `fitted`).
pub fn truncate_for_width(file: &FileInfo, max_width: usize) -> (r: String)
    ensures
        r@ == (if file.spec_is_parent() { entry_label(*file) } else { fitted(entry_label(*file), max_width as int) }),
{
    if file.is_parent_dir() {
        proof {
            reveal_strlit("..");
        }
        return String::from_str("..");
    }
    let mut full = String::new();
    let mark = if file.is_dir { '/' } else if file.is_executable { '*' } else { ' ' };
    string_push(&mut full, mark);
    full.append(file.name.as_str());
    proof {
        assert(full@ =~= seq![mark] + file.name@);
    }
    truncate_str_ellipsis(full.as_str(), max_width)
}

/// `s` fitted to `max_width` characters (see `fitted`): unchanged when it fits, else its first
/// `max_width - 1` characters and '…'.
pub fn truncate_str_ellipsis(s: &str, max_width: usize) -> (r: String)
    ensures
        r@ == fitted(s@, max_width as int),
{
    let n = s.unicode_len();
    if n <= max_width {
        return s.to_owned();
    }
    let w = if max_width >= 1 { max_width - 1 } else { 0 };
    let mut out = s.substring_char(0, w).to_owned();
    string_push(&mut out, '…');
    proof {
        assert(s@.subrange(0, w as int) =~= s@.take(w as int));
    }
    out
}

/// What chrono writes for the UTC date of Unix time `secs` with the format "%b %e %Y" (month
/// abbreviation, day of the month padded with a space to two places, year); `None` when chrono
/// cannot represent that time.
pub uninterp spec fn utc_date_text_of(secs: int) -> Option<Seq<char>>;

/// The (year, month, day) of the proleptic Gregorian calendar `days` days after 1970-01-01
/// (before it when negative).
pub open spec fn civil_from_days(days: int) -> (int, int, int) {
    let z = days + 719468;
    let era = z / 146097;
    let doe = z - era * 146097;
    let yoe = (doe - doe / 1460 + doe / 36524 - doe / 146096) / 365;
    let doy = doe - (365 * yoe + yoe / 4 - yoe / 100);
    let mp = (5 * doy + 2) / 153;
    let d = doy - (153 * mp + 2) / 5 + 1;
    let m = if mp < 10 { mp + 3 } else { mp - 9 };
    (yoe + era * 400 + (if m <= 2 { 1int } else { 0 }), m, d)
}

/// The English abbreviation of month `m` (1 to 12).
pub open spec fn month_abbrev(m: int) -> Seq<char> {
    let names = seq!["Jan"@, "Feb"@, "Mar"@, "Apr"@, "May"@, "Jun"@, "Jul"@, "Aug"@, "Sep"@, "Oct"@, "Nov"@, "Dec"@];
    names[m - 1]
}

/// The date text of Unix time `secs` in the format "%b %e %Y" for a year from 0 to 9999: month
/// abbreviation, a space, the day padded with a space to two places, a space, and the year in
/// four digits.
#[verifier::opaque]
pub open spec fn date_text(secs: int) -> Seq<char> {
    let (y, m, d) = civil_from_days(secs / 86400);
    let day = if d < 10 { seq![' ', digit_char(d as nat)] } else { two_digits(d) };
    month_abbrev(m) + seq![' '] + day + seq![' '] + two_digits(y / 100) + two_digits(y % 100)
}

/// Unix times whose UTC year lies between 0 and 9999.
pub open spec fn four_digit_year_time(secs: int) -> bool {
    -62167219200 <= secs <= 253402300799
}

/// Formats the UTC date of a Unix time with chrono. Claimed: the result is `utc_date_text_of`
/// of the time, which for a year from 0 to 9999 is `date_text` (chrono's `from_timestamp` takes
/// whole days by Euclidean division, and "%b %e %Y" writes the month abbreviation, the
/// space-padded day and the zero-padded four-digit year).
#[verifier::external_body]
fn utc_date_text(secs: i64) -> (r: Option<String>)
    ensures
        match r {
            Some(t) => utc_date_text_of(secs as int) == Some(t@) && (four_digit_year_time(secs as int)
                ==> t@ == date_text(secs as int)),
            None => utc_date_text_of(secs as int) is None && !four_digit_year_time(secs as int),
        },
{
    chrono::DateTime::from_timestamp(secs, 0).map(|d| d.format("%b %e %Y").to_string())
}

/// `n` (below 100) in two decimal digits.
pub open spec fn two_digits(n: int) -> Seq<char> {
    seq![digit_char((n / 10) as nat), digit_char((n % 10) as nat)]
}

/// A modification time as shown for an entry: the UTC date, a space, and the hour and minute of
/// the UTC time of day as "HH:MM"; `None` when the date cannot be written. For a year from 0 to
/// 9999 the date is `date_text` (see `format_mtime`).
pub open spec fn mtime_text(secs: int) -> Option<Seq<char>> {
    let tod = secs % 86400;
    match utc_date_text_of(secs) {
        Some(d) => Some(d + seq![' '] + two_digits(tod / 3600) + seq![':'] + two_digits((tod % 3600) / 60)),
        None => None,
    }
}

fn push_two_digits(s: &mut String, n: u32)
    requires
        n < 100,
    ensures
        final(s)@ == old(s)@ + two_digits(n as int),
{
    string_push(s, digit((n / 10) as usize));
    string_push(s, digit((n % 10) as usize));
}

/// The modification time `secs` (Unix time) as shown for an entry (see `mtime_text`).
pub fn format_mtime(secs: i64) -> (r: Option<String>)
    ensures
        match r {
            Some(t) => mtime_text(secs as int) == Some(t@),
            None => mtime_text(secs as int) is None,
        },
        four_digit_year_time(secs as int) ==> (r matches Some(t) && t@ == date_text(secs as int) + seq![' ']
            + two_digits((secs as int % 86400) / 3600) + seq![':'] + two_digits(((secs as int % 86400) % 3600) / 60)),
{
    let date = match utc_date_text(secs) {
        Some(d) => d,
        None => return None,
    };
    let r = secs % 86400;
    let tod: i64 = if r < 0 { r + 86400 } else { r };
    assert(tod == secs as int % 86400);
    let mut out = date;
    string_push(&mut out, ' ');
    push_two_digits(&mut out, (tod / 3600) as u32);
    string_push(&mut out, ':');
    push_two_digits(&mut out, ((tod % 3600) / 60) as u32);
    Some(out)
}

/// The name shown in the bottom bar: the selected entry's name without trailing '/', or nothing.
pub open spec fn bottom_bar_name(file: Option<FileInfo>) -> Seq<char> {
    match file {
        Some(f) => trim_end_spec(f.name@, '/'),
        None => Seq::empty(),
    }
}

/// The file name for the bottom bar (no path, no trailing '/').
pub fn filename_for_bottom_bar(file: Option<&FileInfo>) -> (r: String)
    ensures
        r@ == bottom_bar_name(match file { Some(f) => Some(*f), None => None }),
{
    match file {
        None => String::new(),
        Some(f) => trim_end_char(f.name.as_str(), '/').to_owned(),
    }
}

/// Whether an entry is a ZIP archive that can be browsed: a file whose name (trailing '/'
/// ignored, ASCII letters lowered) ends in ".zip".
pub open spec fn is_zip_name(f: FileInfo) -> bool {
    let low = ascii_lowered(trim_end_spec(f.name@, '/'));
    !f.is_dir && low.len() >= 4 && low.skip(low.len() - 4) == seq!['.', 'z', 'i', 'p']
}

pub fn is_zip_file(file: &FileInfo) -> (r: bool)
    ensures
        r == is_zip_name(*file),
{
    if file.is_dir {
        return false;
    }
    let low = lower_chars(trim_end_char(file.name.as_str(), '/'));
    let suffix = vec!['.', 'z', 'i', 'p'];
    if low.len() < 4 {
        return false;
    }
    let at = low.len() - 4;
    let m = chars_match_at(&low, &suffix, at);
    proof {
        assert(low@.subrange(at as int, at + 4) =~= low@.skip(low@.len() - 4));
        assert(suffix@ =~= seq!['.', 'z', 'i', 'p']);
    }
    m
}


/// Height of the "Are you sure?" box: it lists the source and target folders for a copy or a
/// move.
pub open spec fn confirm_height(show_paths: bool) -> int {
    if show_paths { 11 } else { 8 }
}

/// The "Are you sure?" dialog in the screen `area`: its box (at most 60 wide), and its Yes and
/// No buttons, which split the content width in two halves on the two rows above the bottom of
/// the content area.
pub open spec fn confirm_buttons(area: Rect, show_paths: bool) -> (Rect, Rect, Rect) {
    let h = confirm_height(show_paths);
    let c = centered_content(area, 60, h);
    let y = c.y + sat_sub(c.height as int, 2);
    let half = c.width / 2;
    (
        centered_rect(area, 60, h),
        Rect { x: c.x, y: y as u16, width: half as u16, height: 2 },
        Rect { x: (c.x + half) as u16, y: y as u16, width: (c.width - half) as u16, height: 2 },
    )
}

/// The OK button of the error box of the New file dialog: six columns centred on the fifth row
/// of the content area of a box at most 52 wide and 8 high.
pub open spec fn new_file_ok_button(area: Rect) -> Rect {
    let c = centered_content(area, 52, 8);
    Rect { x: (c.x + sat_sub(c.width as int, 6) / 2) as u16, y: (c.y + 4) as u16, width: 6, height: 1 }
}

impl Renderer {
    /// The box and the Yes and No buttons of the "Are you sure?" dialog (see `confirm_buttons`).
    pub fn operation_confirm_button_rects(area: Rect, show_paths: bool) -> (r: Option<(Rect, Rect, Rect)>)
        requires
            area_fits(area),
            area.y + confirm_height(show_paths) <= 65535,
        ensures
            r == Some(confirm_buttons(area, show_paths)),
    {
        let h: u16 = if show_paths { 11 } else { 8 };
        let (rect, c) = centered_dialog(area, 60, h);
        let y = c.y + c.height.saturating_sub(2);
        let half = c.width / 2;
        Some((rect, Rect { x: c.x, y, width: half, height: 2 }, Rect { x: c.x + half, y, width: c.width - half, height: 2 }))
    }

    /// The box of the "File exists" dialog (at most 54 wide, 12 high) and its content area; the
    /// five choices are on the content rows from the third on.
    pub fn overwrite_dialog_layout(area: Rect) -> (r: (Rect, Rect))
        requires
            area_fits(area),
            area.y + 12 <= 65535,
        ensures
            r == (centered_rect(area, 54, 12), centered_content(area, 54, 12)),
    {
        centered_dialog(area, 54, 12)
    }

    /// The box of the copy error dialog (at most 52 wide, 10 high) and its content area; the
    /// three choices are on the content rows from the third on.
    pub fn error_dialog_layout(area: Rect) -> (r: (Rect, Rect))
        requires
            area_fits(area),
            area.y + 10 <= 65535,
        ensures
            r == (centered_rect(area, 52, 10), centered_content(area, 52, 10)),
    {
        centered_dialog(area, 52, 10)
    }

    /// The OK button of the New file error box (see `new_file_ok_button`).
    pub fn new_file_error_ok_rect(area: Rect) -> (r: Option<Rect>)
        requires
            area_fits(area),
            area.y + 8 <= 65535,
            centered_content(area, 52, 8).y + 4 <= 65535,
        ensures
            r == Some(new_file_ok_button(area)),
    {
        let (_rect, c) = centered_dialog(area, 52, 8);
        let ok_w: u16 = 6;
        Some(Rect { x: c.x + c.width.saturating_sub(ok_w) / 2, y: c.y + 4, width: ok_w, height: 1 })
    }
}

} // verus!
