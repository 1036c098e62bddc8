//! One file panel: listing, selection cursor, scroll window, marks and navigation history.
//! Cursor movement follows Midnight Commander: in two-column mode the visible window holds
//! `2 * panel_height` entries and scrolls by half pages or whole columns.
use vstd::prelude::*;

use crate::file_ops::{FileInfo, FileOperations, path_parent, path_file_name};
use crate::file_ops::{path_parent_of, path_file_name_of, path_join_of, clean_name, parent_name};
use crate::strutil::{str_eq, trim_end_char, trim_end_spec};
use crate::dialogs::pattern_select_dialog::{any_alternative_matches, marks_by_pattern, pattern_selects, split_alternatives};
use crate::strutil::strings_view;

verus! {

broadcast use vstd::std_specs::hash::group_hash_axioms;

#[derive(Clone, Copy, PartialEq, Eq, Structural)]
pub enum ViewMode {
    SingleColumn,
    DoubleColumn,
}

// ---------------------------------------------------------------------------
// Cursor and scroll arithmetic, over mathematical integers.
// ---------------------------------------------------------------------------

/// The panel height actually used: at least one row.
pub open spec fn rows(h: int) -> int {
    if h < 1 { 1 } else { h }
}

pub open spec fn sat_sub(a: int, b: int) -> int {
    if a >= b { a - b } else { 0 }
}

pub open spec fn min_int(a: int, b: int) -> int {
    if a <= b { a } else { b }
}

/// Single-column scroll: the smallest change that brings `sel` into `[scroll, scroll + rows)`.
pub open spec fn single_scroll(sel: int, scroll: int, h: int) -> int {
    if sel >= scroll + rows(h) {
        sel - rows(h) + 1
    } else if sel < scroll {
        sel
    } else {
        scroll
    }
}

/// Two-column adjustment of (selection, scroll): the selection is clamped into the listing and
/// the window top into `[sel - page + 1, sel] ∩ [0, len - page]`, moving it as little as possible.
pub open spec fn double_adjust(len: int, sel: int, scroll: int, h: int) -> (int, int) {
    let page = 2 * rows(h);
    if len <= page {
        (sel, 0)
    } else {
        let sel1 = min_int(sel, len - 1);
        let max_top = len - page;
        let s1 = min_int(scroll, max_top);
        let s2 = if sel1 < s1 { sel1 } else { s1 };
        let min_top = sat_sub(sel1, page - 1);
        let s3 = if s2 < min_top { min_int(min_top, max_top) } else { s2 };
        let s4 = if s3 > sel1 { sel1 } else { s3 };
        (sel1, s4)
    }
}

pub open spec fn after_move_up(dc: bool, len: int, sel: int, scroll: int, h: int) -> (int, int) {
    if sel > 0 {
        let s = sel - 1;
        if dc {
            let sc = if s < scroll { sat_sub(scroll, rows(h)) } else { scroll };
            double_adjust(len, s, sc, h)
        } else {
            (s, single_scroll(s, scroll, h))
        }
    } else {
        (sel, scroll)
    }
}

pub open spec fn after_move_down(dc: bool, len: int, sel: int, scroll: int, h: int) -> (int, int) {
    if len > 0 && sel < len - 1 {
        let s = sel + 1;
        if dc {
            let page = 2 * rows(h);
            let sc = if s == scroll + page {
                min_int(scroll + rows(h), sat_sub(len, page))
            } else {
                scroll
            };
            double_adjust(len, s, sc, h)
        } else {
            (s, single_scroll(s, scroll, h))
        }
    } else {
        (sel, scroll)
    }
}

pub open spec fn after_page_up(dc: bool, len: int, sel: int, scroll: int, h: int) -> (int, int) {
    if dc {
        let page = 2 * rows(h);
        if len == 0 || (sel == 0 && scroll == 0) {
            (sel, scroll)
        } else {
            let items = min_int(page, scroll);
            if items == 0 {
                double_adjust(len, 0, scroll, h)
            } else {
                double_adjust(len, sat_sub(sel, items), scroll - items, h)
            }
        }
    } else {
        let s = if sel < rows(h) { 0 } else { sel - rows(h) };
        (s, single_scroll(s, scroll, h))
    }
}

pub open spec fn after_page_down(dc: bool, len: int, sel: int, scroll: int, h: int) -> (int, int) {
    if len == 0 || sel >= len - 1 {
        (sel, scroll)
    } else if dc {
        let page = 2 * rows(h);
        let max_scroll = sat_sub(len, page);
        let items1 = if scroll > sat_sub(max_scroll, page) {
            sat_sub(sat_sub(len, page), scroll)
        } else {
            page
        };
        let items2 = if scroll + items1 > max_scroll { sat_sub(max_scroll, scroll) } else { items1 };
        if items2 == 0 {
            double_adjust(len, len - 1, scroll, h)
        } else {
            double_adjust(len, min_int(sel + items2, len - 1), scroll + items2, h)
        }
    } else {
        let s = if sel + rows(h) >= len { len - 1 } else { sel + rows(h) };
        (s, single_scroll(s, scroll, h))
    }
}

/// After a column move to `s`: shift the window by one column when `s` left it, then clamp.
pub open spec fn column_scroll(len: int, s: int, scroll: int, h: int) -> int {
    let page = 2 * rows(h);
    let adj1 = s >= scroll + page;
    let sc1 = if adj1 { scroll + rows(h) } else { scroll };
    let adj2 = s < sc1;
    let sc2 = if adj2 { sat_sub(sc1, rows(h)) } else { sc1 };
    if adj1 || adj2 {
        min_int(min_int(sc2, s), sat_sub(len, page))
    } else {
        sc2
    }
}

pub open spec fn after_move_left(len: int, sel: int, scroll: int, h: int) -> (int, int) {
    if len == 0 || sel >= len {
        (sel, scroll)
    } else {
        let s = min_int(sat_sub(sel, rows(h)), len - 1);
        double_adjust(len, s, column_scroll(len, s, scroll, h), h)
    }
}

pub open spec fn after_move_right(len: int, sel: int, scroll: int, h: int) -> (int, int) {
    if len == 0 || sel >= sat_sub(len, 1) {
        (sel, scroll)
    } else {
        let s = min_int(sel + rows(h), len - 1);
        double_adjust(len, s, column_scroll(len, s, scroll, h), h)
    }
}

/// The selection lies inside the two-column window, and the window inside the listing.
pub open spec fn visible_double(len: int, sel: int, scroll: int, h: int) -> bool {
    let page = 2 * rows(h);
    if len <= page {
        scroll == 0
    } else {
        0 <= scroll <= sel < scroll + page && scroll <= len - page
    }
}

/// The selection lies inside the single-column window.
pub open spec fn visible_single(sel: int, scroll: int, h: int) -> bool {
    0 <= scroll <= sel < scroll + rows(h)
}

/// Two-column adjustment of an in-range selection leaves it visible and in range.
pub proof fn law_double_adjust_keeps_selection_visible(len: int, sel: int, scroll: int, h: int)
    requires
        0 <= sel < len,
        0 <= scroll,
    ensures
        visible_double(len, double_adjust(len, sel, scroll, h).0, double_adjust(len, sel, scroll, h).1, h),
        0 <= double_adjust(len, sel, scroll, h).1 <= double_adjust(len, sel, scroll, h).0 < len,
{
}

/// Two-column scrolling for any selection: with everything on one page the window is at the
/// top; otherwise the selection is clamped to the last entry, the window top lies between the
/// lowest top that still shows the selection and the highest top that still fills the page
/// (never past the selection), and a top that already lies there is kept.
pub proof fn law_double_column_scroll(len: int, sel: int, scroll: int, h: int)
    requires
        0 <= sel,
        0 <= scroll,
    ensures
        ({
            let page = 2 * rows(h);
            let (sel2, top) = double_adjust(len, sel, scroll, h);
            if len <= page {
                top == 0 && sel2 == sel
            } else {
                let sel1 = min_int(sel, len - 1);
                &&& sel2 == sel1
                &&& sat_sub(sel1, page - 1) <= top <= min_int(sel1, len - page)
                &&& (sat_sub(sel1, page - 1) <= scroll <= min_int(sel1, len - page) ==> top == scroll)
            }
        }),
{
}

/// Single-column scrolling leaves a non-negative selection visible.
pub proof fn law_single_scroll_keeps_selection_visible(sel: int, scroll: int, h: int)
    requires
        0 <= sel,
        0 <= scroll,
    ensures
        visible_single(sel, single_scroll(sel, scroll, h), h),
{
}


// ---------------------------------------------------------------------------
// The panel.
// ---------------------------------------------------------------------------

/// Abstract state of a panel.
pub struct PanelView {
    pub view_mode: ViewMode,
    pub dir: Seq<char>,
    pub files: Seq<FileInfo>,
    pub sel: int,
    pub scroll: int,
    pub history: Seq<(Seq<char>, usize)>,
    pub marked: Set<usize>,
    pub show_hidden: bool,
}

impl PanelView {
    /// The selection is inside the listing (0 on an empty one), the window top is not below
    /// it, and only real entries (never "..") are marked.
    pub open spec fn wf(self) -> bool {
        &&& self.files.len() == 0 ==> self.sel == 0 && self.scroll == 0
        &&& self.files.len() > 0 ==> 0 <= self.scroll <= self.sel < self.files.len()
        &&& forall|i: usize| #[trigger] self.marked.contains(i) ==> i < self.files.len()
            && !self.files[i as int].spec_is_parent()
    }

    /// The weaker condition that holds between the steps of a cursor movement: the window
    /// top may be past the selection but not past the end of the listing.
    pub open spec fn cursor_in_range(self) -> bool {
        &&& self.files.len() == 0 ==> self.sel == 0 && self.scroll == 0
        &&& self.files.len() > 0 ==> 0 <= self.sel < self.files.len() && 0 <= self.scroll <= self.files.len()
        &&& forall|i: usize| #[trigger] self.marked.contains(i) ==> i < self.files.len()
            && !self.files[i as int].spec_is_parent()
    }

    pub open spec fn dc(self) -> bool {
        self.view_mode == ViewMode::DoubleColumn
    }

    pub open spec fn len(self) -> int {
        self.files.len() as int
    }

    /// The arithmetic of the cursor fits in `usize` for this panel height.
    pub open spec fn fits(self, h: usize) -> bool {
        self.files.len() + 2 * rows(h as int) <= usize::MAX
    }

    /// The selection is visible in the window of the current view mode.
    pub open spec fn selection_visible(self, h: int) -> bool {
        if self.dc() {
            visible_double(self.len(), self.sel, self.scroll, h)
        } else {
            visible_single(self.sel, self.scroll, h)
        }
    }
}

pub struct Panel {
    pub view_mode: ViewMode,
    current_dir: String,
    files: Vec<FileInfo>,
    selected_index: usize,
    scroll_offset: usize,
    navigation_history: Vec<(String, usize)>,
    /// Indices of files marked for group operations.
    marked_indices: std::collections::HashSet<usize>,
    /// When true, names starting with "." are listed.
    show_hidden: bool,
}

pub open spec fn history_view(h: Seq<(String, usize)>) -> Seq<(Seq<char>, usize)> {
    h.map_values(|e: (String, usize)| (e.0@, e.1))
}

impl View for Panel {
    type V = PanelView;

    closed spec fn view(&self) -> PanelView {
        PanelView {
            view_mode: self.view_mode,
            dir: self.current_dir@,
            files: self.files@,
            sel: self.selected_index as int,
            scroll: self.scroll_offset as int,
            history: history_view(self.navigation_history@),
            marked: self.marked_indices@,
            show_hidden: self.show_hidden,
        }
    }
}


pub open spec fn with_cursor(v: PanelView, c: (int, int)) -> PanelView {
    PanelView { sel: c.0, scroll: c.1, ..v }
}

/// The panel after selecting entry `index` (clamped to the last entry) and scrolling so that it
/// is visible; an empty panel stays as it is.
pub open spec fn after_set_selection(p: PanelView, index: int, h: int) -> PanelView {
    if p.len() == 0 {
        p
    } else {
        let v = with_cursor(p, (min_int(index, p.len() - 1), p.scroll));
        if v.dc() {
            with_cursor(v, double_adjust(v.len(), v.sel, v.scroll, h))
        } else {
            with_cursor(v, (v.sel, single_scroll(v.sel, v.scroll, h)))
        }
    }
}

fn rows_exec(panel_height: usize) -> (h: usize)
    ensures
        h as int == rows(panel_height as int),
{
    if panel_height < 1 { 1 } else { panel_height }
}

fn min_usize(a: usize, b: usize) -> (r: usize)
    ensures
        r as int == min_int(a as int, b as int),
{
    if a <= b { a } else { b }
}

/// `marked` with `i` added when absent and removed when present.
pub open spec fn toggled(marked: Set<usize>, i: usize) -> Set<usize> {
    if marked.contains(i) { marked.remove(i) } else { marked.insert(i) }
}

/// The marks after inverting: every real entry flips, ".." stays unmarked.
pub open spec fn inverted(files: Seq<FileInfo>, marked: Set<usize>) -> Set<usize> {
    Set::new(|i: usize| i < files.len() && !files[i as int].spec_is_parent() && !marked.contains(i))
}

/// Name and kind of the marked real entries among the first `k`, in listing order.
pub open spec fn marked_items(files: Seq<FileInfo>, marked: Set<usize>, k: int) -> Seq<(Seq<char>, bool)>
    decreases k,
{
    if k <= 0 {
        seq![]
    } else {
        let prev = marked_items(files, marked, k - 1);
        if marked.contains((k - 1) as usize) && !files[k - 1].spec_is_parent() {
            prev.push((files[k - 1].name@, files[k - 1].is_dir))
        } else {
            prev
        }
    }
}

/// The smallest marked index.
pub open spec fn first_marked(marked: Set<usize>) -> usize {
    choose|i: usize| marked.contains(i) && forall|j: usize| #[trigger] marked.contains(j) ==> i <= j
}

/// Items to operate on, plus the names of the entries just after and just before the block
/// that starts at `first` and holds `items.len()` entries ("..", or none, gives `None`).
pub open spec fn with_neighbors(files: Seq<FileInfo>, first: int, items: Seq<(Seq<char>, bool)>) -> (
    Seq<(Seq<char>, bool)>,
    Option<Seq<char>>,
    Option<Seq<char>>,
) {
    let after = first + items.len();
    let name_after = if after < files.len() && !files[after].spec_is_parent() {
        Some(files[after].name@)
    } else {
        None
    };
    let name_before = if first > 0 && !files[first - 1].spec_is_parent() {
        Some(files[first - 1].name@)
    } else {
        None
    };
    (items, name_after, name_before)
}

/// What a group operation (copy, move, delete, size) acts on: the marked entries, or else the
/// selected entry unless it is ".."; with the names to reselect afterwards (after, before).
pub open spec fn copy_selection(v: PanelView) -> (
    Seq<(Seq<char>, bool)>,
    Option<Seq<char>>,
    Option<Seq<char>>,
) {
    if v.files.len() == 0 {
        (seq![], None, None)
    } else if v.marked.is_empty() {
        let f = v.files[v.sel];
        if f.spec_is_parent() {
            (seq![], None, None)
        } else {
            with_neighbors(v.files, v.sel, seq![(f.name@, f.is_dir)])
        }
    } else {
        with_neighbors(v.files, first_marked(v.marked) as int, marked_items(v.files, v.marked, v.files.len() as int))
    }
}

pub open spec fn items_view(items: Seq<(String, bool)>) -> Seq<(Seq<char>, bool)> {
    items.map_values(|e: (String, bool)| (e.0@, e.1))
}

pub open spec fn opt_view(o: Option<String>) -> Option<Seq<char>> {
    match o {
        Some(s) => Some(s@),
        None => None,
    }
}

pub open spec fn files_view(listing: Option<Vec<FileInfo>>) -> Option<Seq<FileInfo>> {
    match listing {
        Some(v) => Some(v@),
        None => None,
    }
}

/// Re-reading the listing: marks are dropped; on success the cursor returns to the top.
pub open spec fn after_refresh(v: PanelView, listing: Option<Seq<FileInfo>>) -> PanelView {
    match listing {
        Some(files) => PanelView { files, sel: 0, scroll: 0, marked: Set::empty(), ..v },
        None => PanelView { marked: Set::empty(), ..v },
    }
}

/// The directory that Enter on the selection opens: the parent for "..", the joined path for
/// another directory, nothing for a file.
pub open spec fn enter_target(v: PanelView) -> Option<Seq<char>> {
    if 0 <= v.sel < v.files.len() && v.files[v.sel].is_dir {
        if v.files[v.sel].spec_is_parent() {
            path_parent_of(v.dir)
        } else {
            Some(path_join_of(v.dir, clean_name(v.files[v.sel].name@)))
        }
    } else {
        None
    }
}

/// Entering `new_path`: the old place goes on the history, the cursor to the top.
pub open spec fn after_navigate_to(v: PanelView, new_path: Seq<char>, listing: Option<Seq<FileInfo>>) -> PanelView {
    after_refresh(
        PanelView {
            marked: Set::empty(),
            history: v.history.push((v.dir, v.sel as usize)),
            dir: new_path,
            sel: 0,
            scroll: 0,
            ..v
        },
        listing,
    )
}

/// First index `>= k` of a real directory whose name, without trailing '/', is `name`.
pub open spec fn find_dir_from(files: Seq<FileInfo>, name: Seq<char>, k: int) -> Option<int>
    decreases files.len() - k,
{
    if k < 0 || k >= files.len() {
        None
    } else if files[k].is_dir && !files[k].spec_is_parent() && trim_end_spec(files[k].name@, '/') == name {
        Some(k)
    } else {
        find_dir_from(files, name, k + 1)
    }
}

/// Going up: on success the directory just left is selected in the parent listing.
pub open spec fn after_navigate_to_parent(v: PanelView, listing: Option<Seq<FileInfo>>) -> PanelView {
    match path_parent_of(v.dir) {
        None => v,
        Some(parent) => match listing {
            None => PanelView {
                marked: Set::empty(),
                history: v.history.push((v.dir, v.sel as usize)),
                dir: parent,
                scroll: 0,
                ..v
            },
            Some(files) => {
                let base = PanelView { files, sel: 0, scroll: 0, marked: Set::empty(), dir: parent, ..v };
                match path_file_name_of(v.dir) {
                    Some(prev_name) => match find_dir_from(files, prev_name, 0) {
                        Some(i) => PanelView { sel: i, ..base },
                        None => base,
                    },
                    None => base,
                }
            },
        },
    }
}

pub open spec fn after_enter(v: PanelView, listing: Option<Seq<FileInfo>>) -> PanelView {
    if 0 <= v.sel < v.files.len() && v.files[v.sel].is_dir {
        if v.files[v.sel].spec_is_parent() {
            after_navigate_to_parent(v, listing)
        } else {
            after_navigate_to(v, path_join_of(v.dir, clean_name(v.files[v.sel].name@)), listing)
        }
    } else {
        v
    }
}

/// First index `>= k` of a real entry whose name, without trailing '/', is `name`.
pub open spec fn find_named_from(files: Seq<FileInfo>, name: Seq<char>, k: int) -> Option<int>
    decreases files.len() - k,
{
    if k < 0 || k >= files.len() {
        None
    } else if !files[k].spec_is_parent() && trim_end_spec(files[k].name@, '/') == name {
        Some(k)
    } else {
        find_named_from(files, name, k + 1)
    }
}

proof fn lemma_find_named_in_range(files: Seq<FileInfo>, name: Seq<char>, k: int)
    ensures
        find_named_from(files, name, k) matches Some(i) ==> 0 <= k <= i < files.len(),
    decreases files.len() - k,
{
    if 0 <= k < files.len() {
        lemma_find_named_in_range(files, name, k + 1);
    }
}

proof fn lemma_skip_parents_range(files: Seq<FileInfo>, k: int)
    requires
        0 <= k <= files.len(),
    ensures
        k <= skip_parents(files, k) <= files.len(),
    decreases files.len() - k,
{
    if k < files.len() {
        lemma_skip_parents_range(files, k + 1);
    }
}

pub open spec fn find_opt(files: Seq<FileInfo>, name: Option<Seq<char>>) -> Option<int> {
    match name {
        Some(n) => find_named_from(files, trim_end_spec(n, '/'), 0),
        None => None,
    }
}

/// The first index `>= k` that is not "..", or the length when there is none.
pub open spec fn skip_parents(files: Seq<FileInfo>, k: int) -> int
    decreases files.len() - k,
{
    if 0 <= k < files.len() && files[k].spec_is_parent() {
        skip_parents(files, k + 1)
    } else {
        k
    }
}

/// Selection after re-reading: the entry named `after`, else the one named `before`, else the
/// last entry; moved forward off "..", and kept inside the listing.
pub open spec fn restore_index(files: Seq<FileInfo>, after: Option<Seq<char>>, before: Option<Seq<char>>) -> int {
    let s0 = match find_opt(files, after) {
        Some(i) => i,
        None => match find_opt(files, before) {
            Some(i) => i,
            None => if files.len() > 0 { files.len() - 1 } else { 0 },
        },
    };
    let s1 = skip_parents(files, s0);
    if s1 >= files.len() && files.len() > 0 { files.len() - 1 } else { s1 }
}

pub open spec fn after_restore(v: PanelView, after: Option<Seq<char>>, before: Option<Seq<char>>, h: Option<usize>, listing: Option<Seq<FileInfo>>) -> PanelView {
    match listing {
        None => PanelView { marked: Set::empty(), ..v },
        Some(files) => {
            let base = PanelView { files, sel: restore_index(files, after, before), scroll: 0, marked: Set::empty(), ..v };
            match h {
                None => base,
                Some(ph) => if base.dc() {
                    with_cursor(base, double_adjust(base.len(), base.sel, 0, ph as int))
                } else {
                    with_cursor(base, (base.sel, single_scroll(base.sel, 0, ph as int)))
                },
            }
        },
    }
}

pub open spec fn str_opt_view(o: Option<&str>) -> Option<Seq<char>> {
    match o {
        Some(s) => Some(s@),
        None => None,
    }
}

/// Cursor movement, marking and queries of a panel.
pub trait PanelOperations: View<V = PanelView> {
    fn move_up(&mut self, panel_height: usize)
        requires
            old(self)@.wf(),
            old(self)@.fits(panel_height),
        ensures
            final(self)@ == with_cursor(old(self)@, after_move_up(old(self)@.dc(), old(self)@.len(), old(self)@.sel, old(self)@.scroll, panel_height as int)),
            final(self)@.wf(),
            old(self)@.sel > 0 ==> final(self)@.selection_visible(panel_height as int),
    ;

    fn move_down(&mut self, panel_height: usize)
        requires
            old(self)@.wf(),
            old(self)@.fits(panel_height),
        ensures
            final(self)@ == with_cursor(old(self)@, after_move_down(old(self)@.dc(), old(self)@.len(), old(self)@.sel, old(self)@.scroll, panel_height as int)),
            final(self)@.wf(),
            old(self)@.sel + 1 < old(self)@.len() ==> final(self)@.selection_visible(panel_height as int),
    ;

    fn page_up(&mut self, panel_height: usize)
        requires
            old(self)@.wf(),
            old(self)@.fits(panel_height),
        ensures
            final(self)@ == with_cursor(old(self)@, after_page_up(old(self)@.dc(), old(self)@.len(), old(self)@.sel, old(self)@.scroll, panel_height as int)),
            final(self)@.wf(),
            old(self)@.sel > 0 ==> final(self)@.selection_visible(panel_height as int),
    ;

    fn page_down(&mut self, panel_height: usize)
        requires
            old(self)@.wf(),
            old(self)@.fits(panel_height),
        ensures
            final(self)@ == with_cursor(old(self)@, after_page_down(old(self)@.dc(), old(self)@.len(), old(self)@.sel, old(self)@.scroll, panel_height as int)),
            final(self)@.wf(),
            old(self)@.sel + 1 < old(self)@.len() ==> final(self)@.selection_visible(panel_height as int),
    ;

    /// Moves the cursor one column (`panel_height` entries) back; the result is visible in the
    /// two-column window.
    fn smart_move_left(&mut self, panel_height: usize)
        requires
            old(self)@.wf(),
            old(self)@.fits(panel_height),
        ensures
            final(self)@ == with_cursor(old(self)@, after_move_left(old(self)@.len(), old(self)@.sel, old(self)@.scroll, panel_height as int)),
            final(self)@.wf(),
            old(self)@.len() > 0 ==> visible_double(final(self)@.len(), final(self)@.sel, final(self)@.scroll, panel_height as int),
    ;

    /// Moves the cursor one column forward; the result is visible in the two-column window.
    fn smart_move_right(&mut self, panel_height: usize)
        requires
            old(self)@.wf(),
            old(self)@.fits(panel_height),
        ensures
            final(self)@ == with_cursor(old(self)@, after_move_right(old(self)@.len(), old(self)@.sel, old(self)@.scroll, panel_height as int)),
            final(self)@.wf(),
            old(self)@.sel + 1 < old(self)@.len() ==> visible_double(final(self)@.len(), final(self)@.sel, final(self)@.scroll, panel_height as int),
    ;

    fn get_selected_index(&self) -> (r: usize)
        ensures
            r == self@.sel,
    ;

    fn get_scroll_offset(&self) -> (r: usize)
        ensures
            r == self@.scroll,
    ;

    fn get_view_mode(&self) -> (r: ViewMode)
        ensures
            r == self@.view_mode,
    ;

    fn set_view_mode(&mut self, mode: ViewMode)
        ensures
            final(self)@ == (PanelView { view_mode: mode, ..old(self)@ }),
    ;

    fn get_current_dir(&self) -> (r: &str)
        ensures
            r@ == self@.dir,
    ;

    fn get_files(&self) -> (r: &[FileInfo])
        ensures
            r@ == self@.files,
    ;

    fn get_selected_file(&self) -> (r: Option<&FileInfo>)
        ensures
            r == (if 0 <= self@.sel < self@.len() { Some(&self@.files[self@.sel]) } else { None }),
    ;

    fn is_marked(&self, index: usize) -> (r: bool)
        ensures
            r == self@.marked.contains(index),
    ;

    /// Toggles the mark of the selected entry (never of "..") and moves the cursor down.
    fn toggle_mark_and_move_next(&mut self, panel_height: usize)
        requires
            old(self)@.wf(),
            old(self)@.fits(panel_height),
        ensures
            final(self)@.wf(),
            old(self)@.len() == 0 ==> final(self)@ == old(self)@,
            old(self)@.len() > 0 ==> final(self)@ == with_cursor(
                PanelView {
                    marked: if old(self)@.files[old(self)@.sel].spec_is_parent() {
                        old(self)@.marked
                    } else {
                        toggled(old(self)@.marked, old(self)@.sel as usize)
                    },
                    ..old(self)@
                },
                after_move_down(old(self)@.dc(), old(self)@.len(), old(self)@.sel, old(self)@.scroll, panel_height as int),
            ),
    ;

    /// Every real entry flips its mark; ".." stays unmarked.
    fn invert_selection(&mut self)
        requires
            old(self)@.wf(),
        ensures
            final(self)@.wf(),
            final(self)@ == (PanelView { marked: inverted(old(self)@.files, old(self)@.marked), ..old(self)@ }),
    ;

    /// The entries a group operation acts on, the name after the block and the name before it.
    fn get_names_to_copy_with_restore_neighbors(&self) -> (r: (Vec<(String, bool)>, Option<String>, Option<String>))
        requires
            self@.wf(),
        ensures
            (items_view(r.0@), opt_view(r.1), opt_view(r.2)) == copy_selection(self@),
    ;

    /// Replaces the listing by a fresh read (`None`: the read failed).
    fn refresh_files(&mut self, listing: Option<Vec<FileInfo>>) -> (ok: bool)
        requires
            old(self)@.wf(),
        ensures
            ok == (listing is Some),
            final(self)@ == after_refresh(old(self)@, files_view(listing)),
            final(self)@.wf(),
    ;

    /// The directory whose listing `enter_directory` needs, if Enter opens one.
    fn directory_to_enter(&self) -> (r: Option<String>)
        ensures
            opt_view(r) == enter_target(self@),
    ;

    /// Opens the selected directory (or the parent for ".."), given the listing of
    /// `directory_to_enter()` (`None`: the read failed, reported as `false`).
    fn enter_directory(&mut self, listing: Option<Vec<FileInfo>>) -> (ok: bool)
        requires
            old(self)@.wf(),
        ensures
            final(self)@ == after_enter(old(self)@, files_view(listing)),
            final(self)@.wf(),
            ok == (enter_target(old(self)@) is None || listing is Some),
    ;

    fn update_scroll_offset(&mut self, panel_height: usize)
        requires
            old(self)@.cursor_in_range(),
            old(self)@.fits(panel_height),
        ensures
            final(self)@ == with_cursor(old(self)@, (old(self)@.sel, single_scroll(old(self)@.sel, old(self)@.scroll, panel_height as int))),
            final(self)@.wf(),
            visible_single(final(self)@.sel, final(self)@.scroll, panel_height as int),
    ;

    fn update_scroll_offset_double_column(&mut self, panel_height: usize)
        requires
            old(self)@.fits(panel_height),
        ensures
            final(self)@ == with_cursor(old(self)@, double_adjust(old(self)@.len(), old(self)@.sel, old(self)@.scroll, panel_height as int)),
            old(self)@.cursor_in_range() ==> final(self)@.wf(),
            visible_double(final(self)@.len(), final(self)@.sel, final(self)@.scroll, panel_height as int),
    ;
}

/// PageUp in two columns with the window not at the top: the selection moves up by exactly the
/// amount the window top moves up — one page (two columns of `rows` entries), or the whole
/// distance to the top when less is left — stopping at the first entry, so never more than a
/// page; when the selection was shown in a full window, the window top moves by that amount.
pub proof fn law_page_up_two_columns(len: int, sel: int, scroll: int, h: int)
    requires
        0 <= sel < len,
        0 < scroll,
    ensures
        ({
            let page = 2 * rows(h);
            let m = if page <= scroll { page } else { scroll };
            let (sel2, top2) = after_page_up(true, len, sel, scroll, h);
            &&& sel2 == (if sel >= m { sel - m } else { 0 })
            &&& 0 <= sel - sel2 <= page
            &&& (scroll <= sel < scroll + page && scroll + page <= len ==> top2 == scroll - m)
        }),
{
}

/// PageUp in one column moves the selection up by one screen of `rows` entries, stopping at the
/// first entry, and keeps it visible.
pub proof fn law_page_up_single_column(len: int, sel: int, scroll: int, h: int)
    requires
        0 <= sel < len,
        0 <= scroll,
    ensures
        ({
            let (sel2, top2) = after_page_up(false, len, sel, scroll, h);
            &&& sel2 == (if sel >= rows(h) { sel - rows(h) } else { 0 })
            &&& visible_single(sel2, top2, h)
        }),
{
}

/// Whether entry `i` of a listing is a real directory (not "..") called `name`, a trailing '/'
/// aside.
pub open spec fn dir_called(files: Seq<FileInfo>, i: int, name: Seq<char>) -> bool {
    files[i].is_dir && !files[i].spec_is_parent() && trim_end_spec(files[i].name@, '/') == name
}

proof fn lemma_find_dir_first(files: Seq<FileInfo>, name: Seq<char>, k: int, i: int)
    requires
        0 <= k <= i < files.len(),
        dir_called(files, i, name),
        forall|j: int| k <= j < i ==> !dir_called(files, j, name),
    ensures
        find_dir_from(files, name, k) == Some(i),
    decreases i - k,
{
    if k < i {
        assert(!dir_called(files, k, name));
        lemma_find_dir_first(files, name, k + 1, i);
    }
}

proof fn lemma_find_dir_none(files: Seq<FileInfo>, name: Seq<char>, k: int)
    requires
        0 <= k,
        forall|j: int| k <= j < files.len() ==> !dir_called(files, j, name),
    ensures
        find_dir_from(files, name, k) is None,
    decreases files.len() - k,
{
    if k < files.len() {
        assert(!dir_called(files, k, name));
        lemma_find_dir_none(files, name, k + 1);
    }
}

/// Going up to the parent with its listing read: the panel shows the parent's listing from the
/// top, with the directory just left selected — the first real directory of that name — and
/// the first entry when the listing has none.
pub proof fn law_parent_selects_directory_left(v: PanelView, files: Seq<FileInfo>, parent: Seq<char>, left: Seq<char>)
    requires
        path_parent_of(v.dir) == Some(parent),
        path_file_name_of(v.dir) == Some(left),
    ensures
        ({
            let r = after_navigate_to_parent(v, Some(files));
            &&& r.dir == parent
            &&& r.files == files
            &&& r.scroll == 0
            &&& r.marked == Set::<usize>::empty()
            &&& forall|i: int| 0 <= i < files.len() && dir_called(files, i, left)
                && (forall|j: int| 0 <= j < i ==> !dir_called(files, j, left)) ==> r.sel == i
            &&& (forall|j: int| 0 <= j < files.len() ==> !dir_called(files, j, left)) ==> r.sel == 0
        }),
{
    let r = after_navigate_to_parent(v, Some(files));
    assert forall|i: int| 0 <= i < files.len() && dir_called(files, i, left)
        && (forall|j: int| 0 <= j < i ==> !dir_called(files, j, left)) implies r.sel == i by {
        lemma_find_dir_first(files, left, 0, i);
    }
    if forall|j: int| 0 <= j < files.len() ==> !dir_called(files, j, left) {
        lemma_find_dir_none(files, left, 0);
    }
}

/// Inverting the marks twice restores them: invert_selection is an involution.
pub proof fn law_invert_involution(v: PanelView)
    requires
        v.wf(),
    ensures
        inverted(v.files, inverted(v.files, v.marked)) == v.marked,
{
    assert(inverted(v.files, inverted(v.files, v.marked)) =~= v.marked);
}

/// After inverting, exactly the real entries that were unmarked are marked, and ".." never is.
pub proof fn law_invert_never_marks_parent(v: PanelView, i: usize)
    requires
        v.wf(),
        i < v.files.len(),
    ensures
        inverted(v.files, v.marked).contains(i) <==> (!v.files[i as int].spec_is_parent() && !v.marked.contains(i)),
{
}

proof fn lemma_marked_items_real(files: Seq<FileInfo>, marked: Set<usize>, k: int)
    ensures
        forall|j: int| 0 <= j < marked_items(files, marked, k).len() ==> #[trigger] marked_items(files, marked, k)[j].0 != parent_name(),
    decreases k,
{
    if k > 0 {
        lemma_marked_items_real(files, marked, k - 1);
        let prev = marked_items(files, marked, k - 1);
        if marked.contains((k - 1) as usize) && !files[k - 1].spec_is_parent() {
            assert forall|j: int| 0 <= j < prev.push((files[k - 1].name@, files[k - 1].is_dir)).len() implies #[trigger] prev.push((files[k - 1].name@, files[k - 1].is_dir))[j].0 != parent_name() by {
                if j < prev.len() {
                    assert(prev[j].0 != parent_name());
                }
            }
        }
    }
}

/// A group operation (copy, move, delete, size) never acts on "..".
pub proof fn law_group_items_exclude_parent(v: PanelView)
    requires
        v.wf(),
    ensures
        forall|j: int| 0 <= j < copy_selection(v).0.len() ==> #[trigger] copy_selection(v).0[j].0 != parent_name(),
{
    if v.files.len() > 0 && !v.marked.is_empty() {
        lemma_marked_items_real(v.files, v.marked, v.files.len() as int);
    }
}

proof fn lemma_skip_parents_lands(files: Seq<FileInfo>, k: int)
    requires
        0 <= k <= files.len(),
    ensures
        skip_parents(files, k) < files.len() ==> !files[skip_parents(files, k)].spec_is_parent(),
    decreases files.len() - k,
{
    if k < files.len() {
        lemma_skip_parents_lands(files, k + 1);
    }
}

/// Restoring the selection after a refresh never lands on ".." as long as the last entry of the
/// new listing is a real one.
pub proof fn law_restore_avoids_parent(files: Seq<FileInfo>, after: Option<Seq<char>>, before: Option<Seq<char>>)
    requires
        files.len() > 0,
        !files.last().spec_is_parent(),
    ensures
        0 <= restore_index(files, after, before) < files.len(),
        !files[restore_index(files, after, before)].spec_is_parent(),
{
    match after {
        Some(a) => lemma_find_named_in_range(files, trim_end_spec(a, '/'), 0),
        None => {},
    }
    match before {
        Some(b) => lemma_find_named_in_range(files, trim_end_spec(b, '/'), 0),
        None => {},
    }
    let s0 = match find_opt(files, after) {
        Some(i) => i,
        None => match find_opt(files, before) {
            Some(i) => i,
            None => files.len() - 1,
        },
    };
    lemma_skip_parents_range(files, s0);
    lemma_skip_parents_lands(files, s0);
}

fn find_named(files: &Vec<FileInfo>, name: &str) -> (r: Option<usize>)
    ensures
        match r {
            Some(i) => find_named_from(files@, trim_end_spec(name@, '/'), 0) == Some(i as int),
            None => find_named_from(files@, trim_end_spec(name@, '/'), 0) is None,
        },
        r matches Some(i) ==> i < files@.len(),
{
    proof {
        lemma_find_named_in_range(files@, trim_end_spec(name@, '/'), 0);
    }
    let name_trimmed = trim_end_char(name, '/');
    let n = files.len();
    let mut i: usize = 0;
    while i < n
        invariant
            n == files@.len(),
            i <= n,
            name_trimmed@ == trim_end_spec(name@, '/'),
            find_named_from(files@, name_trimmed@, 0) == find_named_from(files@, name_trimmed@, i as int),
        decreases n - i,
    {
        let f = &files[i];
        if str_eq(trim_end_char(f.name.as_str(), '/'), name_trimmed) && !f.is_parent_dir() {
            return Some(i);
        }
        i = i + 1;
    }
    None
}

impl Panel {
    /// Marks (or, with `mark` off, unmarks) every entry that `pattern` selects (see
    /// `pattern_selects`); nothing else changes.
    pub fn mark_by_pattern(&mut self, pattern: &str, case_sensitive: bool, mark: bool)
        requires
            old(self)@.wf(),
        ensures
            final(self)@ == (PanelView { marked: marks_by_pattern(old(self)@, pattern@, case_sensitive, mark), ..old(self)@ }),
            final(self)@.wf(),
    {
        let alts = split_alternatives(pattern);
        let ghost old_marked = self.marked_indices@;
        let ghost target = marks_by_pattern(old(self)@, pattern@, case_sensitive, mark);
        let n = self.files.len();
        let mut idx: usize = 0;
        while idx < n
            invariant
                n == self.files@.len(),
                idx <= n,
                self@ == (PanelView { marked: self@.marked, ..old(self)@ }),
                old(self)@.wf(),
                old_marked == old(self)@.marked,
                strings_view(alts@) == crate::dialogs::pattern_select_dialog::alternatives(pattern@),
                target == marks_by_pattern(old(self)@, pattern@, case_sensitive, mark),
                forall|i: usize| i < idx ==> (#[trigger] self.marked_indices@.contains(i) <==> target.contains(i)),
                forall|i: usize| i >= idx ==> (#[trigger] self.marked_indices@.contains(i) <==> old_marked.contains(i)),
            decreases n - idx,
        {
            let f = &self.files[idx];
            let selects = !f.is_parent_dir() && any_alternative_matches(&alts, trim_end_char(f.name.as_str(), '/'), case_sensitive);
            assert(selects == pattern_selects(pattern@, self.files@[idx as int], case_sensitive));
            if selects {
                if mark {
                    self.marked_indices.insert(idx);
                } else {
                    self.marked_indices.remove(&idx);
                }
            }
            idx = idx + 1;
        }
        assert(self.marked_indices@ =~= target);
    }
}

impl Panel {
    /// A panel on `dir` showing `files`: two columns, cursor at the top, nothing marked,
    /// hidden files shown.
    pub fn new(dir: String, files: Vec<FileInfo>) -> (p: Self)
        ensures
            p@ == (PanelView {
                view_mode: ViewMode::DoubleColumn,
                dir: dir@,
                files: files@,
                sel: 0,
                scroll: 0,
                history: seq![],
                marked: Set::empty(),
                show_hidden: true,
            }),
            p@.wf(),
    {
        let p = Panel {
            view_mode: ViewMode::DoubleColumn,
            current_dir: dir,
            files,
            selected_index: 0,
            scroll_offset: 0,
            navigation_history: Vec::new(),
            marked_indices: std::collections::HashSet::new(),
            show_hidden: true,
        };
        assert(history_view(p.navigation_history@) =~= seq![]);
        p
    }

    /// Whether the next listing includes names starting with ".".
    pub fn set_show_hidden(&mut self, show: bool)
        ensures
            final(self)@ == (PanelView { show_hidden: show, ..old(self)@ }),
    {
        self.show_hidden = show;
    }

    /// Whether the listing includes names starting with ".".
    pub fn show_hidden(&self) -> (r: bool)
        ensures
            r == self@.show_hidden,
    {
        self.show_hidden
    }

    /// Selects `index` (clamped to the last entry) and scrolls so that it is visible.
    pub fn set_selection(&mut self, index: usize, panel_height: usize)
        requires
            old(self)@.wf(),
            old(self)@.fits(panel_height),
        ensures
            final(self)@.wf(),
            final(self)@ == after_set_selection(old(self)@, index as int, panel_height as int),
            old(self)@.len() > 0 ==> final(self)@.selection_visible(panel_height as int),
    {
        let len = self.files.len();
        if len == 0 {
            return;
        }
        self.selected_index = min_usize(index, len - 1);
        match self.view_mode {
            ViewMode::SingleColumn => self.update_scroll_offset(panel_height),
            ViewMode::DoubleColumn => self.update_scroll_offset_double_column(panel_height),
        }
    }

    /// Re-reads the listing and restores the selection by name: `preferred_after` first, then
    /// `preferred_before`, else the last entry; never on "..". With a height, scrolls so the
    /// selection is visible. `listing` is the fresh read (`None`: it failed, reported as `false`).
    #[verifier::loop_isolation(false)]
    pub fn refresh_files_restore_selection(
        &mut self,
        preferred_after: Option<&str>,
        preferred_before: Option<&str>,
        panel_height: Option<usize>,
        listing: Option<Vec<FileInfo>>,
    ) -> (ok: bool)
        requires
            old(self)@.wf(),
            match (listing, panel_height) {
                (Some(files), Some(h)) => files@.len() + 2 * rows(h as int) <= usize::MAX,
                _ => true,
            },
        ensures
            ok == (listing is Some),
            final(self)@ == after_restore(old(self)@, str_opt_view(preferred_after), str_opt_view(preferred_before), panel_height, files_view(listing)),
            final(self)@.wf(),
            match (listing, panel_height) {
                (Some(_), Some(h)) => final(self)@.len() > 0 ==> final(self)@.selection_visible(h as int),
                _ => true,
            },
    {
        self.marked_indices.clear();
        let files = match listing {
            Some(f) => f,
            None => {
                return false;
            },
        };
        self.files = files;
        self.selected_index = 0;
        self.scroll_offset = 0;
        let n = self.files.len();
        let mut found = false;
        if let Some(name) = preferred_after {
            if let Some(i) = find_named(&self.files, name) {
                self.selected_index = i;
                found = true;
            }
        }
        if !found {
            if let Some(name) = preferred_before {
                if let Some(i) = find_named(&self.files, name) {
                    self.selected_index = i;
                    found = true;
                }
            }
        }
        if !found && n > 0 {
            self.selected_index = n - 1;
        }
        if n > 0 && self.selected_index >= n {
            self.selected_index = n - 1;
        }
        let ghost s0 = self.selected_index as int;
        let ghost before_loop = self@;
        proof {
            lemma_skip_parents_range(self.files@, s0);
        }
        while self.selected_index < n && self.files[self.selected_index].is_parent_dir()
            invariant
                n == self.files@.len(),
                s0 <= self.selected_index <= n,
                skip_parents(self.files@, s0) == skip_parents(self.files@, self.selected_index as int),
                self@ == (PanelView { sel: self@.sel, ..before_loop }),
            decreases n - self.selected_index,
        {
            self.selected_index = self.selected_index + 1;
        }
        if self.selected_index >= n && n > 0 {
            self.selected_index = n - 1;
        }
        assert(self.marked_indices@ =~= Set::empty());
        if let Some(h) = panel_height {
            match self.view_mode {
                ViewMode::DoubleColumn => self.update_scroll_offset_double_column(h),
                ViewMode::SingleColumn => self.update_scroll_offset(h),
            }
        }
        true
    }

    fn navigate_to_directory(&mut self, new_path: String, listing: Option<Vec<FileInfo>>) -> (ok: bool)
        requires
            old(self)@.wf(),
        ensures
            final(self)@ == after_navigate_to(old(self)@, new_path@, files_view(listing)),
            final(self)@.wf(),
            ok == (listing is Some),
    {
        self.marked_indices.clear();
        let here = self.current_dir.clone();
        self.navigation_history.push((here, self.selected_index));
        self.current_dir = new_path;
        self.selected_index = 0;
        self.scroll_offset = 0;
        proof {
            assert(history_view(self.navigation_history@) =~= history_view(old(self).navigation_history@).push((old(self)@.dir, old(self)@.sel as usize)));
        }
        self.refresh_files(listing)
    }

    #[verifier::loop_isolation(false)]
    fn navigate_to_parent(&mut self, listing: Option<Vec<FileInfo>>) -> (ok: bool)
        requires
            old(self)@.wf(),
        ensures
            final(self)@ == after_navigate_to_parent(old(self)@, files_view(listing)),
            final(self)@.wf(),
            ok == (path_parent_of(old(self)@.dir) is None || listing is Some),
    {
        if let Some(parent_path) = path_parent(self.current_dir.as_str()) {
            self.marked_indices.clear();
            let here = self.current_dir.clone();
            self.navigation_history.push((here, self.selected_index));
            self.current_dir = parent_path;
            self.scroll_offset = 0;
            proof {
                assert(history_view(self.navigation_history@) =~= history_view(old(self).navigation_history@).push((old(self)@.dir, old(self)@.sel as usize)));
            }
            match listing {
                Some(files) => {
                    self.files = files;
                    self.selected_index = 0;
                    self.scroll_offset = 0;
                },
                None => {
                    return false;
                },
            }
            if let Some((prev_dir, _)) = self.navigation_history.pop() {
                proof {
                    assert(self.navigation_history@ =~= old(self).navigation_history@);
                    assert(prev_dir@ == old(self)@.dir);
                }
                let ghost base = self@;
                if let Some(prev_name) = path_file_name(prev_dir.as_str()) {
                    let n = self.files.len();
                    let mut i: usize = 0;
                    while i < n
                        invariant
                            n == self.files@.len(),
                            i <= n,
                            self@ == base,
                            base.sel == 0,
                            find_dir_from(self.files@, prev_name@, 0) == find_dir_from(self.files@, prev_name@, i as int),
                        decreases n - i,
                    {
                        let f = &self.files[i];
                        if f.is_dir && !f.is_parent_dir() {
                            let clean = trim_end_char(f.name.as_str(), '/');
                            if str_eq(clean, prev_name.as_str()) {
                                self.selected_index = i;
                                return true;
                            }
                        }
                        i = i + 1;
                    }
                }
            }
        }
        true
    }
}

impl PanelOperations for Panel {
    fn refresh_files(&mut self, listing: Option<Vec<FileInfo>>) -> bool {
        self.marked_indices.clear();
        match listing {
            Some(files) => {
                self.files = files;
                self.selected_index = 0;
                self.scroll_offset = 0;
                true
            },
            None => false,
        }
    }

    fn directory_to_enter(&self) -> Option<String> {
        if self.selected_index < self.files.len() {
            let file = &self.files[self.selected_index];
            if file.is_dir {
                if file.is_parent_dir() {
                    return path_parent(self.current_dir.as_str());
                } else {
                    return Some(FileOperations::join_path(self.current_dir.as_str(), file.name.as_str()));
                }
            }
        }
        None
    }

    fn enter_directory(&mut self, listing: Option<Vec<FileInfo>>) -> bool {
        if self.selected_index < self.files.len() {
            let is_dir = self.files[self.selected_index].is_dir;
            if is_dir {
                if self.files[self.selected_index].is_parent_dir() {
                    return self.navigate_to_parent(listing);
                } else {
                    let new_path = FileOperations::join_path(self.current_dir.as_str(), self.files[self.selected_index].name.as_str());
                    return self.navigate_to_directory(new_path, listing);
                }
            }
        }
        true
    }

    fn get_selected_index(&self) -> usize {
        self.selected_index
    }

    fn get_scroll_offset(&self) -> usize {
        self.scroll_offset
    }

    fn get_view_mode(&self) -> ViewMode {
        self.view_mode
    }

    fn set_view_mode(&mut self, mode: ViewMode) {
        self.view_mode = mode;
    }

    fn get_current_dir(&self) -> &str {
        self.current_dir.as_str()
    }

    fn get_files(&self) -> &[FileInfo] {
        self.files.as_slice()
    }

    fn get_selected_file(&self) -> Option<&FileInfo> {
        if self.selected_index < self.files.len() {
            Some(&self.files[self.selected_index])
        } else {
            None
        }
    }

    fn is_marked(&self, index: usize) -> bool {
        self.marked_indices.contains(&index)
    }

    fn toggle_mark_and_move_next(&mut self, panel_height: usize) {
        if self.files.len() == 0 {
            return;
        }
        let idx = min_usize(self.selected_index, self.files.len() - 1);
        if !self.files[idx].is_parent_dir() {
            if self.marked_indices.contains(&idx) {
                self.marked_indices.remove(&idx);
            } else {
                self.marked_indices.insert(idx);
            }
        }
        self.move_down(panel_height);
    }

    fn invert_selection(&mut self) {
        let ghost old_marked = self.marked_indices@;
        let n = self.files.len();
        let mut idx: usize = 0;
        while idx < n
            invariant
                n == self.files@.len(),
                idx <= n,
                self@.files == old(self)@.files,
                self@ == (PanelView { marked: self@.marked, ..old(self)@ }),
                old(self)@.wf(),
                forall|i: usize| i < idx ==> (#[trigger] self.marked_indices@.contains(i) <==> inverted(self.files@, old_marked).contains(i)),
                forall|i: usize| i >= idx ==> (#[trigger] self.marked_indices@.contains(i) <==> old_marked.contains(i)),
                old_marked == old(self)@.marked,
            decreases n - idx,
        {
            if !self.files[idx].is_parent_dir() {
                if self.marked_indices.contains(&idx) {
                    self.marked_indices.remove(&idx);
                } else {
                    self.marked_indices.insert(idx);
                }
            }
            idx = idx + 1;
        }
        assert(self.marked_indices@ =~= inverted(self.files@, old_marked));
    }

    fn get_names_to_copy_with_restore_neighbors(&self) -> (Vec<(String, bool)>, Option<String>, Option<String>) {
        let n = self.files.len();
        if n == 0 {
            return (Vec::new(), None, None);
        }
        let first_index: usize;
        let mut items: Vec<(String, bool)> = Vec::new();
        if self.marked_indices.is_empty() {
            let f = &self.files[self.selected_index];
            if f.is_parent_dir() {
                return (Vec::new(), None, None);
            }
            first_index = self.selected_index;
            items.push((f.name.clone(), f.is_dir));
            assert(items_view(items@) =~= seq![(f.name@, f.is_dir)]);
        } else {
            let ghost marked = self.marked_indices@;
            // the smallest marked index
            let mut k: usize = 0;
            while k < n && !self.marked_indices.contains(&k)
                invariant
                    n == self.files@.len(),
                    k <= n,
                    forall|j: usize| j < k ==> !#[trigger] marked.contains(j),
                    marked == self.marked_indices@,
                    self@.wf(),
                    !marked.is_empty(),
                decreases n - k,
            {
                k = k + 1;
            }
            if k == n {
                proof {
                    assert forall|j: usize| !marked.contains(j) by {
                        if marked.contains(j) {
                            assert(self@.marked.contains(j));
                            assert(j < n);
                        }
                    }
                    assert(marked =~= Set::<usize>::empty());
                }
                assert(false);
            }
            first_index = k;
            proof {
                assert(marked.contains(k) && forall|j: usize| #[trigger] marked.contains(j) ==> k <= j);
                let c = first_marked(marked);
                assert(marked.contains(c) && forall|j: usize| #[trigger] marked.contains(j) ==> c <= j);
                assert(c <= k && k <= c);
            }
            let mut i: usize = 0;
            while i < n
                invariant
                    n == self.files@.len(),
                    i <= n,
                    items_view(items@) == marked_items(self.files@, self.marked_indices@, i as int),
                    items@.len() <= i,
                decreases n - i,
            {
                if self.marked_indices.contains(&i) && !self.files[i].is_parent_dir() {
                    let f = &self.files[i];
                    items.push((f.name.clone(), f.is_dir));
                }
                assert(items_view(items@) =~= marked_items(self.files@, self.marked_indices@, i + 1));
                i = i + 1;
            }
        }
        let count = items.len();
        let name_before = if first_index > 0 {
            let f = &self.files[first_index - 1];
            if !f.is_parent_dir() {
                Some(f.name.clone())
            } else {
                None
            }
        } else {
            None
        };
        let name_after = if count < n - first_index {
            let f = &self.files[first_index + count];
            if !f.is_parent_dir() {
                Some(f.name.clone())
            } else {
                None
            }
        } else {
            None
        };
        (items, name_after, name_before)
    }

    fn move_up(&mut self, panel_height: usize) {
        if self.selected_index > 0 {
            self.selected_index = self.selected_index - 1;
            if self.view_mode == ViewMode::DoubleColumn {
                let h = rows_exec(panel_height);
                if self.selected_index < self.scroll_offset {
                    self.scroll_offset = self.scroll_offset.saturating_sub(h);
                }
                self.update_scroll_offset_double_column(panel_height);
            } else {
                self.update_scroll_offset(panel_height);
            }
        }
    }

    fn move_down(&mut self, panel_height: usize) {
        if self.files.len() > 0 && self.selected_index < self.files.len() - 1 {
            self.selected_index = self.selected_index + 1;
            if self.view_mode == ViewMode::DoubleColumn {
                let h = rows_exec(panel_height);
                let page = h * 2;
                if self.selected_index == self.scroll_offset + page {
                    let max_scroll = self.files.len().saturating_sub(page);
                    self.scroll_offset = min_usize(self.scroll_offset + h, max_scroll);
                }
                self.update_scroll_offset_double_column(panel_height);
            } else {
                self.update_scroll_offset(panel_height);
            }
        }
    }

    fn page_up(&mut self, panel_height: usize) {
        let h = rows_exec(panel_height);
        if self.view_mode == ViewMode::DoubleColumn {
            let page = h * 2;
            if self.files.len() == 0 || (self.selected_index == 0 && self.scroll_offset == 0) {
                return;
            }
            let items = min_usize(page, self.scroll_offset);
            if items == 0 {
                self.selected_index = 0;
            } else {
                self.selected_index = self.selected_index.saturating_sub(items);
                self.scroll_offset = self.scroll_offset - items;
            }
            self.update_scroll_offset_double_column(panel_height);
        } else {
            if self.selected_index < h {
                self.selected_index = 0;
            } else {
                self.selected_index = self.selected_index - h;
            }
            self.update_scroll_offset(panel_height);
        }
    }

    #[verifier::spinoff_prover]
    #[verifier::rlimit(40)]
    fn page_down(&mut self, panel_height: usize) {
        let h = rows_exec(panel_height);
        if self.files.len() == 0 {
            return;
        }
        let total = self.files.len();
        if self.view_mode == ViewMode::DoubleColumn {
            let page = h * 2;
            let max_scroll = total.saturating_sub(page);
            if self.selected_index >= total - 1 {
                return;
            }
            let mut items = page;
            if self.scroll_offset > max_scroll.saturating_sub(page) {
                items = total.saturating_sub(page).saturating_sub(self.scroll_offset);
            }
            if self.scroll_offset + items > max_scroll {
                items = max_scroll.saturating_sub(self.scroll_offset);
            }
            if items == 0 {
                self.selected_index = total - 1;
            } else {
                self.selected_index = min_usize(self.selected_index + items, total - 1);
                self.scroll_offset = self.scroll_offset + items;
            }
            self.update_scroll_offset_double_column(panel_height);
        } else {
            if self.selected_index >= total - 1 {
                return;
            }
            if self.selected_index + h >= total {
                self.selected_index = total - 1;
            } else {
                self.selected_index = self.selected_index + h;
            }
            self.update_scroll_offset(panel_height);
        }
    }

    fn smart_move_left(&mut self, panel_height: usize) {
        let h = rows_exec(panel_height);
        let page = h * 2;
        let total = self.files.len();
        if total == 0 || self.selected_index >= total {
            return;
        }
        let new_pos = self.selected_index.saturating_sub(h);
        self.selected_index = min_usize(new_pos, total - 1);
        let mut adjust = false;
        if self.selected_index >= self.scroll_offset + page {
            self.scroll_offset = self.scroll_offset.saturating_add(h);
            adjust = true;
        }
        if self.selected_index < self.scroll_offset {
            self.scroll_offset = self.scroll_offset.saturating_sub(h);
            adjust = true;
        }
        if adjust {
            self.scroll_offset = min_usize(self.scroll_offset, self.selected_index);
            let max_scroll = total.saturating_sub(page);
            self.scroll_offset = min_usize(self.scroll_offset, max_scroll);
        }
        self.update_scroll_offset_double_column(panel_height);
    }

    fn smart_move_right(&mut self, panel_height: usize) {
        let h = rows_exec(panel_height);
        let page = h * 2;
        let total = self.files.len();
        if total == 0 || self.selected_index >= total.saturating_sub(1) {
            return;
        }
        let new_pos = min_usize(self.selected_index + h, total - 1);
        self.selected_index = new_pos;
        let mut adjust = false;
        if self.selected_index >= self.scroll_offset + page {
            self.scroll_offset = self.scroll_offset + h;
            adjust = true;
        }
        if self.selected_index < self.scroll_offset {
            self.scroll_offset = self.scroll_offset.saturating_sub(h);
            adjust = true;
        }
        if adjust {
            self.scroll_offset = min_usize(self.scroll_offset, self.selected_index);
            let max_scroll = total.saturating_sub(page);
            self.scroll_offset = min_usize(self.scroll_offset, max_scroll);
        }
        self.update_scroll_offset_double_column(panel_height);
    }

    fn update_scroll_offset(&mut self, panel_height: usize) {
        let h = rows_exec(panel_height);
        if self.selected_index >= self.scroll_offset + h {
            self.scroll_offset = self.selected_index - h + 1;
        } else if self.selected_index < self.scroll_offset {
            self.scroll_offset = self.selected_index;
        }
    }

    fn update_scroll_offset_double_column(&mut self, panel_height: usize) {
        let h = rows_exec(panel_height);
        let page = h * 2;
        let total_files = self.files.len();
        if total_files <= page {
            self.scroll_offset = 0;
            return;
        }
        self.selected_index = min_usize(self.selected_index, total_files - 1);
        let max_top = total_files.saturating_sub(page);
        if self.scroll_offset > max_top {
            self.scroll_offset = max_top;
        }
        if self.selected_index < self.scroll_offset {
            self.scroll_offset = self.selected_index;
        }
        let min_top = self.selected_index.saturating_sub(page - 1);
        if self.scroll_offset < min_top {
            self.scroll_offset = min_usize(min_top, max_top);
        }
        if self.scroll_offset > self.selected_index {
            self.scroll_offset = self.selected_index;
        }
    }
}

} // verus!
