//! Find file: shell-style wildcard matching (`*` matches any run of characters, `?` exactly
//! one character, every other character itself), the dialog's state and keys, and the
//! grouping of its results by folder.
use vstd::prelude::*;

use crate::app_state::{AppState, Focus};
use crate::file_ops::{path_parent, path_parent_of};
use crate::strutil::{decimal, usize_to_string, str_trim, trim_of};
use crate::subshell::{chars_contains, contains_seq, str_chars};
use crate::events::AppAction;
use crate::keys::{KeyCode, KeyModifiers};
use crate::panel::{rows, sat_sub, min_int};
use crate::text_input::{TextInputState, text_after_insert, text_after_backspace, printable_ascii, is_printable_ascii};
use vstd::string::{StrSliceExecFns, StringExecFns};

verus! {

/// Whether the pattern suffix starting at `pi` matches the name suffix starting at `ni`.
pub open spec fn glob_from(p: Seq<char>, pi: int, n: Seq<char>, ni: int) -> bool
    decreases p.len() - pi, n.len() - ni,
{
    if pi < 0 || ni < 0 || pi >= p.len() {
        ni >= n.len()
    } else if p[pi] == '*' {
        // '*': consume nothing, or consume one name character and stay on the star
        glob_from(p, pi + 1, n, ni) || (ni < n.len() && glob_from(p, pi, n, ni + 1))
    } else if p[pi] == '?' {
        // '?': exactly one character
        ni < n.len() && glob_from(p, pi + 1, n, ni + 1)
    } else {
        ni < n.len() && n[ni] == p[pi] && glob_from(p, pi + 1, n, ni + 1)
    }
}

/// Match of a whole pattern against a whole name; the empty pattern matches everything.
pub open spec fn glob_matches(p: Seq<char>, n: Seq<char>) -> bool {
    p.len() == 0 || glob_from(p, 0, n, 0)
}

/// Match of texts, character by character.
pub open spec fn glob_text(pattern: Seq<char>, name: Seq<char>) -> bool {
    glob_matches(pattern, name)
}

/// What `str::to_lowercase` returns for a text (full Unicode lower-casing).
pub uninterp spec fn lowercase_of(s: Seq<char>) -> Seq<char>;

/// Calls `str::to_lowercase`; the result is named by `lowercase_of`, a function of the text alone.
#[verifier::external_body]
pub(crate) fn str_to_lowercase(s: &str) -> (r: String)
    ensures
        r@ == lowercase_of(s@),
{
    s.to_lowercase()
}

/// A star at position `ps` matches from `ni` exactly when the rest of the pattern matches
/// from some position `j` with `ni <= j <= n.len()`.
pub proof fn lemma_star_expand(p: Seq<char>, ps: int, n: Seq<char>, ni: int)
    requires
        0 <= ps < p.len(),
        p[ps] == '*',
        0 <= ni <= n.len(),
    ensures
        glob_from(p, ps, n, ni) <==> exists|j: int| ni <= j <= n.len() && #[trigger] glob_from(p, ps + 1, n, j),
    decreases n.len() - ni,
{
    if ni < n.len() {
        lemma_star_expand(p, ps, n, ni + 1);
        if glob_from(p, ps, n, ni) {
            if glob_from(p, ps + 1, n, ni) {
            } else {
                let j = choose|j: int| ni + 1 <= j <= n.len() && #[trigger] glob_from(p, ps + 1, n, j);
                assert(glob_from(p, ps + 1, n, j));
            }
        }
        if exists|j: int| ni <= j <= n.len() && #[trigger] glob_from(p, ps + 1, n, j) {
            let j = choose|j: int| ni <= j <= n.len() && #[trigger] glob_from(p, ps + 1, n, j);
            if j == ni {
            } else {
                assert(ni + 1 <= j <= n.len() && glob_from(p, ps + 1, n, j));
            }
        }
    } else {
        if glob_from(p, ps, n, ni) {
            assert(glob_from(p, ps + 1, n, ni));
        }
    }
}

/// A trailing star matches every remaining name suffix.
proof fn lemma_trailing_star(p: Seq<char>, ps: int, n: Seq<char>, ni: int)
    requires
        0 <= ps,
        ps + 1 == p.len(),
        p[ps] == '*',
        0 <= ni <= n.len(),
    ensures
        glob_from(p, ps, n, ni),
    decreases n.len() - ni,
{
    if ni < n.len() {
        lemma_trailing_star(p, ps, n, ni + 1);
    } else {
        assert(glob_from(p, ps + 1, n, ni));
    }
}

/// The empty pattern matches every name.
pub proof fn law_empty_pattern_matches_all(n: Seq<char>)
    ensures
        glob_matches(Seq::empty(), n),
{
}

/// The pattern "*" matches every name.
pub proof fn law_star_matches_all(n: Seq<char>)
    ensures
        glob_matches(seq!['*'], n),
{
    lemma_trailing_star(seq!['*'], 0, n, 0);
}

proof fn lemma_literal_from(p: Seq<char>, k: int)
    requires
        0 <= k <= p.len(),
        forall|i: int| 0 <= i < p.len() ==> p[i] != '*' && p[i] != '?',
    ensures
        glob_from(p, k, p, k),
    decreases p.len() - k,
{
    if k < p.len() {
        lemma_literal_from(p, k + 1);
    }
}

/// A pattern without wildcards matches exactly itself: it matches itself, and any name it
/// matches equals it.
pub proof fn law_literal_pattern_matches_itself(p: Seq<char>, n: Seq<char>)
    requires
        forall|i: int| 0 <= i < p.len() ==> p[i] != '*' && p[i] != '?',
    ensures
        glob_matches(p, p),
        p.len() > 0 && glob_matches(p, n) ==> n == p,
{
    lemma_literal_from(p, 0);
    if p.len() > 0 && glob_matches(p, n) {
        lemma_literal_only_itself(p, n, 0);
        assert(n =~= p);
    }
}

proof fn lemma_literal_only_itself(p: Seq<char>, n: Seq<char>, k: int)
    requires
        0 <= k <= p.len(),
        forall|i: int| 0 <= i < p.len() ==> p[i] != '*' && p[i] != '?',
        glob_from(p, k, n, k),
        k <= n.len(),
    ensures
        n.len() == p.len(),
        forall|i: int| k <= i < p.len() ==> n[i] == p[i],
    decreases p.len() - k,
{
    if k < p.len() {
        lemma_literal_only_itself(p, n, k + 1);
    }
}

fn match_at(p: &[char], pi0: usize, n: &[char], ni0: usize) -> (r: bool)
    requires
        pi0 <= p@.len(),
        ni0 <= n@.len(),
    ensures
        r == glob_from(p@, pi0 as int, n@, ni0 as int),
    decreases p@.len() - pi0,
{
    let mut pi = pi0;
    let mut ni = ni0;
    while pi < p.len()
        invariant
            pi0 <= pi <= p@.len(),
            ni <= n@.len(),
            glob_from(p@, pi0 as int, n@, ni0 as int) == glob_from(p@, pi as int, n@, ni as int),
        decreases p@.len() - pi,
    {
        let c = p[pi];
        if c == '*' {
            let star = pi;
            pi = pi + 1;
            if pi == p.len() {
                proof {
                    lemma_trailing_star(p@, star as int, n@, ni as int);
                }
                return true;
            }
            proof {
                lemma_star_expand(p@, star as int, n@, ni as int);
            }
            let mut k = ni;
            loop
                invariant
                    pi0 < pi < p@.len(),
                    ni <= k <= n@.len(),
                    pi == star + 1,
                    glob_from(p@, pi0 as int, n@, ni0 as int) == (exists|j: int|
                        ni <= j <= n@.len() && #[trigger] glob_from(p@, pi as int, n@, j)),
                    forall|j: int| ni <= j < k ==> !#[trigger] glob_from(p@, pi as int, n@, j),
                decreases n@.len() - k,
            {
                if match_at(p, pi, n, k) {
                    return true;
                }
                if k == n.len() {
                    assert forall|j: int| ni <= j <= n@.len() implies !#[trigger] glob_from(
                        p@,
                        pi as int,
                        n@,
                        j,
                    ) by {
                        if j < k {
                        }
                    }
                    return false;
                }
                k = k + 1;
            }
        } else if c == '?' {
            if ni < n.len() {
                pi = pi + 1;
                ni = ni + 1;
            } else {
                return false;
            }
        } else {
            if ni < n.len() && n[ni] == c {
                pi = pi + 1;
                ni = ni + 1;
            } else {
                return false;
            }
        }
    }
    ni == n.len()
}

/// Shell-style glob match: `*` = any sequence, `?` = one character. The empty pattern matches
/// everything. Without case sensitivity both texts are
/// lower-cased first.
pub fn glob_match(pattern: &str, name: &str, case_sensitive: bool) -> (r: bool)
    ensures
        r == if case_sensitive {
            glob_text(pattern@, name@)
        } else {
            glob_text(lowercase_of(pattern@), lowercase_of(name@))
        },
{
    if case_sensitive {
        let p = str_chars(pattern);
        let n = str_chars(name);
        glob_match_chars(p.as_slice(), n.as_slice())
    } else {
        let lp = str_to_lowercase(pattern);
        let ln = str_to_lowercase(name);
        let p = str_chars(lp.as_str());
        let n = str_chars(ln.as_str());
        glob_match_chars(p.as_slice(), n.as_slice())
    }
}

/// Glob match of a whole pattern against a whole name, as characters.
fn glob_match_chars(p: &[char], n: &[char]) -> (r: bool)
    ensures
        r == glob_matches(p@, n@),
{
    if p.len() == 0 {
        return true;
    }
    match_at(p, 0, n, 0)
}

/// One result of Find file: path and, for a content search, the 1-based matching line.
pub struct FindResult {
    pub path: String,
    pub line: Option<u64>,
}

impl FindResult {
    pub open spec fn view(&self) -> (Seq<char>, Option<u64>) {
        (self.path@, self.line)
    }

    fn duplicate(&self) -> (r: Self)
        ensures
            r.view() == self.view(),
    {
        FindResult { path: self.path.clone(), line: self.line }
    }
}

/// Message from the find search worker.
pub enum FindMessage {
    Match(String, Option<u64>),
    /// Current directory being traversed.
    CurrentDir(String),
    Done,
}

/// Phase of the Find file dialog.
#[derive(Clone, Copy, PartialEq, Eq, Structural)]
pub enum FindDialogPhase {
    /// Parameter form: start dir, pattern, content, options.
    Parameter,
    /// Search running; results accumulating.
    Searching,
    /// Search done; showing results list.
    Results,
}

/// State for the Find file dialog.
pub struct FindDialogState {
    pub phase: FindDialogPhase,
    pub start_dir_input: TextInputState,
    pub file_pattern_input: TextInputState,
    /// Paths (relative to the start directory) matching this pattern are left out.
    pub ignore_pattern_input: TextInputState,
    pub content_pattern_input: TextInputState,
    pub recursive: bool,
    pub file_case_sens: bool,
    pub content_case_sens: bool,
    pub skip_hidden: bool,
    pub results: Vec<FindResult>,
    pub selected_index: usize,
    pub scroll_offset: usize,
    pub status_message: String,
    /// Directory being searched (shown during search; cleared when done).
    pub search_current_dir: String,
    /// Visible list rows, used for scroll math.
    pub visible_list_rows: usize,
    /// Focus in the parameter form: 0 = start dir, 1 = file pattern, 2 = ignore pattern,
    /// 3 = content, 4 = recursive, 5 = file case, 6 = content case, 7 = skip hidden, 8 = Find,
    /// 9 = Cancel.
    pub focus: usize,
    /// Search texts held while the search runs; put back into the inputs when it is done.
    pub search_start_dir: Option<String>,
    pub search_file_pattern: Option<String>,
    pub search_ignore_pattern: Option<String>,
    pub search_content_pattern: Option<String>,
}

pub open spec fn results_view(r: Seq<FindResult>) -> Seq<(Seq<char>, Option<u64>)> {
    r.map_values(|x: FindResult| x.view())
}

/// Opens the Find file dialog with the active panel's directory as start directory.
pub fn open(app: &mut AppState)
    ensures
        final(app).focus == Focus::FindDialog,
        final(app).find_dialog matches Some(d) && {
            &&& d.phase == FindDialogPhase::Parameter
            &&& d.start_dir_input.text@ == old(app).active_view().dir
            &&& d.start_dir_input.cursor == old(app).active_view().dir.len()
            &&& d.file_pattern_input.text@.len() == 0 && d.file_pattern_input.cursor == 0
            &&& d.ignore_pattern_input.text@.len() == 0 && d.ignore_pattern_input.cursor == 0
            &&& d.content_pattern_input.text@.len() == 0 && d.content_pattern_input.cursor == 0
            &&& d.recursive && !d.file_case_sens && !d.content_case_sens && d.skip_hidden
            &&& d.results@.len() == 0
            &&& d.selected_index == 0 && d.scroll_offset == 0
            &&& d.status_message@.len() == 0 && d.search_current_dir@.len() == 0
            &&& d.visible_list_rows == 18
            &&& d.focus == 0
            &&& d.search_start_dir is None && d.search_file_pattern is None && d.search_ignore_pattern is None
            &&& d.search_content_pattern is None
        },
        !final(app).find_search_running,
        *final(app) == (AppState { focus: final(app).focus, find_dialog: final(app).find_dialog, find_search_running: false, ..*old(app) }),
{
    let start_dir = app.get_current_dir().to_owned();
    app.find_dialog = Some(FindDialogState {
        phase: FindDialogPhase::Parameter,
        start_dir_input: TextInputState::new(start_dir),
        file_pattern_input: TextInputState::new(String::new()),
        ignore_pattern_input: TextInputState::new(String::new()),
        content_pattern_input: TextInputState::new(String::new()),
        recursive: true,
        file_case_sens: false,
        content_case_sens: false,
        skip_hidden: true,
        results: Vec::new(),
        selected_index: 0,
        scroll_offset: 0,
        status_message: String::new(),
        search_current_dir: String::new(),
        visible_list_rows: 18,
        focus: 0,
        search_start_dir: None,
        search_file_pattern: None,
        search_ignore_pattern: None,
        search_content_pattern: None,
    });
    app.focus = Focus::FindDialog;
    app.find_search_running = false;
}

/// Closes the Find file dialog and returns focus to the panel; a running search is given up
/// (the caller signals its worker to stop).
pub fn close(app: &mut AppState)
    ensures
        *final(app) == (AppState { focus: Focus::Panel, find_dialog: None, find_search_running: false, ..*old(app) }),
{
    app.find_dialog = None;
    app.find_search_running = false;
    app.focus = Focus::Panel;
}

/// What the search worker is asked to do.
pub struct FindSearchRequest {
    pub start_dir: String,
    pub file_pattern: String,
    pub ignore_pattern: String,
    pub content_pattern: String,
    pub recursive: bool,
    pub file_case_sens: bool,
    pub content_case_sens: bool,
    pub skip_hidden: bool,
}

fn take_text(t: &mut String) -> (r: String)
    ensures
        r@ == old(t)@,
        final(t)@.len() == 0,
{
    let mut out = String::new();
    std::mem::swap(&mut out, t);
    out
}

/// The dialog `e` is `d` with a search started: Searching, no results yet, and the four
/// search texts moved out of the inputs into the kept texts.
pub open spec fn search_started(d: FindDialogState, e: FindDialogState) -> bool {
    &&& e.phase == FindDialogPhase::Searching
    &&& e.results@.len() == 0
    &&& e.status_message@ == "Searching..."@
    &&& e.search_current_dir@.len() == 0
    &&& e.selected_index == 0 && e.scroll_offset == 0
    &&& e.start_dir_input.text@.len() == 0 && e.start_dir_input.cursor == d.start_dir_input.cursor
    &&& e.file_pattern_input.text@.len() == 0 && e.file_pattern_input.cursor == d.file_pattern_input.cursor
    &&& e.ignore_pattern_input.text@.len() == 0 && e.ignore_pattern_input.cursor == d.ignore_pattern_input.cursor
    &&& e.content_pattern_input.text@.len() == 0 && e.content_pattern_input.cursor == d.content_pattern_input.cursor
    &&& e.search_start_dir matches Some(x) && x@ == d.start_dir_input.text@
    &&& e.search_file_pattern matches Some(x) && x@ == d.file_pattern_input.text@
    &&& e.search_ignore_pattern matches Some(x) && x@ == d.ignore_pattern_input.text@
    &&& e.search_content_pattern matches Some(x) && x@ == d.content_pattern_input.text@
    &&& e == (FindDialogState {
        phase: e.phase,
        start_dir_input: e.start_dir_input,
        file_pattern_input: e.file_pattern_input,
        ignore_pattern_input: e.ignore_pattern_input,
        content_pattern_input: e.content_pattern_input,
        results: e.results,
        selected_index: e.selected_index,
        scroll_offset: e.scroll_offset,
        status_message: e.status_message,
        search_current_dir: e.search_current_dir,
        search_start_dir: e.search_start_dir,
        search_file_pattern: e.search_file_pattern,
        search_ignore_pattern: e.search_ignore_pattern,
        search_content_pattern: e.search_content_pattern,
        ..d
    })
}

/// Starts a search: the dialog switches to Searching with an empty result list, and the four
/// search texts move out of the inputs (kept until the search is done). Returns what the
/// worker must search for; `None` when the dialog is not open.
pub fn start_search(app: &mut AppState) -> (r: Option<FindSearchRequest>)
    ensures
        old(app).find_dialog is None ==> r is None && *final(app) == *old(app),
        old(app).find_dialog matches Some(d) ==> {
            &&& r matches Some(req) && {
                &&& req.start_dir@ == d.start_dir_input.text@
                &&& req.file_pattern@ == d.file_pattern_input.text@
                &&& req.ignore_pattern@ == d.ignore_pattern_input.text@
                &&& req.content_pattern@ == d.content_pattern_input.text@
                &&& req.recursive == d.recursive && req.file_case_sens == d.file_case_sens
                &&& req.content_case_sens == d.content_case_sens && req.skip_hidden == d.skip_hidden
            }
            &&& final(app).find_search_running
            &&& final(app).find_dialog matches Some(e) && search_started(d, e)
            &&& *final(app) == (AppState { find_dialog: final(app).find_dialog, find_search_running: true, ..*old(app) })
        },
{
    let mut d = match app.find_dialog.take() {
        Some(d) => d,
        None => return None,
    };
    d.phase = FindDialogPhase::Searching;
    d.results = Vec::new();
    d.status_message = String::from_str("Searching...");
    d.search_current_dir = String::new();
    d.selected_index = 0;
    d.scroll_offset = 0;
    let start_dir = take_text(&mut d.start_dir_input.text);
    let file_pattern = take_text(&mut d.file_pattern_input.text);
    let ignore_pattern = take_text(&mut d.ignore_pattern_input.text);
    let content_pattern = take_text(&mut d.content_pattern_input.text);
    d.search_start_dir = Some(start_dir.clone());
    d.search_file_pattern = Some(file_pattern.clone());
    d.search_ignore_pattern = Some(ignore_pattern.clone());
    d.search_content_pattern = Some(content_pattern.clone());
    let req = FindSearchRequest {
        start_dir,
        file_pattern,
        ignore_pattern,
        content_pattern,
        recursive: d.recursive,
        file_case_sens: d.file_case_sens,
        content_case_sens: d.content_case_sens,
        skip_hidden: d.skip_hidden,
    };
    app.find_dialog = Some(d);
    app.find_search_running = true;
    Some(req)
}

/// One row of the grouped results list: a folder header or a file.
pub enum FindDisplayRow {
    Folder(String),
    File(FindResult),
}

/// A row as plain values.
pub enum DisplayRowView {
    Folder(Seq<char>),
    File(Seq<char>, Option<u64>),
}

impl FindDisplayRow {
    pub open spec fn view(&self) -> DisplayRowView {
        match self {
            FindDisplayRow::Folder(p) => DisplayRowView::Folder(p@),
            FindDisplayRow::File(r) => DisplayRowView::File(r.path@, r.line),
        }
    }
}

pub open spec fn rows_view(rows: Seq<FindDisplayRow>) -> Seq<DisplayRowView> {
    rows.map_values(|r: FindDisplayRow| r.view())
}

/// The directory a result is grouped under: its parent path, or empty when it has none.
pub open spec fn parent_text(path: Seq<char>) -> Seq<char> {
    match path_parent_of(path) {
        Some(p) => p,
        None => Seq::empty(),
    }
}

/// The parent directories of the first `k` results, each once, in order of first occurrence.
pub open spec fn folders_upto(results: Seq<(Seq<char>, Option<u64>)>, k: int) -> Seq<Seq<char>>
    decreases k,
{
    if k <= 0 {
        Seq::empty()
    } else {
        let prev = folders_upto(results, k - 1);
        let p = parent_text(results[k - 1].0);
        if prev.contains(p) { prev } else { prev.push(p) }
    }
}

/// The file rows, in order, of those of the first `k` results whose parent is `dir`.
pub open spec fn files_in_upto(results: Seq<(Seq<char>, Option<u64>)>, dir: Seq<char>, k: int) -> Seq<DisplayRowView>
    decreases k,
{
    if k <= 0 {
        Seq::empty()
    } else {
        let prev = files_in_upto(results, dir, k - 1);
        if parent_text(results[k - 1].0) == dir {
            prev.push(DisplayRowView::File(results[k - 1].0, results[k - 1].1))
        } else {
            prev
        }
    }
}

/// The rows of the first `j` folders of `folders`: for each, its folder row and then the rows of
/// all results in it.
pub open spec fn groups_upto(results: Seq<(Seq<char>, Option<u64>)>, folders: Seq<Seq<char>>, j: int) -> Seq<DisplayRowView>
    decreases j,
{
    if j <= 0 {
        Seq::empty()
    } else {
        groups_upto(results, folders, j - 1) + seq![DisplayRowView::Folder(folders[j - 1])]
            + files_in_upto(results, folders[j - 1], results.len() as int)
    }
}

/// The grouped results list: one folder row per parent directory, in order of first
/// occurrence, each followed by one file row per result in that directory, in result order.
pub open spec fn display_rows(results: Seq<(Seq<char>, Option<u64>)>) -> Seq<DisplayRowView> {
    let folders = folders_upto(results, results.len() as int);
    groups_upto(results, folders, folders.len() as int)
}

/// The (path, line) of the file rows, in order.
pub open spec fn file_rows(rows: Seq<DisplayRowView>) -> Seq<(Seq<char>, Option<u64>)>
    decreases rows.len(),
{
    if rows.len() == 0 {
        Seq::empty()
    } else {
        match rows.last() {
            DisplayRowView::File(p, l) => file_rows(rows.drop_last()).push((p, l)),
            DisplayRowView::Folder(_) => file_rows(rows.drop_last()),
        }
    }
}

/// Results that share a parent directory come one after another.
pub open spec fn grouped_by_parent(results: Seq<(Seq<char>, Option<u64>)>) -> bool {
    forall|i: int, j: int, k: int|
        0 <= i < j < k < results.len() && #[trigger] parent_text(results[i].0) == #[trigger] parent_text(results[k].0)
            ==> #[trigger] parent_text(results[j].0) == parent_text(results[i].0)
}

/// The results of the first `k` whose parent is `dir`, in order.
pub open spec fn pairs_in_upto(results: Seq<(Seq<char>, Option<u64>)>, dir: Seq<char>, k: int) -> Seq<(Seq<char>, Option<u64>)>
    decreases k,
{
    if k <= 0 {
        Seq::empty()
    } else if parent_text(results[k - 1].0) == dir {
        pairs_in_upto(results, dir, k - 1).push(results[k - 1])
    } else {
        pairs_in_upto(results, dir, k - 1)
    }
}

/// The results of the first `k` in each of the first `j` folders, folder after folder.
pub open spec fn concat_pairs(results: Seq<(Seq<char>, Option<u64>)>, folders: Seq<Seq<char>>, j: int, k: int) -> Seq<(Seq<char>, Option<u64>)>
    decreases j,
{
    if j <= 0 {
        Seq::empty()
    } else {
        concat_pairs(results, folders, j - 1, k) + pairs_in_upto(results, folders[j - 1], k)
    }
}

proof fn lemma_file_rows_concat(a: Seq<DisplayRowView>, b: Seq<DisplayRowView>)
    ensures
        file_rows(a + b) == file_rows(a) + file_rows(b),
    decreases b.len(),
{
    if b.len() == 0 {
        assert(a + b =~= a);
        assert(file_rows(a) + file_rows(b) =~= file_rows(a));
    } else {
        lemma_file_rows_concat(a, b.drop_last());
        assert((a + b).drop_last() =~= a + b.drop_last());
        assert((a + b).last() == b.last());
        match b.last() {
            DisplayRowView::File(p, l) => {
                assert(file_rows(a) + file_rows(b.drop_last()).push((p, l)) =~= (file_rows(a) + file_rows(b.drop_last())).push((p, l)));
            },
            DisplayRowView::Folder(_) => {},
        }
    }
}

proof fn lemma_files_in_rows(results: Seq<(Seq<char>, Option<u64>)>, dir: Seq<char>, k: int)
    requires
        0 <= k <= results.len(),
    ensures
        file_rows(files_in_upto(results, dir, k)) == pairs_in_upto(results, dir, k),
    decreases k,
{
    if k > 0 {
        lemma_files_in_rows(results, dir, k - 1);
        let prev = files_in_upto(results, dir, k - 1);
        if parent_text(results[k - 1].0) == dir {
            let cur = prev.push(DisplayRowView::File(results[k - 1].0, results[k - 1].1));
            assert(cur.drop_last() =~= prev);
        }
    }
}

proof fn lemma_groups_rows(results: Seq<(Seq<char>, Option<u64>)>, folders: Seq<Seq<char>>, j: int)
    requires
        0 <= j <= folders.len(),
    ensures
        file_rows(groups_upto(results, folders, j)) == concat_pairs(results, folders, j, results.len() as int),
    decreases j,
{
    if j > 0 {
        lemma_groups_rows(results, folders, j - 1);
        let a = groups_upto(results, folders, j - 1);
        let f = seq![DisplayRowView::Folder(folders[j - 1])];
        let b = files_in_upto(results, folders[j - 1], results.len() as int);
        lemma_file_rows_concat(a + f, b);
        lemma_file_rows_concat(a, f);
        assert(f.drop_last() =~= Seq::<DisplayRowView>::empty());
        assert(file_rows(Seq::<DisplayRowView>::empty()) == Seq::<(Seq<char>, Option<u64>)>::empty());
        assert(f.last() == DisplayRowView::Folder(folders[j - 1]));
        assert(file_rows(f) =~= Seq::<(Seq<char>, Option<u64>)>::empty());
        lemma_files_in_rows(results, folders[j - 1], results.len() as int);
        assert(file_rows(a) + file_rows(f) =~= file_rows(a));
    }
}

/// Each parent among the first `k` results is a folder of `folders_upto`, and those folders are
/// distinct.
proof fn lemma_folders(results: Seq<(Seq<char>, Option<u64>)>, k: int)
    requires
        0 <= k <= results.len(),
    ensures
        folders_upto(results, k).no_duplicates(),
        forall|i: int| 0 <= i < k ==> folders_upto(results, k).contains(#[trigger] parent_text(results[i].0)),
        forall|q: int| 0 <= q < folders_upto(results, k).len() ==> exists|i: int| 0 <= i < k && #[trigger] folders_upto(results, k)[q] == parent_text(results[i].0),
    decreases k,
{
    if k > 0 {
        lemma_folders(results, k - 1);
        let prev = folders_upto(results, k - 1);
        let p = parent_text(results[k - 1].0);
        if !prev.contains(p) {
            let cur = prev.push(p);
            assert forall|q: int| 0 <= q < cur.len() implies exists|i: int| 0 <= i < k && #[trigger] cur[q] == parent_text(results[i].0) by {
                if q < prev.len() {
                    let i = choose|i: int| 0 <= i < k - 1 && #[trigger] prev[q] == parent_text(results[i].0);
                    assert(cur[q] == parent_text(results[i].0));
                } else {
                    assert(cur[q] == parent_text(results[k - 1].0));
                }
            }
            assert forall|i: int| 0 <= i < k implies cur.contains(#[trigger] parent_text(results[i].0)) by {
                if i < k - 1 {
                    let q = choose|q: int| 0 <= q < prev.len() && prev[q] == parent_text(results[i].0);
                    assert(cur[q] == prev[q]);
                } else {
                    assert(cur[cur.len() - 1] == p);
                }
            }
        }
    }
}

/// With results grouped by parent, the last folder is the parent of the last result.
proof fn lemma_last_folder(results: Seq<(Seq<char>, Option<u64>)>, k: int)
    requires
        0 < k <= results.len(),
        grouped_by_parent(results),
    ensures
        folders_upto(results, k).len() > 0,
        folders_upto(results, k).last() == parent_text(results[k - 1].0),
    decreases k,
{
    let prev = folders_upto(results, k - 1);
    let p = parent_text(results[k - 1].0);
    lemma_folders(results, k - 1);
    if prev.contains(p) {
        lemma_last_folder(results, k - 1);
        let q = choose|q: int| 0 <= q < prev.len() && prev[q] == p;
        let i = choose|i: int| 0 <= i < k - 1 && #[trigger] prev[q] == parent_text(results[i].0);
        if i < k - 2 {
            assert(parent_text(results[i].0) == parent_text(results[k - 1].0));
            assert(parent_text(results[k - 2].0) == parent_text(results[i].0));
        }
    }
}

proof fn lemma_pairs_none(results: Seq<(Seq<char>, Option<u64>)>, dir: Seq<char>, k: int)
    requires
        0 <= k <= results.len(),
        forall|i: int| 0 <= i < k ==> parent_text(results[i].0) != dir,
    ensures
        pairs_in_upto(results, dir, k) == Seq::<(Seq<char>, Option<u64>)>::empty(),
    decreases k,
{
    if k > 0 {
        lemma_pairs_none(results, dir, k - 1);
    }
}

/// Adding result `k` leaves the concatenation over folders that are not its parent unchanged.
proof fn lemma_concat_other(results: Seq<(Seq<char>, Option<u64>)>, folders: Seq<Seq<char>>, j: int, k: int)
    requires
        0 <= j <= folders.len(),
        0 <= k < results.len(),
        forall|q: int| 0 <= q < j ==> folders[q] != parent_text(results[k].0),
    ensures
        concat_pairs(results, folders, j, k + 1) == concat_pairs(results, folders, j, k),
    decreases j,
{
    if j > 0 {
        lemma_concat_other(results, folders, j - 1, k);
    }
}

proof fn lemma_concat_prefix(results: Seq<(Seq<char>, Option<u64>)>, folders: Seq<Seq<char>>, x: Seq<char>, j: int, k: int)
    requires
        0 <= j <= folders.len(),
    ensures
        concat_pairs(results, folders.push(x), j, k) == concat_pairs(results, folders, j, k),
    decreases j,
{
    if j > 0 {
        lemma_concat_prefix(results, folders, x, j - 1, k);
        assert(folders.push(x)[j - 1] == folders[j - 1]);
    }
}

proof fn lemma_grouped_concat(results: Seq<(Seq<char>, Option<u64>)>, k: int)
    requires
        0 <= k <= results.len(),
        grouped_by_parent(results),
    ensures
        concat_pairs(results, folders_upto(results, k), folders_upto(results, k).len() as int, k) == results.take(k),
    decreases k,
{
    if k > 0 {
        lemma_grouped_concat(results, k - 1);
        lemma_folders(results, k - 1);
        let f = folders_upto(results, k - 1);
        let n = f.len() as int;
        let p = parent_text(results[k - 1].0);
        assert(results.take(k) =~= results.take(k - 1).push(results[k - 1]));
        if f.contains(p) {
            // p is a folder already: it is the last one, and only the last.
            assert(k >= 2) by {
                if k == 1 {
                    assert(f.len() == 0);
                }
            }
            lemma_last_folder(results, k - 1);
            let q = choose|q: int| 0 <= q < n && f[q] == p;
            let i = choose|i: int| 0 <= i < k - 1 && #[trigger] f[q] == parent_text(results[i].0);
            if i < k - 2 {
                assert(parent_text(results[i].0) == parent_text(results[k - 1].0));
                assert(parent_text(results[k - 2].0) == parent_text(results[i].0));
            }
            assert(f.last() == p);
            assert forall|r: int| 0 <= r < n - 1 implies f[r] != p by {
                assert(f[n - 1] == p);
            }
            lemma_concat_other(results, f, n - 1, k - 1);
            assert(concat_pairs(results, f, n, k) == concat_pairs(results, f, n - 1, k) + pairs_in_upto(results, f[n - 1], k));
            assert(pairs_in_upto(results, p, k) == pairs_in_upto(results, p, k - 1).push(results[k - 1]));
            assert(concat_pairs(results, f, n, k) =~= concat_pairs(results, f, n, k - 1).push(results[k - 1]));
        } else {
            let g = f.push(p);
            assert(folders_upto(results, k) == g);
            lemma_concat_prefix(results, f, p, n, k);
            assert forall|r: int| 0 <= r < n implies f[r] != p by {}
            lemma_concat_other(results, f, n, k - 1);
            assert forall|i: int| 0 <= i < k - 1 implies parent_text(results[i].0) != p by {
                if parent_text(results[i].0) == p {
                    assert(f.contains(parent_text(results[i].0)));
                }
            }
            lemma_pairs_none(results, p, k - 1);
            assert(g[n] == p);
            assert(pairs_in_upto(results, p, k) =~= seq![results[k - 1]]);
            assert(concat_pairs(results, g, n + 1, k) =~= concat_pairs(results, f, n, k - 1).push(results[k - 1]));
        }
    }
}

/// When results that share a folder come one after another (as a search walking the folders in
/// turn gives them), the grouped list shows every result, in result order, once each: grouping
/// only puts the folder rows between them.
pub proof fn law_grouped_results_keep_their_order(results: Seq<(Seq<char>, Option<u64>)>)
    requires
        grouped_by_parent(results),
    ensures
        file_rows(display_rows(results)) == results,
{
    let f = folders_upto(results, results.len() as int);
    lemma_groups_rows(results, f, f.len() as int);
    lemma_grouped_concat(results, results.len() as int);
    assert(results.take(results.len() as int) =~= results);
}

fn parent_or_empty(path: &str) -> (r: String)
    ensures
        r@ == parent_text(path@),
{
    match path_parent(path) {
        Some(p) => p,
        None => String::new(),
    }
}

fn contains_text(v: &Vec<String>, t: &str) -> (r: bool)
    ensures
        r == crate::strutil::strings_view(v@).contains(t@),
{
    let ghost sv = crate::strutil::strings_view(v@);
    let mut i: usize = 0;
    while i < v.len()
        invariant
            i <= v@.len(),
            sv == crate::strutil::strings_view(v@),
            forall|k: int| 0 <= k < i ==> sv[k] != t@,
        decreases v@.len() - i,
    {
        if crate::strutil::str_eq(v[i].as_str(), t) {
            assert(sv[i as int] == t@);
            return true;
        }
        i = i + 1;
    }
    false
}

/// Builds the results list grouped by parent directory: for each directory, in order of first
/// occurrence, one folder row and then one file row per result in it (see `display_rows`).
pub fn build_display_rows(results: &[FindResult]) -> (rows: Vec<FindDisplayRow>)
    ensures
        rows_view(rows@) == display_rows(results_view(results@)),
{
    let ghost rv = results_view(results@);
    let n = results.len();
    let mut parents: Vec<String> = Vec::new();
    let mut folders: Vec<String> = Vec::new();
    let mut i: usize = 0;
    while i < n
        invariant
            n == results@.len(),
            i <= n,
            rv == results_view(results@),
            crate::strutil::strings_view(folders@) == folders_upto(rv, i as int),
            parents@.len() == i,
            forall|k: int| 0 <= k < i ==> #[trigger] parents@[k]@ == parent_text(rv[k].0),
        decreases n - i,
    {
        let parent = parent_or_empty(results[i].path.as_str());
        proof {
            assert(rv[i as int] == results@[i as int].view());
        }
        if !contains_text(&folders, parent.as_str()) {
            folders.push(parent.clone());
        }
        parents.push(parent);
        proof {
            assert(crate::strutil::strings_view(folders@) =~= folders_upto(rv, i + 1));
        }
        i = i + 1;
    }
    let ghost fv = crate::strutil::strings_view(folders@);
    let mut rows: Vec<FindDisplayRow> = Vec::new();
    let mut j: usize = 0;
    while j < folders.len()
        invariant
            n == results@.len(),
            rv == results_view(results@),
            fv == crate::strutil::strings_view(folders@),
            j <= folders@.len(),
            parents@.len() == n,
            forall|k: int| 0 <= k < n ==> #[trigger] parents@[k]@ == parent_text(rv[k].0),
            rows_view(rows@) == groups_upto(rv, fv, j as int),
        decreases folders@.len() - j,
    {
        let dir = &folders[j];
        let ghost before = rows_view(rows@);
        rows.push(FindDisplayRow::Folder(dir.clone()));
        proof {
            assert(rows_view(rows@) =~= before + seq![DisplayRowView::Folder(fv[j as int])]);
        }
        let mut k: usize = 0;
        while k < n
            invariant
                n == results@.len(),
                rv == results_view(results@),
                fv == crate::strutil::strings_view(folders@),
                j < folders@.len(),
                dir@ == fv[j as int],
                parents@.len() == n,
                forall|q: int| 0 <= q < n ==> #[trigger] parents@[q]@ == parent_text(rv[q].0),
                k <= n,
                rows_view(rows@) == before + seq![DisplayRowView::Folder(fv[j as int])]
                    + files_in_upto(rv, fv[j as int], k as int),
            decreases n - k,
        {
            let ghost mid = rows_view(rows@);
            proof {
                assert(parents@[k as int]@ == parent_text(rv[k as int].0));
                assert(rv[k as int] == results@[k as int].view());
            }
            if crate::strutil::str_eq(parents[k].as_str(), dir.as_str()) {
                let f = results[k].duplicate();
                rows.push(FindDisplayRow::File(f));
                proof {
                    assert(files_in_upto(rv, fv[j as int], k + 1)
                        == files_in_upto(rv, fv[j as int], k as int).push(DisplayRowView::File(rv[k as int].0, rv[k as int].1)));
                    assert(rows_view(rows@) =~= mid.push(DisplayRowView::File(rv[k as int].0, rv[k as int].1)));
                    assert(rows_view(rows@) =~= before + seq![DisplayRowView::Folder(fv[j as int])]
                        + files_in_upto(rv, fv[j as int], k + 1));
                }
            } else {
                proof {
                    assert(files_in_upto(rv, fv[j as int], k + 1) == files_in_upto(rv, fv[j as int], k as int));
                }
            }
            k = k + 1;
        }
        proof {
            assert(rows_view(rows@) =~= groups_upto(rv, fv, j + 1));
        }
        j = j + 1;
    }
    rows
}

/// A worker message as plain values.
pub enum MessageView {
    Match(Seq<char>, Option<u64>),
    CurrentDir(Seq<char>),
    Done,
}

impl FindMessage {
    pub open spec fn view(&self) -> MessageView {
        match self {
            FindMessage::Match(p, l) => MessageView::Match(p@, *l),
            FindMessage::CurrentDir(d) => MessageView::CurrentDir(d@),
            FindMessage::Done => MessageView::Done,
        }
    }
}

pub open spec fn messages_view(ms: Seq<FindMessage>) -> Seq<MessageView> {
    ms.map_values(|m: FindMessage| m.view())
}

/// Index of the first `Done` at or after `k`, or the length when there is none.
pub open spec fn done_index(ms: Seq<MessageView>, k: int) -> int
    decreases ms.len() - k,
{
    if k < 0 || k >= ms.len() {
        ms.len() as int
    } else if ms[k] is Done {
        k
    } else {
        done_index(ms, k + 1)
    }
}

/// The matches among the first `k` messages, in order.
pub open spec fn matches_in(ms: Seq<MessageView>, k: int) -> Seq<(Seq<char>, Option<u64>)>
    decreases k,
{
    if k <= 0 {
        Seq::empty()
    } else {
        match ms[k - 1] {
            MessageView::Match(p, l) => matches_in(ms, k - 1).push((p, l)),
            _ => matches_in(ms, k - 1),
        }
    }
}

/// The directory named by the last `CurrentDir` among the first `k` messages, else `cur`.
pub open spec fn last_dir_in(ms: Seq<MessageView>, k: int, cur: Seq<char>) -> Seq<char>
    decreases k,
{
    if k <= 0 {
        cur
    } else {
        match ms[k - 1] {
            MessageView::CurrentDir(d) => d,
            _ => last_dir_in(ms, k - 1, cur),
        }
    }
}

/// "Search complete. N match(es)."
pub open spec fn complete_message(n: nat) -> Seq<char> {
    "Search complete. "@ + decimal(n) + " match(es)."@
}

/// An input after putting a kept search text back: that text, cursor at its end.
pub open spec fn restored(input: TextInputState, kept: Option<String>, after: TextInputState) -> bool {
    match kept {
        Some(t) => after.text@ == t@ && after.cursor == t@.len(),
        None => after == input,
    }
}

fn restore_input(input: &mut TextInputState, kept: Option<String>)
    ensures
        restored(*old(input), kept, *final(input)),
{
    if let Some(t) = kept {
        input.cursor = t.as_str().unicode_len();
        input.text = t;
    }
}

/// The inputs of `e` hold the search texts kept in `d` (each input unchanged where none was
/// kept).
pub open spec fn texts_restored(d: FindDialogState, e: FindDialogState) -> bool {
    &&& restored(d.start_dir_input, d.search_start_dir, e.start_dir_input)
    &&& restored(d.file_pattern_input, d.search_file_pattern, e.file_pattern_input)
    &&& restored(d.ignore_pattern_input, d.search_ignore_pattern, e.ignore_pattern_input)
    &&& restored(d.content_pattern_input, d.search_content_pattern, e.content_pattern_input)
}

/// A finished search gives the parameters back: starting a search and then reading its
/// `Done` leaves the four texts as they were before the search, each cursor at its end.
pub proof fn law_finished_search_restores_texts(d0: FindDialogState, d1: FindDialogState, d2: FindDialogState)
    requires
        search_started(d0, d1),
        texts_restored(d1, d2),
    ensures
        d2.start_dir_input.text@ == d0.start_dir_input.text@,
        d2.file_pattern_input.text@ == d0.file_pattern_input.text@,
        d2.ignore_pattern_input.text@ == d0.ignore_pattern_input.text@,
        d2.content_pattern_input.text@ == d0.content_pattern_input.text@,
        d2.start_dir_input.cursor == d0.start_dir_input.text@.len(),
        d2.file_pattern_input.cursor == d0.file_pattern_input.text@.len(),
        d2.ignore_pattern_input.cursor == d0.ignore_pattern_input.text@.len(),
        d2.content_pattern_input.cursor == d0.content_pattern_input.text@.len(),
{
}

/// The dialog `e` is `d` once its search is done: the Results phase with "Search complete. N
/// match(es).", no directory shown, the kept search texts back in the inputs, and nothing else
/// changed but the results.
pub open spec fn search_finished(d: FindDialogState, e: FindDialogState) -> bool {
    &&& e.phase == FindDialogPhase::Results
    &&& e.status_message@ == complete_message(e.results@.len())
    &&& e.search_current_dir@.len() == 0
    &&& texts_restored(d, e)
    &&& e.search_start_dir is None && e.search_file_pattern is None && e.search_ignore_pattern is None
    &&& e.search_content_pattern is None
    &&& e == (FindDialogState {
        phase: e.phase,
        start_dir_input: e.start_dir_input,
        file_pattern_input: e.file_pattern_input,
        ignore_pattern_input: e.ignore_pattern_input,
        content_pattern_input: e.content_pattern_input,
        results: e.results,
        status_message: e.status_message,
        search_current_dir: e.search_current_dir,
        search_start_dir: None,
        search_file_pattern: None,
        search_ignore_pattern: None,
        search_content_pattern: None,
        ..d
    })
}

/// A whole search run: starting a search from the form `d0` (giving `d1`) and then reading the
/// worker's messages `ms` up to its `Done` (giving `d2`, as `poll_search` does) leaves the dialog
/// in the Results phase holding exactly the matches of the messages, in order, with "Search
/// complete. N match(es)." for their number, no directory shown, the four search texts back in
/// the inputs as before the search with each cursor at its end, and no kept texts.
pub proof fn law_search_run(d0: FindDialogState, d1: FindDialogState, d2: FindDialogState, ms: Seq<MessageView>)
    requires
        search_started(d0, d1),
        done_index(ms, 0) < ms.len(),
        results_view(d2.results@) == results_view(d1.results@) + matches_in(ms, done_index(ms, 0)),
        search_finished(d1, d2),
    ensures
        d2.phase == FindDialogPhase::Results,
        results_view(d2.results@) == matches_in(ms, done_index(ms, 0)),
        d2.status_message@ == complete_message(matches_in(ms, done_index(ms, 0)).len()),
        d2.search_current_dir@.len() == 0,
        d2.start_dir_input.text@ == d0.start_dir_input.text@,
        d2.file_pattern_input.text@ == d0.file_pattern_input.text@,
        d2.ignore_pattern_input.text@ == d0.ignore_pattern_input.text@,
        d2.content_pattern_input.text@ == d0.content_pattern_input.text@,
        d2.start_dir_input.cursor == d0.start_dir_input.text@.len(),
        d2.file_pattern_input.cursor == d0.file_pattern_input.text@.len(),
        d2.ignore_pattern_input.cursor == d0.ignore_pattern_input.text@.len(),
        d2.content_pattern_input.cursor == d0.content_pattern_input.text@.len(),
        d2.search_start_dir is None && d2.search_file_pattern is None && d2.search_ignore_pattern is None,
        d2.search_content_pattern is None,
{
    assert(results_view(d1.results@) =~= Seq::<(Seq<char>, Option<u64>)>::empty());
    assert(results_view(d1.results@) + matches_in(ms, done_index(ms, 0)) =~= matches_in(ms, done_index(ms, 0)));
    assert(results_view(d2.results@).len() == d2.results@.len());
    law_finished_search_restores_texts(d0, d1, d2);
}

/// Applies the worker messages read so far, in order, up to and including the first `Done`:
/// matches are appended to the results, `CurrentDir` updates the shown directory, and `Done`
/// switches to Results with "Search complete. N match(es).", restores the search texts into
/// the inputs and ends the search. Returns whether `Done` was seen. Nothing happens when no
/// search is running.
pub fn poll_search(app: &mut AppState, messages: Vec<FindMessage>) -> (done: bool)
    ensures
        ({
            let ms = messages_view(messages@);
            let k = done_index(ms, 0);
            &&& !old(app).find_search_running ==> !done && *final(app) == *old(app)
            &&& old(app).find_search_running ==> {
                &&& done == (k < ms.len())
                &&& final(app).find_search_running == !done
                &&& *final(app) == (AppState { find_dialog: final(app).find_dialog, find_search_running: final(app).find_search_running, ..*old(app) })
                &&& old(app).find_dialog is None ==> final(app).find_dialog is None
                &&& old(app).find_dialog matches Some(d) ==> (final(app).find_dialog matches Some(e) && {
                    &&& results_view(e.results@) == results_view(d.results@) + matches_in(ms, k)
                    &&& !done ==> e.search_current_dir@ == last_dir_in(ms, k, d.search_current_dir@)
                    &&& !done ==> e == (FindDialogState { results: e.results, search_current_dir: e.search_current_dir, ..d })
                    &&& done ==> search_finished(d, e)
                })
            }
        }),
{
    if !app.find_search_running {
        return false;
    }
    let ghost ms = messages_view(messages@);
    let ghost d0 = app.find_dialog;
    let mut dlg = app.find_dialog.take();
    let n = messages.len();
    let mut i: usize = 0;
    while i < n
        invariant
            n == messages@.len(),
            ms == messages_view(messages@),
            i <= n,
            done_index(ms, 0) == done_index(ms, i as int),
            forall|j: int| 0 <= j < i ==> !(ms[j] is Done),
            d0 == old(app).find_dialog,
            old(app).find_search_running,
            *app == (AppState { find_dialog: None, ..*old(app) }),
            d0 is None ==> dlg is None,
            d0 matches Some(d) ==> (dlg matches Some(e) && {
                &&& results_view(e.results@) == results_view(d.results@) + matches_in(ms, i as int)
                &&& e.search_current_dir@ == last_dir_in(ms, i as int, d.search_current_dir@)
                &&& e == (FindDialogState { results: e.results, search_current_dir: e.search_current_dir, ..d })
            }),
        decreases n - i,
    {
        assert(ms[i as int] == messages@[i as int].view());
        match &messages[i] {
            FindMessage::Match(path, line) => {
                assert(ms[i as int] == MessageView::Match(path@, *line));
                assert(matches_in(ms, i + 1) == matches_in(ms, i as int).push((path@, *line)));
                if let Some(mut d) = dlg {
                    let ghost before = d.results@;
                    let r = FindResult { path: path.clone(), line: *line };
                    assert(r.view() == (path@, *line));
                    d.results.push(r);
                    assert(results_view(d.results@) =~= results_view(before).push((path@, *line)));
                    dlg = Some(d);
                }
            },
            FindMessage::CurrentDir(dir) => {
                if let Some(mut d) = dlg {
                    d.search_current_dir = dir.clone();
                    dlg = Some(d);
                }
            },
            FindMessage::Done => {
                if let Some(mut d) = dlg {
                    d.phase = FindDialogPhase::Results;
                    let count = usize_to_string(d.results.len());
                    let mut msg = String::from_str("Search complete. ");
                    msg.append(count.as_str());
                    msg.append(" match(es).");
                    d.status_message = msg;
                    d.search_current_dir = String::new();
                    let kept = d.search_start_dir.take();
                    restore_input(&mut d.start_dir_input, kept);
                    let kept = d.search_file_pattern.take();
                    restore_input(&mut d.file_pattern_input, kept);
                    let kept = d.search_ignore_pattern.take();
                    restore_input(&mut d.ignore_pattern_input, kept);
                    let kept = d.search_content_pattern.take();
                    restore_input(&mut d.content_pattern_input, kept);
                    dlg = Some(d);
                }
                app.find_dialog = dlg;
                app.find_search_running = false;
                return true;
            },
        }
        i = i + 1;
    }
    app.find_dialog = dlg;
    false
}

/// The effect of an editing key on one text input.
pub open spec fn input_edited(t: TextInputState, after: TextInputState, code: KeyCode) -> bool {
    match code {
        KeyCode::Char(c) => after.text@ == text_after_insert(t.text@, t.cursor as int, c) && after.cursor == t.cursor + 1,
        KeyCode::Backspace => after.text@ == text_after_backspace(t.text@, t.cursor as int)
            && after.cursor == (if t.cursor == 0 { 0 } else { t.cursor - 1 }),
        KeyCode::Left => after.text@ == t.text@ && after.cursor == (if t.cursor == 0 { 0 } else { t.cursor - 1 }),
        KeyCode::Right => after.text@ == t.text@
            && after.cursor == (if t.cursor + 1 <= t.text@.len() { t.cursor + 1 } else { t.text@.len() as int }),
        _ => after == t,
    }
}

/// The dialog after an editing key: the focused input (start dir, file pattern, ignore pattern
/// or content pattern) is edited, nothing else changes; with focus elsewhere nothing changes.
pub open spec fn focused_input_edited(d: FindDialogState, e: FindDialogState, code: KeyCode) -> bool {
    if d.focus == 0 {
        input_edited(d.start_dir_input, e.start_dir_input, code) && e == (FindDialogState { start_dir_input: e.start_dir_input, ..d })
    } else if d.focus == 1 {
        input_edited(d.file_pattern_input, e.file_pattern_input, code) && e == (FindDialogState { file_pattern_input: e.file_pattern_input, ..d })
    } else if d.focus == 2 {
        input_edited(d.ignore_pattern_input, e.ignore_pattern_input, code) && e == (FindDialogState { ignore_pattern_input: e.ignore_pattern_input, ..d })
    } else if d.focus == 3 {
        input_edited(d.content_pattern_input, e.content_pattern_input, code) && e == (FindDialogState { content_pattern_input: e.content_pattern_input, ..d })
    } else {
        e == d
    }
}

/// The parameter form after Space on focus 4..7: the option under the focus flips.
pub open spec fn option_toggled(d: FindDialogState) -> FindDialogState {
    if d.focus == 4 {
        FindDialogState { recursive: !d.recursive, ..d }
    } else if d.focus == 5 {
        FindDialogState { file_case_sens: !d.file_case_sens, ..d }
    } else if d.focus == 6 {
        FindDialogState { content_case_sens: !d.content_case_sens, ..d }
    } else if d.focus == 7 {
        FindDialogState { skip_hidden: !d.skip_hidden, ..d }
    } else {
        d
    }
}

/// Keys of the parameter form (other than Ctrl+C, which closes the dialog): the new dialog
/// state and the action.
pub open spec fn parameter_key(d: FindDialogState, e: FindDialogState, code: KeyCode, r: AppAction) -> bool {
    match code {
        KeyCode::Esc => e == d && r == AppAction::FindClose,
        KeyCode::Tab | KeyCode::Down => e == (FindDialogState { focus: ((d.focus + 1) % 10) as usize, ..d }) && r == AppAction::Continue,
        KeyCode::BackTab | KeyCode::Up => e == (FindDialogState { focus: ((d.focus + 9) % 10) as usize, ..d }) && r == AppAction::Continue,
        KeyCode::Enter => e == d && r == (if d.focus == 9 { AppAction::FindClose } else { AppAction::FindStartSearch }),
        KeyCode::Char(c) => r == AppAction::Continue && if c == ' ' {
            e == option_toggled(d)
        } else if printable_ascii(c) {
            focused_input_edited(d, e, code)
        } else {
            e == d
        },
        KeyCode::Backspace | KeyCode::Left | KeyCode::Right => r == AppAction::Continue && focused_input_edited(d, e, code),
        _ => e == d && r == AppAction::Continue,
    }
}

fn edit_input(t: TextInputState, code: KeyCode) -> (r: TextInputState)
    requires
        t.cursor < usize::MAX,
    ensures
        input_edited(t, r, code),
{
    match code {
        KeyCode::Char(c) => t.insert_char(c),
        KeyCode::Backspace => t.backspace(),
        KeyCode::Left => t.move_left(),
        KeyCode::Right => t.move_right(),
        _ => t,
    }
}

fn take_input(t: &mut TextInputState) -> (r: TextInputState)
    ensures
        r == *old(t),
{
    let mut out = TextInputState { text: String::new(), cursor: 0 };
    std::mem::swap(&mut out, t);
    out
}

fn edit_focused(mut d: FindDialogState, code: KeyCode) -> (e: FindDialogState)
    requires
        d.start_dir_input.cursor < usize::MAX,
        d.file_pattern_input.cursor < usize::MAX,
        d.ignore_pattern_input.cursor < usize::MAX,
        d.content_pattern_input.cursor < usize::MAX,
    ensures
        focused_input_edited(d, e, code),
{
    if d.focus == 0 {
        let t = take_input(&mut d.start_dir_input);
        d.start_dir_input = edit_input(t, code);
    } else if d.focus == 1 {
        let t = take_input(&mut d.file_pattern_input);
        d.file_pattern_input = edit_input(t, code);
    } else if d.focus == 2 {
        let t = take_input(&mut d.ignore_pattern_input);
        d.ignore_pattern_input = edit_input(t, code);
    } else if d.focus == 3 {
        let t = take_input(&mut d.content_pattern_input);
        d.content_pattern_input = edit_input(t, code);
    }
    d
}

/// Inputs and focus are small enough for the key arithmetic.
pub open spec fn dialog_fits(d: FindDialogState) -> bool {
    &&& d.focus <= usize::MAX - 10
    &&& d.start_dir_input.cursor < usize::MAX
    &&& d.file_pattern_input.cursor < usize::MAX
    &&& d.ignore_pattern_input.cursor < usize::MAX
    &&& d.content_pattern_input.cursor < usize::MAX
    &&& d.selected_index + rows(d.visible_list_rows as int) <= usize::MAX
    &&& d.scroll_offset + rows(d.visible_list_rows as int) <= usize::MAX
}

fn handle_key_parameter(app: &mut AppState, code: KeyCode, modifiers: KeyModifiers) -> (r: Option<AppAction>)
    requires
        old(app).find_dialog matches Some(d) && dialog_fits(d),
    ensures
        ({
            let d = old(app).find_dialog.unwrap();
            if modifiers.control && code == KeyCode::Char('c') {
                r == Some(AppAction::FindClose)
                    && *final(app) == (AppState { focus: Focus::Panel, find_dialog: None, find_search_running: false, ..*old(app) })
            } else {
                r matches Some(a) && final(app).find_dialog matches Some(e) && parameter_key(d, e, code, a)
                    && *final(app) == (AppState { find_dialog: final(app).find_dialog, ..*old(app) })
            }
        }),
{
    if modifiers.control && code == KeyCode::Char('c') {
        close(app);
        return Some(AppAction::FindClose);
    }
    let mut d = match app.find_dialog.take() {
        Some(d) => d,
        None => return None,
    };
    let action = match code {
        KeyCode::Esc => AppAction::FindClose,
        KeyCode::Tab | KeyCode::Down => {
            d.focus = (d.focus + 1) % 10;
            AppAction::Continue
        },
        KeyCode::BackTab | KeyCode::Up => {
            d.focus = (d.focus + 9) % 10;
            AppAction::Continue
        },
        KeyCode::Enter => {
            if d.focus == 9 {
                AppAction::FindClose
            } else {
                AppAction::FindStartSearch
            }
        },
        KeyCode::Char(c) => {
            if c == ' ' {
                if d.focus == 4 {
                    d.recursive = !d.recursive;
                } else if d.focus == 5 {
                    d.file_case_sens = !d.file_case_sens;
                } else if d.focus == 6 {
                    d.content_case_sens = !d.content_case_sens;
                } else if d.focus == 7 {
                    d.skip_hidden = !d.skip_hidden;
                }
            } else if is_printable_ascii(c) {
                d = edit_focused(d, code);
            }
            AppAction::Continue
        },
        KeyCode::Backspace | KeyCode::Left | KeyCode::Right => {
            d = edit_focused(d, code);
            AppAction::Continue
        },
        _ => AppAction::Continue,
    };
    app.find_dialog = Some(d);
    Some(action)
}

/// Selection and scroll of the results list after a navigation key, from the clamped
/// selection `sel`.
pub open spec fn results_cursor(len: int, sel: int, scroll: int, vis: int, code: KeyCode) -> (int, int) {
    let n = rows(vis);
    match code {
        KeyCode::Up => if len > 0 {
            let s = sat_sub(sel, 1);
            (s, if s < scroll { s } else { scroll })
        } else {
            (sel, scroll)
        },
        KeyCode::Down => if len > 0 {
            let s = min_int(sel + 1, len - 1);
            (s, if s >= scroll + n { s - n + 1 } else { scroll })
        } else {
            (sel, scroll)
        },
        KeyCode::PageUp => if len > 0 {
            let s = sat_sub(sel, n);
            (s, if s < scroll { s } else { scroll })
        } else {
            (sel, scroll)
        },
        KeyCode::PageDown => if len > 0 {
            let s = min_int(sel + n, len - 1);
            (s, if s >= scroll + n { s - n + 1 } else { scroll })
        } else {
            (sel, scroll)
        },
        KeyCode::Home => (0, 0),
        KeyCode::End => if len > 0 { (len - 1, sat_sub(len, n)) } else { (sel, scroll) },
        _ => (sel, scroll),
    }
}

/// The action of a key in the results list, given the rows and the clamped selection.
pub open spec fn results_action(rows: Seq<DisplayRowView>, sel: int, code: KeyCode) -> AppAction {
    match code {
        KeyCode::Esc => AppAction::FindClose,
        KeyCode::Enter => AppAction::FindChdir,
        KeyCode::F(k) => if (k == 3 || k == 4) && 0 <= sel < rows.len() && rows[sel] is File {
            if k == 3 { AppAction::FindView } else { AppAction::FindEdit }
        } else {
            AppAction::Continue
        },
        _ => AppAction::Continue,
    }
}

pub open spec fn clamped_selection(len: int, sel: int) -> int {
    if len > 0 && sel >= len { len - 1 } else { sel }
}

fn results_cursor_exec(len: usize, sel: usize, scroll: usize, vis: usize, code: KeyCode) -> (r: (usize, usize))
    requires
        len > 0 ==> sel < len,
        sel + rows(vis as int) <= usize::MAX,
        scroll + rows(vis as int) <= usize::MAX,
    ensures
        (r.0 as int, r.1 as int) == results_cursor(len as int, sel as int, scroll as int, vis as int, code),
{
    let n = if vis < 1 { 1 } else { vis };
    match code {
        KeyCode::Up => {
            if len > 0 {
                let s = sel.saturating_sub(1);
                (s, if s < scroll { s } else { scroll })
            } else {
                (sel, scroll)
            }
        },
        KeyCode::Down => {
            if len > 0 {
                let s = if sel + 1 < len - 1 { sel + 1 } else { len - 1 };
                (s, if s >= scroll + n { s - n + 1 } else { scroll })
            } else {
                (sel, scroll)
            }
        },
        KeyCode::PageUp => {
            if len > 0 {
                let s = sel.saturating_sub(n);
                (s, if s < scroll { s } else { scroll })
            } else {
                (sel, scroll)
            }
        },
        KeyCode::PageDown => {
            if len > 0 {
                let s = if sel + n < len - 1 { sel + n } else { len - 1 };
                (s, if s >= scroll + n { s - n + 1 } else { scroll })
            } else {
                (sel, scroll)
            }
        },
        KeyCode::Home => (0, 0),
        KeyCode::End => {
            if len > 0 {
                (len - 1, len.saturating_sub(n))
            } else {
                (sel, scroll)
            }
        },
        _ => (sel, scroll),
    }
}

fn handle_key_results(app: &mut AppState, code: KeyCode) -> (r: Option<AppAction>)
    requires
        old(app).find_dialog matches Some(d) && dialog_fits(d),
    ensures
        ({
            let d = old(app).find_dialog.unwrap();
            let rows = display_rows(results_view(d.results@));
            let sel = clamped_selection(rows.len() as int, d.selected_index as int);
            let c = results_cursor(rows.len() as int, sel, d.scroll_offset as int, d.visible_list_rows as int, code);
            &&& r == Some(results_action(rows, sel, code))
            &&& final(app).find_dialog matches Some(e) && e.selected_index == c.0 && e.scroll_offset == c.1
                && e == (FindDialogState { selected_index: e.selected_index, scroll_offset: e.scroll_offset, ..d })
            &&& *final(app) == (AppState { find_dialog: final(app).find_dialog, ..*old(app) })
        }),
{
    let mut d = match app.find_dialog.take() {
        Some(d) => d,
        None => return None,
    };
    let display_rows = build_display_rows(d.results.as_slice());
    let len = display_rows.len();
    if len > 0 && d.selected_index >= len {
        d.selected_index = len - 1;
    }
    let mut action = AppAction::Continue;
    if let KeyCode::Esc = code {
        action = AppAction::FindClose;
    } else if let KeyCode::Enter = code {
        action = AppAction::FindChdir;
    } else if let KeyCode::F(k) = code {
        if (k == 3 || k == 4) && d.selected_index < len {
            if let FindDisplayRow::File(_) = &display_rows[d.selected_index] {
                action = if k == 3 { AppAction::FindView } else { AppAction::FindEdit };
            }
        }
    }
    proof {
        if len > 0 && (d.selected_index as int) < len {
            assert(rows_view(display_rows@)[d.selected_index as int] == display_rows@[d.selected_index as int].view());
        }
    }
    let (s, sc) = results_cursor_exec(len, d.selected_index, d.scroll_offset, d.visible_list_rows, code);
    d.selected_index = s;
    d.scroll_offset = sc;
    app.find_dialog = Some(d);
    Some(action)
}

/// "Stopped. N match(es)."
pub open spec fn stopped_message(n: nat) -> Seq<char> {
    "Stopped. "@ + decimal(n) + " match(es)."@
}

/// Key handling of the Find file dialog. In the parameter form keys edit the fields and
/// options; Esc while searching stops the search and keeps the results found so far; in the
/// results list keys move the selection and Enter / F3 / F4 act on it. `None` when the dialog
/// is not open.
pub fn handle_key(app: &mut AppState, code: KeyCode, modifiers: KeyModifiers) -> (r: Option<AppAction>)
    requires
        old(app).find_dialog matches Some(d) ==> dialog_fits(d),
    ensures
        old(app).find_dialog is None ==> r is None && *final(app) == *old(app),
        old(app).find_dialog matches Some(d) ==> {
            &&& d.phase == FindDialogPhase::Searching && code == KeyCode::Esc ==> {
                &&& r == Some(AppAction::Continue)
                &&& final(app).find_dialog matches Some(e) && {
                    &&& e.phase == FindDialogPhase::Results
                    &&& e.status_message@ == stopped_message(d.results@.len())
                    &&& e.search_current_dir@.len() == 0
                    &&& e == (FindDialogState { phase: e.phase, status_message: e.status_message, search_current_dir: e.search_current_dir, ..d })
                }
                &&& *final(app) == (AppState { find_dialog: final(app).find_dialog, find_search_running: false, ..*old(app) })
            }
            &&& d.phase == FindDialogPhase::Parameter ==> if modifiers.control && code == KeyCode::Char('c') {
                r == Some(AppAction::FindClose)
                    && *final(app) == (AppState { focus: Focus::Panel, find_dialog: None, find_search_running: false, ..*old(app) })
            } else {
                r matches Some(a) && final(app).find_dialog matches Some(e) && parameter_key(d, e, code, a)
                    && *final(app) == (AppState { find_dialog: final(app).find_dialog, ..*old(app) })
            }
            &&& (d.phase == FindDialogPhase::Results || (d.phase == FindDialogPhase::Searching && code != KeyCode::Esc)) ==> {
                let rows = display_rows(results_view(d.results@));
                let sel = clamped_selection(rows.len() as int, d.selected_index as int);
                let c = results_cursor(rows.len() as int, sel, d.scroll_offset as int, d.visible_list_rows as int, code);
                &&& r == Some(results_action(rows, sel, code))
                &&& final(app).find_dialog matches Some(e) && e.selected_index == c.0 && e.scroll_offset == c.1
                    && e == (FindDialogState { selected_index: e.selected_index, scroll_offset: e.scroll_offset, ..d })
                &&& *final(app) == (AppState { find_dialog: final(app).find_dialog, ..*old(app) })
            }
        },
{
    let phase = match &app.find_dialog {
        Some(d) => d.phase,
        None => return None,
    };
    match phase {
        FindDialogPhase::Parameter => handle_key_parameter(app, code, modifiers),
        FindDialogPhase::Searching | FindDialogPhase::Results => {
            if phase == FindDialogPhase::Searching && code == KeyCode::Esc {
                if let Some(mut d) = app.find_dialog.take() {
                    d.phase = FindDialogPhase::Results;
                    let count = usize_to_string(d.results.len());
                    let mut msg = String::from_str("Stopped. ");
                    msg.append(count.as_str());
                    msg.append(" match(es).");
                    d.status_message = msg;
                    d.search_current_dir = String::new();
                    app.find_dialog = Some(d);
                }
                app.find_search_running = false;
                return Some(AppAction::Continue);
            }
            handle_key_results(app, code)
        },
    }
}

/// Whether a line of a file matches the content pattern: it contains the pattern, both
/// lower-cased unless `case_sensitive`.
pub open spec fn line_matches(line: Seq<char>, pattern: Seq<char>, case_sensitive: bool) -> bool {
    if case_sensitive {
        contains_seq(line, pattern)
    } else {
        contains_seq(lowercase_of(line), lowercase_of(pattern))
    }
}

/// Without case sensitivity a line's match depends on the line and the pattern only through
/// their lower-case forms: texts that lower-case alike match alike, whichever of them is the
/// line or the pattern (so "fn main() {" matches "Main" as it matches "main").
pub proof fn law_content_match_ignores_case(l1: Seq<char>, l2: Seq<char>, p1: Seq<char>, p2: Seq<char>)
    requires
        lowercase_of(l1) == lowercase_of(l2),
        lowercase_of(p1) == lowercase_of(p2),
    ensures
        line_matches(l1, p1, false) == line_matches(l2, p2, false),
{
}

/// Whether `line` matches the content pattern (see `line_matches`).
pub fn content_line_matches(line: &str, pattern: &str, case_sensitive: bool) -> (r: bool)
    ensures
        r == line_matches(line@, pattern@, case_sensitive),
{
    if case_sensitive {
        chars_contains(&str_chars(line), &str_chars(pattern))
    } else {
        let l = str_to_lowercase(line);
        let p = str_to_lowercase(pattern);
        chars_contains(&str_chars(l.as_str()), &str_chars(p.as_str()))
    }
}

/// Whether the search walks into or reports an entry: hidden names are skipped on request.
pub open spec fn search_visits(name: Seq<char>, skip_hidden: bool) -> bool {
    !(skip_hidden && name.len() > 0 && name[0] == '.')
}

pub fn search_visits_entry(name: &str, skip_hidden: bool) -> (r: bool)
    ensures
        r == search_visits(name@, skip_hidden),
{
    !(skip_hidden && name.unicode_len() > 0 && name.get_char(0) == '.')
}

/// The request as the worker uses it: the four texts trimmed of surrounding white space.
pub fn trimmed_request(req: &FindSearchRequest) -> (r: FindSearchRequest)
    ensures
        r.start_dir@ == trim_of(req.start_dir@),
        r.file_pattern@ == trim_of(req.file_pattern@),
        r.ignore_pattern@ == trim_of(req.ignore_pattern@),
        r.content_pattern@ == trim_of(req.content_pattern@),
        r.recursive == req.recursive,
        r.file_case_sens == req.file_case_sens,
        r.content_case_sens == req.content_case_sens,
        r.skip_hidden == req.skip_hidden,
{
    FindSearchRequest {
        start_dir: str_trim(req.start_dir.as_str()).to_owned(),
        file_pattern: str_trim(req.file_pattern.as_str()).to_owned(),
        ignore_pattern: str_trim(req.ignore_pattern.as_str()).to_owned(),
        content_pattern: str_trim(req.content_pattern.as_str()).to_owned(),
        recursive: req.recursive,
        file_case_sens: req.file_case_sens,
        content_case_sens: req.content_case_sens,
        skip_hidden: req.skip_hidden,
    }
}


/// A file pattern matches a name when one of its `|`-separated alternatives does (each a glob,
/// see `glob_match`; without case sensitivity both are lower-cased).
pub open spec fn pattern_matches(pattern: Seq<char>, name: Seq<char>, case_sensitive: bool) -> bool {
    crate::dialogs::pattern_select_dialog::matches_any(
        crate::dialogs::pattern_select_dialog::alternatives(pattern), name, case_sensitive)
}

/// Whether the file pattern matches the name (see `pattern_matches`).
pub fn file_pattern_matches(pattern: &str, name: &str, case_sensitive: bool) -> (r: bool)
    ensures
        r == pattern_matches(pattern@, name@, case_sensitive),
{
    let alts = crate::dialogs::pattern_select_dialog::split_alternatives(pattern);
    crate::dialogs::pattern_select_dialog::any_alternative_matches(&alts, name, case_sensitive)
}

/// The search leaves out a path (relative to the start directory) that a non-empty ignore
/// pattern matches, with the same rules as the file pattern.
pub open spec fn path_ignored(ignore: Seq<char>, rel_path: Seq<char>, case_sensitive: bool) -> bool {
    ignore.len() > 0 && pattern_matches(ignore, rel_path, case_sensitive)
}

/// Whether the search leaves out the path (see `path_ignored`).
pub fn ignored_path(ignore: &str, rel_path: &str, case_sensitive: bool) -> (r: bool)
    ensures
        r == path_ignored(ignore@, rel_path@, case_sensitive),
{
    ignore.unicode_len() > 0 && file_pattern_matches(ignore, rel_path, case_sensitive)
}

} // verus!
