//! Scrollable dialog that shows the full text of an error.
use vstd::prelude::*;

use crate::app_state::AppState;
use crate::dialogs::help_dialog::{area_fits, help_key_outcome, help_layout, help_layout_spec, help_mouse_outcome, key_scroll, mouse_scroll, sat_sub};
use crate::events::AppAction;
use crate::keys::{KeyCode, KeyModifiers, MouseKind, Rect};
use crate::strutil::{i32_to_string, is_white_space, signed_decimal, string_push, white_space};
use crate::subshell::str_chars;
use vstd::utf8::encode_utf8;

verus! {

pub struct ErrorDetailState {
    pub title: String,
    pub body: String,
    pub scroll: usize,
}

/// Opens the dialog with the given title and body, scrolled to the top.
pub fn open(app: &mut AppState, title: String, body: String)
    ensures
        final(app).error_detail matches Some(d) && d.title@ == title@ && d.body@ == body@ && d.scroll == 0,
        *final(app) == (AppState { error_detail: final(app).error_detail, ..*old(app) }),
{
    app.error_detail = Some(ErrorDetailState { title, body, scroll: 0 });
}

pub fn close(app: &mut AppState)
    ensures
        *final(app) == (AppState { error_detail: None, ..*old(app) }),
{
    app.error_detail = None;
}

/// The text shown for an I/O error: its message, then the operating system's error code when
/// there is one.
pub open spec fn io_error_body(message: Seq<char>, os_code: Option<i32>) -> Seq<char> {
    match os_code {
        Some(code) => message + "\n\nOS error code: "@ + signed_decimal(code as int),
        None => message,
    }
}

/// Opens the dialog for an I/O error, given as its message and its OS error code.
pub fn open_from_io(app: &mut AppState, title: String, message: String, os_code: Option<i32>)
    ensures
        final(app).error_detail matches Some(d) && d.title@ == title@ && d.body@ == io_error_body(message@, os_code)
            && d.scroll == 0,
        *final(app) == (AppState { error_detail: final(app).error_detail, ..*old(app) }),
{
    let mut body = message;
    match os_code {
        Some(code) => {
            body.append("\n\nOS error code: ");
            let digits = i32_to_string(code);
            body.append(digits.as_str());
        },
        None => {},
    }
    open(app, title, body);
}

/// Splitting the first `i` characters at `sep`: the pieces closed so far and the open piece.
pub open spec fn split_upto(s: Seq<char>, sep: char, i: int) -> (Seq<Seq<char>>, Seq<char>)
    decreases i,
{
    if i <= 0 {
        (Seq::empty(), Seq::empty())
    } else {
        let prev = split_upto(s, sep, i - 1);
        if s[i - 1] == sep {
            (prev.0.push(prev.1), Seq::empty())
        } else {
            (prev.0, prev.1.push(s[i - 1]))
        }
    }
}

/// The text cut at every line feed (an empty piece where two follow each other or at the ends).
pub open spec fn paragraphs(s: Seq<char>) -> Seq<Seq<char>> {
    let r = split_upto(s, '\n', s.len() as int);
    r.0.push(r.1)
}

/// The words of the first `i` characters: the words closed so far and the word being read.
pub open spec fn words_upto(s: Seq<char>, i: int) -> (Seq<Seq<char>>, Seq<char>)
    decreases i,
{
    if i <= 0 {
        (Seq::empty(), Seq::empty())
    } else {
        let prev = words_upto(s, i - 1);
        if is_white_space(s[i - 1]) {
            if prev.1.len() > 0 { (prev.0.push(prev.1), Seq::empty()) } else { prev }
        } else {
            (prev.0, prev.1.push(s[i - 1]))
        }
    }
}

/// The words of a text: its runs of non-white-space characters.
pub open spec fn words(s: Seq<char>) -> Seq<Seq<char>> {
    let r = words_upto(s, s.len() as int);
    if r.1.len() > 0 { r.0.push(r.1) } else { r.0 }
}

/// Length of a text in bytes (UTF-8).
pub open spec fn byte_len(s: Seq<char>) -> int {
    encode_utf8(s).len() as int
}

/// Packing the first `k` words into lines of at most `w` bytes (a longer word gets a line of
/// its own): the finished lines and the line being filled.
pub open spec fn pack_upto(ws: Seq<Seq<char>>, w: int, k: int) -> (Seq<Seq<char>>, Seq<char>)
    decreases k,
{
    if k <= 0 {
        (Seq::empty(), Seq::empty())
    } else {
        let prev = pack_upto(ws, w, k - 1);
        let word = ws[k - 1];
        if prev.1.len() == 0 {
            (prev.0, word)
        } else if byte_len(prev.1) + 1 + byte_len(word) > w {
            (prev.0.push(prev.1), word)
        } else {
            (prev.0, prev.1 + seq![' '] + word)
        }
    }
}

/// The lines of one paragraph: one empty line for an empty paragraph, else its words packed.
pub open spec fn wrap_paragraph(p: Seq<char>, w: int) -> Seq<Seq<char>> {
    if p.len() == 0 {
        seq![Seq::empty()]
    } else {
        let ws = words(p);
        let r = pack_upto(ws, w, ws.len() as int);
        if r.1.len() > 0 { r.0.push(r.1) } else { r.0 }
    }
}

/// The lines of the first `k` paragraphs.
pub open spec fn wrap_upto(ps: Seq<Seq<char>>, w: int, k: int) -> Seq<Seq<char>>
    decreases k,
{
    if k <= 0 { Seq::empty() } else { wrap_upto(ps, w, k - 1) + wrap_paragraph(ps[k - 1], w) }
}

/// An error text laid out for a dialog `width` columns wide (at least 12): each paragraph
/// wrapped at word boundaries; "(no message)" when nothing is left.
pub open spec fn wrapped_lines(text: Seq<char>, width: int) -> Seq<Seq<char>> {
    let w = if width < 12 { 12 } else { width };
    let ps = paragraphs(text);
    let lines = wrap_upto(ps, w, ps.len() as int);
    if lines.len() == 0 { seq!["(no message)"@] } else { lines }
}

pub open spec fn strings_view(v: Seq<String>) -> Seq<Seq<char>> {
    v.map_values(|s: String| s@)
}

fn split_at_char(s: &Vec<char>, sep: char) -> (r: Vec<Vec<char>>)
    ensures
        r@.map_values(|v: Vec<char>| v@) == ({ let u = split_upto(s@, sep, s@.len() as int); u.0.push(u.1) }),
{
    let mut done: Vec<Vec<char>> = Vec::new();
    let mut cur: Vec<char> = Vec::new();
    let mut i: usize = 0;
    while i < s.len()
        invariant
            i <= s@.len(),
            (done@.map_values(|v: Vec<char>| v@), cur@) == split_upto(s@, sep, i as int),
        decreases s@.len() - i,
    {
        let c = s[i];
        if c == sep {
            let mut piece: Vec<char> = Vec::new();
            std::mem::swap(&mut piece, &mut cur);
            let ghost before = done@;
            done.push(piece);
            assert(done@.map_values(|v: Vec<char>| v@) =~= before.map_values(|v: Vec<char>| v@).push(piece@));
        } else {
            cur.push(c);
        }
        i = i + 1;
    }
    let ghost before = done@;
    done.push(cur);
    assert(done@.map_values(|v: Vec<char>| v@) =~= before.map_values(|v: Vec<char>| v@).push(cur@));
    done
}

fn split_words(s: &Vec<char>) -> (r: Vec<Vec<char>>)
    ensures
        r@.map_values(|v: Vec<char>| v@) == words(s@),
{
    let mut done: Vec<Vec<char>> = Vec::new();
    let mut cur: Vec<char> = Vec::new();
    let mut i: usize = 0;
    while i < s.len()
        invariant
            i <= s@.len(),
            (done@.map_values(|v: Vec<char>| v@), cur@) == words_upto(s@, i as int),
        decreases s@.len() - i,
    {
        let c = s[i];
        if white_space(c) {
            if cur.len() > 0 {
                let mut piece: Vec<char> = Vec::new();
            std::mem::swap(&mut piece, &mut cur);
                let ghost before = done@;
                done.push(piece);
                assert(done@.map_values(|v: Vec<char>| v@) =~= before.map_values(|v: Vec<char>| v@).push(piece@));
            }
        } else {
            cur.push(c);
        }
        i = i + 1;
    }
    if cur.len() > 0 {
        let ghost before = done@;
        done.push(cur);
        assert(done@.map_values(|v: Vec<char>| v@) =~= before.map_values(|v: Vec<char>| v@).push(cur@));
    }
    done
}

fn chars_string(v: &Vec<char>) -> (r: String)
    ensures
        r@ == v@,
{
    let mut s = String::new();
    let mut i: usize = 0;
    while i < v.len()
        invariant
            i <= v@.len(),
            s@ == v@.take(i as int),
        decreases v@.len() - i,
    {
        string_push(&mut s, v[i]);
        assert(v@.take(i + 1) =~= v@.take(i as int).push(v@[i as int]));
        i = i + 1;
    }
    assert(v@.take(v@.len() as int) =~= v@);
    s
}

proof fn lemma_nonempty_bytes(s: Seq<char>)
    requires
        s.len() > 0,
    ensures
        byte_len(s) > 0,
{
    assert(vstd::utf8::encode_scalar(s[0] as u32).len() >= 1);
}

fn append_paragraph(out: &mut Vec<String>, p: &Vec<char>, w: usize)
    ensures
        strings_view(final(out)@) == strings_view(old(out)@) + wrap_paragraph(p@, w as int),
{
    let ghost o = strings_view(out@);
    if p.len() == 0 {
        out.push(String::new());
        assert(strings_view(out@) =~= o + seq![Seq::<char>::empty()]);
        return;
    }
    let ws = split_words(p);
    let ghost wv = ws@.map_values(|v: Vec<char>| v@);
    let mut lines: Vec<String> = Vec::new();
    let mut cur = String::new();
    let mut k: usize = 0;
    while k < ws.len()
        invariant
            k <= ws@.len(),
            wv == ws@.map_values(|v: Vec<char>| v@),
            wv.len() == ws@.len(),
            (strings_view(lines@), cur@) == pack_upto(wv, w as int, k as int),
        decreases ws@.len() - k,
    {
        let word = chars_string(&ws[k]);
        assert(wv[k as int] == ws@[k as int]@);
        let cur_len = cur.as_str().as_bytes().len();
        let word_len = word.as_str().as_bytes().len();
        if cur_len == 0 {
            assert(cur@.len() == 0) by {
                if cur@.len() > 0 {
                    lemma_nonempty_bytes(cur@);
                }
            }
            cur = word;
        } else if cur_len >= w || word_len > w - cur_len - 1 {
            assert(cur@.len() > 0);
            let mut finished = word;
            std::mem::swap(&mut finished, &mut cur);
            let ghost before = lines@;
            lines.push(finished);
            assert(strings_view(lines@) =~= strings_view(before).push(finished@));
        } else {
            assert(cur@.len() > 0);
            cur.append(" ");
            cur.append(word.as_str());
            proof {
                reveal_strlit(" ");
            }
        }
        k = k + 1;
    }
    if cur.as_str().unicode_len() > 0 {
        lines.push(cur);
    }
    assert(wv =~= words(p@));
    let mut j: usize = 0;
    let ghost ls = strings_view(lines@);
    while j < lines.len()
        invariant
            j <= lines@.len(),
            ls == strings_view(lines@),
            strings_view(out@) == o + ls.take(j as int),
        decreases lines@.len() - j,
    {
        let line = lines[j].clone();
        let ghost before = out@;
        out.push(line);
        assert(strings_view(out@) =~= strings_view(before).push(ls[j as int]));
        assert(o + ls.take(j + 1) =~= (o + ls.take(j as int)).push(ls[j as int]));
        j = j + 1;
    }
    assert(ls.take(ls.len() as int) =~= ls);
}

/// Lays out an error text for a dialog `width` columns wide (see `wrapped_lines`).
pub fn wrap_paragraphs(text: &str, width: usize) -> (r: Vec<String>)
    ensures
        strings_view(r@) == wrapped_lines(text@, width as int),
{
    let w = if width < 12 { 12 } else { width };
    let chars = str_chars(text);
    let paras = split_at_char(&chars, '\n');
    let ghost ps = paras@.map_values(|v: Vec<char>| v@);
    assert(ps == paragraphs(text@));
    let mut out: Vec<String> = Vec::new();
    let mut k: usize = 0;
    while k < paras.len()
        invariant
            k <= paras@.len(),
            ps == paras@.map_values(|v: Vec<char>| v@),
            strings_view(out@) == wrap_upto(ps, w as int, k as int),
        decreases paras@.len() - k,
    {
        append_paragraph(&mut out, &paras[k], w);
        assert(ps[k as int] == paras@[k as int]@);
        k = k + 1;
    }
    if out.len() == 0 {
        let ghost before = out@;
        out.push(String::from_str("(no message)"));
        assert(strings_view(out@) =~= seq!["(no message)"@]);
    }
    out
}

/// The text holds no white space.
pub open spec fn no_white_space(s: Seq<char>) -> bool {
    forall|i: int| 0 <= i < s.len() ==> !is_white_space(#[trigger] s[i])
}

/// A laid-out line fits: at most `w` bytes, or a single word that alone is longer.
pub open spec fn line_fits(l: Seq<char>, w: int) -> bool {
    byte_len(l) <= w || no_white_space(l)
}

proof fn lemma_encode_concat(a: Seq<char>, b: Seq<char>)
    ensures
        encode_utf8(a + b) == encode_utf8(a) + encode_utf8(b),
    decreases a.len(),
{
    if a.len() == 0 {
        assert(a + b =~= b);
        assert(encode_utf8(a) + encode_utf8(b) =~= encode_utf8(b));
    } else {
        assert((a + b).drop_first() =~= a.drop_first() + b);
        assert((a + b)[0] == a[0]);
        lemma_encode_concat(a.drop_first(), b);
        let head = vstd::utf8::encode_scalar(a[0] as u32);
        assert(encode_utf8(a + b) == head + encode_utf8(a.drop_first() + b));
        assert(head + (encode_utf8(a.drop_first()) + encode_utf8(b)) =~= (head + encode_utf8(a.drop_first())) + encode_utf8(b));
    }
}

proof fn lemma_words_have_no_white_space(s: Seq<char>, i: int)
    ensures
        ({
            let r = words_upto(s, i);
            &&& forall|k: int| 0 <= k < r.0.len() ==> no_white_space(#[trigger] r.0[k]) && r.0[k].len() > 0
            &&& no_white_space(r.1)
        }),
    decreases i,
{
    if i > 0 {
        lemma_words_have_no_white_space(s, i - 1);
        let prev = words_upto(s, i - 1);
        if !is_white_space(s[i - 1]) {
            assert forall|j: int| 0 <= j < prev.1.push(s[i - 1]).len() implies !is_white_space(#[trigger] prev.1.push(s[i - 1])[j]) by {
                if j < prev.1.len() {
                    assert(prev.1.push(s[i - 1])[j] == prev.1[j]);
                }
            }
        }
    }
}

proof fn lemma_pack_fits(ws: Seq<Seq<char>>, w: int, k: int)
    requires
        forall|j: int| 0 <= j < ws.len() ==> no_white_space(#[trigger] ws[j]),
        k <= ws.len(),
    ensures
        ({
            let r = pack_upto(ws, w, k);
            &&& forall|j: int| 0 <= j < r.0.len() ==> line_fits(#[trigger] r.0[j], w)
            &&& line_fits(r.1, w)
        }),
    decreases k,
{
    if k <= 0 {
        assert(byte_len(Seq::<char>::empty()) == 0);
    } else {
        lemma_pack_fits(ws, w, k - 1);
        let prev = pack_upto(ws, w, k - 1);
        let word = ws[k - 1];
        assert(no_white_space(word));
        if prev.1.len() != 0 && byte_len(prev.1) + 1 + byte_len(word) <= w {
            lemma_encode_concat(prev.1, seq![' ']);
            lemma_encode_concat(prev.1 + seq![' '], word);
            assert(byte_len(seq![' ']) == 1) by {
                reveal_with_fuel(encode_utf8, 2);
            }
        }
    }
}

proof fn lemma_wrap_upto_fits(ps: Seq<Seq<char>>, w: int, k: int)
    requires
        w >= 0,
    ensures
        forall|j: int| 0 <= j < wrap_upto(ps, w, k).len() ==> line_fits(#[trigger] wrap_upto(ps, w, k)[j], w),
    decreases k,
{
    if k > 0 {
        lemma_wrap_upto_fits(ps, w, k - 1);
        let prev = wrap_upto(ps, w, k - 1);
        let p = ps[k - 1];
        let lines = wrap_paragraph(p, w);
        if p.len() == 0 {
            assert(byte_len(Seq::<char>::empty()) == 0);
            assert(line_fits(lines[0], w));
        } else {
            let ws = words(p);
            lemma_words_have_no_white_space(p, p.len() as int);
            assert forall|j: int| 0 <= j < ws.len() implies no_white_space(#[trigger] ws[j]) by {
                let r = words_upto(p, p.len() as int);
                if j < r.0.len() {
                    assert(ws[j] == r.0[j]);
                }
            }
            lemma_pack_fits(ws, w, ws.len() as int);
        }
        assert forall|j: int| 0 <= j < (prev + lines).len() implies line_fits(#[trigger] (prev + lines)[j], w) by {
            if j < prev.len() {
                assert((prev + lines)[j] == prev[j]);
            } else {
                assert((prev + lines)[j] == lines[j - prev.len()]);
            }
        }
    }
}

/// Every line of a laid-out error text fits the dialog: it is at most the width (or 12, if
/// that is more) in bytes, or it is one word that is longer on its own.
pub proof fn law_wrapped_lines_fit(text: Seq<char>, width: int)
    ensures
        ({
            let w = if width < 12 { 12 } else { width };
            forall|j: int| 0 <= j < wrapped_lines(text, width).len() ==> line_fits(#[trigger] wrapped_lines(text, width)[j], w)
        }),
{
    let w = if width < 12 { 12 } else { width };
    let ps = paragraphs(text);
    lemma_wrap_upto_fits(ps, w, ps.len() as int);
    if wrap_upto(ps, w, ps.len() as int).len() == 0 {
        assert(byte_len("(no message)"@) == 12) by {
            reveal_strlit("(no message)");
            reveal_with_fuel(encode_utf8, 13);
        }
        assert(line_fits(wrapped_lines(text, width)[0], w));
    }
}

/// The number of lines the body takes in the dialog laid out in `area`: the dialog shares the
/// Help dialog's layout, and its text is wrapped one column short of the text area.
pub open spec fn detail_total(body: Seq<char>, area: Rect) -> int {
    wrapped_lines(body, sat_sub(help_layout_spec(area).1.width as int, 1)).len() as int
}

/// Effect of a key on the scroll `s` over `total` lines: the Help dialog's keys, where Enter
/// closes too, and closing answers `ErrorDetailClose`.
pub open spec fn detail_key_outcome(s: int, area: Rect, total: int, code: KeyCode) -> Option<(int, AppAction)> {
    if code == KeyCode::Enter {
        Some((s, AppAction::ErrorDetailClose))
    } else {
        match help_key_outcome(s, area, total, code) {
            Some((t, AppAction::HelpClose)) => Some((t, AppAction::ErrorDetailClose)),
            other => other,
        }
    }
}

/// Effect of a mouse event: the Help dialog's, where closing answers `ErrorDetailClose`.
pub open spec fn detail_mouse_outcome(s: int, area: Rect, total: int, kind: MouseKind, col: int, row: int) -> (int, AppAction) {
    match help_mouse_outcome(s, area, total, kind, col, row) {
        (t, AppAction::HelpClose) => (t, AppAction::ErrorDetailClose),
        other => other,
    }
}

fn body_lines(body: &str, area: Rect) -> (n: usize)
    requires
        area_fits(area),
    ensures
        n == detail_total(body@, area),
{
    let (_, text, _) = help_layout(area);
    let lines = wrap_paragraphs(body, text.width.saturating_sub(1) as usize);
    proof {
        assert(strings_view(lines@).len() == lines@.len());
    }
    lines.len()
}

/// A key for the open dialog in the screen `area` (see `detail_key_outcome`); `None` when the
/// dialog is not open or does not take the key.
pub fn handle_key(app: &mut AppState, code: KeyCode, _modifiers: KeyModifiers, area: Rect) -> (r: Option<AppAction>)
    requires
        area_fits(area),
    ensures
        match old(app).error_detail {
            None => r is None && *final(app) == *old(app),
            Some(d) => match detail_key_outcome(d.scroll as int, area, detail_total(d.body@, area), code) {
                None => r is None && *final(app) == *old(app),
                Some((s, a)) => {
                    &&& r == Some(a)
                    &&& final(app).error_detail == Some(ErrorDetailState { scroll: s as usize, ..d })
                    &&& *final(app) == (AppState { error_detail: final(app).error_detail, ..*old(app) })
                },
            },
        },
{
    let d = match app.error_detail.take() {
        Some(d) => d,
        None => return None,
    };
    let total = body_lines(d.body.as_str(), area);
    let outcome = if code == KeyCode::Enter {
        Some((d.scroll, AppAction::ErrorDetailClose))
    } else {
        match key_scroll(d.scroll, area, total, code) {
            Some((t, AppAction::HelpClose)) => Some((t, AppAction::ErrorDetailClose)),
            other => other,
        }
    };
    match outcome {
        Some((s, a)) => {
            app.error_detail = Some(ErrorDetailState { scroll: s, ..d });
            Some(a)
        },
        None => {
            app.error_detail = Some(d);
            None
        },
    }
}

/// A mouse event at (col, row) for the open dialog in the screen `area` (see
/// `detail_mouse_outcome`); `None` when the dialog is not open.
pub fn handle_mouse(app: &mut AppState, kind: MouseKind, col: u16, row: u16, area: Rect) -> (r: Option<AppAction>)
    requires
        area_fits(area),
    ensures
        match old(app).error_detail {
            None => r is None && *final(app) == *old(app),
            Some(d) => {
                let (s, a) = detail_mouse_outcome(d.scroll as int, area, detail_total(d.body@, area), kind, col as int, row as int);
                &&& r == Some(a)
                &&& final(app).error_detail == Some(ErrorDetailState { scroll: s as usize, ..d })
                &&& *final(app) == (AppState { error_detail: final(app).error_detail, ..*old(app) })
            },
        },
{
    let d = match app.error_detail.take() {
        Some(d) => d,
        None => return None,
    };
    let total = body_lines(d.body.as_str(), area);
    let (s, a) = match mouse_scroll(d.scroll, area, total, kind, col, row) {
        (t, AppAction::HelpClose) => (t, AppAction::ErrorDetailClose),
        other => other,
    };
    app.error_detail = Some(ErrorDetailState { scroll: s, ..d });
    Some(a)
}

} // verus!
