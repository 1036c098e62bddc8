//! Whether the shell's foreground process runs as root, read from process information text:
//! the output of `ps -o uid=` for the shell's terminal and, on Linux, the `stat` and `status`
//! files of a process under `/proc`. Reading them is the caller's part.
use vstd::prelude::*;

use crate::strutil::{
    parse_i32, parse_u32, parsed_i32, parsed_u32, split_char, split_on, split_words, str_starts_with, str_trim,
    strings_view, trim_of, words_of,
};

verus! {

/// Some line of the output of `ps -o uid=` reads, without surrounding white space, as the user
/// id 0 (the header "UID", when present, reads as no number).
pub open spec fn ps_lists_uid_zero(out: Seq<char>) -> bool {
    exists|k: int| 0 <= k < split_on(out, '\n').len() && #[trigger] parsed_u32(trim_of(split_on(out, '\n')[k])) == Some(0u32)
}

/// Whether the output of `ps -o uid=` lists user id 0 (see `ps_lists_uid_zero`).
pub fn ps_output_has_uid_zero(out: &str) -> (r: bool)
    ensures
        r == ps_lists_uid_zero(out@),
{
    let lines = split_char(out, '\n');
    let ghost ls = strings_view(lines@);
    let mut k: usize = 0;
    while k < lines.len()
        invariant
            k <= lines@.len(),
            ls == strings_view(lines@),
            ls == split_on(out@, '\n'),
            forall|j: int| 0 <= j < k ==> #[trigger] parsed_u32(trim_of(ls[j])) != Some(0u32),
        decreases lines@.len() - k,
    {
        assert(ls[k as int] == lines@[k as int]@);
        let t = str_trim(lines[k].as_str());
        if parse_u32(t) == Some(0u32) {
            return true;
        }
        k = k + 1;
    }
    false
}

/// The first of the lines `ls` from index `k` on that starts with `p`.
pub open spec fn first_line_with_prefix(ls: Seq<Seq<char>>, p: Seq<char>, k: int) -> Option<int>
    decreases ls.len() - k,
{
    if k < 0 || k >= ls.len() {
        None
    } else if p.len() <= ls[k].len() && ls[k].take(p.len() as int) == p {
        Some(k)
    } else {
        first_line_with_prefix(ls, p, k + 1)
    }
}

/// The effective user id in the text of a process's `status` file: the second number on the
/// first line that starts with "Uid:"; `None` when there is no such line or that number does
/// not read as one.
pub open spec fn status_euid(status: Seq<char>) -> Option<u32> {
    let ls = split_on(status, '\n');
    match first_line_with_prefix(ls, "Uid:"@, 0) {
        Some(k) => {
            let w = words_of(ls[k].skip(4));
            if w.len() > 1 { parsed_u32(w[1]) } else { None }
        },
        None => None,
    }
}

/// The effective user id in a process's `status` text (see `status_euid`).
pub fn euid_from_status(status: &str) -> (r: Option<u32>)
    ensures
        r == status_euid(status@),
{
    proof {
        reveal_strlit("Uid:");
    }
    let lines = split_char(status, '\n');
    let ghost ls = strings_view(lines@);
    let mut k: usize = 0;
    while k < lines.len()
        invariant
            k <= lines@.len(),
            ls == strings_view(lines@),
            ls == split_on(status@, '\n'),
            "Uid:"@.len() == 4,
            first_line_with_prefix(ls, "Uid:"@, 0) == first_line_with_prefix(ls, "Uid:"@, k as int),
        decreases lines@.len() - k,
    {
        let line = lines[k].as_str();
        assert(ls[k as int] == line@);
        if str_starts_with(line, "Uid:") {
            let n = line.unicode_len();
            let rest = line.substring_char(4, n);
            proof {
                assert(rest@ =~= line@.skip(4));
            }
            let w = split_words(rest);
            if w.len() > 1 {
                assert(strings_view(w@)[1] == w@[1]@);
                return parse_u32(w[1].as_str());
            }
            return None;
        }
        k = k + 1;
    }
    None
}

/// The last position `i` below `k` where ") " stands in `s`.
pub open spec fn last_paren_space_below(s: Seq<char>, k: int) -> Option<int>
    decreases k,
{
    if k <= 0 {
        None
    } else if k < s.len() && s[k - 1] == ')' && s[k] == ' ' {
        Some(k - 1)
    } else {
        last_paren_space_below(s, k - 1)
    }
}

/// The foreground process group of a process's terminal in the text of its `stat` file: after
/// the last ") " (which ends the command name), the sixth field; `None` unless it is there and
/// reads as a positive number.
pub open spec fn stat_tpgid(stat: Seq<char>) -> Option<i32> {
    match last_paren_space_below(stat, stat.len() as int) {
        None => None,
        Some(i) => {
            let w = words_of(stat.skip(i + 2));
            if w.len() >= 6 {
                match parsed_i32(w[5]) {
                    Some(v) => if v > 0 { Some(v) } else { None },
                    None => None,
                }
            } else {
                None
            }
        },
    }
}

/// The terminal's foreground process group in a process's `stat` text (see `stat_tpgid`).
pub fn tpgid_from_stat(stat: &str) -> (r: Option<i32>)
    ensures
        r == stat_tpgid(stat@),
{
    let n = stat.unicode_len();
    let mut k: usize = n;
    while k > 0
        invariant
            n == stat@.len(),
            k <= n,
            last_paren_space_below(stat@, n as int) == last_paren_space_below(stat@, k as int),
        decreases k,
    {
        if k < n && stat.get_char(k - 1) == ')' && stat.get_char(k) == ' ' {
            let i = k - 1;
            let rest = stat.substring_char(i + 2, n);
            proof {
                assert(rest@ =~= stat@.skip(i + 2));
            }
            let w = split_words(rest);
            if w.len() >= 6 {
                assert(strings_view(w@)[5] == w@[5]@);
                return match parse_i32(w[5].as_str()) {
                    Some(v) => if v > 0 { Some(v) } else { None },
                    None => None,
                };
            }
            return None;
        }
        k = k - 1;
    }
    None
}

} // verus!
