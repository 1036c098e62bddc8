//! Where a panel lists from: a directory on disk or a directory inside a ZIP archive. The same
//! panel logic serves both; this module holds the decisions that depend on the kind of place.
use vstd::prelude::*;
use vstd::string::{StrSliceExecFns, StringExecFns};
use vstd::utf8::encode_utf8;

use crate::file_ops::{FileInfo, FileOperations, SortMode, listing_sorted, shown, sort_listing, path_join, path_join_of, path_parent, path_parent_of, clean_name};
use crate::strutil::{char_index, char_index_from, str_eq, str_starts_with, strings_view, string_push, trim_end_char, trim_end_spec, trim_start_char, trim_start_spec};

verus! {

/// A panel location: a filesystem directory, or a path inside a ZIP archive.
pub enum PanelLocation {
    Fs(String),
    Zip { archive: String, path_inside: String },
}

impl PanelLocation {
    pub fn is_fs(&self) -> (r: bool)
        ensures
            r == (self is Fs),
    {
        match self {
            PanelLocation::Fs(_) => true,
            PanelLocation::Zip { .. } => false,
        }
    }
}

/// Whether editing (F4) is supported at this location: not inside an archive.
pub fn supports_edit(loc: &PanelLocation) -> (r: bool)
    ensures
        r == (loc is Fs),
{
    loc.is_fs()
}

/// Whether creating a directory (F7) is supported: not inside an archive.
pub fn supports_mkdir(loc: &PanelLocation) -> (r: bool)
    ensures
        r == (loc is Fs),
{
    loc.is_fs()
}

/// The path shown for entry `name` of a location: the joined path on disk; for an archive
/// `<archive>/<path inside>/<name>` (without the middle part at the archive root).
pub open spec fn display_path(loc: PanelLocation, name: Seq<char>) -> Seq<char> {
    match loc {
        PanelLocation::Fs(p) => path_join_of(p@, clean_name(name)),
        PanelLocation::Zip { archive, path_inside } => {
            let prefix = trim_end_spec(path_inside@, '/');
            let full = if prefix.len() == 0 { name } else { prefix + seq!['/'] + trim_end_spec(name, '/') };
            archive@ + seq!['/'] + full
        },
    }
}

/// Path of an entry for display (status lines, dialogs).
pub fn join_path_display(loc: &PanelLocation, name: &str) -> (r: String)
    ensures
        r@ == display_path(*loc, name@),
{
    match loc {
        PanelLocation::Fs(p) => FileOperations::join_path(p.as_str(), name),
        PanelLocation::Zip { archive, path_inside } => {
            let prefix = trim_end_char(path_inside.as_str(), '/');
            let mut full = String::new();
            if prefix.unicode_len() == 0 {
                full.append(name);
            } else {
                full.append(prefix);
                full.append("/");
                full.append(trim_end_char(name, '/'));
            }
            let mut out = String::from_str(archive.as_str());
            out.append("/");
            out.append(full.as_str());
            proof {
                reveal_strlit("/");
                assert("/"@ =~= seq!['/']);
            }
            out
        },
    }
}

/// The text before the first '/', or all of it.
pub open spec fn first_segment(s: Seq<char>) -> Seq<char> {
    match char_index_from(s, '/', 0) {
        Some(i) => s.take(i),
        None => s,
    }
}

/// What an archive member named `name` shows in the directory `prefix` of the archive (given
/// without trailing '/'): `None` when it is not inside it, else the name of the child it lies
/// in and whether that child is a directory.
pub open spec fn zip_entry_of(name: Seq<char>, prefix: Seq<char>) -> Option<(Seq<char>, bool)> {
    let name_clean = trim_end_spec(name, '/');
    if name_clean.len() == 0 {
        None
    } else if prefix.len() == 0 {
        if char_index_from(name, '/', 0) is Some {
            let first = first_segment(name);
            if first.len() == 0 { None } else { Some((first, true)) }
        } else {
            Some((name_clean, false))
        }
    } else {
        let ps = prefix + seq!['/'];
        if !(name.len() >= ps.len() && name.take(ps.len() as int) == ps) {
            None
        } else {
            let rest = trim_end_spec(name.skip(ps.len() as int), '/');
            if rest.len() == 0 {
                None
            } else if char_index_from(rest, '/', 0) is Some {
                Some((first_segment(rest), true))
            } else {
                Some((rest, name.last() == '/'))
            }
        }
    }
}

/// Whether an entry name is hidden (starts with '.').
pub open spec fn is_hidden_name(n: Seq<char>) -> bool {
    n.len() > 0 && n[0] == '.'
}

/// The entries of the archive directory `prefix` from the first `k` member names, in order of
/// first appearance, each child once: (display name, is directory, key). Directories are
/// shown with a trailing '/'. With `show_hidden` off, names starting with '.' are left out.
pub open spec fn zip_listing_upto(names: Seq<Seq<char>>, prefix: Seq<char>, show_hidden: bool, k: int) -> Seq<(Seq<char>, bool, Seq<char>)>
    decreases k,
{
    if k <= 0 {
        Seq::empty()
    } else {
        let prev = zip_listing_upto(names, prefix, show_hidden, k - 1);
        match zip_entry_of(names[k - 1], prefix) {
            None => prev,
            Some((key, is_dir)) => {
                if (!show_hidden && is_hidden_name(key)) || (exists|j: int| 0 <= j < prev.len() && #[trigger] prev[j].2 == key) {
                    prev
                } else {
                    let display = if is_dir && !(key.len() > 0 && key.last() == '/') { key.push('/') } else { key };
                    prev.push((display, is_dir, key))
                }
            },
        }
    }
}

fn ends_with_slash(s: &str) -> (r: bool)
    ensures
        r == (s@.len() > 0 && s@.last() == '/'),
{
    let n = s.unicode_len();
    n > 0 && s.get_char(n - 1) == '/'
}

proof fn lemma_trim_end_plain(s: Seq<char>)
    requires
        s.len() == 0 || s.last() != '/',
    ensures
        trim_end_spec(s, '/') == s,
{
}

proof fn lemma_no_slash_from(s: Seq<char>, k: int)
    requires
        0 <= k,
        forall|i: int| k <= i < s.len() ==> s[i] != '/',
    ensures
        char_index_from(s, '/', k) is None,
    decreases s.len() - k,
{
    if k < s.len() {
        lemma_no_slash_from(s, k + 1);
    }
}

proof fn lemma_first_slash_at(s: Seq<char>, k: int, j: int)
    requires
        0 <= k <= j < s.len(),
        s[j] == '/',
        forall|i: int| k <= i < j ==> s[i] != '/',
    ensures
        char_index_from(s, '/', k) == Some(j),
    decreases j - k,
{
    if k < j {
        lemma_first_slash_at(s, k + 1, j);
    }
}

/// How members show in a directory listing of an archive, for a child name `child` without
/// '/': in directory `prefix` (the root when empty), the member `prefix/child` is the file
/// `child`, the member `prefix/child/` is the directory `child`, and a member deeper inside it,
/// `prefix/child/more`, shows as the directory `child` too.
pub proof fn law_zip_child_entries(prefix: Seq<char>, child: Seq<char>, more: Seq<char>)
    requires
        child.len() > 0,
        forall|i: int| 0 <= i < child.len() ==> child[i] != '/',
        more.len() > 0,
        more.last() != '/',
    ensures
        ({
            let p = if prefix.len() == 0 { Seq::<char>::empty() } else { prefix + seq!['/'] };
            &&& zip_entry_of(p + child, prefix) == Some((child, false))
            &&& zip_entry_of(p + child.push('/'), prefix) == Some((child, true))
            &&& zip_entry_of(p + child.push('/') + more, prefix) == Some((child, true))
        }),
{
    let p = if prefix.len() == 0 { Seq::<char>::empty() } else { prefix + seq!['/'] };
    let a = child;
    let b = child.push('/');
    let c = child.push('/') + more;
    lemma_trim_end_plain(a);
    assert(b.drop_last() =~= child);
    assert(trim_end_spec(b, '/') == child);
    assert(c.last() == more.last());
    lemma_trim_end_plain(c);
    lemma_no_slash_from(a, 0);
    lemma_first_slash_at(b, 0, child.len() as int);
    lemma_first_slash_at(c, 0, child.len() as int);
    assert(b.take(child.len() as int) =~= child);
    assert(c.take(child.len() as int) =~= child);
    assert(first_segment(b) == child);
    assert(first_segment(c) == child);
    assert(p + b + more =~= p + c);
    if prefix.len() == 0 {
        assert(p + a =~= a);
        assert(p + b =~= b);
        assert(p + c =~= c);
        assert(zip_entry_of(a, prefix) == Some((child, false)));
        assert(zip_entry_of(b, prefix) == Some((child, true)));
        assert(zip_entry_of(c, prefix) == Some((child, true)));
    } else {
        let ps = prefix + seq!['/'];
        lemma_zip_child_under(prefix, a);
        lemma_zip_child_under(prefix, b);
        lemma_zip_child_under(prefix, c);
        assert((p + a).last() == child.last());
        assert(zip_entry_of(p + a, prefix) == Some((child, false)));
        assert((p + b).last() == '/');
        assert(zip_entry_of(p + b, prefix) == Some((child, true)));
        assert(zip_entry_of(p + c, prefix) == Some((child, true)));
    }
}

/// Under a non-empty `prefix`, the member `prefix/x` is read by its part after `prefix/`.
proof fn lemma_zip_child_under(prefix: Seq<char>, x: Seq<char>)
    requires
        prefix.len() > 0,
        x.len() > 0,
        x[0] != '/',
    ensures
        ({
            let name = prefix + seq!['/'] + x;
            let ps = prefix + seq!['/'];
            &&& name.len() >= ps.len() && name.take(ps.len() as int) == ps
            &&& name.skip(ps.len() as int) == x
            &&& name.last() == x.last()
            &&& trim_end_spec(name, '/').len() > 0
        }),
{
    let name = prefix + seq!['/'] + x;
    let ps = prefix + seq!['/'];
    assert(name.take(ps.len() as int) =~= ps);
    assert(name.skip(ps.len() as int) =~= x);
    assert(name[prefix.len() + 1int] == x[0]);
    lemma_trim_end_keeps_slash_free_head(name, prefix.len() + 1int);
}

/// Trimming trailing '/' keeps every character up to one that is not '/'.
proof fn lemma_trim_end_keeps_slash_free_head(s: Seq<char>, k: int)
    requires
        0 <= k < s.len(),
        s[k] != '/',
    ensures
        trim_end_spec(s, '/').len() > k,
    decreases s.len(),
{
    if s.last() == '/' {
        assert(k < s.len() - 1);
        assert(s.drop_last()[k] == s[k]);
        lemma_trim_end_keeps_slash_free_head(s.drop_last(), k);
    }
}

fn first_segment_exec(s: &str) -> (r: String)
    ensures
        r@ == first_segment(s@),
{
    match char_index(s, '/') {
        Some(i) => {
            let r = s.substring_char(0, i).to_owned();
            assert(s@.subrange(0, i as int) =~= s@.take(i as int));
            r
        },
        None => s.to_owned(),
    }
}

/// What one archive member shows in the directory `prefix` (given without trailing '/').
fn zip_entry(name: &str, prefix: &str) -> (r: Option<(String, bool)>)
    ensures
        match r {
            Some((key, is_dir)) => zip_entry_of(name@, prefix@) == Some((key@, is_dir)),
            None => zip_entry_of(name@, prefix@) is None,
        },
{
    let name_clean = trim_end_char(name, '/');
    if name_clean.unicode_len() == 0 {
        return None;
    }
    if prefix.unicode_len() == 0 {
        if char_index(name, '/').is_some() {
            let first = first_segment_exec(name);
            if first.as_str().unicode_len() == 0 {
                None
            } else {
                Some((first, true))
            }
        } else {
            Some((name_clean.to_owned(), false))
        }
    } else {
        let plen0 = prefix.unicode_len();
        let nlen = name.unicode_len();
        let ghost ps = prefix@ + seq!['/'];
        if nlen <= plen0 {
            return None;
        }
        let plen = plen0 + 1;
        let head = name.substring_char(0, plen - 1);
        if !str_eq(head, prefix) || name.get_char(plen - 1) != '/' {
            proof {
                if name@.take(ps.len() as int) == ps {
                    assert(name@.subrange(0, plen - 1) =~= name@.take(ps.len() as int).take(plen - 1));
                    assert(ps.take(plen - 1) =~= prefix@);
                    assert(name@[plen - 1] == name@.take(ps.len() as int)[plen - 1]);
                }
            }
            return None;
        }
        assert(name@.take(ps.len() as int) =~= ps);
        let tail = name.substring_char(plen, nlen);
        assert(tail@ =~= name@.skip(ps.len() as int));
        let rest = trim_end_char(tail, '/');
        if rest.unicode_len() == 0 {
            None
        } else if char_index(rest, '/').is_some() {
            Some((first_segment_exec(rest), true))
        } else {
            Some((rest.to_owned(), ends_with_slash(name)))
        }
    }
}

fn starts_with_dot(s: &str) -> (r: bool)
    ensures
        r == is_hidden_name(s@),
{
    s.unicode_len() > 0 && s.get_char(0) == '.'
}

pub open spec fn listing_view(v: Seq<(String, bool, String)>) -> Seq<(Seq<char>, bool, Seq<char>)> {
    v.map_values(|e: (String, bool, String)| (e.0@, e.1, e.2@))
}

/// The entries of the directory `path_inside` of an archive whose member names are `names`:
/// each child once, in order of first appearance, directories with a trailing '/'; hidden
/// names only with `show_hidden`. Each entry is (display name, is directory, key).
pub fn zip_dir_entries(names: &Vec<String>, path_inside: &str, show_hidden: bool) -> (r: Vec<(String, bool, String)>)
    ensures
        listing_view(r@) == zip_listing_upto(strings_view(names@), trim_end_spec(path_inside@, '/'), show_hidden, names@.len() as int),
{
    let prefix = trim_end_char(path_inside, '/');
    let ghost nv = strings_view(names@);
    let mut out: Vec<(String, bool, String)> = Vec::new();
    let n = names.len();
    let mut i: usize = 0;
    while i < n
        invariant
            n == names@.len(),
            i <= n,
            nv == strings_view(names@),
            prefix@ == trim_end_spec(path_inside@, '/'),
            listing_view(out@) == zip_listing_upto(nv, prefix@, show_hidden, i as int),
        decreases n - i,
    {
        let ghost prev = listing_view(out@);
        assert(nv[i as int] == names@[i as int]@);
        match zip_entry(names[i].as_str(), prefix) {
            None => {},
            Some((key, is_dir)) => {
                let mut skip = !show_hidden && starts_with_dot(key.as_str());
                if !skip {
                    let m = out.len();
                    let mut j: usize = 0;
                    while j < m
                        invariant
                            m == out@.len(),
                            j <= m,
                            prev == listing_view(out@),
                            !skip ==> forall|t: int| 0 <= t < j ==> prev[t].2 != key@,
                            skip ==> exists|t: int| 0 <= t < prev.len() && #[trigger] prev[t].2 == key@,
                        decreases m - j,
                    {
                        if str_eq(out[j].2.as_str(), key.as_str()) {
                            assert(prev[j as int].2 == key@);
                            skip = true;
                        }
                        j = j + 1;
                    }
                }
                if !skip {
                    let display = if is_dir && !ends_with_slash(key.as_str()) {
                        let mut d = key.clone();
                        d.append("/");
                        proof {
                            reveal_strlit("/");
                            assert("/"@ =~= seq!['/']);
                            assert(d@ =~= key@.push('/'));
                        }
                        d
                    } else {
                        key.clone()
                    };
                    out.push((display, is_dir, key));
                }
            },
        }
        assert(listing_view(out@) =~= zip_listing_upto(nv, prefix@, show_hidden, i + 1));
        i = i + 1;
    }
    out
}

spec fn file_shows(f: FileInfo, e: (String, bool, String)) -> bool {
    f.name@ == e.0@ && f.is_dir == e.1 && !f.is_executable
}

/// `files` lists directory `path_inside` of the archive at `archive_path` whose members are
/// `names`: the entries of `zip_listing_upto` as (display name, is directory) file entries, then
/// ".." unless this is the archive root of an archive path without a parent.
pub open spec fn zip_listing_is(files: Seq<FileInfo>, archive_path: Seq<char>, path_inside: Seq<char>, show_hidden: bool, names: Seq<Seq<char>>) -> bool {
    let entries = zip_listing_upto(names, trim_end_spec(path_inside, '/'), show_hidden, names.len() as int);
    let with_parent = trim_end_spec(path_inside, '/').len() > 0 || path_parent_of(archive_path) is Some;
    &&& files.len() == entries.len() + (if with_parent { 1int } else { 0 })
    &&& forall|i: int| 0 <= i < entries.len() ==> #[trigger] files[i].name@ == entries[i].0 && files[i].is_dir == entries[i].1 && !files[i].is_executable
    &&& with_parent ==> files.last().spec_is_parent() && files.last().is_dir && !files.last().is_executable
}

/// `files` is the listing of directory `path_inside` of the archive (see `zip_listing_is`) in
/// the panel's order (see `entry_before_by`).
pub open spec fn zip_listing_sorted(files: Seq<FileInfo>, archive_path: Seq<char>, path_inside: Seq<char>, show_hidden: bool, names: Seq<Seq<char>>, mode: SortMode, dirs_first: bool) -> bool {
    &&& listing_sorted(files, mode, dirs_first)
    &&& exists|u: Seq<FileInfo>| #[trigger] zip_listing_is(u, archive_path, path_inside, show_hidden, names)
        && files.to_multiset() == u.to_multiset()
}

proof fn lemma_filter_shown_all(s: Seq<FileInfo>)
    ensures
        s.filter(|f: FileInfo| shown(f, true)) == s,
    decreases s.len(),
{
    reveal(Seq::filter);
    if s.len() > 0 {
        lemma_filter_shown_all(s.drop_last());
        assert(s.drop_last().push(s.last()) =~= s);
    }
}

/// Listing of a directory inside an archive: its entries as (display name, is directory) file
/// entries and ".." unless this is the archive root of an archive path without a parent,
/// in the panel's order for `mode` and `dirs_first`.
pub fn zip_list(archive_path: &str, path_inside: &str, show_hidden: bool, names: &Vec<String>, mode: SortMode, dirs_first: bool) -> (r: Vec<FileInfo>)
    ensures
        zip_listing_sorted(r@, archive_path@, path_inside@, show_hidden, strings_view(names@), mode, dirs_first),
{
    let files = zip_list_unsorted(archive_path, path_inside, show_hidden, names);
    let ghost u = files@;
    let r = sort_listing(files, true, mode, dirs_first);
    proof {
        lemma_filter_shown_all(u);
        assert(zip_listing_is(u, archive_path@, path_inside@, show_hidden, strings_view(names@)));
    }
    r
}

fn zip_list_unsorted(archive_path: &str, path_inside: &str, show_hidden: bool, names: &Vec<String>) -> (r: Vec<FileInfo>)
    ensures
        zip_listing_is(r@, archive_path@, path_inside@, show_hidden, strings_view(names@)),
{
    let entries = zip_dir_entries(names, path_inside, show_hidden);
    let mut files: Vec<FileInfo> = Vec::new();
    let n = entries.len();
    let mut i: usize = 0;
    while i < n
        invariant
            n == entries@.len(),
            i <= n,
            files@.len() == i,
            forall|k: int| 0 <= k < i ==> #[trigger] file_shows(files@[k], entries@[k]),
        decreases n - i,
    {
        let f = FileInfo::new(entries[i].0.clone(), entries[i].1, false);
        files.push(f);
        assert(file_shows(files@[i as int], entries@[i as int]));
        i = i + 1;
    }
    proof {
        let ghost lv = listing_view(entries@);
        assert forall|k: int| 0 <= k < lv.len() implies #[trigger] files@[k].name@ == lv[k].0 && files@[k].is_dir == lv[k].1 && !files@[k].is_executable by {
            assert(file_shows(files@[k], entries@[k]));
        }
    }
    let ghost listed = files@;
    let prefix = trim_end_char(path_inside, '/');
    if prefix.unicode_len() > 0 || path_parent(archive_path).is_some() {
        proof {
            reveal_strlit("..");
            assert(".."@ =~= crate::file_ops::parent_name());
        }
        let pf = FileInfo::new(String::from_str(".."), true, false);
        files.push(pf);
        assert(files@.drop_last() =~= listed);
        assert(files@.last().spec_is_parent() && files@.last().is_dir && !files@.last().is_executable);
    }
    proof {
        let lv = listing_view(entries@);
        assert(lv == zip_listing_upto(strings_view(names@), trim_end_spec(path_inside@, '/'), show_hidden, names@.len() as int));
        assert(listed.len() == lv.len());
        assert forall|i: int| 0 <= i < lv.len() implies #[trigger] files@[i].name@ == lv[i].0 && files@[i].is_dir == lv[i].1 && !files@[i].is_executable by {
            assert(files@[i] == listed[i]);
            assert(file_shows(listed[i], entries@[i]));
        }
    }
    files
}

/// What the zip crate reads as the member names of an archive held in `archive`: the names of
/// `ZipArchive::new` over the bytes, by `by_index(i).name()` for each index in turn; `None` when
/// the archive or one of its entries cannot be read.
pub uninterp spec fn zip_names_of(archive: Seq<u8>) -> Option<Seq<Seq<char>>>;

/// Reads the member names of the archive in `archive` with the zip crate. Claimed: the result
/// is `zip_names_of` of the bytes.
#[verifier::external_body]
fn zip_entry_names(archive: &[u8]) -> (r: Option<Vec<String>>)
    ensures
        match r {
            Some(v) => zip_names_of(archive@) == Some(strings_view(v@)),
            None => zip_names_of(archive@) is None,
        },
{
    let mut zip = zip::ZipArchive::new(std::io::Cursor::new(archive)).ok()?;
    let mut names = Vec::new();
    for i in 0..zip.len() {
        let entry = zip.by_index(i).ok()?;
        names.push(entry.name().ok()?.into_owned());
    }
    Some(names)
}

/// What the zip crate reads for member `name` of an archive held in `archive`: whether
/// `by_name(name)` of `ZipArchive::new` over the bytes is a directory, and its content read to
/// the end; `None` when the archive cannot be read, has no such member, or the member cannot be
/// read.
pub uninterp spec fn zip_member_of(archive: Seq<u8>, name: Seq<char>) -> Option<(bool, Seq<u8>)>;

/// Reads member `name` of the archive in `archive` with the zip crate. Claimed: the result is
/// `zip_member_of` of the bytes and the name.
#[verifier::external_body]
fn zip_member(archive: &[u8], name: &str) -> (r: Option<(bool, Vec<u8>)>)
    ensures
        match r {
            Some((d, c)) => zip_member_of(archive@, name@) == Some((d, c@)),
            None => zip_member_of(archive@, name@) is None,
        },
{
    let mut zip = zip::ZipArchive::new(std::io::Cursor::new(archive)).ok()?;
    let mut entry = zip.by_name(name).ok()?;
    let is_dir = entry.is_dir();
    let mut data = Vec::new();
    std::io::Read::read_to_end(&mut entry, &mut data).ok()?;
    Some((is_dir, data))
}

/// The member names of the archive held in `archive`, in order, as the zip crate reads them
/// (`None` when it cannot).
pub fn zip_list_names(archive: &[u8]) -> (r: Option<Vec<String>>)
    ensures
        match r {
            Some(v) => zip_names_of(archive@) == Some(strings_view(v@)),
            None => zip_names_of(archive@) is None,
        },
{
    zip_entry_names(archive)
}

/// Listing of directory `path_inside` of the archive at `archive_path`, read from its bytes
/// `archive` (see `zip_listing_is`); `None` when the zip crate cannot read the archive.
pub fn zip_list_archive(archive_path: &str, path_inside: &str, show_hidden: bool, archive: &[u8], mode: SortMode, dirs_first: bool) -> (r: Option<Vec<FileInfo>>)
    ensures
        match zip_names_of(archive@) {
            None => r is None,
            Some(names) => r matches Some(files) && zip_listing_sorted(files@, archive_path@, path_inside@, show_hidden, names, mode, dirs_first),
        },
{
    match zip_entry_names(archive) {
        None => None,
        Some(names) => Some(zip_list(archive_path, path_inside, show_hidden, &names, mode, dirs_first)),
    }
}

/// A member's content when it is a file.
pub open spec fn file_content(m: Option<(bool, Seq<u8>)>) -> Option<Seq<u8>> {
    match m {
        Some((false, c)) => Some(c),
        _ => None,
    }
}

pub open spec fn bytes_opt_view(o: Option<Vec<u8>>) -> Option<Seq<u8>> {
    match o {
        Some(v) => Some(v@),
        None => None,
    }
}

/// The content of entry `name` of directory `path_inside` of the archive in `archive`: the
/// member `zip_member_name` gives for it when that member is a file; else the member of that
/// name with a trailing '/' when it is a file; `None` when neither is (missing, a directory, or
/// unreadable).
pub fn zip_read_file(archive: &[u8], path_inside: &str, name: &str) -> (r: Option<Vec<u8>>)
    ensures
        bytes_opt_view(r) == entry_content(archive@, path_inside@, name@),
{
    let full = zip_member_path(path_inside, name);
    if let Some((is_dir, data)) = zip_member(archive, full.as_str()) {
        if !is_dir {
            return Some(data);
        }
    }
    let mut with_slash = full.clone();
    string_push(&mut with_slash, '/');
    match zip_member(archive, with_slash.as_str()) {
        Some((is_dir, data)) => if is_dir { None } else { Some(data) },
        None => None,
    }
}

/// The member name of entry `name` of directory `prefix` inside an archive (prefix given without
/// trailing '/'): the name without leading '/' at the root, else `prefix/name` with the name's
/// surrounding '/' removed.
pub open spec fn zip_member_name(prefix: Seq<char>, name: Seq<char>) -> Seq<char> {
    if prefix.len() == 0 {
        trim_start_spec(name, '/')
    } else {
        prefix + seq!['/'] + trim_end_spec(trim_start_spec(name, '/'), '/')
    }
}

/// The member name under which entry `name` of `path_inside` is read from an archive.
pub fn zip_member_path(path_inside: &str, name: &str) -> (r: String)
    ensures
        r@ == zip_member_name(trim_end_spec(path_inside@, '/'), name@),
{
    let prefix = trim_end_char(path_inside, '/');
    let base = trim_start_char(name, '/');
    if prefix.unicode_len() == 0 {
        base.to_owned()
    } else {
        let mut full = String::from_str(prefix);
        full.append("/");
        full.append(trim_end_char(base, '/'));
        proof {
            reveal_strlit("/");
            assert("/"@ =~= seq!['/']);
        }
        full
    }
}

/// One step of copying items out of an archive into a directory, run in order by the caller.
pub enum ExtractStep {
    /// Create directory `dest` with its parents; a failure is ignored.
    MakeDirs { dest: String },
    /// Write the content of the archive's member number `member` to `dest`, creating its parent
    /// directories first; a failure is ignored.
    WriteMember { member: usize, dest: String },
    /// Write the member named `name` to `dest` when the archive has one; a failure stops the copy.
    CopyFile { name: String, dest: String },
    /// Create directory `dest` with its parents; a failure stops the copy.
    MakeItemDir { dest: String },
}

/// An extraction step as plain values.
pub enum ExtractStepView {
    MakeDirs(Seq<char>),
    WriteMember(int, Seq<char>),
    CopyFile(Seq<char>, Seq<char>),
    MakeItemDir(Seq<char>),
}

pub open spec fn step_view(s: ExtractStep) -> ExtractStepView {
    match s {
        ExtractStep::MakeDirs { dest } => ExtractStepView::MakeDirs(dest@),
        ExtractStep::WriteMember { member, dest } => ExtractStepView::WriteMember(member as int, dest@),
        ExtractStep::CopyFile { name, dest } => ExtractStepView::CopyFile(name@, dest@),
        ExtractStep::MakeItemDir { dest } => ExtractStepView::MakeItemDir(dest@),
    }
}

pub open spec fn steps_view(v: Seq<ExtractStep>) -> Seq<ExtractStepView> {
    v.map_values(|s: ExtractStep| step_view(s))
}

/// The member path of item `name` of archive directory `prefix` (given without trailing '/').
pub open spec fn item_member_path(prefix: Seq<char>, name: Seq<char>) -> Seq<char> {
    let n = trim_end_spec(name, '/');
    if prefix.len() == 0 { n } else { prefix + seq!['/'] + n }
}

/// Member `m` lies in the directory item whose member path is `ep`: it is that path, that path
/// with a trailing '/', or under it.
pub open spec fn member_in_dir(m: Seq<char>, ep: Seq<char>) -> bool {
    let dp = trim_end_spec(ep, '/').push('/');
    m == ep || m == ep.push('/') || (dp.len() <= m.len() && m.take(dp.len() as int) == dp)
}

/// The steps for members `0..k` of `names` inside the directory item with member path `ep`,
/// copied to `item_dir`: each member's path below the item (leading '/' removed) is joined to
/// `item_dir` (trailing '/' removed); directories are created, files written.
pub open spec fn dir_member_steps(names: Seq<Seq<char>>, ep: Seq<char>, item_dir: Seq<char>, k: int) -> Seq<ExtractStepView>
    decreases k,
{
    if k <= 0 {
        Seq::empty()
    } else {
        let prev = dir_member_steps(names, ep, item_dir, k - 1);
        let m = names[k - 1];
        if member_in_dir(m, ep) {
            let rel = trim_start_spec(m.skip(if ep.len() <= m.len() { ep.len() as int } else { m.len() as int }), '/');
            let dest = path_join_of(item_dir, trim_end_spec(rel, '/'));
            if m.len() > 0 && m.last() == '/' {
                prev.push(ExtractStepView::MakeDirs(dest))
            } else {
                prev.push(ExtractStepView::WriteMember(k - 1, dest))
            }
        } else {
            prev
        }
    }
}

/// The steps that copy the first `k` of `items` (name, is directory) of archive directory
/// `prefix` to directory `target`, where the archive's members are `names`: a directory item
/// copies its members (see `dir_member_steps`) and then makes sure the item's directory
/// exists; a file item copies its member.
pub open spec fn extract_steps(names: Seq<Seq<char>>, prefix: Seq<char>, items: Seq<(Seq<char>, bool)>, target: Seq<char>, k: int) -> Seq<ExtractStepView>
    decreases k,
{
    if k <= 0 {
        Seq::empty()
    } else {
        let prev = extract_steps(names, prefix, items, target, k - 1);
        let (name, is_dir) = items[k - 1];
        let ep = item_member_path(prefix, name);
        let item_dir = path_join_of(target, trim_end_spec(name, '/'));
        if is_dir {
            prev + dir_member_steps(names, ep, item_dir, names.len() as int) + seq![ExtractStepView::MakeItemDir(item_dir)]
        } else {
            prev.push(ExtractStepView::CopyFile(ep, item_dir))
        }
    }
}

fn member_in_dir_exec(m: &str, ep: &str) -> (r: bool)
    ensures
        r == member_in_dir(m@, ep@),
{
    let mut dp = trim_end_char(ep, '/').to_owned();
    string_push(&mut dp, '/');
    let mut ep_slash = ep.to_owned();
    string_push(&mut ep_slash, '/');
    str_eq(m, ep) || str_eq(m, ep_slash.as_str()) || str_starts_with(m, dp.as_str())
}

/// The steps that copy `items` of directory `path_inside` of an archive whose members are
/// `names` into directory `target` (see `extract_steps`).
pub fn zip_extract_plan(names: &Vec<String>, path_inside: &str, items: &Vec<(String, bool)>, target: &str) -> (r: Vec<ExtractStep>)
    ensures
        steps_view(r@) == extract_steps(strings_view(names@), trim_end_spec(path_inside@, '/'), item_pairs_view(items@), target@, items@.len() as int),
{
    let prefix = trim_end_char(path_inside, '/');
    let ghost nv = strings_view(names@);
    let ghost iv = item_pairs_view(items@);
    let mut out: Vec<ExtractStep> = Vec::new();
    let mut k: usize = 0;
    while k < items.len()
        invariant
            k <= items@.len(),
            prefix@ == trim_end_spec(path_inside@, '/'),
            nv == strings_view(names@),
            iv == item_pairs_view(items@),
            steps_view(out@) == extract_steps(nv, prefix@, iv, target@, k as int),
        decreases items@.len() - k,
    {
        let name = items[k].0.as_str();
        let is_dir = items[k].1;
        assert(iv[k as int] == (name@, is_dir));
        let name_clean = trim_end_char(name, '/');
        let ep: String = if prefix.unicode_len() == 0 {
            name_clean.to_owned()
        } else {
            let mut e = prefix.to_owned();
            string_push(&mut e, '/');
            e.append(name_clean);
            proof {
                assert(e@ =~= prefix@ + seq!['/'] + name_clean@);
            }
            e
        };
        let item_dir = path_join(target, name_clean);
        let ghost before = steps_view(out@);
        if is_dir {
            let mut i: usize = 0;
            while i < names.len()
                invariant
                    i <= names@.len(),
                    nv == strings_view(names@),
                    steps_view(out@) == before + dir_member_steps(nv, ep@, item_dir@, i as int),
                decreases names@.len() - i,
            {
                let m = names[i].as_str();
                assert(nv[i as int] == m@);
                if member_in_dir_exec(m, ep.as_str()) {
                    let ml = m.unicode_len();
                    let el = ep.as_str().unicode_len();
                    let cut = if el <= ml { el } else { ml };
                    let rest = m.substring_char(cut, ml);
                    let rel = trim_start_char(rest, '/');
                    let dest = path_join(item_dir.as_str(), trim_end_char(rel, '/'));
                    proof {
                        assert(m@.subrange(cut as int, ml as int) =~= m@.skip(cut as int));
                    }
                    let step = if ml > 0 && m.get_char(ml - 1) == '/' {
                        ExtractStep::MakeDirs { dest }
                    } else {
                        ExtractStep::WriteMember { member: i, dest }
                    };
                    let ghost mid = out@;
                    out.push(step);
                    proof {
                        assert(steps_view(out@) =~= steps_view(mid).push(step_view(step)));
                        assert(before + dir_member_steps(nv, ep@, item_dir@, i as int).push(step_view(step))
                            =~= (before + dir_member_steps(nv, ep@, item_dir@, i as int)).push(step_view(step)));
                    }
                }
                i = i + 1;
            }
            let ghost mid = out@;
            let last = ExtractStep::MakeItemDir { dest: item_dir };
            out.push(last);
            proof {
                assert(nv.len() == names@.len());
                assert(steps_view(out@) =~= steps_view(mid).push(step_view(last)));
                assert(before + dir_member_steps(nv, ep@, item_dir@, nv.len() as int) + seq![step_view(last)]
                    =~= (before + dir_member_steps(nv, ep@, item_dir@, nv.len() as int)).push(step_view(last)));
            }
        } else {
            let step = ExtractStep::CopyFile { name: ep, dest: item_dir };
            let ghost mid = out@;
            out.push(step);
            proof {
                assert(steps_view(out@) =~= steps_view(mid).push(step_view(step)));
            }
        }
        k = k + 1;
    }
    out
}

/// The names an item of directory `prefix` stands for when it is removed from an archive: its
/// member path, and for a directory also that path with a trailing '/' at the archive root;
/// empty names are left out.
pub open spec fn removal_names(prefix: Seq<char>, name: Seq<char>, is_dir: bool) -> Seq<Seq<char>> {
    let n = trim_end_spec(name, '/');
    let joined = if prefix.len() == 0 { n } else { prefix + seq!['/'] + n };
    let first = if is_dir && prefix.len() == 0 { n.push('/') } else { joined };
    let both = if is_dir { seq![first, joined] } else { seq![first] };
    both.filter(|x: Seq<char>| x.len() > 0)
}

/// An archive member falls under a removed name: it is that name or lies inside it (trailing
/// '/' ignored on both).
pub open spec fn falls_under(member: Seq<char>, removed: Seq<char>) -> bool {
    let a = trim_end_spec(member, '/');
    let b = trim_end_spec(removed, '/');
    a == b || (a.len() > b.len() && a.take(b.len() + 1int) == b.push('/'))
}

/// Whether deleting `items` (name, is directory) from directory `prefix` of an archive removes
/// the member `member`.
pub open spec fn member_removed(member: Seq<char>, prefix: Seq<char>, items: Seq<(Seq<char>, bool)>) -> bool {
    exists|i: int, j: int| 0 <= i < items.len() && 0 <= j < removal_names(prefix, items[i].0, items[i].1).len()
        && falls_under(member, #[trigger] removal_names(prefix, items[i].0, items[i].1)[j])
}

/// The members (by index, in order) kept when `items` of archive directory `prefix` are removed
/// from an archive whose members are `names`: those not removed (see `member_removed`) and not
/// directory entries (a name ending in '/' or '\\', which the zip crate reads as a directory),
/// which the rewritten archive leaves out.
pub open spec fn kept_members(names: Seq<Seq<char>>, prefix: Seq<char>, items: Seq<(Seq<char>, bool)>, k: int) -> Seq<int>
    decreases k,
{
    if k <= 0 {
        Seq::empty()
    } else {
        let prev = kept_members(names, prefix, items, k - 1);
        let m = names[k - 1];
        if !member_removed(m, prefix, items) && !zip_dir_name(m) {
            prev.push(k - 1)
        } else {
            prev
        }
    }
}

/// The members to copy into the rewritten archive when `items` of `path_inside` are deleted
/// (see `kept_members`).
pub fn zip_kept_members(names: &Vec<String>, path_inside: &str, items: &Vec<(String, bool)>) -> (r: Vec<usize>)
    ensures
        r@.map_values(|i: usize| i as int) == kept_members(strings_view(names@), trim_end_spec(path_inside@, '/'), item_pairs_view(items@), names@.len() as int),
{
    let ghost nv = strings_view(names@);
    let ghost prefix = trim_end_spec(path_inside@, '/');
    let ghost iv = item_pairs_view(items@);
    let mut out: Vec<usize> = Vec::new();
    let mut k: usize = 0;
    while k < names.len()
        invariant
            k <= names@.len(),
            nv == strings_view(names@),
            prefix == trim_end_spec(path_inside@, '/'),
            iv == item_pairs_view(items@),
            out@.map_values(|i: usize| i as int) == kept_members(nv, prefix, iv, k as int),
        decreases names@.len() - k,
    {
        let m = names[k].as_str();
        assert(nv[k as int] == m@);
        let n = m.unicode_len();
        let is_dir_entry = n > 0 && (m.get_char(n - 1) == '/' || m.get_char(n - 1) == '\\');
        if !zip_member_removed(m, path_inside, items) && !is_dir_entry {
            let ghost before = out@;
            out.push(k);
            assert(out@.map_values(|i: usize| i as int) =~= before.map_values(|i: usize| i as int).push(k as int));
        }
        k = k + 1;
    }
    out
}

fn falls_under_exec(member: &str, removed: &str) -> (r: bool)
    ensures
        r == falls_under(member@, removed@),
{
    let a = trim_end_char(member, '/');
    let b = trim_end_char(removed, '/');
    if str_eq(a, b) {
        return true;
    }
    let al = a.unicode_len();
    let bl = b.unicode_len();
    if al <= bl {
        return false;
    }
    let head = a.substring_char(0, bl);
    let r = str_eq(head, b) && a.get_char(bl) == '/';
    proof {
        assert(a@.subrange(0, bl as int) =~= a@.take(bl as int));
        if a@.take(bl + 1) == b@.push('/') {
            assert(a@.take(bl as int) =~= a@.take(bl + 1).take(bl as int));
            assert(b@.push('/').take(bl as int) =~= b@);
            assert(a@[bl as int] == a@.take(bl + 1)[bl as int]);
        }
        if r {
            assert(a@.take(bl + 1) =~= b@.push('/'));
        }
    }
    r
}

fn removal_names_exec(prefix: &str, name: &str, is_dir: bool) -> (r: Vec<String>)
    ensures
        strings_view(r@) == removal_names(prefix@, name@, is_dir),
{
    let n = trim_end_char(name, '/');
    let mut joined = String::new();
    if prefix.unicode_len() == 0 {
        joined.append(n);
    } else {
        joined.append(prefix);
        joined.append("/");
        joined.append(n);
    }
    proof {
        reveal_strlit("/");
        assert("/"@ =~= seq!['/']);
    }
    let first = if is_dir && prefix.unicode_len() == 0 {
        let mut f = String::from_str(n);
        string_push(&mut f, '/');
        f
    } else {
        joined.clone()
    };
    let ghost fv = first@;
    let ghost jv = joined@;
    let mut out: Vec<String> = Vec::new();
    if first.as_str().unicode_len() > 0 {
        out.push(first);
    }
    if is_dir && joined.as_str().unicode_len() > 0 {
        out.push(joined);
    }
    proof {
        let both = if is_dir { seq![fv, jv] } else { seq![fv] };
        reveal_with_fuel(Seq::filter, 3);
        assert(both.drop_last().drop_last() =~= Seq::<Seq<char>>::empty() || !is_dir);
        if is_dir {
            assert(both.drop_last() =~= seq![fv]);
            assert(seq![fv].drop_last() =~= Seq::<Seq<char>>::empty());
        } else {
            assert(both.drop_last() =~= Seq::<Seq<char>>::empty());
        }
        assert(strings_view(out@) =~= both.filter(|x: Seq<char>| x.len() > 0));
    }
    out
}

/// The names of a list of strings.

/// The items (name, is directory) of a request as plain values.
pub open spec fn item_pairs_view(v: Seq<(String, bool)>) -> Seq<(Seq<char>, bool)> {
    v.map_values(|e: (String, bool)| (e.0@, e.1))
}

/// Whether deleting `items` from directory `path_inside` of an archive removes member `member`
/// (see `member_removed`).
pub fn zip_member_removed(member: &str, path_inside: &str, items: &Vec<(String, bool)>) -> (r: bool)
    ensures
        r == member_removed(member@, trim_end_spec(path_inside@, '/'), item_pairs_view(items@)),
{
    let prefix = trim_end_char(path_inside, '/');
    let ghost iv = item_pairs_view(items@);
    let mut i: usize = 0;
    while i < items.len()
        invariant
            i <= items@.len(),
            iv == item_pairs_view(items@),
            iv.len() == items@.len(),
            prefix@ == trim_end_spec(path_inside@, '/'),
            forall|k: int, j: int| 0 <= k < i && 0 <= j < removal_names(prefix@, iv[k].0, iv[k].1).len()
                ==> !falls_under(member@, #[trigger] removal_names(prefix@, iv[k].0, iv[k].1)[j]),
        decreases items@.len() - i,
    {
        let names = removal_names_exec(prefix, items[i].0.as_str(), items[i].1);
        assert(iv[i as int] == (items@[i as int].0@, items@[i as int].1));
        let mut j: usize = 0;
        while j < names.len()
            invariant
                j <= names@.len(),
                i < items@.len(),
                iv == item_pairs_view(items@),
                iv.len() == items@.len(),
                prefix@ == trim_end_spec(path_inside@, '/'),
                strings_view(names@) == removal_names(prefix@, iv[i as int].0, iv[i as int].1),
                forall|t: int| 0 <= t < j ==> !falls_under(member@, #[trigger] strings_view(names@)[t]),
            decreases names@.len() - j,
        {
            if falls_under_exec(member, names[j].as_str()) {
                assert(strings_view(names@)[j as int] == names@[j as int]@);
                assert(falls_under(member@, removal_names(prefix@, iv[i as int].0, iv[i as int].1)[j as int]));
                return true;
            }
            assert(strings_view(names@)[j as int] == names@[j as int]@);
            j = j + 1;
        }
        i = i + 1;
    }
    false
}


/// A `zip::ZipWriter` over an in-memory buffer, held in a private field: the writer's type is
/// generic over `std::io::Write` and `Seek` and cannot be declared here, so it is known only
/// through `zip_written_of`, `zip_writer_ready` and the functions below.
#[verifier::external_body]
pub struct ZipBuilder {
    writer: zip::ZipWriter<std::io::Cursor<Vec<u8>>>,
}

/// The members written so far into a `ZipWriter` over an in-memory buffer, in the order they
/// were started: each name with its content.
pub uninterp spec fn zip_written_of(w: ZipBuilder) -> Seq<(Seq<char>, Seq<u8>)>;

/// Whether the writer is fit to take more members: no earlier call on it failed (the crate
/// aborts the entry being written when a call fails).
pub uninterp spec fn zip_writer_ready(w: ZipBuilder) -> bool;

/// Bytes of the UTF-8 encoding of a text.
pub open spec fn utf8_len(s: Seq<char>) -> int {
    encode_utf8(s).len() as int
}

/// The size of an archive holding the first `k` of `members` without ZIP64 records: per
/// member a 30-byte local header, its name, its content, a 46-byte central directory entry and
/// its name again.
pub open spec fn plain_zip_size_upto(members: Seq<(Seq<char>, Seq<u8>)>, k: int) -> int
    decreases k,
{
    if k <= 0 {
        0
    } else {
        plain_zip_size_upto(members, k - 1) + 76 + 2 * utf8_len(members[k - 1].0) + members[k - 1].1.len()
    }
}

/// A member the crate takes: a name of at most 65000 bytes (its local header must stay under
/// 64 KiB) and content under 4 GiB (larger needs the large-file option).
pub open spec fn member_fits(name: Seq<char>, data: Seq<u8>) -> bool {
    utf8_len(name) <= 65000 && data.len() < 0xffff_ffff
}

/// Members the crate writes without error into an archive without ZIP64 records: distinct
/// names, each member fitting, fewer than 65535 members, and under 4 GiB in all (with the
/// 22-byte end record).
pub open spec fn fits_plain_zip(members: Seq<(Seq<char>, Seq<u8>)>) -> bool {
    &&& members.len() < 65535
    &&& member_names(members).no_duplicates()
    &&& forall|i: int| 0 <= i < members.len() ==> member_fits(#[trigger] members[i].0, members[i].1)
    &&& plain_zip_size_upto(members, members.len() as int) + 22 < 0xffff_ffff
}

/// The names of members, in order.
pub open spec fn member_names(members: Seq<(Seq<char>, Seq<u8>)>) -> Seq<Seq<char>> {
    members.map_values(|m: (Seq<char>, Seq<u8>)| m.0)
}

/// A member name that the zip crate reads as a directory: it ends in '/' or '\\'.
pub open spec fn zip_dir_name(name: Seq<char>) -> bool {
    name.len() > 0 && (name.last() == '/' || name.last() == '\\')
}

/// The bytes `archive` hold, as the zip crate reads them, exactly `members` in order: their
/// names by index, and for each name the member's content.
pub open spec fn archive_holds(archive: Seq<u8>, members: Seq<(Seq<char>, Seq<u8>)>) -> bool {
    &&& zip_names_of(archive) == Some(member_names(members))
    &&& forall|i: int| 0 <= i < members.len() ==>
        zip_member_of(archive, #[trigger] members[i].0) == Some((zip_dir_name(members[i].0), members[i].1))
}

/// Calls `zip::ZipWriter::new` over an empty `Cursor<Vec<u8>>`. Claimed: nothing is written
/// yet.
#[verifier::external_body]
fn zip_writer_new() -> (w: ZipBuilder)
    ensures
        zip_written_of(w) == Seq::<(Seq<char>, Seq<u8>)>::empty(),
        zip_writer_ready(w),
{
    ZipBuilder { writer: zip::ZipWriter::new(std::io::Cursor::new(Vec::new())) }
}

/// Calls `ZipWriter::start_file` with `name` (stored, uncompressed) and then `write_all` with
/// `data`. Claimed: on success the member is added after the others and the writer stays ready;
/// the crate refuses a name already written, so a success means the name is new. On a ready
/// writer a new name that fits (`member_fits`) succeeds: the crate fails only on a repeated
/// name, a local header of 64 KiB or more, or content of 4 GiB or more without the large-file
/// option, and writing into memory does not fail. Nothing is claimed of the writer after a
/// failure.
#[verifier::external_body]
fn zip_writer_add(w: &mut ZipBuilder, name: &str, data: &[u8]) -> (ok: bool)
    ensures
        ok ==> !member_names(zip_written_of(*old(w))).contains(name@),
        ok ==> zip_written_of(*final(w)) == zip_written_of(*old(w)).push((name@, data@)),
        ok ==> zip_writer_ready(*final(w)),
        zip_writer_ready(*old(w)) && !member_names(zip_written_of(*old(w))).contains(name@) && member_fits(name@, data@) ==> ok,
{
    let options = zip::write::SimpleFileOptions::default().compression_method(zip::CompressionMethod::Stored);
    match w.writer.start_file(name, options) {
        Ok(()) => std::io::Write::write_all(&mut w.writer, data).is_ok(),
        Err(_) => false,
    }
}

/// Calls `ZipWriter::finish` and takes the buffer out of the cursor. Claimed: the bytes, read
/// back with the zip crate, hold the members written, in order, each under its name with its
/// content (the crate stores a name's UTF-8 bytes and reads valid UTF-8 back as is; it refuses
/// duplicate names). `None` when the crate reports an error, which it does not for a ready
/// writer whose members fit an archive without ZIP64 records (`fits_plain_zip`).
#[verifier::external_body]
fn zip_writer_finish(w: ZipBuilder) -> (r: Option<Vec<u8>>)
    ensures
        r matches Some(b) ==> archive_holds(b@, zip_written_of(w)),
        zip_writer_ready(w) && fits_plain_zip(zip_written_of(w)) ==> r is Some,
{
    w.writer.finish().ok().map(|c| c.into_inner())
}

/// Members as plain values.
pub open spec fn members_view(v: Seq<(String, Vec<u8>)>) -> Seq<(Seq<char>, Seq<u8>)> {
    v.map_values(|m: (String, Vec<u8>)| (m.0@, m.1@))
}

/// A new archive, in memory, holding `members` in order (each a name and its content). `None`
/// when the zip crate refuses it, as it does for a repeated name.
pub fn zip_create(members: &Vec<(String, Vec<u8>)>) -> (r: Option<Vec<u8>>)
    ensures
        r matches Some(b) ==> archive_holds(b@, members_view(members@)),
        fits_plain_zip(members_view(members@)) ==> r is Some,
{
    let mut w = zip_writer_new();
    let mut i: usize = 0;
    while i < members.len()
        invariant
            i <= members@.len(),
            zip_written_of(w) == members_view(members@).take(i as int),
            zip_writer_ready(w),
        decreases members@.len() - i,
    {
        let ghost mv = members_view(members@);
        proof {
            if fits_plain_zip(mv) {
                assert(mv[i as int] == (members@[i as int].0@, members@[i as int].1@));
                assert(member_fits(mv[i as int].0, mv[i as int].1));
                assert(member_names(mv.take(i as int)) =~= member_names(mv).take(i as int));
                if member_names(mv.take(i as int)).contains(mv[i as int].0) {
                    let q = choose|q: int| 0 <= q < i && member_names(mv.take(i as int))[q] == mv[i as int].0;
                    assert(member_names(mv)[q] == member_names(mv)[i as int]);
                }
            }
        }
        let ok = zip_writer_add(&mut w, members[i].0.as_str(), members[i].1.as_slice());
        if !ok {
            return None;
        }
        assert(members_view(members@).take(i + 1) =~= members_view(members@).take(i as int).push((members@[i as int].0@, members@[i as int].1@)));
        i = i + 1;
    }
    assert(members_view(members@).take(members@.len() as int) =~= members_view(members@));
    zip_writer_finish(w)
}

/// The content the zip crate reads for member `name` of `archive` (empty when it cannot).
pub open spec fn member_content(archive: Seq<u8>, name: Seq<char>) -> Seq<u8> {
    match zip_member_of(archive, name) {
        Some((_, c)) => c,
        None => Seq::empty(),
    }
}

/// The members of the archive `archive`, whose names are `names`, that stay when `items` of its
/// directory `path_inside` are deleted (see `kept_members`), each with its content.
pub open spec fn members_kept(archive: Seq<u8>, names: Seq<Seq<char>>, path_inside: Seq<char>, items: Seq<(Seq<char>, bool)>) -> Seq<(Seq<char>, Seq<u8>)> {
    kept_members(names, trim_end_spec(path_inside, '/'), items, names.len() as int)
        .map_values(|k: int| (names[k], member_content(archive, names[k])))
}

/// Every member kept when `items` of `path_inside` are deleted can be read by the zip crate.
pub open spec fn kept_readable(archive: Seq<u8>, names: Seq<Seq<char>>, path_inside: Seq<char>, items: Seq<(Seq<char>, bool)>) -> bool {
    let kept = kept_members(names, trim_end_spec(path_inside, '/'), items, names.len() as int);
    forall|q: int| 0 <= q < kept.len() ==> (#[trigger] zip_member_of(archive, names[kept[q]])) is Some
}

/// The members of `archive` kept when `items` of its directory `path_inside` are deleted (see
/// `members_kept`), read out in order with their content. `None` when the zip crate cannot read
/// the archive or a kept member.
pub fn zip_read_kept(archive: &[u8], path_inside: &str, items: &Vec<(String, bool)>) -> (r: Option<Vec<(String, Vec<u8>)>>)
    ensures
        zip_names_of(archive@) is None ==> r is None,
        r matches Some(m) ==> zip_names_of(archive@) matches Some(names)
            && members_view(m@) == members_kept(archive@, names, path_inside@, item_pairs_view(items@)),
        zip_names_of(archive@) matches Some(names) && kept_readable(archive@, names, path_inside@, item_pairs_view(items@))
            ==> r is Some,
{
    let names = match zip_entry_names(archive) {
        Some(n) => n,
        None => return None,
    };
    let ghost nv = strings_view(names@);
    let kept = zip_kept_members(&names, path_inside, items);
    let ghost kv = kept@.map_values(|i: usize| i as int);
    let ghost want = members_kept(archive@, nv, path_inside@, item_pairs_view(items@));
    proof {
        assert(kv == kept_members(nv, trim_end_spec(path_inside@, '/'), item_pairs_view(items@), nv.len() as int));
        lemma_kept_in_range(nv, trim_end_spec(path_inside@, '/'), item_pairs_view(items@), nv.len() as int);
    }
    let mut members: Vec<(String, Vec<u8>)> = Vec::new();
    let mut j: usize = 0;
    while j < kept.len()
        invariant
            j <= kept@.len(),
            nv == strings_view(names@),
            kv == kept@.map_values(|i: usize| i as int),
            want == kv.map_values(|k: int| (nv[k], member_content(archive@, nv[k]))),
            forall|q: int| 0 <= q < kv.len() ==> 0 <= #[trigger] kv[q] < nv.len(),
            members_view(members@) == want.take(j as int),
            zip_names_of(archive@) == Some(nv),
            kv == kept_members(nv, trim_end_spec(path_inside@, '/'), item_pairs_view(items@), nv.len() as int),
        decreases kept@.len() - j,
    {
        let k = kept[j];
        assert(kv[j as int] == k as int);
        let name = names[k].as_str();
        let content = match zip_member(archive, name) {
            Some((_, c)) => c,
            None => {
                proof {
                    if kept_readable(archive@, nv, path_inside@, item_pairs_view(items@)) {
                        assert(zip_member_of(archive@, nv[kv[j as int]]) is Some);
                    }
                }
                return None;
            },
        };
        proof {
            assert(nv[k as int] == name@);
            assert(member_content(archive@, name@) == content@);
            assert(want[j as int] == (nv[k as int], member_content(archive@, nv[k as int])));
        }
        let ghost before = members_view(members@);
        members.push((String::from_str(name), content));
        proof {
            assert(members_view(members@) =~= before.push(want[j as int]));
            assert(want.take(j + 1) =~= want.take(j as int).push(want[j as int]));
        }
        j = j + 1;
    }
    proof {
        assert(want.take(kept@.len() as int) =~= want);
    }
    Some(members)
}


/// The archive `archive` rewritten without `items` of its directory `path_inside` (folders with
/// everything under them) and without directory entries: the kept members in order, each with
/// its content unchanged. `None` when the zip crate cannot read the archive or a kept member, or
/// cannot write the new one.
pub fn zip_without(archive: &[u8], path_inside: &str, items: &Vec<(String, bool)>) -> (r: Option<Vec<u8>>)
    ensures
        zip_names_of(archive@) is None ==> r is None,
        r matches Some(b) ==> zip_names_of(archive@) matches Some(names)
            && archive_holds(b@, members_kept(archive@, names, path_inside@, item_pairs_view(items@))),
        zip_names_of(archive@) matches Some(names) && kept_readable(archive@, names, path_inside@, item_pairs_view(items@))
            && fits_plain_zip(members_kept(archive@, names, path_inside@, item_pairs_view(items@))) ==> r is Some,
{
    match zip_read_kept(archive, path_inside, items) {
        Some(members) => zip_create(&members),
        None => None,
    }
}

/// The members of the archive `archive` (whose names are `names`) after entry `name` of its
/// directory `path_inside` is written with `data`: the members kept when that entry is deleted
/// (see `members_kept`), then the entry's member (see `zip_member_name`) with `data`.
pub open spec fn members_with_file(archive: Seq<u8>, names: Seq<Seq<char>>, path_inside: Seq<char>, name: Seq<char>, data: Seq<u8>) -> Seq<(Seq<char>, Seq<u8>)> {
    members_kept(archive, names, path_inside, seq![(name, false)])
        .push((zip_member_name(trim_end_spec(path_inside, '/'), name), data))
}

/// The archive `archive` rewritten with entry `name` of its directory `path_inside` holding
/// `data` (see `members_with_file`): a new file, or the old one replaced. As in `zip_without`,
/// directory entries are left out. `None` when the zip crate cannot read the archive or a kept
/// member, or cannot write the new one.
pub fn zip_with_file(archive: &[u8], path_inside: &str, name: &str, data: Vec<u8>) -> (r: Option<Vec<u8>>)
    ensures
        zip_names_of(archive@) is None ==> r is None,
        r matches Some(b) ==> zip_names_of(archive@) matches Some(names)
            && archive_holds(b@, members_with_file(archive@, names, path_inside@, name@, data@)),
        zip_names_of(archive@) matches Some(names) && kept_readable(archive@, names, path_inside@, seq![(name@, false)])
            && fits_plain_zip(members_with_file(archive@, names, path_inside@, name@, data@)) ==> r is Some,
{
    let mut items: Vec<(String, bool)> = Vec::new();
    items.push((String::from_str(name), false));
    assert(item_pairs_view(items@) =~= seq![(name@, false)]);
    let mut members = match zip_read_kept(archive, path_inside, &items) {
        Some(m) => m,
        None => return None,
    };
    let full = zip_member_path(path_inside, name);
    let ghost before = members_view(members@);
    members.push((full, data));
    proof {
        assert(members_view(members@) =~= before.push((zip_member_name(trim_end_spec(path_inside@, '/'), name@), data@)));
    }
    zip_create(&members)
}

/// Whether directory `path_inside` of an archive whose members are `names` has an entry
/// `name`: a member is that entry's member (see `zip_member_name`) or lies under it.
pub open spec fn entry_in_archive(names: Seq<Seq<char>>, path_inside: Seq<char>, name: Seq<char>) -> bool {
    exists|i: int| 0 <= i < names.len() && falls_under(#[trigger] names[i], zip_member_name(trim_end_spec(path_inside, '/'), name))
}

/// Whether the archive `archive` has entry `name` in its directory `path_inside` (see
/// `entry_in_archive`); `None` when the zip crate cannot read it.
pub fn zip_entry_exists(archive: &[u8], path_inside: &str, name: &str) -> (r: Option<bool>)
    ensures
        match r {
            Some(e) => zip_names_of(archive@) matches Some(names) && e == entry_in_archive(names, path_inside@, name@),
            None => zip_names_of(archive@) is None,
        },
{
    let names = match zip_entry_names(archive) {
        Some(n) => n,
        None => return None,
    };
    let ghost nv = strings_view(names@);
    let full = zip_member_path(path_inside, name);
    let mut i: usize = 0;
    while i < names.len()
        invariant
            i <= names@.len(),
            nv == strings_view(names@),
            zip_names_of(archive@) == Some(nv),
            full@ == zip_member_name(trim_end_spec(path_inside@, '/'), name@),
            forall|k: int| 0 <= k < i ==> !falls_under(#[trigger] nv[k], full@),
        decreases names@.len() - i,
    {
        assert(nv[i as int] == names@[i as int]@);
        if falls_under_exec(names[i].as_str(), full.as_str()) {
            return Some(true);
        }
        i = i + 1;
    }
    Some(false)
}

/// What reading entry `name` of directory `path_inside` of an archive gives (see
/// `zip_read_file`): the content of its member when that is a file, else of the member with a
/// trailing '/' when that is a file.
pub open spec fn entry_content(archive: Seq<u8>, path_inside: Seq<char>, name: Seq<char>) -> Option<Seq<u8>> {
    let full = zip_member_name(trim_end_spec(path_inside, '/'), name);
    match file_content(zip_member_of(archive, full)) {
        Some(c) => Some(c),
        None => file_content(zip_member_of(archive, full.push('/'))),
    }
}

/// Reading an entry back from an archive that `zip_with_file` wrote gives the data written,
/// when the entry's member name is not a directory's.
pub proof fn law_written_entry_reads_back(archive: Seq<u8>, names: Seq<Seq<char>>, b: Seq<u8>, path_inside: Seq<char>, name: Seq<char>, data: Seq<u8>)
    requires
        zip_names_of(archive) == Some(names),
        archive_holds(b, members_with_file(archive, names, path_inside, name, data)),
        !zip_dir_name(zip_member_name(trim_end_spec(path_inside, '/'), name)),
    ensures
        entry_content(b, path_inside, name) == Some(data),
{
    let ms = members_with_file(archive, names, path_inside, name, data);
    let last = ms.len() - 1;
    assert(ms[last] == (zip_member_name(trim_end_spec(path_inside, '/'), name), data));
    assert(zip_member_of(b, ms[last].0) == Some((zip_dir_name(ms[last].0), ms[last].1)));
}

proof fn lemma_kept_in_range(names: Seq<Seq<char>>, prefix: Seq<char>, items: Seq<(Seq<char>, bool)>, k: int)
    requires
        0 <= k <= names.len(),
    ensures
        forall|q: int| 0 <= q < kept_members(names, prefix, items, k).len() ==>
            0 <= #[trigger] kept_members(names, prefix, items, k)[q] < k,
    decreases k,
{
    if k > 0 {
        lemma_kept_in_range(names, prefix, items, k - 1);
        let prev = kept_members(names, prefix, items, k - 1);
        let cur = kept_members(names, prefix, items, k);
        assert forall|q: int| 0 <= q < cur.len() implies 0 <= #[trigger] cur[q] < k by {
            if q < prev.len() {
                assert(cur[q] == prev[q]);
            }
        }
    }
}


/// Where a panel showing directory `dir` lists from when it has the archive `archive` open:
/// inside the archive when `dir` is the archive's path (its root) or lies below it (the rest of
/// the path, after the '/'); else the file system.
pub open spec fn location_is(r: PanelLocation, dir: Seq<char>, archive: Option<Seq<char>>) -> bool {
    match archive {
        Some(a) => if dir == a {
            r matches PanelLocation::Zip { archive: x, path_inside: p } && x@ == a && p@.len() == 0
        } else if dir.len() > a.len() && dir.take(a.len() as int) == a && dir[a.len() as int] == '/' {
            r matches PanelLocation::Zip { archive: x, path_inside: p } && x@ == a && p@ == dir.skip(a.len() as int + 1)
        } else {
            r matches PanelLocation::Fs(d) && d@ == dir
        },
        None => r matches PanelLocation::Fs(d) && d@ == dir,
    }
}

/// The location of a panel showing `dir` with `archive` open (see `location_is`).
pub fn location_of(dir: &str, archive: Option<&str>) -> (r: PanelLocation)
    ensures
        location_is(r, dir@, match archive { Some(a) => Some(a@), None => None }),
{
    match archive {
        Some(a) => {
            if str_eq(dir, a) {
                return PanelLocation::Zip { archive: String::from_str(a), path_inside: String::new() };
            }
            let n = dir.unicode_len();
            let m = a.unicode_len();
            if n > m && str_starts_with(dir, a) && dir.get_char(m) == '/' {
                let rest = dir.substring_char(m + 1, n).to_owned();
                proof {
                    assert(dir@.subrange(m + 1, n as int) =~= dir@.skip(m + 1));
                }
                return PanelLocation::Zip { archive: String::from_str(a), path_inside: rest };
            }
            PanelLocation::Fs(String::from_str(dir))
        },
        None => PanelLocation::Fs(String::from_str(dir)),
    }
}

/// The archive Enter opens in the active panel: when no archive is open there and the selected
/// entry is a ZIP file, its path.
pub open spec fn archive_to_open(v: crate::panel::PanelView, archive_open: bool) -> Option<Seq<char>> {
    if !archive_open && 0 <= v.sel < v.len() && crate::ui::is_zip_name(v.files[v.sel]) {
        Some(path_join_of(v.dir, clean_name(v.files[v.sel].name@)))
    } else {
        None
    }
}

/// The archive Enter opens (see `archive_to_open`).
pub fn zip_to_open(panel: &crate::panel::Panel, archive_open: bool) -> (r: Option<String>)
    ensures
        opt_text(r) == archive_to_open(panel@, archive_open),
{
    if archive_open {
        return None;
    }
    match crate::panel::PanelOperations::get_selected_file(panel) {
        Some(f) => {
            if crate::ui::is_zip_file(f) {
                Some(FileOperations::join_path(crate::panel::PanelOperations::get_current_dir(panel), f.name.as_str()))
            } else {
                None
            }
        },
        None => None,
    }
}

/// A text option as plain values.
pub open spec fn opt_text(o: Option<String>) -> Option<Seq<char>> {
    match o {
        Some(s) => Some(s@),
        None => None,
    }
}

/// The name of a member for the item at path `rel` inside a new archive: the path, with a
/// trailing '/' for a folder.
pub open spec fn member_name_of(rel: Seq<char>, is_dir: bool) -> Seq<char> {
    if is_dir { rel.push('/') } else { rel }
}

/// The member name for the item at `rel` (see `member_name_of`).
pub fn archive_member_name(rel: &str, is_dir: bool) -> (r: String)
    ensures
        r@ == member_name_of(rel@, is_dir),
{
    let mut s = String::from_str(rel);
    if is_dir {
        string_push(&mut s, '/');
    }
    s
}

/// The path inside a new archive of entry `name` of the folder at path `rel`.
pub fn archive_child_path(rel: &str, name: &str) -> (r: String)
    ensures
        r@ == rel@.push('/') + name@,
{
    let mut s = String::from_str(rel);
    string_push(&mut s, '/');
    s.append(name);
    s
}

} // verus!
