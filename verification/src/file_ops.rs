//! Directory entries and path helpers.
use vstd::prelude::*;

use crate::strutil::{str_eq, trim_end_char, trim_start_char, trim_end_spec, trim_start_spec};
use vstd::utf8::encode_utf8;
use vstd::multiset::Multiset;

verus! {

/// One entry of a panel listing.
#[derive(Debug, Clone)]
pub struct FileInfo {
    pub name: String,
    pub is_dir: bool,
    pub is_executable: bool,
    /// Size in bytes.
    pub size: u64,
    /// Last modification, in seconds since the Unix epoch, when known.
    pub mtime: Option<i64>,
}

/// The name of the parent-directory entry, "..".
pub open spec fn parent_name() -> Seq<char> {
    seq!['.', '.']
}

impl FileInfo {
    /// An entry without size or time (size 0, time unknown).
    pub fn new(name: String, is_dir: bool, is_executable: bool) -> (r: Self)
        ensures
            r.name@ == name@,
            r.is_dir == is_dir,
            r.is_executable == is_executable,
            r.size == 0,
            r.mtime is None,
    {
        FileInfo { name, is_dir, is_executable, size: 0, mtime: None }
    }

    /// An entry with its size and modification time.
    pub fn with_metadata(name: String, is_dir: bool, is_executable: bool, size: u64, mtime: Option<i64>) -> (r: Self)
        ensures
            r.name@ == name@,
            r.is_dir == is_dir,
            r.is_executable == is_executable,
            r.size == size,
            r.mtime == mtime,
    {
        FileInfo { name, is_dir, is_executable, size, mtime }
    }

    /// Whether this is the ".." entry.
    pub open spec fn spec_is_parent(&self) -> bool {
        self.name@ == parent_name()
    }

    pub fn is_parent_dir(&self) -> (r: bool)
        ensures
            r == self.spec_is_parent(),
    {
        proof {
            reveal_strlit("..");
            assert(".."@ =~= parent_name());
        }
        str_eq(self.name.as_str(), "..")
    }

    /// A field-by-field copy.
    pub(crate) fn duplicate(&self) -> (r: Self)
        ensures
            r.name@ == self.name@,
            r.is_dir == self.is_dir,
            r.is_executable == self.is_executable,
            r.size == self.size,
            r.mtime == self.mtime,
    {
        FileInfo { name: self.name.clone(), is_dir: self.is_dir, is_executable: self.is_executable, size: self.size, mtime: self.mtime }
    }
}

/// What `Path::join` followed by `to_string_lossy` gives on Unix for a base directory and a
/// name: the name itself when it starts with '/'; else the base, a '/' unless the base is empty
/// or already ends in '/', and the name.
pub open spec fn path_join_of(base: Seq<char>, name: Seq<char>) -> Seq<char> {
    if name.len() > 0 && name[0] == '/' {
        name
    } else if base.len() == 0 || base.last() == '/' {
        base + name
    } else {
        base + seq!['/'] + name
    }
}

/// What `Path::parent` gives for a path (as text), `None` at a root or for an empty path.
pub uninterp spec fn path_parent_of(p: Seq<char>) -> Option<Seq<char>>;

/// What `Path::file_name` gives for a path (as text), `None` when the path ends in "..".
pub uninterp spec fn path_file_name_of(p: Seq<char>) -> Option<Seq<char>>;

/// Calls `Path::join` and turns the result back into text. Claimed: the text `path_join_of`
/// states, which is what `Path::push` does on Unix for paths given as valid text.
#[verifier::external_body]
pub(crate) fn path_join(base: &str, name: &str) -> (r: String)
    ensures
        r@ == path_join_of(base@, name@),
{
    std::path::Path::new(base).join(name).to_string_lossy().to_string()
}

/// Calls `Path::parent` and turns the result back into text.
#[verifier::external_body]
pub(crate) fn path_parent(p: &str) -> (r: Option<String>)
    ensures
        match r {
            Some(s) => path_parent_of(p@) == Some(s@),
            None => path_parent_of(p@) is None,
        },
{
    std::path::Path::new(p).parent().map(|q| q.to_string_lossy().to_string())
}

/// Calls `Path::file_name` and turns the result back into text.
#[verifier::external_body]
pub(crate) fn path_file_name(p: &str) -> (r: Option<String>)
    ensures
        match r {
            Some(s) => path_file_name_of(p@) == Some(s@),
            None => path_file_name_of(p@) is None,
        },
{
    std::path::Path::new(p).file_name().map(|q| q.to_string_lossy().to_string())
}

/// The name with leading and trailing '/' removed, as joined onto a base directory.
pub open spec fn clean_name(name: Seq<char>) -> Seq<char> {
    trim_end_spec(trim_start_spec(name, '/'), '/')
}

/// `a` sorts before `b` byte by byte, a proper prefix first (how `String`s compare).
pub open spec fn bytes_lt(a: Seq<u8>, b: Seq<u8>) -> bool
    decreases a.len(),
{
    if b.len() == 0 {
        false
    } else if a.len() == 0 {
        true
    } else if a[0] != b[0] {
        a[0] < b[0]
    } else {
        bytes_lt(a.drop_first(), b.drop_first())
    }
}

/// The bytes of a name as stored in a `String`.
pub open spec fn name_bytes(f: FileInfo) -> Seq<u8> {
    encode_utf8(f.name@)
}

/// How a panel orders its entries.
#[derive(Clone, Copy, PartialEq, Eq, Structural, Debug)]
pub enum SortMode {
    NameAsc,
    NameDesc,
    SizeAsc,
    SizeDesc,
    MtimeAsc,
    MtimeDesc,
}

/// The sort mode a settings text names ("name_asc", "name_desc", "size_asc", "size_desc",
/// "mtime_asc", "mtime_desc"); by name, ascending, for any other text.
pub open spec fn sort_mode_named(s: Seq<char>) -> SortMode {
    if s == "name_desc"@ {
        SortMode::NameDesc
    } else if s == "size_asc"@ {
        SortMode::SizeAsc
    } else if s == "size_desc"@ {
        SortMode::SizeDesc
    } else if s == "mtime_asc"@ {
        SortMode::MtimeAsc
    } else if s == "mtime_desc"@ {
        SortMode::MtimeDesc
    } else {
        SortMode::NameAsc
    }
}

/// The sort mode a settings text names (see `sort_mode_named`).
pub fn sort_mode_of(s: &str) -> (r: SortMode)
    ensures
        r == sort_mode_named(s@),
{
    proof {
        reveal_strlit("name_desc");
        reveal_strlit("size_asc");
        reveal_strlit("size_desc");
        reveal_strlit("mtime_asc");
        reveal_strlit("mtime_desc");
    }
    if str_eq(s, "name_desc") {
        SortMode::NameDesc
    } else if str_eq(s, "size_asc") {
        SortMode::SizeAsc
    } else if str_eq(s, "size_desc") {
        SortMode::SizeDesc
    } else if str_eq(s, "mtime_asc") {
        SortMode::MtimeAsc
    } else if str_eq(s, "mtime_desc") {
        SortMode::MtimeDesc
    } else {
        SortMode::NameAsc
    }
}

/// A modification time as a number; an unknown time comes before every known one.
pub open spec fn time_key(f: FileInfo) -> int {
    match f.mtime {
        Some(t) => t as int,
        None => i64::MIN - 1,
    }
}

/// `a` comes before `b` by the key of `mode`; equal keys go by name, ascending.
pub open spec fn key_before(mode: SortMode, a: FileInfo, b: FileInfo) -> bool {
    let by_name = bytes_lt(name_bytes(a), name_bytes(b));
    match mode {
        SortMode::NameAsc => by_name,
        SortMode::NameDesc => bytes_lt(name_bytes(b), name_bytes(a)),
        SortMode::SizeAsc => a.size < b.size || (a.size == b.size && by_name),
        SortMode::SizeDesc => a.size > b.size || (a.size == b.size && by_name),
        SortMode::MtimeAsc => time_key(a) < time_key(b) || (time_key(a) == time_key(b) && by_name),
        SortMode::MtimeDesc => time_key(a) > time_key(b) || (time_key(a) == time_key(b) && by_name),
    }
}

/// Listing order: ".." first; then, with `dirs_first`, directories before files; then by the
/// key of `mode`.
pub open spec fn entry_before_by(mode: SortMode, dirs_first: bool, a: FileInfo, b: FileInfo) -> bool {
    if a.spec_is_parent() != b.spec_is_parent() {
        a.spec_is_parent()
    } else if dirs_first && a.is_dir != b.is_dir {
        a.is_dir
    } else {
        key_before(mode, a, b)
    }
}

/// No entry comes after one that should follow it in the order of `mode` and `dirs_first`.
pub open spec fn listing_sorted(s: Seq<FileInfo>, mode: SortMode, dirs_first: bool) -> bool {
    forall|i: int, j: int| 0 <= i < j < s.len() ==> !entry_before_by(mode, dirs_first, #[trigger] s[j], #[trigger] s[i])
}

proof fn lemma_bytes_lt_irreflexive(a: Seq<u8>)
    ensures
        !bytes_lt(a, a),
    decreases a.len(),
{
    if a.len() > 0 {
        lemma_bytes_lt_irreflexive(a.drop_first());
    }
}

proof fn lemma_bytes_lt_transitive(a: Seq<u8>, b: Seq<u8>, c: Seq<u8>)
    requires
        bytes_lt(a, b),
        bytes_lt(b, c),
    ensures
        bytes_lt(a, c),
    decreases a.len(),
{
    if a.len() > 0 && b.len() > 0 && c.len() > 0 {
        if a[0] == b[0] && b[0] == c[0] {
            lemma_bytes_lt_transitive(a.drop_first(), b.drop_first(), c.drop_first());
        }
    }
}

/// Every listing order is a strict order: never an entry before itself, and transitive.
pub proof fn law_entry_order_strict(mode: SortMode, dirs_first: bool, a: FileInfo, b: FileInfo, c: FileInfo)
    ensures
        !entry_before_by(mode, dirs_first, a, a),
        entry_before_by(mode, dirs_first, a, b) && entry_before_by(mode, dirs_first, b, c)
            ==> entry_before_by(mode, dirs_first, a, c),
{
    lemma_bytes_lt_irreflexive(name_bytes(a));
    if bytes_lt(name_bytes(a), name_bytes(b)) && bytes_lt(name_bytes(b), name_bytes(c)) {
        lemma_bytes_lt_transitive(name_bytes(a), name_bytes(b), name_bytes(c));
    }
    if bytes_lt(name_bytes(c), name_bytes(b)) && bytes_lt(name_bytes(b), name_bytes(a)) {
        lemma_bytes_lt_transitive(name_bytes(c), name_bytes(b), name_bytes(a));
    }
}

fn bytes_less(a: &[u8], b: &[u8]) -> (r: bool)
    ensures
        r == bytes_lt(a@, b@),
{
    let mut i: usize = 0;
    assert(a@.skip(0) =~= a@ && b@.skip(0) =~= b@);
    while i < a.len() && i < b.len()
        invariant
            i <= a@.len(),
            i <= b@.len(),
            bytes_lt(a@, b@) == bytes_lt(a@.skip(i as int), b@.skip(i as int)),
        decreases a@.len() - i,
    {
        assert(a@.skip(i as int).drop_first() =~= a@.skip(i + 1));
        assert(b@.skip(i as int).drop_first() =~= b@.skip(i + 1));
        if a[i] != b[i] {
            return a[i] < b[i];
        }
        i = i + 1;
    }
    i == a.len() && i < b.len()
}

fn entry_less(mode: SortMode, dirs_first: bool, a: &FileInfo, b: &FileInfo) -> (r: bool)
    ensures
        r == entry_before_by(mode, dirs_first, *a, *b),
{
    let ap = a.is_parent_dir();
    let bp = b.is_parent_dir();
    if ap != bp {
        return ap;
    }
    if dirs_first && a.is_dir != b.is_dir {
        return a.is_dir;
    }
    let an = a.name.as_str().as_bytes();
    let bn = b.name.as_str().as_bytes();
    let by_name = bytes_less(an, bn);
    match mode {
        SortMode::NameAsc => by_name,
        SortMode::NameDesc => bytes_less(bn, an),
        SortMode::SizeAsc => a.size < b.size || (a.size == b.size && by_name),
        SortMode::SizeDesc => a.size > b.size || (a.size == b.size && by_name),
        SortMode::MtimeAsc | SortMode::MtimeDesc => {
            let (known_a, ta) = match a.mtime { Some(t) => (true, t), None => (false, 0) };
            let (known_b, tb) = match b.mtime { Some(t) => (true, t), None => (false, 0) };
            let lt = (!known_a && known_b) || (known_a && known_b && ta < tb);
            let eq = (known_a == known_b) && (!known_a || ta == tb);
            if mode == SortMode::MtimeAsc {
                lt || (eq && by_name)
            } else {
                let gt = !lt && !eq;
                gt || (eq && by_name)
            }
        },
    }
}

/// Whether a listing shows an entry: ".." and names not starting with '.' always, hidden names
/// only with `show_hidden`.
pub open spec fn shown(f: FileInfo, show_hidden: bool) -> bool {
    show_hidden || f.spec_is_parent() || !(f.name@.len() > 0 && f.name@[0] == '.')
}

fn is_shown(f: &FileInfo, show_hidden: bool) -> (r: bool)
    ensures
        r == shown(*f, show_hidden),
{
    show_hidden || f.is_parent_dir() || !(f.name.as_str().unicode_len() > 0 && f.name.as_str().get_char(0) == '.')
}

/// Orders entries as a listing shows them (see `entry_before_by`), keeping exactly those shown
/// (see `shown`): the result is a reordering of them.
pub fn sort_listing(files: Vec<FileInfo>, show_hidden: bool, mode: SortMode, dirs_first: bool) -> (r: Vec<FileInfo>)
    ensures
        r@.to_multiset() == files@.filter(|f: FileInfo| shown(f, show_hidden)).to_multiset(),
        listing_sorted(r@, mode, dirs_first),
{
    let ghost keep = |f: FileInfo| shown(f, show_hidden);
    broadcast use {vstd::seq_lib::group_to_multiset_ensures, vstd::multiset::group_multiset_axioms};
    let mut rest = files;
    let ghost orig = rest@.filter(keep);
    let mut out: Vec<FileInfo> = Vec::new();
    while rest.len() > 0
        invariant
            keep == (|f: FileInfo| shown(f, show_hidden)),
            out@.to_multiset().add(rest@.filter(keep).to_multiset()) == orig.to_multiset(),
            listing_sorted(out@, mode, dirs_first),
        decreases rest@.len(),
    {
        let ghost before_rest = rest@;
        let x = rest.remove(0);
        proof {
            assert(x == before_rest[0]);
            assert(before_rest =~= seq![x] + rest@);
            Seq::filter_distributes_over_add(seq![x], rest@, keep);
            reveal_with_fuel(Seq::filter, 2);
            assert(seq![x].drop_last() =~= Seq::<FileInfo>::empty());
        }
        if !is_shown(&x, show_hidden) {
            proof {
                assert(seq![x].filter(keep) =~= Seq::<FileInfo>::empty());
                assert(before_rest.filter(keep) =~= rest@.filter(keep));
            }
            continue;
        }
        proof {
            assert(seq![x].filter(keep) =~= seq![x]);
            let bf = before_rest.filter(keep);
            assert(bf =~= seq![x] + rest@.filter(keep));
            assert(bf[0] == x);
            bf.to_multiset_ensures();
            assert(bf.remove(0) =~= rest@.filter(keep));
            assert(bf.contains(x));
        }
        let mut j: usize = 0;
        while j < out.len() && !entry_less(mode, dirs_first, &x, &out[j])
            invariant
                j <= out@.len(),
                forall|k: int| 0 <= k < j ==> !entry_before_by(mode, dirs_first, x, #[trigger] out@[k]),
            decreases out@.len() - j,
        {
            j = j + 1;
        }
        let ghost old_out = out@;
        out.insert(j, x);
        proof {
            vstd::seq_lib::to_multiset_insert(old_out, j as int, x);
            assert forall|a: int, b: int| 0 <= a < b < out@.len() implies !entry_before_by(mode, dirs_first, #[trigger] out@[b], #[trigger] out@[a]) by {
                if b == j as int {
                    assert(out@[a] == old_out[a]);
                } else if a == j as int {
                    let ob = old_out[b - 1];
                    assert(out@[b] == ob);
                    if entry_before_by(mode, dirs_first, ob, x) {
                        law_entry_order_strict(mode, dirs_first, ob, x, old_out[j as int]);
                        law_entry_order_strict(mode, dirs_first, ob, ob, ob);
                        if b - 1 > j {
                            assert(!entry_before_by(mode, dirs_first, old_out[b - 1], old_out[j as int]));
                        }
                    }
                } else {
                    let oa = if a < j { a } else { a - 1 };
                    let ob = if b < j { b } else { b - 1 };
                    assert(out@[a] == old_out[oa]);
                    assert(out@[b] == old_out[ob]);
                }
            }
            assert(out@.to_multiset().add(rest@.filter(keep).to_multiset()) =~= orig.to_multiset());
        }
    }
    proof {
        assert(rest@.filter(keep) =~= Seq::<FileInfo>::empty());
        assert(rest@.filter(keep).to_multiset() =~= Multiset::empty());
        assert(out@.to_multiset().add(Multiset::empty()) =~= out@.to_multiset());
    }
    out
}

pub struct FileOperations;

impl FileOperations {
    /// Joins a name onto a base directory after stripping slashes from both ends of the name.
    pub fn join_path(base: &str, name: &str) -> (r: String)
        ensures
            r@ == path_join_of(base@, clean_name(name@)),
    {
        let name_clean = trim_end_char(trim_start_char(name, '/'), '/');
        path_join(base, name_clean)
    }

    /// The listing of directory `dir` from its `entries`: ".." added when the directory has a
    /// parent, hidden names dropped unless `show_hidden`, then ordered by `mode` and
    /// `dirs_first` (see `entry_before_by`).
    pub fn listing_from_entries(dir: &str, entries: Vec<FileInfo>, show_hidden: bool, mode: SortMode, dirs_first: bool) -> (r: Vec<FileInfo>)
        ensures
            listing_sorted(r@, mode, dirs_first),
            path_parent_of(dir@) is None ==> r@.to_multiset() == entries@.filter(|f: FileInfo| shown(f, show_hidden)).to_multiset(),
            path_parent_of(dir@) is Some ==> exists|p: FileInfo| p.name@ == parent_name() && p.is_dir && !p.is_executable
                && p.size == 0 && p.mtime is None
                && r@.to_multiset() == entries@.insert(0, p).filter(|f: FileInfo| shown(f, show_hidden)).to_multiset(),
    {
        let mut files = entries;
        let ghost e = files@;
        if path_parent(dir).is_some() {
            let p = FileInfo::new(String::from_str(".."), true, false);
            proof {
                reveal_strlit("..");
                assert(".."@ =~= parent_name());
            }
            files.insert(0, p);
        }
        sort_listing(files, show_hidden, mode, dirs_first)
    }
}

} // verus!
