//! Persisted settings, stored in ~/.oxide/settings.json. Defaults: two columns, hidden files
//! shown, sort by name ascending, folders first, autosave off.
use vstd::prelude::*;
use vstd::string::StringExecFns;

use crate::events::SettingChange;
use crate::file_ops::{path_join, path_join_of};
use crate::strutil::str_eq;

verus! {

/// Settings stored on disk.
pub struct PersistedSettings {
    /// When true, panel directories are saved on navigation and restored on start.
    pub autosave: bool,
    /// Saved directory of the left panel.
    pub left_cwd: Option<String>,
    /// Saved directory of the right panel.
    pub right_cwd: Option<String>,
    /// Left panel view: "one" = one column, "two" = two columns.
    pub left_view: String,
    pub right_view: String,
    pub left_show_hidden: bool,
    pub right_show_hidden: bool,
    /// Sort mode per panel: name_asc, name_desc, size_asc, size_desc, mtime_asc, mtime_desc.
    pub left_sort: String,
    pub right_sort: String,
    /// When true, directories come before files.
    pub left_dirs_first: bool,
    pub right_dirs_first: bool,
    /// Active panel when autosave last ran: 0 = left, 1 = right.
    pub active_panel: u8,
}

/// Default view mode: "two".
pub fn default_view() -> (r: String)
    ensures
        r@ == "two"@,
{
    String::from_str("two")
}

pub fn default_true() -> (r: bool)
    ensures
        r,
{
    true
}

/// Default sort mode: "name_asc".
pub fn default_sort() -> (r: String)
    ensures
        r@ == "name_asc"@,
{
    String::from_str("name_asc")
}

impl PersistedSettings {
    /// The settings of a new installation.
    pub open spec fn is_default(&self) -> bool {
        &&& !self.autosave
        &&& self.left_cwd is None && self.right_cwd is None
        &&& self.left_view@ == "two"@ && self.right_view@ == "two"@
        &&& self.left_show_hidden && self.right_show_hidden
        &&& self.left_sort@ == "name_asc"@ && self.right_sort@ == "name_asc"@
        &&& self.left_dirs_first && self.right_dirs_first
        &&& self.active_panel == 0
    }
}

impl Default for PersistedSettings {
    fn default() -> (r: Self)
        ensures
            r.is_default(),
    {
        PersistedSettings {
            autosave: false,
            left_cwd: None,
            right_cwd: None,
            left_view: default_view(),
            right_view: default_view(),
            left_show_hidden: default_true(),
            right_show_hidden: default_true(),
            left_sort: default_sort(),
            right_sort: default_sort(),
            left_dirs_first: true,
            right_dirs_first: true,
            active_panel: 0,
        }
    }
}

/// The sort modes in the order the Settings dialog cycles through them.
pub open spec fn sort_modes() -> Seq<Seq<char>> {
    seq!["name_asc"@, "name_desc"@, "size_asc"@, "size_desc"@, "mtime_asc"@, "mtime_desc"@]
}

/// The position of sort mode `s` in the list (meaningful when it is one of them).
pub open spec fn sort_index(s: Seq<char>) -> int {
    choose|i: int| 0 <= i < 6 && sort_modes()[i] == s
}

/// The sort mode after `s` (before it when `forward` is off) round the list; the first mode when
/// `s` is not one of them.
pub open spec fn cycled_sort(s: Seq<char>, forward: bool) -> Seq<char> {
    if sort_modes().contains(s) {
        let i = sort_index(s);
        sort_modes()[if forward { (i + 1) % 6 } else { (i + 5) % 6 }]
    } else {
        sort_modes()[0]
    }
}

proof fn lemma_sort_index(s: Seq<char>)
    requires
        sort_modes().contains(s),
    ensures
        0 <= sort_index(s) < 6,
        sort_modes()[sort_index(s)] == s,
{
    let j = choose|j: int| 0 <= j < sort_modes().len() && sort_modes()[j] == s;
    assert(0 <= j < 6 && sort_modes()[j] == s);
}

/// The view after a view change: one column after two, two columns otherwise.
pub open spec fn cycled_view(v: Seq<char>) -> Seq<char> {
    if v == "two"@ { "one"@ } else { "two"@ }
}

proof fn lemma_sort_modes_distinct(i: int, k: int)
    requires
        0 <= i < 6,
        0 <= k < 6,
        sort_modes()[i] == sort_modes()[k],
    ensures
        i == k,
{
    reveal_strlit("name_asc");
    reveal_strlit("name_desc");
    reveal_strlit("size_asc");
    reveal_strlit("size_desc");
    reveal_strlit("mtime_asc");
    reveal_strlit("mtime_desc");
    let m = sort_modes();
    assert(m[i].len() == m[k].len());
    assert(m[i][0] == m[k][0]);
}

fn sort_mode(i: usize) -> (r: String)
    requires
        i < 6,
    ensures
        r@ == sort_modes()[i as int],
{
    if i == 0 {
        String::from_str("name_asc")
    } else if i == 1 {
        String::from_str("name_desc")
    } else if i == 2 {
        String::from_str("size_asc")
    } else if i == 3 {
        String::from_str("size_desc")
    } else if i == 4 {
        String::from_str("mtime_asc")
    } else {
        String::from_str("mtime_desc")
    }
}

fn cycle_sort(s: &str, forward: bool) -> (r: String)
    ensures
        r@ == cycled_sort(s@, forward),
{
    let mut i: usize = 0;
    while i < 6
        invariant
            i <= 6,
            forall|j: int| 0 <= j < i ==> sort_modes()[j] != s@,
        decreases 6 - i,
    {
        let m = sort_mode(i);
        if str_eq(m.as_str(), s) {
            proof {
                assert(sort_modes()[i as int] == s@ && 0 <= i < 6);
                assert(sort_modes().contains(s@));
                lemma_sort_index(s@);
                lemma_sort_modes_distinct(sort_index(s@), i as int);
            }
            return sort_mode(if forward { (i + 1) % 6 } else { (i + 5) % 6 });
        }
        i = i + 1;
    }
    sort_mode(0)
}

fn cycle_view(v: &str) -> (r: String)
    ensures
        r@ == cycled_view(v@),
{
    if str_eq(v, "two") { String::from_str("one") } else { String::from_str("two") }
}

impl PersistedSettings {
    /// `self` after `change`: autosave, the panels' views, sort modes, folders-first and hidden
    /// flags change as named; the other changes concern settings these do not keep and leave
    /// them as they are.
    pub open spec fn after_change(self, new: PersistedSettings, change: SettingChange) -> bool {
        match change {
            SettingChange::AutosaveToggle => new == PersistedSettings { autosave: !self.autosave, ..self },
            SettingChange::LeftViewCycle => new.left_view@ == cycled_view(self.left_view@)
                && new == PersistedSettings { left_view: new.left_view, ..self },
            SettingChange::RightViewCycle => new.right_view@ == cycled_view(self.right_view@)
                && new == PersistedSettings { right_view: new.right_view, ..self },
            SettingChange::LeftSortCycle => new.left_sort@ == cycled_sort(self.left_sort@, true)
                && new == PersistedSettings { left_sort: new.left_sort, ..self },
            SettingChange::LeftSortCyclePrev => new.left_sort@ == cycled_sort(self.left_sort@, false)
                && new == PersistedSettings { left_sort: new.left_sort, ..self },
            SettingChange::RightSortCycle => new.right_sort@ == cycled_sort(self.right_sort@, true)
                && new == PersistedSettings { right_sort: new.right_sort, ..self },
            SettingChange::RightSortCyclePrev => new.right_sort@ == cycled_sort(self.right_sort@, false)
                && new == PersistedSettings { right_sort: new.right_sort, ..self },
            SettingChange::LeftDirsFirstToggle => new == PersistedSettings { left_dirs_first: !self.left_dirs_first, ..self },
            SettingChange::RightDirsFirstToggle => new == PersistedSettings { right_dirs_first: !self.right_dirs_first, ..self },
            SettingChange::LeftShowHiddenToggle => new == PersistedSettings { left_show_hidden: !self.left_show_hidden, ..self },
            SettingChange::RightShowHiddenToggle => new == PersistedSettings { right_show_hidden: !self.right_show_hidden, ..self },
            _ => new == self,
        }
    }

    /// Applies a change from the Settings dialog (see `after_change`).
    pub fn apply_change(&mut self, change: SettingChange)
        ensures
            old(self).after_change(*final(self), change),
    {
        match change {
            SettingChange::AutosaveToggle => self.autosave = !self.autosave,
            SettingChange::LeftViewCycle => self.left_view = cycle_view(self.left_view.as_str()),
            SettingChange::RightViewCycle => self.right_view = cycle_view(self.right_view.as_str()),
            SettingChange::LeftSortCycle => self.left_sort = cycle_sort(self.left_sort.as_str(), true),
            SettingChange::LeftSortCyclePrev => self.left_sort = cycle_sort(self.left_sort.as_str(), false),
            SettingChange::RightSortCycle => self.right_sort = cycle_sort(self.right_sort.as_str(), true),
            SettingChange::RightSortCyclePrev => self.right_sort = cycle_sort(self.right_sort.as_str(), false),
            SettingChange::LeftDirsFirstToggle => self.left_dirs_first = !self.left_dirs_first,
            SettingChange::RightDirsFirstToggle => self.right_dirs_first = !self.right_dirs_first,
            SettingChange::LeftShowHiddenToggle => self.left_show_hidden = !self.left_show_hidden,
            SettingChange::RightShowHiddenToggle => self.right_show_hidden = !self.right_show_hidden,
            _ => {},
        }
    }
}

/// Cycling the sort forwards and then backwards gives back a known sort mode, and cycling the
/// view twice gives back a view of one or two columns.
pub proof fn law_setting_cycles(s: Seq<char>, v: Seq<char>)
    ensures
        sort_modes().contains(s) ==> cycled_sort(cycled_sort(s, true), false) == s,
        (v == "one"@ || v == "two"@) ==> cycled_view(cycled_view(v)) == v,
{
    reveal_strlit("one");
    reveal_strlit("two");
    let m = sort_modes();
    if m.contains(s) {
        lemma_sort_index(s);
        let i = sort_index(s);
        let t = m[(i + 1) % 6];
        assert(m[(i + 1) % 6] == t && 0 <= (i + 1) % 6 < 6);
        assert(m.contains(t));
        lemma_sort_index(t);
        lemma_sort_modes_distinct(sort_index(t), (i + 1) % 6);
        assert((sort_index(t) + 5) % 6 == i);
    }
}

/// Calls `dirs::home_dir` and turns the path into text. The home directory comes from the
/// environment, so nothing is stated of the result.
#[verifier::external_body]
fn home_dir() -> (r: Option<String>) {
    dirs::home_dir().map(|h| h.to_string_lossy().to_string())
}

/// The configuration directory under a home directory: `<home>/.oxide`.
pub open spec fn config_dir_of(home: Seq<char>) -> Seq<char> {
    path_join_of(home, ".oxide"@)
}

/// The settings file under a home directory: `<home>/.oxide/settings.json`.
pub open spec fn settings_path_of(home: Seq<char>) -> Seq<char> {
    path_join_of(config_dir_of(home), "settings.json"@)
}

/// The settings file for a given home directory (`None` without one).
pub fn settings_path_in(home: Option<String>) -> (r: Option<String>)
    ensures
        match home {
            Some(h) => r matches Some(p) && p@ == settings_path_of(h@),
            None => r is None,
        },
{
    match home {
        Some(h) => {
            let dir = path_join(h.as_str(), ".oxide");
            Some(path_join(dir.as_str(), "settings.json"))
        },
        None => None,
    }
}

/// The configuration directory for a given home directory (`None` without one).
pub fn config_dir_in(home: Option<String>) -> (r: Option<String>)
    ensures
        match home {
            Some(h) => r matches Some(p) && p@ == config_dir_of(h@),
            None => r is None,
        },
{
    match home {
        Some(h) => Some(path_join(h.as_str(), ".oxide")),
        None => None,
    }
}

/// Directory for the configuration: ~/.oxide, or `None` when there is no home directory.
pub fn config_dir() -> (r: Option<String>)
    ensures
        r matches Some(p) ==> exists|h: Seq<char>| p@ == config_dir_of(h),
{
    let home = home_dir();
    let ghost h = home;
    let r = config_dir_in(home);
    proof {
        if let Some(hh) = h {
            assert(r.unwrap()@ == config_dir_of(hh@));
        }
    }
    r
}

/// Path to the settings file: ~/.oxide/settings.json, or `None` when there is no home directory.
pub fn settings_path() -> (r: Option<String>)
    ensures
        r matches Some(p) ==> exists|h: Seq<char>| p@ == settings_path_of(h),
{
    let home = home_dir();
    let ghost h = home;
    let r = settings_path_in(home);
    proof {
        if let Some(hh) = h {
            assert(r.unwrap()@ == settings_path_of(hh@));
        }
    }
    r
}

} // verus!
