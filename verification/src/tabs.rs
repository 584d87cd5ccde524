//! The editor's open tabs, which one is shown, and the list of recently opened files.
use std::collections::VecDeque;
use vstd::prelude::*;
use crate::file_tab::{new_tab, HLTASFileTab, TabView};
use crate::text::{paths_equal, same_path};

verus! {

/// The first position of `x` in `s`, if any.
pub open spec fn first_index_of(s: Seq<Seq<char>>, x: Seq<char>) -> Option<int> {
    if exists|i: int| 0 <= i < s.len() && s[i] == x {
        Some(choose|i: int| 0 <= i < s.len() && s[i] == x && forall|j: int| 0 <= j < i ==> s[j] != x)
    } else {
        None
    }
}

/// The recent files after `path` was opened: an earlier entry of the same path goes, the
/// path comes last, and when that makes the list longer than `max`, the oldest entry goes.
pub open spec fn recent_after_add(paths: Seq<Seq<char>>, path: Seq<char>, max: usize) -> Seq<Seq<char>> {
    let without = match first_index_of(paths, path) {
        Some(i) => paths.remove(i),
        None => paths,
    };
    let pushed = without.push(path);
    if pushed.len() > max { pushed.drop_first() } else { pushed }
}

/// No entry occurs twice.
pub open spec fn no_duplicates(s: Seq<Seq<char>>) -> bool {
    forall|i: int, j: int| 0 <= i < j < s.len() ==> s[i] != s[j]
}

/// The recently opened files, oldest first.
pub struct RecentPaths {
    paths: VecDeque<String>,
}

impl View for RecentPaths {
    type V = Seq<Seq<char>>;

    closed spec fn view(&self) -> Seq<Seq<char>> {
        self.paths@.map_values(|p: String| p@)
    }
}

impl RecentPaths {
    /// No recent file.
    pub fn new() -> (r: Self)
        ensures
            r@ == Seq::<Seq<char>>::empty(),
    {
        let r = RecentPaths { paths: VecDeque::new() };
        assert(r@ =~= Seq::<Seq<char>>::empty());
        r
    }

    /// The number of recent files.
    pub fn len(&self) -> (r: usize)
        ensures
            r == self@.len(),
    {
        self.paths.len()
    }

    /// The recent file at `index`, oldest first.
    pub fn get(&self, index: usize) -> (r: &str)
        requires
            index < self@.len(),
        ensures
            r@ == self@[index as int],
    {
        self.paths[index].as_str()
    }

    /// Notes that `path` was opened, keeping at most `max` entries.
    pub fn add_recent_path(&mut self, path: &str, max: usize)
        ensures
            final(self)@ == recent_after_add(old(self)@, path@, max),
    {
        let ghost old_view = self@;
        let path_string = path.to_owned();
        let n = self.paths.len();
        let mut i: usize = 0;
        let mut dupe_index: Option<usize> = None;
        while i < n
            invariant_except_break
                dupe_index is None,
            invariant
                0 <= i <= n,
                n == self.paths@.len(),
                old_view == self@,
                path_string@ == path@,
                self@ == self.paths@.map_values(|p: String| p@),
                forall|j: int| 0 <= j < i ==> old_view[j] != path@,
            ensures
                dupe_index matches Some(k) ==> k < n && old_view[k as int] == path@
                    && forall|j: int| 0 <= j < k ==> old_view[j] != path@,
                dupe_index is None ==> forall|j: int| 0 <= j < n ==> old_view[j] != path@,
            decreases n - i,
        {
            assert(old_view[i as int] == self.paths@[i as int]@);
            if self.paths[i] == path_string {
                dupe_index = Some(i);
                break;
            }
            i = i + 1;
        }
        proof {
            match dupe_index {
                Some(k) => {
                    assert(exists|t: int| 0 <= t < old_view.len() && old_view[t] == path@);
                    let c = choose|t: int| 0 <= t < old_view.len() && old_view[t] == path@
                        && forall|j: int| 0 <= j < t ==> old_view[j] != path@;
                    assert(0 <= k < old_view.len() && old_view[k as int] == path@
                        && forall|j: int| 0 <= j < k ==> old_view[j] != path@);
                    if c < k {
                        assert(old_view[c] != path@);
                    } else if k < c {
                        assert(old_view[k as int] != path@);
                    }
                    assert(first_index_of(old_view, path@) == Some(k as int));
                },
                None => {
                    assert(first_index_of(old_view, path@) is None);
                },
            }
        }
        let ghost before_remove = self.paths@;
        if let Some(k) = dupe_index {
            self.paths.remove(k);
            proof {
                assert(self.paths@.map_values(|p: String| p@) =~= old_view.remove(k as int));
            }
        }
        self.paths.push_back(path.to_owned());
        let ghost before_pop = self.paths@;
        if self.paths.len() > max {
            self.paths.pop_front();
        }
        assert(self@ =~= recent_after_add(old_view, path@, max));
    }
}

/// Opening a file keeps the list free of duplicates, puts the file last (unless no entry is
/// left), keeps it when `max` allows any entry, and keeps the list within `max` entries once
/// it is.
pub proof fn lemma_recent_after_add(paths: Seq<Seq<char>>, path: Seq<char>, max: usize)
    requires
        no_duplicates(paths),
    ensures
        no_duplicates(recent_after_add(paths, path, max)),
        recent_after_add(paths, path, max).len() > 0 ==> recent_after_add(paths, path, max).last() == path,
        max > 0 ==> recent_after_add(paths, path, max).len() > 0,
        paths.len() <= max ==> recent_after_add(paths, path, max).len() <= max,
{
    let without = match first_index_of(paths, path) {
        Some(i) => paths.remove(i),
        None => paths,
    };
    match first_index_of(paths, path) {
        Some(i) => {
            let w = choose|i: int| 0 <= i < paths.len() && paths[i] == path && forall|j: int| 0 <= j < i ==> paths[j] != path;
            assert(exists|t: int| 0 <= t < paths.len() && paths[t] == path);
            assert(0 <= w < paths.len() && paths[w] == path);
            assert forall|a: int| 0 <= a < without.len() implies without[a] != path by {
                if a < w {
                    assert(without[a] == paths[a]);
                } else {
                    assert(without[a] == paths[a + 1]);
                    assert(paths[a + 1] != paths[w]);
                }
            }
            assert forall|a: int, b: int| 0 <= a < b < without.len() implies without[a] != without[b] by {
                let pa = if a < w { a } else { a + 1 };
                let pb = if b < w { b } else { b + 1 };
                assert(without[a] == paths[pa]);
                assert(without[b] == paths[pb]);
            }
        },
        None => {
            assert forall|a: int| 0 <= a < without.len() implies without[a] != path by {
                if without[a] == path {
                    assert(exists|t: int| 0 <= t < paths.len() && paths[t] == path);
                }
            }
        },
    }
    let pushed = without.push(path);
    assert(no_duplicates(pushed)) by {
        assert forall|a: int, b: int| 0 <= a < b < pushed.len() implies pushed[a] != pushed[b] by {
            if b == pushed.len() - 1 {
                assert(pushed[a] == without[a]);
            } else {
                assert(pushed[a] == without[a]);
                assert(pushed[b] == without[b]);
            }
        }
    }
    let r = recent_after_add(paths, path, max);
    if pushed.len() > max {
        assert(r == pushed.drop_first());
        assert forall|a: int, b: int| 0 <= a < b < r.len() implies r[a] != r[b] by {
            assert(r[a] == pushed[a + 1]);
            assert(r[b] == pushed[b + 1]);
        }
        if r.len() > 0 {
            assert(r.last() == pushed.last());
        }
    } else {
        assert(r == pushed);
    }
}

/// The open tabs, the one shown, and the one the tab bar is asked to switch to.
pub struct TabList {
    tabs: Vec<HLTASFileTab>,
    current_tab: Option<usize>,
    tab_switch_index: Option<usize>,
}

/// The tabs as values.
pub struct TabListView {
    pub tabs: Seq<TabView>,
    pub current_tab: Option<usize>,
    pub tab_switch_index: Option<usize>,
}

impl TabListView {
    /// The shown tab is an open tab. (The position to switch to is a bare position: the tab
    /// bar switches to the tab there, if there is one.)
    pub open spec fn wf(self) -> bool {
        self.current_tab matches Some(i) ==> i < self.tabs.len()
    }
}

/// The views of tabs.
pub open spec fn tab_views(tabs: Seq<HLTASFileTab>) -> Seq<TabView> {
    tabs.map_values(|t: HLTASFileTab| t@)
}

/// The shown tab after the tab at `index` was closed: the same tab as before, at its new
/// position, or none when the closed one was shown.
pub open spec fn current_after_close(current: Option<usize>, index: usize) -> Option<usize> {
    match current {
        Some(c) => if c == index {
            None
        } else if c > index {
            Some((c - 1) as usize)
        } else {
            Some(c)
        },
        None => None,
    }
}

/// The tab's file is `path`, as `Path` compares paths.
pub open spec fn tab_has_path(tab: TabView, path: Seq<char>) -> bool {
    tab.path matches Some(p) && same_path(p, path)
}

/// The first open tab whose file is `path`.
pub open spec fn is_first_tab_with_path(tabs: Seq<TabView>, path: Seq<char>, k: int) -> bool {
    &&& 0 <= k < tabs.len()
    &&& tab_has_path(tabs[k], path)
    &&& forall|j: int| 0 <= j < k ==> !tab_has_path(#[trigger] tabs[j], path)
}

impl View for TabList {
    type V = TabListView;

    closed spec fn view(&self) -> TabListView {
        TabListView {
            tabs: tab_views(self.tabs@),
            current_tab: self.current_tab,
            tab_switch_index: self.tab_switch_index,
        }
    }
}

impl TabList {
    /// No tab open.
    pub fn new() -> (r: Self)
        ensures
            r@.wf(),
            r@.tabs.len() == 0,
            r@.current_tab is None,
            r@.tab_switch_index is None,
    {
        let r = TabList { tabs: Vec::new(), current_tab: None, tab_switch_index: None };
        assert(r@.tabs =~= Seq::<TabView>::empty());
        r
    }

    /// The number of open tabs.
    pub fn len(&self) -> (r: usize)
        ensures
            r == self@.tabs.len(),
    {
        self.tabs.len()
    }

    /// Whether no tab is open.
    pub fn is_empty(&self) -> (r: bool)
        ensures
            r == (self@.tabs.len() == 0),
    {
        self.tabs.len() == 0
    }

    /// The tab at `index`.
    pub fn tab(&self, index: usize) -> (r: &HLTASFileTab)
        requires
            index < self@.tabs.len(),
        ensures
            r@ == self@.tabs[index as int],
    {
        &self.tabs[index]
    }

    /// The tab at `index`, to edit.
    pub fn tab_mut(&mut self, index: usize) -> (r: &mut HLTASFileTab)
        requires
            index < old(self)@.tabs.len(),
        ensures
            r@ == old(self)@.tabs[index as int],
            final(self)@ == (TabListView { tabs: old(self)@.tabs.update(index as int, final(r)@), ..old(self)@ }),
    {
        proof {
            let old_tabs = self.tabs@;
            assert forall|x: HLTASFileTab| #[trigger] tab_views(old_tabs.update(index as int, x))
                == tab_views(old_tabs).update(index as int, x@) by {
                assert(tab_views(old_tabs.update(index as int, x)) =~= tab_views(old_tabs).update(index as int, x@));
            }
        }
        &mut self.tabs[index]
    }

    /// The shown tab, if any.
    pub fn current_tab(&self) -> (r: Option<usize>)
        ensures
            r == self@.current_tab,
    {
        self.current_tab
    }

    /// Shows the tab at `index`, or none.
    pub fn set_current_tab(&mut self, index: Option<usize>)
        requires
            old(self)@.wf(),
            index matches Some(i) ==> i < old(self)@.tabs.len(),
        ensures
            final(self)@ == (TabListView { current_tab: index, ..old(self)@ }),
            final(self)@.wf(),
    {
        self.current_tab = index;
    }

    /// The tab the tab bar should switch to, which is then forgotten.
    pub fn take_tab_switch_index(&mut self) -> (r: Option<usize>)
        ensures
            r == old(self)@.tab_switch_index,
            final(self)@ == (TabListView { tab_switch_index: None, ..old(self)@ }),
    {
        let r = self.tab_switch_index;
        self.tab_switch_index = None;
        r
    }

    /// Adds a tab at the end, switching to it when `auto_switch_new_tab` is on.
    pub fn push_tab(&mut self, tab: HLTASFileTab, auto_switch_new_tab: bool)
        requires
            old(self)@.wf(),
        ensures
            final(self)@.wf(),
            final(self)@.tabs == old(self)@.tabs.push(tab@),
            final(self)@.current_tab == old(self)@.current_tab,
            final(self)@.tab_switch_index == if auto_switch_new_tab {
                Some(old(self)@.tabs.len() as usize)
            } else {
                old(self)@.tab_switch_index
            },
    {
        self.tabs.push(tab);
        proof {
            assert(tab_views(self.tabs@) =~= tab_views(old(self).tabs@).push(tab@));
        }
        if auto_switch_new_tab {
            self.tab_switch_index = Some(self.tabs.len() - 1);
        }
    }

    /// Opens a tab for a new script with no file.
    pub fn new_file(&mut self, default_title: String, auto_switch_new_tab: bool)
        requires
            old(self)@.wf(),
        ensures
            final(self)@.wf(),
            final(self)@.tabs.len() == old(self)@.tabs.len() + 1,
            final(self)@.tabs.take(old(self)@.tabs.len() as int) == old(self)@.tabs,
            new_tab(final(self)@.tabs.last(), default_title@),
            final(self)@.current_tab == old(self)@.current_tab,
            final(self)@.tab_switch_index == if auto_switch_new_tab {
                Some(old(self)@.tabs.len() as usize)
            } else {
                old(self)@.tab_switch_index
            },
    {
        let tab = HLTASFileTab::new_file(default_title);
        self.push_tab(tab, auto_switch_new_tab);
        assert(self@.tabs.take(old(self)@.tabs.len() as int) =~= old(self)@.tabs);
    }

    /// The first open tab for the file `path`, if any.
    pub fn tab_with_path(&self, path: &str) -> (r: Option<usize>)
        ensures
            r matches Some(k) ==> is_first_tab_with_path(self@.tabs, path@, k as int),
            r is None ==> forall|k: int| 0 <= k < self@.tabs.len() ==> !tab_has_path(#[trigger] self@.tabs[k], path@),
    {
        let n = self.tabs.len();
        let mut i: usize = 0;
        while i < n
            invariant
                0 <= i <= n,
                n == self@.tabs.len(),
                forall|j: int| 0 <= j < i ==> !tab_has_path(#[trigger] self@.tabs[j], path@),
            decreases n - i,
        {
            let found = match self.tabs[i].path() {
                Some(tab_path) => paths_equal(tab_path.as_str(), path),
                None => false,
            };
            if found {
                return Some(i);
            }
            i = i + 1;
        }
        None
    }

    /// Opening a file that is open already: switches to its tab when `auto_switch_new_tab`
    /// is on, and says whether it was open.
    pub fn switch_to_open_file(&mut self, path: &str, auto_switch_new_tab: bool) -> (r: bool)
        requires
            old(self)@.wf(),
        ensures
            final(self)@.wf(),
            final(self)@.tabs == old(self)@.tabs,
            final(self)@.current_tab == old(self)@.current_tab,
            r == exists|k: int| is_first_tab_with_path(old(self)@.tabs, path@, k),
            r && auto_switch_new_tab ==> (final(self)@.tab_switch_index matches Some(k)
                && is_first_tab_with_path(old(self)@.tabs, path@, k as int)),
            !(r && auto_switch_new_tab) ==> final(self)@.tab_switch_index == old(self)@.tab_switch_index,
    {
        match self.tab_with_path(path) {
            Some(k) => {
                if auto_switch_new_tab {
                    self.tab_switch_index = Some(k);
                }
                true
            },
            None => {
                assert forall|k: int| !is_first_tab_with_path(self@.tabs, path@, k) by {}
                false
            },
        }
    }

    /// Closes the tab at `index`; out-of-range indexes are ignored. The shown tab stays the
    /// same tab, now at its new position; when the closed tab was the shown one, no open tab is
    /// shown until the tab bar picks one. The position to switch to is left as it is.
    pub fn close_tab(&mut self, index: usize)
        requires
            old(self)@.wf(),
        ensures
            final(self)@.wf(),
            index >= old(self)@.tabs.len() ==> final(self)@ == old(self)@,
            index < old(self)@.tabs.len() ==> {
                &&& final(self)@.tabs == old(self)@.tabs.remove(index as int)
                &&& final(self)@.current_tab == current_after_close(old(self)@.current_tab, index)
                &&& final(self)@.tab_switch_index == old(self)@.tab_switch_index
            },
    {
        if index >= self.tabs.len() {
            return;
        }
        self.tabs.remove(index);
        proof {
            assert(tab_views(self.tabs@) =~= tab_views(old(self).tabs@).remove(index as int));
        }
        self.current_tab = shift_after_close(self.current_tab, index);
    }

    /// Closes the shown tab, if any, and asks to switch to the last tab left.
    pub fn close_current_tab(&mut self)
        requires
            old(self)@.wf(),
        ensures
            final(self)@.wf(),
            old(self)@.current_tab is None ==> final(self)@ == old(self)@,
            old(self)@.current_tab matches Some(c) ==> {
                &&& final(self)@.tabs == old(self)@.tabs.remove(c as int)
                &&& final(self)@.current_tab is None
                &&& final(self)@.tab_switch_index == if final(self)@.tabs.len() == 0 {
                    old(self)@.tab_switch_index
                } else {
                    Some((final(self)@.tabs.len() - 1) as usize)
                }
            },
    {
        if let Some(c) = self.current_tab {
            self.close_tab(c);
            if self.tabs.len() > 0 {
                self.tab_switch_index = Some(self.tabs.len() - 1);
            }
        }
    }
}

/// A tab position after the tab at `index` was closed.
fn shift_after_close(position: Option<usize>, index: usize) -> (r: Option<usize>)
    ensures
        r == current_after_close(position, index),
{
    match position {
        Some(c) => if c == index {
            None
        } else if c > index {
            Some(c - 1)
        } else {
            Some(c)
        },
        None => None,
    }
}

/// Closing a tab other than the shown one keeps the same tab shown.
pub proof fn lemma_close_keeps_current(tabs: Seq<TabView>, current: usize, index: usize)
    requires
        current < tabs.len(),
        index < tabs.len(),
        current != index,
    ensures
        current_after_close(Some(current), index) matches Some(c)
            && tabs.remove(index as int)[c as int] == tabs[current as int],
{
}

} // verus!
