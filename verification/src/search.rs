//! Finding the window of the program that was launched.

use std::collections::BTreeSet;
use vstd::prelude::*;

use crate::names::text;

verus! {

/// What can be learned of one top-level window.
pub struct WindowInfo {
    pub handle: isize,
    pub visible: bool,
    /// The process that the window belongs to.
    pub pid: u32,
    /// The name of that process's executable, where it can be learned.
    pub exe_stem: Option<String>,
}

/// [`WindowInfo`] as specifications see it.
pub struct WindowView {
    pub handle: isize,
    pub visible: bool,
    pub pid: u32,
    pub exe_stem: Option<Seq<char>>,
}

impl View for WindowInfo {
    type V = WindowView;

    open spec fn view(&self) -> WindowView {
        WindowView {
            handle: self.handle,
            visible: self.visible,
            pid: self.pid,
            exe_stem: text(self.exe_stem),
        }
    }
}

/// The windows of an enumeration as specifications see them.
pub open spec fn views(windows: Seq<WindowInfo>) -> Seq<WindowView> {
    windows.map_values(|window: WindowInfo| window@)
}

/// A search for the launched program's window among those that an enumeration
/// visits.
pub struct FindTargetWindow {
    pub pid: u32,
    pub exe_stem: String,
    pub exclude: BTreeSet<isize>,
    pub pid_match: Option<isize>,
    pub name_match: Option<isize>,
}

/// What makes a window the launched program's.
#[verifier::ext_equal]
pub struct Criteria {
    pub pid: u32,
    pub exe_stem: Seq<char>,
    pub exclude: Set<isize>,
}

/// [`FindTargetWindow`] as specifications see it.
#[verifier::ext_equal]
pub struct SearchView {
    pub criteria: Criteria,
    pub pid_match: Option<isize>,
    pub name_match: Option<isize>,
}

impl View for FindTargetWindow {
    type V = SearchView;

    open spec fn view(&self) -> SearchView {
        SearchView {
            criteria: Criteria {
                pid: self.pid,
                exe_stem: self.exe_stem@,
                exclude: self.exclude@,
            },
            pid_match: self.pid_match,
            name_match: self.name_match,
        }
    }
}

/// How an enumeration goes on after the process of a window is known.
#[derive(Clone, Copy, Debug, PartialEq, Eq, Structural)]
pub enum Probe {
    /// The window was found: visit no more.
    Stop,
    /// The name of the process's executable is needed.
    AskStem,
    /// Visit the next window.
    Continue,
}

impl Criteria {
    /// Whether the window could be the launched program's at all.
    pub open spec fn eligible(self, window: WindowView) -> bool {
        window.visible && !self.exclude.contains(window.handle)
    }

    /// Whether the window belongs to the launched process.
    pub open spec fn matches_pid(self, window: WindowView) -> bool {
        self.eligible(window) && window.pid == self.pid
    }

    /// Whether the window belongs to a process of the launched executable's
    /// name.
    pub open spec fn matches_name(self, window: WindowView) -> bool {
        self.eligible(window) && window.exe_stem == Some(self.exe_stem)
    }

    /// The first window that belongs to the launched process.
    pub open spec fn first_by_pid(self, windows: Seq<WindowView>) -> Option<isize> {
        first(windows, |window: WindowView| self.matches_pid(window))
    }

    /// The first window that belongs to a process of the launched executable's
    /// name.
    pub open spec fn first_by_name(self, windows: Seq<WindowView>) -> Option<isize> {
        first(windows, |window: WindowView| self.matches_name(window))
    }

    /// The launched program's window: the first that belongs to its process, or
    /// else the first that belongs to a process of its name.
    pub open spec fn target(self, windows: Seq<WindowView>) -> Option<isize> {
        if self.first_by_pid(windows) is Some {
            self.first_by_pid(windows)
        } else {
            self.first_by_name(windows)
        }
    }
}

impl SearchView {
    /// A search that has visited no window.
    pub open spec fn fresh(criteria: Criteria) -> SearchView {
        SearchView { criteria, pid_match: None, name_match: None }
    }

    /// The search after one more window was visited.
    pub open spec fn visited(self, window: WindowView) -> SearchView {
        if self.criteria.matches_pid(window) {
            SearchView { pid_match: Some(window.handle), ..self }
        } else if self.name_match is None && self.criteria.matches_name(window) {
            SearchView { name_match: Some(window.handle), ..self }
        } else {
            self
        }
    }

    /// The search after an enumeration of `windows`, which ends early at a
    /// window of the launched process.
    pub open spec fn enumerated(self, windows: Seq<WindowView>) -> SearchView
        decreases windows.len(),
    {
        if windows.len() == 0 {
            self
        } else {
            let next = self.visited(windows[0]);
            if self.criteria.matches_pid(windows[0]) {
                next
            } else {
                next.enumerated(windows.skip(1))
            }
        }
    }

    /// The window that the search has settled on.
    pub open spec fn target(self) -> Option<isize> {
        if self.pid_match is Some {
            self.pid_match
        } else {
            self.name_match
        }
    }
}

/// The handle of the first window that satisfies `wanted`.
pub open spec fn first(windows: Seq<WindowView>, wanted: spec_fn(WindowView) -> bool) -> Option<
    isize,
>
    decreases windows.len(),
{
    if windows.len() == 0 {
        None
    } else if wanted(windows[0]) {
        Some(windows[0].handle)
    } else {
        first(windows.skip(1), wanted)
    }
}

impl FindTargetWindow {
    /// A search for a window of the process `pid`, or else of a process whose
    /// executable is named `exe_stem`. The windows in `exclude` are passed over.
    pub fn new(pid: u32, exe_stem: &str, exclude: &BTreeSet<isize>) -> (search: Self)
        ensures
            search@ == SearchView::fresh(Criteria { pid, exe_stem: exe_stem@, exclude: exclude@ }),
    {
        FindTargetWindow {
            pid,
            exe_stem: exe_stem.to_owned(),
            exclude: exclude.clone(),
            pid_match: None,
            name_match: None,
        }
    }

    /// Whether the process of a window is to be looked at. If not, the
    /// enumeration goes on with the next window.
    pub fn considers(&self, window: isize, visible: bool) -> (considered: bool)
        ensures
            considered == (visible && !self@.criteria.exclude.contains(window)),
    {
        visible && !self.exclude.contains(&window)
    }

    /// Takes note of the process of a window that the search considers.
    pub fn pid_known(&mut self, window: isize, pid: u32) -> (probe: Probe)
        ensures
            final(self)@ == (if pid == old(self)@.criteria.pid {
                SearchView { pid_match: Some(window), ..old(self)@ }
            } else {
                old(self)@
            }),
            probe == (if pid == old(self)@.criteria.pid {
                Probe::Stop
            } else if old(self)@.name_match is None {
                Probe::AskStem
            } else {
                Probe::Continue
            }),
    {
        if pid == self.pid {
            self.pid_match = Some(window);
            return Probe::Stop;
        }
        if self.name_match.is_none() {
            Probe::AskStem
        } else {
            Probe::Continue
        }
    }

    /// Takes note of the name of the executable behind a window, asked for with
    /// [`Probe::AskStem`]. The first window of the right name counts, and the
    /// enumeration goes on.
    pub fn stem_known(&mut self, window: isize, exe_stem: &Option<String>)
        ensures
            final(self)@ == (if old(self)@.name_match is None && text(*exe_stem) == Some(
                old(self)@.criteria.exe_stem,
            ) {
                SearchView { name_match: Some(window), ..old(self)@ }
            } else {
                old(self)@
            }),
    {
        if let Some(stem) = exe_stem {
            if self.name_match.is_none() && *stem == self.exe_stem {
                self.name_match = Some(window);
            }
        }
    }

    /// Visits one window and says whether to visit the next.
    pub fn find_target_window_callback(&mut self, window: &WindowInfo) -> (proceed: bool)
        ensures
            final(self)@ == old(self)@.visited(window@),
            proceed == !old(self)@.criteria.matches_pid(window@),
            final(self)@.criteria == old(self)@.criteria,
            !proceed <==> window.visible && !old(self)@.criteria.exclude.contains(window.handle)
                && window.pid == old(self)@.criteria.pid,
            final(self)@.pid_match == (if proceed {
                old(self)@.pid_match
            } else {
                Some(window.handle)
            }),
            final(self)@.name_match == (if proceed && window.visible
                && !old(self)@.criteria.exclude.contains(window.handle)
                && old(self)@.name_match is None && text(window.exe_stem) == Some(
                old(self)@.criteria.exe_stem,
            ) {
                Some(window.handle)
            } else {
                old(self)@.name_match
            }),
    {
        if !self.considers(window.handle, window.visible) {
            return true;
        }
        match self.pid_known(window.handle, window.pid) {
            Probe::Stop => false,
            Probe::AskStem => {
                self.stem_known(window.handle, &window.exe_stem);
                true
            },
            Probe::Continue => true,
        }
    }

    /// The window found so far.
    ///
    /// A window of the launched process is definitive. One of the same name is
    /// a fallback for programs that hand off to another process and exit.
    pub fn target(&self) -> (window: Option<isize>)
        ensures
            window == self@.target(),
    {
        match self.pid_match {
            Some(window) => Some(window),
            None => self.name_match,
        }
    }
}

/// Finds the launched program's window in an enumeration of `windows`.
pub fn find_target_window(
    pid: u32,
    exe_stem: &str,
    exclude: &BTreeSet<isize>,
    windows: &Vec<WindowInfo>,
) -> (window: Option<isize>)
    ensures
        window == (Criteria { pid, exe_stem: exe_stem@, exclude: exclude@ }).target(views(windows@)),
        forall|i: int|
            0 <= i < windows@.len() && (#[trigger] windows@[i]).visible && !exclude@.contains(
                windows@[i].handle,
            ) && windows@[i].pid == pid && (forall|j: int|
                0 <= j < i ==> !((#[trigger] windows@[j]).visible && !exclude@.contains(
                    windows@[j].handle,
                ) && windows@[j].pid == pid)) ==> window == Some(windows@[i].handle),
        (forall|j: int|
            0 <= j < windows@.len() ==> !((#[trigger] windows@[j]).visible && !exclude@.contains(
                windows@[j].handle,
            ) && windows@[j].pid == pid)) ==> forall|i: int|
            0 <= i < windows@.len() && (#[trigger] windows@[i]).visible && !exclude@.contains(
                windows@[i].handle,
            ) && text(windows@[i].exe_stem) == Some(exe_stem@) && (forall|j: int|
                0 <= j < i ==> !((#[trigger] windows@[j]).visible && !exclude@.contains(
                    windows@[j].handle,
                ) && text(windows@[j].exe_stem) == Some(exe_stem@))) ==> window == Some(
                windows@[i].handle,
            ),
        (forall|j: int|
            0 <= j < windows@.len() ==> !((#[trigger] windows@[j]).visible && !exclude@.contains(
                windows@[j].handle,
            ) && (windows@[j].pid == pid || text(windows@[j].exe_stem) == Some(exe_stem@))))
            ==> window is None,
{
    let mut search = FindTargetWindow::new(pid, exe_stem, exclude);
    let ghost start = search@;
    let ghost all = views(windows@);
    let mut i: usize = 0;
    assert(all.skip(0) =~= all);
    while i < windows.len()
        invariant_except_break
            start.enumerated(all) == search@.enumerated(all.skip(i as int)),
        invariant
            i <= windows@.len(),
            all == views(windows@),
        ensures
            start.enumerated(all) == search@,
        decreases windows@.len() - i,
    {
        proof {
            assert(all.skip(i as int)[0] == windows@[i as int]@);
            assert(all.skip(i as int).skip(1) =~= all.skip(i + 1));
        }
        if !search.find_target_window_callback(&windows[i]) {
            break;
        }
        i = i + 1;
    }
    proof {
        law_enumeration_finds_the_target(start.criteria, all);
        lemma_first(all, |window: WindowView| start.criteria.matches_pid(window));
        lemma_first(all, |window: WindowView| start.criteria.matches_name(window));
        assert(forall|i: int| 0 <= i < all.len() ==> #[trigger] all[i] == windows@[i]@);
        assert(forall|i: int| 0 <= i < all.len() ==> (#[trigger] windows@[i])@ == all[i]);
    }
    search.target()
}

/// Takes note of one window of an enumeration that collects those in sight, and
/// goes on to the next.
pub fn collect_callback(windows: &mut BTreeSet<isize>, window: isize, visible: bool) -> (proceed:
    bool)
    ensures
        final(windows)@ == (if visible {
            old(windows)@.insert(window)
        } else {
            old(windows)@
        }),
        proceed,
{
    if visible {
        windows.insert(window);
    }
    true
}

/// The windows in sight among `windows`, each given with whether it is visible.
pub fn all_visible_windows(windows: &Vec<(isize, bool)>) -> (visible: BTreeSet<isize>)
    ensures
        forall|window: isize| #[trigger]
            visible@.contains(window) <==> windows@.contains((window, true)),
{
    let mut visible: BTreeSet<isize> = BTreeSet::new();
    let mut i: usize = 0;
    while i < windows.len()
        invariant
            i <= windows@.len(),
            forall|window: isize| #[trigger]
                visible@.contains(window) <==> windows@.take(i as int).contains((window, true)),
        decreases windows@.len() - i,
    {
        let (window, in_sight) = windows[i];
        collect_callback(&mut visible, window, in_sight);
        proof {
            let (seen, more) = (windows@.take(i as int), windows@.take(i + 1));
            assert(more =~= seen.push(windows@[i as int]));
            assert forall|w: isize| #[trigger] visible@.contains(w) <==> more.contains(
                (w, true),
            ) by {
                vstd::seq_lib::lemma_seq_contains_after_push(seen, windows@[i as int], (w, true));
            }
        }
        i = i + 1;
    }
    assert(windows@.take(i as int) =~= windows@);
    visible
}

proof fn lemma_enumerated(search: SearchView, windows: Seq<WindowView>)
    requires
        search.pid_match is None,
    ensures
        search.enumerated(windows).pid_match == search.criteria.first_by_pid(windows),
        search.criteria.first_by_pid(windows) is None ==> search.enumerated(windows).name_match
            == (if search.name_match is Some {
            search.name_match
        } else {
            search.criteria.first_by_name(windows)
        }),
    decreases windows.len(),
{
    if windows.len() > 0 && !search.criteria.matches_pid(windows[0]) {
        lemma_enumerated(search.visited(windows[0]), windows.skip(1));
    }
}

proof fn lemma_first(windows: Seq<WindowView>, wanted: spec_fn(WindowView) -> bool)
    ensures
        match first(windows, wanted) {
            Some(handle) => exists|i: int| #![trigger windows[i]]
                0 <= i < windows.len() && wanted(windows[i]) && windows[i].handle == handle
                    && forall|j: int| 0 <= j < i ==> !wanted(#[trigger] windows[j]),
            None => forall|i: int| 0 <= i < windows.len() ==> !wanted(#[trigger] windows[i]),
        },
    decreases windows.len(),
{
    if windows.len() > 0 && !wanted(windows[0]) {
        let rest = windows.skip(1);
        lemma_first(rest, wanted);
        assert(forall|i: int| 1 <= i < windows.len() ==> #[trigger] windows[i] == rest[i - 1]);
        if let Some(handle) = first(rest, wanted) {
            let i = choose|i: int| #![trigger rest[i]]
                0 <= i < rest.len() && wanted(rest[i]) && rest[i].handle == handle
                    && forall|j: int| 0 <= j < i ==> !wanted(#[trigger] rest[j]);
            assert(wanted(windows[i + 1]));
            assert forall|j: int| 0 <= j < i + 1 implies !wanted(#[trigger] windows[j]) by {
                if j > 0 {
                    assert(!wanted(rest[j - 1]));
                }
            }
        }
    }
}

/// Visiting the windows one by one, and stopping at the first of the launched
/// process, finds the launched program's window among all of them.
pub proof fn law_enumeration_finds_the_target(criteria: Criteria, windows: Seq<WindowView>)
    ensures
        SearchView::fresh(criteria).enumerated(windows).target() == criteria.target(windows),
{
    lemma_enumerated(SearchView::fresh(criteria), windows);
}

/// A window that is found can be seen, is none of those to pass over, and
/// belongs to the launched process or to one of its name.
pub proof fn law_target_is_eligible(criteria: Criteria, windows: Seq<WindowView>)
    ensures
        criteria.target(windows) matches Some(handle) ==> !criteria.exclude.contains(handle)
            && exists|i: int|
            0 <= i < windows.len() && (#[trigger] windows[i]).handle == handle
                && windows[i].visible && (windows[i].pid == criteria.pid || windows[i].exe_stem
                == Some(criteria.exe_stem)),
{
    lemma_first(windows, |window: WindowView| criteria.matches_pid(window));
    lemma_first(windows, |window: WindowView| criteria.matches_name(window));
}

/// Whoever lists the windows of the desktop, the first of them that can be seen,
/// is none to pass over and belongs to the launched process is the program's,
/// whatever any window's executable is called.
pub proof fn law_first_window_of_the_process_is_found(
    criteria: Criteria,
    windows: Seq<WindowView>,
    i: int,
)
    requires
        0 <= i < windows.len(),
        windows[i].visible,
        !criteria.exclude.contains(windows[i].handle),
        windows[i].pid == criteria.pid,
        forall|j: int|
            0 <= j < i ==> !((#[trigger] windows[j]).visible && !criteria.exclude.contains(
                windows[j].handle,
            ) && windows[j].pid == criteria.pid),
    ensures
        criteria.target(windows) == Some(windows[i].handle),
        SearchView::fresh(criteria).enumerated(windows).target() == Some(windows[i].handle),
        criteria.matches_pid(windows[i]),
{
    lemma_first(windows, |window: WindowView| criteria.matches_pid(window));
    law_enumeration_finds_the_target(criteria, windows);
}

/// Where no window that could be the program's belongs to the launched process,
/// the first that can be seen, is none to pass over and belongs to a process
/// called like the program is found.
pub proof fn law_first_window_of_the_name_is_found(
    criteria: Criteria,
    windows: Seq<WindowView>,
    i: int,
)
    requires
        0 <= i < windows.len(),
        windows[i].visible,
        !criteria.exclude.contains(windows[i].handle),
        windows[i].exe_stem == Some(criteria.exe_stem),
        forall|j: int|
            0 <= j < windows.len() ==> !((#[trigger] windows[j]).visible
                && !criteria.exclude.contains(windows[j].handle) && windows[j].pid
                == criteria.pid),
        forall|j: int|
            0 <= j < i ==> !((#[trigger] windows[j]).visible && !criteria.exclude.contains(
                windows[j].handle,
            ) && windows[j].exe_stem == Some(criteria.exe_stem)),
    ensures
        criteria.target(windows) == Some(windows[i].handle),
        SearchView::fresh(criteria).enumerated(windows).target() == Some(windows[i].handle),
        criteria.matches_name(windows[i]),
{
    lemma_first(windows, |window: WindowView| criteria.matches_pid(window));
    lemma_first(windows, |window: WindowView| criteria.matches_name(window));
    law_enumeration_finds_the_target(criteria, windows);
}

/// Where no window can be seen, is none to pass over and belongs to the launched
/// process or one of the program's name, nothing is found.
pub proof fn law_unrelated_windows_are_not_found(criteria: Criteria, windows: Seq<WindowView>)
    requires
        forall|j: int|
            0 <= j < windows.len() ==> !((#[trigger] windows[j]).visible
                && !criteria.exclude.contains(windows[j].handle) && (windows[j].pid == criteria.pid
                || windows[j].exe_stem == Some(criteria.exe_stem))),
    ensures
        criteria.target(windows) is None,
        SearchView::fresh(criteria).enumerated(windows).target() is None,
{
    lemma_first(windows, |window: WindowView| criteria.matches_pid(window));
    lemma_first(windows, |window: WindowView| criteria.matches_name(window));
    law_enumeration_finds_the_target(criteria, windows);
}

/// Visiting a window never changes what is searched for, nor a match by name
/// that there is; a window of the launched process that could be the program's
/// is settled on, and any other leaves a match by process as it is.
pub proof fn law_visit_settles_on_the_process(search: SearchView, window: WindowView)
    ensures
        search.visited(window).criteria == search.criteria,
        search.name_match is Some ==> search.visited(window).name_match == search.name_match,
        window.visible && !search.criteria.exclude.contains(window.handle) && window.pid
            == search.criteria.pid ==> search.visited(window).target() == Some(window.handle),
        !(window.visible && !search.criteria.exclude.contains(window.handle) && window.pid
            == search.criteria.pid) ==> search.visited(window).pid_match == search.pid_match,
        search.pid_match is Some ==> search.target() == search.pid_match,
        search.pid_match is None ==> search.target() == search.name_match,
{
}

/// What specifications see of a window, and of a search, is everything.
pub proof fn law_views_show_everything(window: WindowInfo, search: FindTargetWindow)
    ensures
        window@.handle == window.handle,
        window@.visible == window.visible,
        window@.pid == window.pid,
        window.exe_stem matches Some(stem) ==> window@.exe_stem == Some(stem@),
        window.exe_stem is None ==> window@.exe_stem is None,
        search@.criteria.pid == search.pid,
        search@.criteria.exe_stem == search.exe_stem@,
        search@.criteria.exclude == search.exclude@,
        search@.pid_match == search.pid_match,
        search@.name_match == search.name_match,
{
}

/// A window of the launched process is definitive: where there is one, the first
/// of them is found, whatever else carries the program's name.
pub proof fn law_pid_match_is_definitive(criteria: Criteria, windows: Seq<WindowView>, i: int)
    requires
        0 <= i < windows.len(),
        criteria.matches_pid(windows[i]),
        forall|j: int| 0 <= j < i ==> !criteria.matches_pid(#[trigger] windows[j]),
    ensures
        criteria.target(windows) == Some(windows[i].handle),
{
    lemma_first(windows, |window: WindowView| criteria.matches_pid(window));
}

/// Where the launched process shows no window, the first one of a process of the
/// same name is found.
pub proof fn law_name_match_is_the_fallback(criteria: Criteria, windows: Seq<WindowView>, i: int)
    requires
        0 <= i < windows.len(),
        forall|j: int| 0 <= j < windows.len() ==> !criteria.matches_pid(#[trigger] windows[j]),
        criteria.matches_name(windows[i]),
        forall|j: int| 0 <= j < i ==> !criteria.matches_name(#[trigger] windows[j]),
    ensures
        criteria.target(windows) == Some(windows[i].handle),
{
    lemma_first(windows, |window: WindowView| criteria.matches_pid(window));
    lemma_first(windows, |window: WindowView| criteria.matches_name(window));
}

/// Nothing is found exactly where no window matches by process or by name.
pub proof fn law_nothing_is_found_without_a_match(criteria: Criteria, windows: Seq<WindowView>)
    ensures
        criteria.target(windows) is None <==> forall|i: int|
            0 <= i < windows.len() ==> !criteria.matches_pid(#[trigger] windows[i])
                && !criteria.matches_name(windows[i]),
{
    lemma_first(windows, |window: WindowView| criteria.matches_pid(window));
    lemma_first(windows, |window: WindowView| criteria.matches_name(window));
}

/// Windows that were in sight before the launch are never taken for the launched
/// program's, whatever they are called and whoever owns them.
pub proof fn law_only_new_windows_are_found(
    criteria: Criteria,
    before: Seq<(isize, bool)>,
    windows: Seq<WindowView>,
    window: isize,
)
    requires
        forall|w: isize| #[trigger]
            criteria.exclude.contains(w) <==> before.contains((w, true)),
        before.contains((window, true)),
    ensures
        criteria.target(windows) != Some(window),
{
    law_target_is_eligible(criteria, windows);
}

} // verus!
