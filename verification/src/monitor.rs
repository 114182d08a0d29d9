//! The decisions of the control loop.
//!
//! The loop itself belongs to the caller: it reads the focused window, asks
//! the monitor what to do, and carries that out. The monitor acts only when
//! the focus moves to another window, and then judges from the whole current
//! list of windows.

use vstd::prelude::*;
use crate::cache::{CacheState, WindowCache, CACHE_DURATION_MS};
use crate::classify::{matches_any, should_skip};
use crate::config::{eligible, MonitorConfig};
use crate::window::{WindowHandle, WindowInfo};

verus! {

/// Milliseconds that the loop sleeps between two looks at the focus.
pub const POLL_INTERVAL_MS: u64 = 100;

/// The focused window that was seen last.
pub struct FocusTracker {
    last_active: Option<WindowHandle>,
}

impl View for FocusTracker {
    type V = Option<WindowHandle>;

    closed spec fn view(&self) -> Option<WindowHandle> {
        self.last_active
    }
}

impl FocusTracker {
    /// A tracker that has seen no window yet.
    pub fn new() -> (tracker: Self)
        ensures
            tracker@ == None::<WindowHandle>,
    {
        FocusTracker { last_active: None }
    }

    /// The focused window that was seen last, if any.
    pub fn last_active(&self) -> (last: Option<WindowHandle>)
        ensures
            last == self@,
    {
        self.last_active
    }

    /// Takes note of the focused window. Returns whether it differs from the
    /// one seen last; after the call `current` is the one seen last.
    pub fn observe(&mut self, current: WindowHandle) -> (changed: bool)
        ensures
            changed == (old(self)@ != Some(current)),
            final(self)@ == Some(current),
    {
        let changed = match self.last_active {
            None => true,
            Some(last) => last != current,
        };
        self.last_active = Some(current);
        changed
    }
}

/// `at` is the first place of the list whose window has the handle.
pub open spec fn is_first_with_handle(
    windows: Seq<WindowInfo>,
    handle: WindowHandle,
    at: int,
) -> bool {
    &&& 0 <= at < windows.len()
    &&& windows[at].handle == handle
    &&& forall|j: int| 0 <= j < at ==> (#[trigger] windows[j]).handle != handle
}

/// No window of the list has the handle.
pub open spec fn is_unlisted(windows: Seq<WindowInfo>, handle: WindowHandle) -> bool {
    forall|j: int| 0 <= j < windows.len() ==> (#[trigger] windows[j]).handle != handle
}

/// `picked` holds, in rising order, the places of exactly those windows that
/// are eligible for minimizing while `active` is a focused target.
pub open spec fn is_minimize_set(
    windows: Seq<WindowInfo>,
    active: WindowHandle,
    targets: Seq<Seq<char>>,
    ignored: Seq<Seq<char>>,
    picked: Seq<usize>,
) -> bool {
    &&& forall|a: int, b: int| 0 <= a < b < picked.len() ==> picked[a] < picked[b]
    &&& forall|k: int|
        0 <= k < picked.len() ==> (#[trigger] picked[k]) < windows.len() && eligible(
            windows[picked[k] as int]@,
            active,
            targets,
            ignored,
        )
    &&& forall|i: int|
        0 <= i < windows.len() && eligible((#[trigger] windows[i])@, active, targets, ignored)
            ==> exists|k: int| 0 <= k < picked.len() && picked[k] == i
}

/// Finds the first window of the list with the given handle.
pub fn find_window(windows: &[WindowInfo], handle: WindowHandle) -> (found: Option<usize>)
    ensures
        match found {
            Some(at) => is_first_with_handle(windows@, handle, at as int),
            None => is_unlisted(windows@, handle),
        },
{
    let mut i: usize = 0;
    while i < windows.len()
        invariant
            i <= windows.len(),
            forall|j: int| 0 <= j < i ==> (#[trigger] windows@[j]).handle != handle,
        decreases windows.len() - i,
    {
        if windows[i].handle == handle {
            return Some(i);
        }
        i += 1;
    }
    None
}

/// Lists the places of the windows to minimize while the target `active` has
/// the focus: every window but the focused one that is neither a target nor
/// skipped, in the order of the list.
pub fn windows_to_minimize(
    windows: &[WindowInfo],
    active: WindowHandle,
    config: &MonitorConfig,
) -> (picked: Vec<usize>)
    ensures
        is_minimize_set(windows@, active, config.targets(), config.ignored(), picked@),
        forall|k: int|
            0 <= k < picked.len() ==> {
                let w = windows[(#[trigger] picked[k]) as int];
                &&& w.handle != active
                &&& !matches_any(w.title@, config.targets())
                &&& !should_skip(w.title@, w.class_name@, config.ignored())
            },
{
    let mut picked: Vec<usize> = Vec::new();
    let mut i: usize = 0;
    while i < windows.len()
        invariant
            i <= windows.len(),
            forall|a: int, b: int| 0 <= a < b < picked.len() ==> picked[a] < picked[b],
            forall|k: int|
                0 <= k < picked.len() ==> (#[trigger] picked[k]) < i && eligible(
                    windows[picked[k] as int]@,
                    active,
                    config.targets(),
                    config.ignored(),
                ),
            forall|j: int|
                0 <= j < i && eligible(
                    (#[trigger] windows@[j])@,
                    active,
                    config.targets(),
                    config.ignored(),
                ) ==> exists|k: int| 0 <= k < picked.len() && picked[k] == j,
        decreases windows.len() - i,
    {
        if config.is_eligible(&windows[i], active) {
            let ghost before = picked@;
            picked.push(i);
            proof {
                assert(picked@[before.len() as int] == i);
                assert forall|j: int|
                    0 <= j < i + 1 && eligible(
                        (#[trigger] windows@[j])@,
                        active,
                        config.targets(),
                        config.ignored(),
                    ) implies exists|k: int| 0 <= k < picked.len() && picked[k] == j by {
                    if j < i {
                        let k = choose|k: int| 0 <= k < before.len() && before[k] == j;
                        assert(picked[k] == j);
                    } else {
                        assert(picked[before.len() as int] == j);
                    }
                }
            }
        }
        i += 1;
    }
    picked
}

/// What a move of the focus leads to.
#[derive(Clone, Debug, PartialEq, Eq)]
pub enum FocusOutcome {
    /// The focused window is not in the list: nothing is classified or
    /// minimized.
    Unlisted,
    /// The focused window, at place `active` of the list, is no target:
    /// nothing is minimized.
    NotTarget { active: usize },
    /// The focused window, at place `active` of the list, is a target: the
    /// windows at the places `minimize` are to be minimized, each on its own.
    Target { active: usize, minimize: Vec<usize> },
}

/// `outcome` is what the move of the focus to `current` leads to, given the
/// list of windows and the keywords.
pub open spec fn is_outcome_of(
    outcome: FocusOutcome,
    windows: Seq<WindowInfo>,
    current: WindowHandle,
    targets: Seq<Seq<char>>,
    ignored: Seq<Seq<char>>,
) -> bool {
    match outcome {
        FocusOutcome::Unlisted => is_unlisted(windows, current),
        FocusOutcome::NotTarget { active } => {
            &&& is_first_with_handle(windows, current, active as int)
            &&& !matches_any(windows[active as int].title@, targets)
        },
        FocusOutcome::Target { active, minimize } => {
            &&& is_first_with_handle(windows, current, active as int)
            &&& matches_any(windows[active as int].title@, targets)
            &&& is_minimize_set(windows, current, targets, ignored, minimize@)
        },
    }
}

/// Judges a move of the focus to the window `current` against the list of
/// windows.
pub fn evaluate_focus(
    windows: &[WindowInfo],
    current: WindowHandle,
    config: &MonitorConfig,
) -> (outcome: FocusOutcome)
    ensures
        is_outcome_of(outcome, windows@, current, config.targets(), config.ignored()),
{
    match find_window(windows, current) {
        None => FocusOutcome::Unlisted,
        Some(active) => {
            if config.is_target(&windows[active]) {
                let minimize = windows_to_minimize(windows, current, config);
                FocusOutcome::Target { active, minimize }
            } else {
                FocusOutcome::NotTarget { active }
            }
        },
    }
}

/// What the loop has to do after it has read the focused window.
#[derive(Clone, Debug, PartialEq, Eq)]
pub enum Reaction {
    /// The focus has not moved: nothing to enumerate, classify or minimize.
    Idle,
    /// The focus has moved and the stored list of windows is stale: the
    /// caller enumerates the windows and hands them to `Monitor::on_snapshot`.
    Enumerate,
    /// The focus has moved and the stored list is still served: the outcome
    /// speaks of that list.
    Evaluated(FocusOutcome),
}

/// What the loop does when the windows could not be enumerated.
#[derive(Clone, Copy, Debug, PartialEq, Eq)]
pub enum FailureAction {
    /// No list of windows was ever stored: the monitor has nothing to work
    /// with, and the caller gives up.
    GiveUp,
    /// An earlier list exists: the failure is reported, the tick ends
    /// without action, and the loop goes on.
    SkipTick,
}

/// State of the control loop: the focused window seen last and the cached
/// list of windows.
pub struct Monitor {
    tracker: FocusTracker,
    cache: WindowCache,
}

/// Mathematical model of a `Monitor`.
pub ghost struct MonitorState {
    pub last_active: Option<WindowHandle>,
    pub cache: CacheState,
}

impl View for Monitor {
    type V = MonitorState;

    closed spec fn view(&self) -> MonitorState {
        MonitorState { last_active: self.tracker@, cache: self.cache@ }
    }
}

/// `reaction` is what a monitor in state `before` owes to the focused window
/// `current` read at time `now`.
pub open spec fn is_reaction_of(
    reaction: Reaction,
    before: MonitorState,
    current: WindowHandle,
    now: u64,
    targets: Seq<Seq<char>>,
    ignored: Seq<Seq<char>>,
) -> bool {
    match reaction {
        Reaction::Idle => before.last_active == Some(current),
        Reaction::Enumerate => before.last_active != Some(current) && before.cache.is_stale(now),
        Reaction::Evaluated(outcome) => {
            &&& before.last_active != Some(current)
            &&& !before.cache.is_stale(now)
            &&& is_outcome_of(outcome, before.cache.windows, current, targets, ignored)
        },
    }
}

impl Monitor {
    /// A monitor that has seen no focused window and holds no list of
    /// windows.
    pub fn new() -> (monitor: Self)
        ensures
            monitor@.last_active == None::<WindowHandle>,
            monitor@.cache.last_update == None::<u64>,
            monitor@.cache.windows == Seq::<WindowInfo>::empty(),
            monitor@.cache.validity == CACHE_DURATION_MS,
    {
        Monitor { tracker: FocusTracker::new(), cache: WindowCache::new() }
    }

    /// The focused window that was seen last, if any.
    pub fn last_active(&self) -> (last: Option<WindowHandle>)
        ensures
            last == self@.last_active,
    {
        self.tracker.last_active()
    }

    /// The list of windows that the outcomes speak of.
    pub fn windows(&self) -> (windows: &Vec<WindowInfo>)
        ensures
            windows@ == self@.cache.windows,
    {
        self.cache.windows()
    }

    /// One tick of the loop: `current` is the focused window, read at time
    /// `now` (milliseconds of a clock that does not run backwards). The
    /// stored list is never touched; `current` becomes the window seen last.
    pub fn on_focus(&mut self, current: WindowHandle, now: u64, config: &MonitorConfig) -> (reaction:
        Reaction)
        ensures
            is_reaction_of(reaction, old(self)@, current, now, config.targets(), config.ignored()),
            final(self)@.last_active == Some(current),
            final(self)@.cache == old(self)@.cache,
    {
        if !self.tracker.observe(current) {
            return Reaction::Idle;
        }
        if self.cache.needs_refresh(now) {
            return Reaction::Enumerate;
        }
        Reaction::Evaluated(evaluate_focus(self.cache.windows().as_slice(), current, config))
    }

    /// Says how the loop goes on after an enumeration that `on_focus` asked
    /// for has failed. The monitor is left as it is: the move of the focus
    /// stays recorded and the stored list stays in place.
    pub fn on_enumeration_failed(&self) -> (action: FailureAction)
        ensures
            action == (if self@.cache.last_update.is_none() {
                FailureAction::GiveUp
            } else {
                FailureAction::SkipTick
            }),
    {
        if self.cache.has_list() {
            FailureAction::SkipTick
        } else {
            FailureAction::GiveUp
        }
    }

    /// Takes the list of windows that the caller enumerated at time `now`
    /// after `on_focus` asked for it, stores it, and judges the move of the
    /// focus to the window seen last against it. A monitor that has seen no
    /// focused window yet stores the list and owes no action.
    pub fn on_snapshot(&mut self, windows: Vec<WindowInfo>, now: u64, config: &MonitorConfig) -> (outcome:
        FocusOutcome)
        ensures
            final(self)@.last_active == old(self)@.last_active,
            final(self)@.cache == old(self)@.cache.refreshed(windows@, now),
            match old(self)@.last_active {
                Some(current) => is_outcome_of(
                    outcome,
                    windows@,
                    current,
                    config.targets(),
                    config.ignored(),
                ),
                None => outcome is Unlisted,
            },
    {
        self.cache.store(windows, now);
        match self.tracker.last_active() {
            Some(current) => evaluate_focus(self.cache.windows().as_slice(), current, config),
            None => FocusOutcome::Unlisted,
        }
    }
}

/// While a target has the focus, the windows to minimize never include the
/// focused window, a window that is a target itself, or a window that is
/// skipped; each of the three keeps a window out by itself.
pub proof fn lemma_minimize_set_exclusions(
    windows: Seq<WindowInfo>,
    active: WindowHandle,
    targets: Seq<Seq<char>>,
    ignored: Seq<Seq<char>>,
    picked: Seq<usize>,
    k: int,
)
    requires
        is_minimize_set(windows, active, targets, ignored, picked),
        0 <= k < picked.len(),
    ensures
        0 <= picked[k] < windows.len(),
        windows[picked[k] as int].handle != active,
        !matches_any(windows[picked[k] as int].title@, targets),
        !should_skip(
            windows[picked[k] as int].title@,
            windows[picked[k] as int].class_name@,
            ignored,
        ),
{
}

/// A look at the focus that finds the window seen last leads to nothing: the
/// only reaction owed is `Idle`.
pub proof fn lemma_unmoved_focus_is_idle(
    reaction: Reaction,
    before: MonitorState,
    current: WindowHandle,
    now: u64,
    targets: Seq<Seq<char>>,
    ignored: Seq<Seq<char>>,
)
    requires
        before.last_active == Some(current),
        is_reaction_of(reaction, before, current, now, targets, ignored),
    ensures
        reaction is Idle,
{
}

/// A focused window that the list does not hold leads to no classification
/// and no minimizing: the only outcome owed is `Unlisted`.
pub proof fn lemma_unlisted_focus_has_no_action(
    outcome: FocusOutcome,
    windows: Seq<WindowInfo>,
    current: WindowHandle,
    targets: Seq<Seq<char>>,
    ignored: Seq<Seq<char>>,
)
    requires
        is_unlisted(windows, current),
        is_outcome_of(outcome, windows, current, targets, ignored),
    ensures
        outcome is Unlisted,
{
}

} // verus!
