//! A list of windows that is kept for a short time, so that a tight polling
//! loop does not walk the desktop on every tick.

use vstd::prelude::*;
use crate::window::WindowInfo;

verus! {

/// Milliseconds for which a stored list of windows is served.
pub const CACHE_DURATION_MS: u64 = 50;

/// Mathematical model of a `WindowCache`.
pub ghost struct CacheState {
    /// The stored list.
    pub windows: Seq<WindowInfo>,
    /// When the list was stored, in milliseconds; `None` before the first
    /// list is stored.
    pub last_update: Option<u64>,
    /// For how many milliseconds a stored list is served.
    pub validity: u64,
}

impl CacheState {
    /// At time `now` the stored list is too old to be served: nothing was
    /// stored yet, or more than `validity` milliseconds have passed since. A
    /// clock reading before the time of storing counts as no time passed.
    pub open spec fn is_stale(self, now: u64) -> bool {
        match self.last_update {
            None => true,
            Some(at) => now - at > self.validity,
        }
    }

    /// The state after `windows` was stored at time `now`.
    pub open spec fn refreshed(self, windows: Seq<WindowInfo>, now: u64) -> CacheState {
        CacheState { windows, last_update: Some(now), validity: self.validity }
    }
}

/// Time-based cache of the list of windows. The caller owns the clock and
/// the enumeration: it asks `needs_refresh`, enumerates when told so, and
/// hands the new list to `store`.
pub struct WindowCache {
    windows: Vec<WindowInfo>,
    last_update: Option<u64>,
    cache_duration: u64,
}

impl View for WindowCache {
    type V = CacheState;

    closed spec fn view(&self) -> CacheState {
        CacheState {
            windows: self.windows@,
            last_update: self.last_update,
            validity: self.cache_duration,
        }
    }
}

impl WindowCache {
    /// An empty cache. It is stale at every time, so the first request for
    /// the windows leads to an enumeration.
    pub fn new() -> (cache: Self)
        ensures
            cache@.windows == Seq::<WindowInfo>::empty(),
            cache@.last_update == None::<u64>,
            cache@.validity == CACHE_DURATION_MS,
    {
        WindowCache { windows: Vec::new(), last_update: None, cache_duration: CACHE_DURATION_MS }
    }

    /// Tells whether a list was ever stored.
    pub fn has_list(&self) -> (stored: bool)
        ensures
            stored == self@.last_update.is_some(),
    {
        self.last_update.is_some()
    }

    /// Tells whether the windows must be enumerated anew at time `now`.
    pub fn needs_refresh(&self, now: u64) -> (stale: bool)
        ensures
            stale == self@.is_stale(now),
    {
        match self.last_update {
            None => true,
            Some(at) => now > at && now - at > self.cache_duration,
        }
    }

    /// Replaces the stored list by `windows`, enumerated at time `now`.
    pub fn store(&mut self, windows: Vec<WindowInfo>, now: u64)
        ensures
            final(self)@ == old(self)@.refreshed(windows@, now),
    {
        self.windows = windows;
        self.last_update = Some(now);
    }

    /// The stored list.
    pub fn windows(&self) -> (windows: &Vec<WindowInfo>)
        ensures
            windows@ == self@.windows,
    {
        &self.windows
    }
}

/// A list stored at time `stored_at` is served unchanged up to and including
/// `validity` milliseconds later, and is stale from then on: a request at
/// `now` leads to a new enumeration exactly when `now - stored_at` exceeds
/// the validity.
pub proof fn lemma_stored_list_is_served_while_valid(
    before: CacheState,
    windows: Seq<WindowInfo>,
    stored_at: u64,
    now: u64,
)
    ensures
        before.refreshed(windows, stored_at).windows == windows,
        before.refreshed(windows, stored_at).is_stale(now) <==> now - stored_at > before.validity,
{
}

/// A cache that holds nothing yet is stale at every time.
pub proof fn lemma_empty_cache_is_stale(state: CacheState, now: u64)
    requires
        state.last_update.is_none(),
    ensures
        state.is_stale(now),
{
}

} // verus!
