//! The monitor's configuration: target keywords and ignored keywords, each
//! list with its table of lowercase forms.

use vstd::prelude::*;
use crate::classify::{covered_by, is_target_window, matches_any, should_skip, should_skip_window};
use crate::keywords::KeywordTable;
use crate::text::texts;
use crate::window::{WindowHandle, WindowInfo, WindowRecord};

verus! {

/// Keyword lists of a monitor, fixed when it is built.
pub struct MonitorConfig {
    target_keywords: Vec<String>,
    ignored_keywords: Vec<String>,
    target_table: KeywordTable,
    ignored_table: KeywordTable,
}

/// The window may be minimized while the window `active` is a focused
/// target: it is another window, it is no target itself, and it is not
/// skipped.
pub open spec fn eligible(
    window: WindowRecord,
    active: WindowHandle,
    targets: Seq<Seq<char>>,
    ignored: Seq<Seq<char>>,
) -> bool {
    &&& window.handle != active
    &&& !matches_any(window.title, targets)
    &&& !should_skip(window.title, window.class_name, ignored)
}

impl MonitorConfig {
    #[verifier::type_invariant]
    spec fn well_formed(&self) -> bool {
        &&& covered_by(self.target_keywords@, &self.target_table)
        &&& covered_by(self.ignored_keywords@, &self.ignored_table)
    }

    /// The target keywords, in the order given.
    pub closed spec fn targets(&self) -> Seq<Seq<char>> {
        texts(self.target_keywords@)
    }

    /// The ignored keywords, in the order given.
    pub closed spec fn ignored(&self) -> Seq<Seq<char>> {
        texts(self.ignored_keywords@)
    }

    /// Builds the configuration and the two keyword tables.
    pub fn new(target_keywords: Vec<String>, ignored_keywords: Vec<String>) -> (config: Self)
        ensures
            config.targets() == texts(target_keywords@),
            config.ignored() == texts(ignored_keywords@),
    {
        let target_table = KeywordTable::new(target_keywords.as_slice());
        let ignored_table = KeywordTable::new(ignored_keywords.as_slice());
        MonitorConfig { target_keywords, ignored_keywords, target_table, ignored_table }
    }

    /// The target keywords as configured.
    pub fn target_keywords(&self) -> (keywords: &Vec<String>)
        ensures
            texts(keywords@) == self.targets(),
    {
        &self.target_keywords
    }

    /// The ignored keywords as configured.
    pub fn ignored_keywords(&self) -> (keywords: &Vec<String>)
        ensures
            texts(keywords@) == self.ignored(),
    {
        &self.ignored_keywords
    }

    /// Tells whether the window is a target.
    pub fn is_target(&self, window: &WindowInfo) -> (target: bool)
        ensures
            target == matches_any(window.title@, self.targets()),
    {
        proof {
            use_type_invariant(self);
        }
        is_target_window(window, self.target_keywords.as_slice(), &self.target_table)
    }

    /// Tells whether the window must never be minimized.
    pub fn should_skip(&self, window: &WindowInfo) -> (skip: bool)
        ensures
            skip == should_skip(window.title@, window.class_name@, self.ignored()),
    {
        proof {
            use_type_invariant(self);
        }
        should_skip_window(window, self.ignored_keywords.as_slice(), &self.ignored_table)
    }

    /// Tells whether the window is minimized when the target `active` has
    /// the focus. All three exclusions are tested: a window that matches a
    /// target keyword and is skipped as well stays out on both counts.
    pub fn is_eligible(&self, window: &WindowInfo, active: WindowHandle) -> (yes: bool)
        ensures
            yes == eligible(window@, active, self.targets(), self.ignored()),
            yes ==> window.handle != active,
            yes ==> !matches_any(window.title@, self.targets()),
            yes ==> !should_skip(window.title@, window.class_name@, self.ignored()),
    {
        window.handle != active && !self.is_target(window) && !self.should_skip(window)
    }
}

} // verus!
