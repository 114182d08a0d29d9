//! Windows as the monitor sees them.

use vstd::prelude::*;

verus! {

/// Identifier that the window system gives a top-level window. Two handles
/// name the same window exactly when their raw values are equal.
#[derive(Clone, Copy, Debug, PartialEq, Eq, Hash, Structural)]
pub struct WindowHandle {
    pub raw: isize,
}

/// What one enumeration pass recorded of a window.
#[derive(Clone, Debug, PartialEq, Eq)]
pub struct WindowInfo {
    pub handle: WindowHandle,
    pub title: String,
    pub class_name: String,
}

/// Mathematical model of a `WindowInfo`.
pub ghost struct WindowRecord {
    pub handle: WindowHandle,
    pub title: Seq<char>,
    pub class_name: Seq<char>,
}

impl View for WindowInfo {
    type V = WindowRecord;

    open spec fn view(&self) -> WindowRecord {
        WindowRecord { handle: self.handle, title: self.title@, class_name: self.class_name@ }
    }
}

} // verus!
