//! Building a list of windows from what a walk over the desktop reports.

use vstd::prelude::*;
use vstd::slice::slice_subrange;
use crate::text::{decode_utf16, utf16_lossy};
use crate::window::{WindowHandle, WindowInfo, WindowRecord};

verus! {

/// A visited window is listed when it is visible, has no parent window and
/// the window system reported a title of at least one code unit.
pub open spec fn qualifies(visible: bool, has_parent: bool, title_len: int) -> bool {
    visible && !has_parent && title_len > 0
}

/// The record of a visited window: its handle, and its title and class name
/// decoded from UTF-16.
pub open spec fn decoded(
    handle: WindowHandle,
    title_units: Seq<u16>,
    class_units: Seq<u16>,
) -> WindowRecord {
    WindowRecord {
        handle,
        title: utf16_lossy(title_units),
        class_name: utf16_lossy(class_units),
    }
}

/// Handles one window of a walk over the top-level windows: appends its
/// record to `windows` when the window qualifies, and leaves the list as it
/// is when it does not.
///
/// `title_buffer` and `class_buffer` are the buffers that the window system
/// filled, `title_len` and `class_len` the numbers of code units that it
/// reported to have written. A title that did not fit its buffer arrives cut
/// to the buffer's size and is taken as it is. The lengths of a window that
/// qualifies must lie within the buffers.
pub fn record_window(
    windows: &mut Vec<WindowInfo>,
    handle: WindowHandle,
    visible: bool,
    has_parent: bool,
    title_buffer: &[u16],
    title_len: i32,
    class_buffer: &[u16],
    class_len: i32,
) -> (listed: bool)
    requires
        qualifies(visible, has_parent, title_len as int) ==> title_len <= title_buffer@.len() && 0
            <= class_len <= class_buffer@.len(),
    ensures
        listed == qualifies(visible, has_parent, title_len as int),
        listed ==> final(windows)@.len() == old(windows)@.len() + 1 && final(windows)@.drop_last()
            == old(windows)@ && final(windows)@.last()@ == decoded(
            handle,
            title_buffer@.subrange(0, title_len as int),
            class_buffer@.subrange(0, class_len as int),
        ),
        !listed ==> final(windows)@ == old(windows)@,
{
    if visible && !has_parent && title_len > 0 {
        let title = decode_utf16(slice_subrange(title_buffer, 0, title_len as usize));
        let class_name = decode_utf16(slice_subrange(class_buffer, 0, class_len as usize));
        windows.push(WindowInfo { handle, title, class_name });
        assert(windows@.drop_last() =~= old(windows)@);
        true
    } else {
        false
    }
}

} // verus!
