//! The operations the shell asks of the host runtime.

use vstd::prelude::*;

verus! {

/// One request to the host runtime. A handler answers an event with a list
/// of these, and the host carries them out in order.
///
/// The two window operations address the application's main window. The
/// host looks the window up anew each time it carries one out, so that a
/// window it has closed or rebuilt in the meantime is never reached through
/// a stale handle.
#[derive(Clone, Copy, Debug, PartialEq, Eq, Hash, Structural)]
pub enum HostOp {
    /// Make the main window visible.
    ShowWindow,
    /// Make the main window invisible. The window stays alive.
    HideWindow,
    /// End the process at once with the given exit code.
    Exit(i32),
    /// Keep the host from destroying the window whose close request is
    /// being handled.
    PreventClose,
}

/// The label of the application's main window, under which the host
/// resolves it each time a window operation is carried out.
pub fn main_window_label() -> (label: &'static str)
    ensures
        label@ == "main"@,
{
    "main"
}

} // verus!
