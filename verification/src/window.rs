//! The window lifecycle interceptor: what a window event asks of the host.

use crate::ops::HostOp;
use vstd::prelude::*;

verus! {

/// The kind of an event of the main window, as the host reports it.
#[derive(Clone, Copy, Debug, PartialEq, Eq, Hash, Structural)]
pub enum WindowEvent {
    /// The window was resized.
    Resized,
    /// The window was moved.
    Moved,
    /// The user asked for the window to be closed. Unless the request is
    /// answered with [`HostOp::PreventClose`], the host destroys the window.
    CloseRequested,
    /// The window was destroyed.
    Destroyed,
    /// The window gained or lost the focus.
    Focused,
    /// The scale factor of the window changed.
    ScaleFactorChanged,
    /// A file was dragged over the window or dropped on it.
    FileDrop,
    /// The system theme changed.
    ThemeChanged,
    /// Any other window event.
    Other,
}

/// The operations that answer a window event: a close request is turned
/// into hiding the window, and nothing else is acted on.
pub open spec fn window_response(event: WindowEvent) -> Seq<HostOp> {
    if event is CloseRequested {
        seq![HostOp::HideWindow, HostOp::PreventClose]
    } else {
        Seq::empty()
    }
}

/// Answers a window event with the operations the host has to carry out.
///
/// A close request is answered by hiding the window and then keeping the
/// host from destroying it, in that order. Every other event is ignored.
pub fn on_window_event(event: &WindowEvent) -> (ops: Vec<HostOp>)
    ensures
        ops@ == window_response(*event),
        *event is CloseRequested ==> ops@ == seq![HostOp::HideWindow, HostOp::PreventClose],
        !(*event is CloseRequested) ==> ops@.len() == 0,
{
    let mut ops: Vec<HostOp> = Vec::new();
    match event {
        WindowEvent::CloseRequested => {
            ops.push(HostOp::HideWindow);
            ops.push(HostOp::PreventClose);
        },
        _ => {},
    }
    proof {
        assert(ops@ =~= window_response(*event));
    }
    ops
}

} // verus!
