//! What the shell guarantees, stated against the model of the host.

use crate::host::{lemma_no_ops, lemma_one_op, lemma_two_ops, CloseRequest, Host, WindowState};
use crate::ops::HostOp;
use crate::tray::{lemma_click_response, tray_response, TrayEvent};
use crate::window::{window_response, WindowEvent};
use vstd::prelude::*;

verus! {

/// Every operation is idempotent: asked for twice in a row, it leaves the
/// host as asking once does. In particular a window shown twice is as
/// visible as a window shown once, and a window hidden twice as hidden as a
/// window hidden once.
pub proof fn lemma_step_idempotent(host: Host, op: HostOp)
    ensures
        host.step(op).step(op) == host.step(op),
        host.after(seq![op, op]) == host.after(seq![op]),
        host.step(HostOp::ShowWindow).step(HostOp::ShowWindow).window == host.step(
            HostOp::ShowWindow,
        ).window,
        host.step(HostOp::HideWindow).step(HostOp::HideWindow).window == host.step(
            HostOp::HideWindow,
        ).window,
{
    lemma_one_op(host, op);
    lemma_two_ops(host, op, op);
}

/// The visibility of a window that exists is whatever was asked for last.
pub proof fn lemma_last_request_wins(host: Host)
    requires
        host.running(),
        !(host.window is Absent),
    ensures
        host.step(HostOp::HideWindow).step(HostOp::ShowWindow).window is Visible,
        host.step(HostOp::ShowWindow).step(HostOp::HideWindow).window is Hidden,
{
}

/// A process that has ended does nothing more, whatever it is asked for.
pub proof fn lemma_ended_process_is_inert(host: Host, ops: Seq<HostOp>)
    requires
        !host.running(),
    ensures
        host.after(ops) == host,
        host.accepts(ops),
    decreases ops.len(),
{
    if ops.len() > 0 {
        lemma_ended_process_is_inert(host, ops.drop_first());
    }
}

/// A click on a menu item does what the item says and nothing else.
///
/// On a running host with a window, `show` leaves the window visible and
/// `hide` leaves it hidden. Without a window the host refuses either, and
/// nothing changes. `quit` ends the process with exit code 0 and does not
/// touch the window, whether there is one or not.
pub proof fn lemma_click_effect(host: Host, event: TrayEvent)
    requires
        host.running(),
    ensures
        event.clicked() == Some("show"@) && !(host.window is Absent) ==> host.after_tray_event(
            event,
        ) == host.with_window(WindowState::Visible),
        event.clicked() == Some("hide"@) && !(host.window is Absent) ==> host.after_tray_event(
            event,
        ) == host.with_window(WindowState::Hidden),
        event.clicked() == Some("quit"@) ==> host.after_tray_event(event) == host.ended(0),
        host.window is Absent && (event.clicked() == Some("show"@) || event.clicked() == Some(
            "hide"@,
        )) ==> host.after_tray_event(event) == host && !host.accepts(tray_response(event)),
        !(host.window is Absent && (event.clicked() == Some("show"@) || event.clicked() == Some(
            "hide"@,
        ))) ==> host.accepts(tray_response(event)),
{
    lemma_click_response(event);
    lemma_no_ops(host);
    lemma_one_op(host, HostOp::ShowWindow);
    lemma_one_op(host, HostOp::HideWindow);
    lemma_one_op(host, HostOp::Exit(0));
}

/// A tray event that is not a click on Show, Hide or Quit changes nothing:
/// neither a click on an identifier that names no item, nor any other
/// interaction with the icon.
pub proof fn lemma_ignored_tray_events_change_nothing(host: Host, event: TrayEvent)
    requires
        event.clicked() != Some("show"@),
        event.clicked() != Some("hide"@),
        event.clicked() != Some("quit"@),
    ensures
        tray_response(event) == Seq::<HostOp>::empty(),
        host.after_tray_event(event) == host,
{
    lemma_click_response(event);
    lemma_no_ops(host);
}

/// A close request costs neither the window nor the process: on a running
/// host with a window, the window is hidden afterwards, still alive, and
/// the request is over.
pub proof fn lemma_close_request_hides(host: Host)
    requires
        host.running(),
        !(host.window is Absent),
    ensures
        host.after_window_event(WindowEvent::CloseRequested) == host.with_window(
            WindowState::Hidden,
        ).with_close(CloseRequest::Idle),
        host.after_window_event(WindowEvent::CloseRequested).running(),
{
    let opened = host.with_close(CloseRequest::Pending);
    lemma_two_ops(opened, HostOp::HideWindow, HostOp::PreventClose);
}

/// Hiding the window is not enough to survive a close request: a host that
/// is asked to hide, and is not kept from closing, destroys the window.
pub proof fn lemma_unprevented_close_destroys(host: Host)
    requires
        host.running(),
    ensures
        host.with_close(CloseRequest::Pending).after(seq![HostOp::HideWindow]).settle().window
            is Absent,
{
    let opened = host.with_close(CloseRequest::Pending);
    lemma_one_op(opened, HostOp::HideWindow);
}

/// A window event other than a close request changes nothing.
pub proof fn lemma_other_window_events_change_nothing(host: Host, event: WindowEvent)
    requires
        !(event is CloseRequested),
    ensures
        window_response(event) == Seq::<HostOp>::empty(),
        host.after_window_event(event) == host,
{
    lemma_no_ops(host);
}

/// Dispatching an event a second time changes nothing that the first time
/// has not changed already.
pub proof fn lemma_events_idempotent(host: Host, tray: TrayEvent, window: WindowEvent)
    ensures
        host.after_tray_event(tray).after_tray_event(tray) == host.after_tray_event(tray),
        host.after_window_event(window).after_window_event(window) == host.after_window_event(
            window,
        ),
{
    let ops = tray_response(tray);
    if ops.len() == 0 {
        assert(ops =~= Seq::<HostOp>::empty());
        lemma_no_ops(host);
    } else {
        let op = ops[0];
        assert(ops =~= seq![op]);
        lemma_one_op(host, op);
        lemma_one_op(host.step(op), op);
    }
    let once = host.after_window_event(window);
    if window is CloseRequested {
        lemma_two_ops(
            host.with_close(CloseRequest::Pending),
            HostOp::HideWindow,
            HostOp::PreventClose,
        );
        lemma_two_ops(
            once.with_close(CloseRequest::Pending),
            HostOp::HideWindow,
            HostOp::PreventClose,
        );
    } else {
        lemma_no_ops(host);
    }
}

} // verus!
