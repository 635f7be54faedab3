//! A model of the host runtime.
//!
//! The handlers of this crate only name operations; what the operations do
//! is the host's business. This module writes that business down as a small
//! state machine: a main window that is absent, hidden or visible, a process
//! that runs until it is ended, and a close request that destroys the window
//! unless it is prevented. The laws of the crate are stated against it, and
//! it runs, so the handlers can be exercised without a windowing system.

use crate::ops::HostOp;
use crate::tray::{on_system_tray_event, tray_response, TrayEvent};
use crate::window::{on_window_event, window_response, WindowEvent};
use vstd::prelude::*;

verus! {

/// What is known of the main window at the moment it is looked up.
#[derive(Clone, Copy, Debug, PartialEq, Eq, Hash, Structural)]
pub enum WindowState {
    /// The window cannot be resolved: it was never made, or was destroyed.
    Absent,
    /// The window is alive and invisible.
    Hidden,
    /// The window is alive and visible.
    Visible,
}

/// How far the handling of a close request has come.
#[derive(Clone, Copy, Debug, PartialEq, Eq, Hash, Structural)]
pub enum CloseRequest {
    /// No close request is being handled.
    Idle,
    /// A close request is being handled, and nothing has prevented it.
    Pending,
    /// A close request is being handled, and it has been prevented.
    Prevented,
}

/// Why the host could not carry out an operation.
#[derive(Clone, Copy, Debug, PartialEq, Eq, Hash, Structural)]
pub enum HostError {
    /// A window operation found no main window to act on. The shell has no
    /// way to recover from this: a host that meets it stops.
    WindowNotResolvable,
}

/// The state of the host runtime, as far as the shell can change it.
#[derive(Clone, Copy, Debug, PartialEq, Eq, Structural)]
pub struct Host {
    /// The main window.
    pub window: WindowState,
    /// The exit code, once the process has been ended.
    pub exit_code: Option<i32>,
    /// The close request being handled, if any.
    pub close: CloseRequest,
}

impl Host {
    /// This state with the window as given.
    pub open spec fn with_window(self, window: WindowState) -> Host {
        Host { window, ..self }
    }

    /// This state with the close request as given.
    pub open spec fn with_close(self, close: CloseRequest) -> Host {
        Host { close, ..self }
    }

    /// This state with the process ended under the given exit code.
    pub open spec fn ended(self, code: i32) -> Host {
        Host { exit_code: Some(code), ..self }
    }

    /// The process has not been ended.
    pub open spec fn running(self) -> bool {
        self.exit_code is None
    }

    /// The host cannot carry out `op`: it is a window operation, and there
    /// is no window.
    pub open spec fn refuses(self, op: HostOp) -> bool {
        &&& self.running()
        &&& self.window is Absent
        &&& (op is ShowWindow || op is HideWindow)
    }

    /// The state after the host was asked for `op`.
    ///
    /// Showing and hiding set the visibility whatever it was before, and
    /// leave everything else as it is. Ending the process records the exit
    /// code. Preventing a close counts only while a close request is being
    /// handled. An operation that is refused, and any operation asked of a
    /// process that has ended, changes nothing.
    pub open spec fn step(self, op: HostOp) -> Host {
        if !self.running() || self.refuses(op) {
            self
        } else {
            match op {
                HostOp::ShowWindow => self.with_window(WindowState::Visible),
                HostOp::HideWindow => self.with_window(WindowState::Hidden),
                HostOp::Exit(code) => self.ended(code),
                HostOp::PreventClose => if self.close is Pending {
                    self.with_close(CloseRequest::Prevented)
                } else {
                    self
                },
            }
        }
    }

    /// The host carries out all of `ops`, refusing none.
    pub open spec fn accepts(self, ops: Seq<HostOp>) -> bool
        decreases ops.len(),
    {
        ops.len() == 0 || (!self.refuses(ops[0]) && self.step(ops[0]).accepts(ops.drop_first()))
    }

    /// The state after the host was asked for `ops` in order. It stops at
    /// the first operation it refuses.
    pub open spec fn after(self, ops: Seq<HostOp>) -> Host
        decreases ops.len(),
    {
        if ops.len() == 0 || self.refuses(ops[0]) {
            self
        } else {
            self.step(ops[0]).after(ops.drop_first())
        }
    }

    /// The state after the host has acted on a close request that nothing
    /// prevented: the window is destroyed. A prevented request leaves the
    /// window as it is. Either way the request is over.
    pub open spec fn settle(self) -> Host {
        match self.close {
            CloseRequest::Idle => self,
            CloseRequest::Prevented => self.with_close(CloseRequest::Idle),
            CloseRequest::Pending => if self.running() {
                self.with_window(WindowState::Absent).with_close(CloseRequest::Idle)
            } else {
                self.with_close(CloseRequest::Idle)
            },
        }
    }

    /// The state after a tray event was dispatched to the shell.
    pub open spec fn after_tray_event(self, event: TrayEvent) -> Host {
        self.after(tray_response(event))
    }

    /// The state after a window event was dispatched to the shell. For a
    /// close request the host opens the request, lets the shell answer,
    /// and then acts on what is left of the request.
    pub open spec fn after_window_event(self, event: WindowEvent) -> Host {
        if !self.running() {
            self
        } else if event is CloseRequested {
            self.with_close(CloseRequest::Pending).after(window_response(event)).settle()
        } else {
            self.after(window_response(event))
        }
    }

    /// A running host with the given window and no close request at hand.
    pub fn new(window: WindowState) -> (host: Host)
        ensures
            host.window == window,
            host.exit_code is None,
            host.close is Idle,
    {
        Host { window, exit_code: None, close: CloseRequest::Idle }
    }

    /// Whether the process has not been ended.
    pub fn is_running(&self) -> (running: bool)
        ensures
            running == self.running(),
    {
        self.exit_code.is_none()
    }

    /// Carries out one operation.
    ///
    /// Fails, changing nothing, exactly when the operation needs the main
    /// window and there is none.
    pub fn perform(&mut self, op: HostOp) -> (done: Result<(), HostError>)
        ensures
            *final(self) == old(self).step(op),
            done is Err <==> old(self).refuses(op),
            done is Err ==> *final(self) == *old(self),
    {
        if self.exit_code.is_some() {
            return Ok(());
        }
        match op {
            HostOp::ShowWindow => {
                match self.window {
                    WindowState::Absent => {
                        return Err(HostError::WindowNotResolvable);
                    },
                    _ => {
                        self.window = WindowState::Visible;
                    },
                }
            },
            HostOp::HideWindow => {
                match self.window {
                    WindowState::Absent => {
                        return Err(HostError::WindowNotResolvable);
                    },
                    _ => {
                        self.window = WindowState::Hidden;
                    },
                }
            },
            HostOp::Exit(code) => {
                self.exit_code = Some(code);
            },
            HostOp::PreventClose => {
                match self.close {
                    CloseRequest::Pending => {
                        self.close = CloseRequest::Prevented;
                    },
                    _ => {},
                }
            },
        }
        Ok(())
    }

    /// Carries out a list of operations in order, and stops at the first
    /// one that fails.
    pub fn run(&mut self, ops: &Vec<HostOp>) -> (done: Result<(), HostError>)
        ensures
            *final(self) == old(self).after(ops@),
            done is Ok <==> old(self).accepts(ops@),
    {
        let mut i: usize = 0;
        proof {
            assert(ops@.skip(0) =~= ops@);
        }
        while i < ops.len()
            invariant
                i <= ops.len(),
                self.after(ops@.skip(i as int)) == old(self).after(ops@),
                self.accepts(ops@.skip(i as int)) == old(self).accepts(ops@),
            decreases ops.len() - i,
        {
            proof {
                assert(ops@.skip(i as int)[0] == ops@[i as int]);
                assert(ops@.skip(i as int).drop_first() =~= ops@.skip(i as int + 1));
            }
            match self.perform(ops[i]) {
                Ok(()) => {},
                Err(e) => {
                    return Err(e);
                },
            }
            i += 1;
        }
        Ok(())
    }

    /// Acts on what is left of a close request once the shell has answered:
    /// a request that nothing prevented destroys the window.
    pub fn finish_close(&mut self)
        ensures
            *final(self) == old(self).settle(),
    {
        match self.close {
            CloseRequest::Idle => {},
            CloseRequest::Prevented => {
                self.close = CloseRequest::Idle;
            },
            CloseRequest::Pending => {
                if self.exit_code.is_none() {
                    self.window = WindowState::Absent;
                }
                self.close = CloseRequest::Idle;
            },
        }
    }

    /// Dispatches a tray event: asks the shell for its answer and carries
    /// the answer out.
    ///
    /// Fails exactly when the answer needs the main window and there is
    /// none, that is, on a click on Show or Hide without a window.
    pub fn dispatch_tray_event(&mut self, event: &TrayEvent) -> (done: Result<(), HostError>)
        ensures
            *final(self) == old(self).after_tray_event(*event),
            done is Ok <==> old(self).accepts(tray_response(*event)),
    {
        let ops = on_system_tray_event(event);
        self.run(&ops)
    }

    /// Dispatches a window event: asks the shell for its answer, carries the
    /// answer out and, for a close request, destroys the window unless the
    /// answer prevented that. A process that has ended gets no events.
    ///
    /// Fails exactly when a close request reaches a running host that has
    /// no window.
    pub fn dispatch_window_event(&mut self, event: WindowEvent) -> (done: Result<(), HostError>)
        ensures
            *final(self) == old(self).after_window_event(event),
            done is Err <==> old(self).running() && old(self).window is Absent
                && event is CloseRequested,
    {
        if self.exit_code.is_some() {
            return Ok(());
        }
        let ops = on_window_event(&event);
        match event {
            WindowEvent::CloseRequested => {
                self.close = CloseRequest::Pending;
                proof {
                    lemma_two_ops(*self, HostOp::HideWindow, HostOp::PreventClose);
                }
                let done = self.run(&ops);
                self.finish_close();
                done
            },
            _ => {
                proof {
                    lemma_no_ops(*self);
                    assert(ops@ =~= Seq::<HostOp>::empty());
                }
                self.run(&ops)
            },
        }
    }
}

/// Asked for nothing, the host does nothing.
pub proof fn lemma_no_ops(host: Host)
    ensures
        host.after(Seq::<HostOp>::empty()) == host,
        host.accepts(Seq::<HostOp>::empty()),
{
}

/// Asked for one operation, the host takes that one step.
pub proof fn lemma_one_op(host: Host, op: HostOp)
    ensures
        host.after(seq![op]) == host.step(op),
        host.accepts(seq![op]) <==> !host.refuses(op),
{
    let ops = seq![op];
    assert(ops.drop_first() =~= Seq::<HostOp>::empty());
    lemma_no_ops(host.step(op));
    assert(ops[0] == op);
}

/// Asked for two operations, the host takes the two steps in order, unless
/// it refuses the first.
pub proof fn lemma_two_ops(host: Host, first: HostOp, second: HostOp)
    ensures
        host.refuses(first) ==> host.after(seq![first, second]) == host,
        !host.refuses(first) ==> host.after(seq![first, second]) == host.step(first).step(second),
        host.accepts(seq![first, second]) <==> !host.refuses(first) && !host.step(first).refuses(
            second,
        ),
{
    let ops = seq![first, second];
    assert(ops.drop_first() =~= seq![second]);
    lemma_one_op(host.step(first), second);
    assert(ops[0] == first);
}

} // verus!
