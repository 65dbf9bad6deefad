//! What a client that runs a machine for compilation keeps of it: how it asks for the
//! machine, and what it has learnt of the machine while it waits for it to be ready.

use crate::callbacks::{CallbackEvent, CallbackEventView};
use crate::config::DebugLevel;
use vstd::prelude::*;

verus! {

/// How a client wants its machine.
#[derive(Debug, Clone)]
pub struct VmParameters {
    /// Whether the machine can be looked into.
    pub debug_mode: bool,
    /// The path of the configuration of the machine, where it is not the usual one.
    pub config_path: Option<String>,
}

/// Why waiting for a machine ended without the machine being ready.
#[derive(Clone, Copy, Debug, PartialEq, Eq, Structural)]
pub enum WaitError {
    /// The time allowed for the machine to get ready is over.
    TimedOut,
    /// The machine has ended.
    Died,
}

/// What is known of a machine that a client waits for.
#[derive(Clone, Copy, Debug, PartialEq, Eq, Structural)]
pub struct VmStateMonitor {
    has_died: bool,
    cid: Option<i32>,
}

/// What a monitor knows, as plain values.
pub struct VmStateMonitorView {
    pub has_died: bool,
    pub cid: Option<i32>,
}

impl View for VmStateMonitor {
    type V = VmStateMonitorView;

    closed spec fn view(&self) -> VmStateMonitorView {
        VmStateMonitorView { has_died: self.has_died, cid: self.cid }
    }
}

impl VmStateMonitorView {
    /// Whether there is still something to wait for: the machine is neither ready nor
    /// has it ended.
    pub open spec fn waiting(self) -> bool {
        self.cid is None && !self.has_died
    }

    /// What the monitor knows after the client was told of `event`: a machine that is
    /// ready is known by its CID; one that has ended, whose payload has finished or
    /// that reports an error has ended for the client; and anything else teaches the
    /// client nothing. A machine that has ended stays so.
    pub open spec fn observed(self, event: CallbackEventView) -> VmStateMonitorView {
        match event {
            CallbackEventView::PayloadReady { cid } => if self.has_died {
                self
            } else {
                VmStateMonitorView { has_died: false, cid: Some(cid) }
            },
            CallbackEventView::Died { .. }
            | CallbackEventView::PayloadFinished { .. }
            | CallbackEventView::Error { .. } => VmStateMonitorView { has_died: true, cid: None },
            _ => self,
        }
    }

    /// What waiting ends with, given whether the time allowed for it is over.
    pub open spec fn outcome(self, timed_out: bool) -> Result<i32, WaitError> {
        if timed_out {
            Err(WaitError::TimedOut)
        } else {
            match self.cid {
                Some(cid) => Ok(cid),
                None => Err(WaitError::Died),
            }
        }
    }
}

impl VmParameters {
    /// The usual parameters: a machine that cannot be looked into, with the usual
    /// configuration.
    pub fn new() -> (parameters: VmParameters)
        ensures
            !parameters.debug_mode,
            parameters.config_path is None,
    {
        VmParameters { debug_mode: false, config_path: None }
    }

    /// How much of the guest may be looked into: everything in debug mode, nothing
    /// otherwise.
    pub fn debug_level(&self) -> (level: DebugLevel)
        ensures
            level == (if self.debug_mode {
                DebugLevel::Full
            } else {
                DebugLevel::Off
            }),
    {
        if self.debug_mode {
            DebugLevel::Full
        } else {
            DebugLevel::Off
        }
    }

    /// The path of the configuration of the machine: the one that was asked for, or
    /// `default_path`.
    pub fn config_path_or(&self, default_path: &str) -> (path: String)
        ensures
            path@ == (match self.config_path {
                Some(p) => p@,
                None => default_path@,
            }),
    {
        match &self.config_path {
            Some(path) => path.clone(),
            None => String::from_str(default_path),
        }
    }
}

impl VmStateMonitor {
    /// A monitor of a machine of which nothing is known yet.
    pub fn new() -> (monitor: VmStateMonitor)
        ensures
            monitor@ == (VmStateMonitorView { has_died: false, cid: None }),
    {
        VmStateMonitor { has_died: false, cid: None }
    }

    /// Takes note that the machine has ended. It is not ready any more, and never
    /// will be.
    pub fn set_died(&mut self)
        ensures
            final(self)@ == (VmStateMonitorView { has_died: true, cid: None }),
    {
        self.has_died = true;
        self.cid = None;
    }

    /// Takes note that the machine is ready under the CID `cid`, unless it has ended
    /// before.
    pub fn set_ready(&mut self, cid: i32)
        ensures
            final(self)@ == (if old(self)@.has_died {
                old(self)@
            } else {
                VmStateMonitorView { has_died: false, cid: Some(cid) }
            }),
    {
        if self.has_died {
            return ;
        }
        self.cid = Some(cid);
    }

    /// Takes note of an event that the client was told of.
    pub fn observe(&mut self, event: &CallbackEvent)
        ensures
            final(self)@ == old(self)@.observed(event@),
    {
        match event {
            CallbackEvent::PayloadReady { cid } => {
                self.set_ready(*cid);
            },
            CallbackEvent::Died { .. } => {
                self.set_died();
            },
            CallbackEvent::PayloadFinished { .. } => {
                self.set_died();
            },
            CallbackEvent::Error { .. } => {
                self.set_died();
            },
            _ => {},
        }
    }

    /// Whether there is still something to wait for.
    pub fn is_waiting(&self) -> (r: bool)
        ensures
            r == self@.waiting(),
    {
        self.cid.is_none() && !self.has_died
    }

    /// What waiting for the machine ends with, given whether the time allowed for it
    /// is over: the CID of the machine that is ready, or why there is none.
    pub fn wait_until_ready(&self, timed_out: bool) -> (r: Result<i32, WaitError>)
        ensures
            r == self@.outcome(timed_out),
    {
        if timed_out {
            return Err(WaitError::TimedOut);
        }
        match self.cid {
            Some(cid) => Ok(cid),
            None => Err(WaitError::Died),
        }
    }
}

/// A machine that has ended is never ready again, whatever the client is told of it
/// later: nobody waits for it any more, and waiting for it ends without a CID.
pub proof fn lemma_died_stays_died(
    monitor: VmStateMonitorView,
    event: CallbackEventView,
    timed_out: bool,
)
    requires
        monitor.has_died,
        monitor.cid is None,
    ensures
        monitor.observed(event).has_died,
        monitor.observed(event).cid is None,
        !monitor.observed(event).waiting(),
        monitor.observed(event).outcome(timed_out) is Err,
{
}

} // verus!
