//! One virtual machine as the service sees it: who asked for it, where its scratch
//! files are, how far it has come, and who listens to it.
//!
//! The machine itself runs in a process of its own, which the caller starts, stops
//! and watches. The instance is told what happened to that process and what the guest
//! reports, and says in return what state the machine is in and what the listeners
//! are to be told.

use crate::callbacks::{
    cid_as_i32, notification_view, CallbackEventView, DeathReason, ListenerId, Notification,
    NotificationView, VirtualMachineCallbacks,
};
use crate::cid::Cid;
use crate::disk::FileHandle;
use crate::error::ErrorKind;
use vstd::prelude::*;

verus! {

/// The state of the process that runs a virtual machine.
#[derive(Clone, Copy, Debug, PartialEq, Eq, Structural)]
pub enum VmState {
    /// The process has not been started yet.
    NotStarted,
    /// The process runs.
    Running,
    /// The process has ended, or the machine was stopped.
    Dead,
    /// The process could not be started.
    Failed,
}

/// How far the payload of a running machine has come, as the guest reports it.
#[derive(Clone, Copy, Debug, PartialEq, Eq, Structural)]
pub enum PayloadState {
    Starting,
    Started,
    Ready,
    Finished,
    /// The guest no longer answers.
    Hangup,
}

/// The state of a machine as its owner is told.
#[derive(Clone, Copy, Debug, PartialEq, Eq, Structural)]
pub enum VirtualMachineState {
    NotStarted,
    Starting,
    Started,
    Ready,
    Finished,
    Dead,
}

/// What the guest reports of itself.
#[derive(Clone, Debug, PartialEq, Eq)]
pub enum GuestEvent {
    PayloadStarted,
    PayloadReady,
    PayloadFinished { exit_code: i32 },
    Error { error_code: i32, message: String },
}

/// A report of the guest with its text as plain characters.
pub enum GuestEventView {
    PayloadStarted,
    PayloadReady,
    PayloadFinished { exit_code: i32 },
    Error { error_code: i32, message: Seq<char> },
}

impl View for GuestEvent {
    type V = GuestEventView;

    open spec fn view(&self) -> GuestEventView {
        match self {
            GuestEvent::PayloadStarted => GuestEventView::PayloadStarted,
            GuestEvent::PayloadReady => GuestEventView::PayloadReady,
            GuestEvent::PayloadFinished { exit_code } => GuestEventView::PayloadFinished {
                exit_code: *exit_code,
            },
            GuestEvent::Error { error_code, message } => GuestEventView::Error {
                error_code: *error_code,
                message: message@,
            },
        }
    }
}

/// What has to be done once a machine was asked to stop.
pub struct KillOutcome {
    /// Whether the process that runs the machine has to be ended.
    pub terminate: bool,
    /// What the listeners are to be told, if anything.
    pub notification: Option<Notification>,
}

/// The place of a payload state in the order in which a payload moves on.
pub open spec fn payload_rank(state: PayloadState) -> nat {
    match state {
        PayloadState::Starting => 0,
        PayloadState::Started => 1,
        PayloadState::Ready => 2,
        PayloadState::Finished => 3,
        PayloadState::Hangup => 4,
    }
}

/// Whether a payload in this state moves no further.
pub open spec fn payload_is_terminal(state: PayloadState) -> bool {
    state == PayloadState::Finished || state == PayloadState::Hangup
}

/// Whether the process state is one that a machine never leaves.
pub open spec fn vm_is_terminal(state: VmState) -> bool {
    state == VmState::Dead || state == VmState::Failed
}

/// Whether the guest may report the payload state `to` while the payload is in the
/// state `from`: the payload only moves forward, and a hang-up is never reported by
/// the guest.
pub open spec fn may_report(from: PayloadState, to: PayloadState) -> bool {
    to != PayloadState::Hangup && payload_rank(from) < payload_rank(to)
}

/// The payload state that a report of the guest leads to.
pub open spec fn reported_state(event: GuestEventView) -> PayloadState {
    match event {
        GuestEventView::PayloadStarted => PayloadState::Started,
        GuestEventView::PayloadReady => PayloadState::Ready,
        GuestEventView::PayloadFinished { .. } => PayloadState::Finished,
        GuestEventView::Error { .. } => PayloadState::Finished,
    }
}

/// What the listeners of the machine `cid` are told of a report of the guest.
pub open spec fn reported_event(cid: Cid, event: GuestEventView) -> CallbackEventView {
    match event {
        GuestEventView::PayloadStarted => CallbackEventView::PayloadStarted {
            cid: cid_as_i32(cid),
        },
        GuestEventView::PayloadReady => CallbackEventView::PayloadReady { cid: cid_as_i32(cid) },
        GuestEventView::PayloadFinished { exit_code } => CallbackEventView::PayloadFinished {
            cid: cid_as_i32(cid),
            exit_code,
        },
        GuestEventView::Error { error_code, message } => CallbackEventView::Error {
            cid: cid_as_i32(cid),
            error_code,
            message,
        },
    }
}

/// The state that the owner of a machine is told: a machine that runs is as far as
/// its payload, one whose guest hangs counts as dead, and so does one that failed.
pub open spec fn state_of(vm_state: VmState, payload_state: PayloadState) -> VirtualMachineState {
    match vm_state {
        VmState::NotStarted => VirtualMachineState::NotStarted,
        VmState::Running => match payload_state {
            PayloadState::Starting => VirtualMachineState::Starting,
            PayloadState::Started => VirtualMachineState::Started,
            PayloadState::Ready => VirtualMachineState::Ready,
            PayloadState::Finished => VirtualMachineState::Finished,
            PayloadState::Hangup => VirtualMachineState::Dead,
        },
        VmState::Dead => VirtualMachineState::Dead,
        VmState::Failed => VirtualMachineState::Dead,
    }
}

/// An instance as plain values.
pub struct VmInstanceView {
    pub cid: Cid,
    pub vm_state: VmState,
    pub payload_state: PayloadState,
    pub requester_uid: u32,
    pub requester_debug_pid: i32,
    pub temporary_directory: Seq<char>,
    pub name: Seq<char>,
    pub protected: bool,
    pub vm_start_timestamp: Option<u64>,
    pub callbacks: Seq<ListenerId>,
}

impl VmInstanceView {
    /// Whether the payload has only moved if the machine was started: a machine
    /// that was not started has a payload that is about to start, and no time of start.
    pub open spec fn consistent(self) -> bool {
        self.vm_state == VmState::NotStarted ==> self.payload_state == PayloadState::Starting
            && self.vm_start_timestamp is None
    }

    /// What a request to start answers, given whether the process could be launched.
    pub open spec fn start_result(self, launched: bool) -> Result<(), ErrorKind> {
        if self.vm_state != VmState::NotStarted {
            Err(ErrorKind::IllegalState)
        } else if launched {
            Ok(())
        } else {
            Err(ErrorKind::Internal)
        }
    }

    /// The instance after a request to start at the time `now`.
    pub open spec fn started(self, launched: bool, now: u64) -> VmInstanceView {
        if self.vm_state != VmState::NotStarted {
            self
        } else if launched {
            VmInstanceView {
                vm_state: VmState::Running,
                payload_state: PayloadState::Starting,
                vm_start_timestamp: Some(now),
                ..self
            }
        } else {
            VmInstanceView { vm_state: VmState::Failed, ..self }
        }
    }

    /// The instance after a request to stop.
    pub open spec fn killed(self) -> VmInstanceView {
        if vm_is_terminal(self.vm_state) {
            self
        } else {
            VmInstanceView { vm_state: VmState::Dead, ..self }
        }
    }

    /// The instance after its process has ended.
    pub open spec fn died(self, reason: DeathReason) -> VmInstanceView {
        if vm_is_terminal(self.vm_state) {
            self
        } else {
            VmInstanceView {
                vm_state: VmState::Dead,
                payload_state: if self.vm_state == VmState::Running && reason
                    == DeathReason::Hangup && !payload_is_terminal(self.payload_state) {
                    PayloadState::Hangup
                } else {
                    self.payload_state
                },
                ..self
            }
        }
    }

    /// Whether the guest's report of the payload state `new_state` is taken.
    pub open spec fn accepts(self, new_state: PayloadState) -> bool {
        self.vm_state == VmState::Running && may_report(self.payload_state, new_state)
    }

    /// The instance after the guest has reported the payload state `new_state`.
    pub open spec fn reported(self, new_state: PayloadState) -> VmInstanceView {
        if self.accepts(new_state) {
            VmInstanceView { payload_state: new_state, ..self }
        } else {
            self
        }
    }

    /// What the listeners are told when the machine ends for `reason`.
    pub open spec fn death_notice(self, reason: DeathReason) -> NotificationView {
        NotificationView {
            event: CallbackEventView::Died { cid: cid_as_i32(self.cid), reason },
            listeners: self.callbacks,
        }
    }
}

/// A virtual machine that the service has created.
#[derive(Debug)]
pub struct VmInstance {
    cid: Cid,
    vm_state: VmState,
    payload_state: PayloadState,
    requester_uid: u32,
    requester_debug_pid: i32,
    temporary_directory: String,
    name: String,
    protected: bool,
    vm_start_timestamp: Option<u64>,
    callbacks: VirtualMachineCallbacks,
}

impl View for VmInstance {
    type V = VmInstanceView;

    closed spec fn view(&self) -> VmInstanceView {
        VmInstanceView {
            cid: self.cid,
            vm_state: self.vm_state,
            payload_state: self.payload_state,
            requester_uid: self.requester_uid,
            requester_debug_pid: self.requester_debug_pid,
            temporary_directory: self.temporary_directory@,
            name: self.name@,
            protected: self.protected,
            vm_start_timestamp: self.vm_start_timestamp,
            callbacks: self.callbacks@,
        }
    }
}

impl VmInstance {
    /// A machine that has not been started, with no listeners.
    pub fn new(
        cid: Cid,
        name: &str,
        temporary_directory: &str,
        requester_uid: u32,
        requester_debug_pid: i32,
        protected: bool,
    ) -> (instance: VmInstance)
        ensures
            instance@ == (VmInstanceView {
                cid,
                vm_state: VmState::NotStarted,
                payload_state: PayloadState::Starting,
                requester_uid,
                requester_debug_pid,
                temporary_directory: temporary_directory@,
                name: name@,
                protected,
                vm_start_timestamp: None,
                callbacks: Seq::empty(),
            }),
    {
        VmInstance {
            cid,
            vm_state: VmState::NotStarted,
            payload_state: PayloadState::Starting,
            requester_uid,
            requester_debug_pid,
            temporary_directory: String::from_str(temporary_directory),
            name: String::from_str(name),
            protected,
            vm_start_timestamp: None,
            callbacks: VirtualMachineCallbacks::new(),
        }
    }

    /// Whether the machine can still be started.
    pub fn can_start(&self) -> (r: bool)
        ensures
            r == (self@.vm_state == VmState::NotStarted),
    {
        self.vm_state == VmState::NotStarted
    }

    /// Starts the machine, given whether its process could be launched: the caller
    /// launches the process only where `can_start` holds, and says here how that went.
    ///
    /// A machine that was started before stays as it is, and the request is refused.
    /// Otherwise the machine runs from `now` on, or has failed for good where the
    /// process could not be launched.
    pub fn start(&mut self, launched: bool, now: u64) -> (r: Result<(), ErrorKind>)
        ensures
            r == old(self)@.start_result(launched),
            final(self)@ == old(self)@.started(launched, now),
    {
        if self.vm_state != VmState::NotStarted {
            Err(ErrorKind::IllegalState)
        } else if launched {
            self.vm_state = VmState::Running;
            self.payload_state = PayloadState::Starting;
            self.vm_start_timestamp = Some(now);
            Ok(())
        } else {
            self.vm_state = VmState::Failed;
            Err(ErrorKind::Internal)
        }
    }

    /// Stops the machine. A machine that has ended or failed stays as it is, and
    /// nothing has to be done; otherwise it is dead from now on, its listeners are
    /// told so, and its process, if it runs, has to be ended.
    pub fn kill(&mut self) -> (outcome: KillOutcome)
        ensures
            final(self)@ == old(self)@.killed(),
            outcome.terminate == (old(self)@.vm_state == VmState::Running),
            notification_view(outcome.notification) == (if vm_is_terminal(old(self)@.vm_state) {
                None
            } else {
                Some(old(self)@.death_notice(DeathReason::Killed))
            }),
    {
        match self.vm_state {
            VmState::Dead | VmState::Failed => KillOutcome { terminate: false, notification: None },
            VmState::NotStarted => {
                self.vm_state = VmState::Dead;
                KillOutcome {
                    terminate: false,
                    notification: Some(
                        self.callbacks.callback_on_died(self.cid, DeathReason::Killed),
                    ),
                }
            },
            VmState::Running => {
                self.vm_state = VmState::Dead;
                KillOutcome {
                    terminate: true,
                    notification: Some(
                        self.callbacks.callback_on_died(self.cid, DeathReason::Killed),
                    ),
                }
            },
        }
    }

    /// Takes note that the process of the machine has ended. The machine is dead from
    /// now on, and its listeners are told why, unless it had ended or failed before.
    /// A machine that ran and whose guest no longer answered has a payload that hangs,
    /// unless the payload had come to its end.
    pub fn process_died(&mut self, reason: DeathReason) -> (notification: Option<Notification>)
        ensures
            final(self)@ == old(self)@.died(reason),
            notification_view(notification) == (if vm_is_terminal(old(self)@.vm_state) {
                None
            } else {
                Some(old(self)@.death_notice(reason))
            }),
    {
        match self.vm_state {
            VmState::Dead | VmState::Failed => None,
            VmState::NotStarted => {
                self.vm_state = VmState::Dead;
                Some(self.callbacks.callback_on_died(self.cid, reason))
            },
            VmState::Running => {
                self.vm_state = VmState::Dead;
                if reason == DeathReason::Hangup && self.payload_state != PayloadState::Finished
                    && self.payload_state != PayloadState::Hangup {
                    self.payload_state = PayloadState::Hangup;
                }
                Some(self.callbacks.callback_on_died(self.cid, reason))
            },
        }
    }

    /// Takes the payload state that the guest reports. The report is refused, and
    /// nothing changes, unless the machine runs and the payload moves forward by it.
    pub fn update_payload_state(&mut self, new_state: PayloadState) -> (r: Result<(), ErrorKind>)
        ensures
            final(self)@ == old(self)@.reported(new_state),
            r == (if old(self)@.accepts(new_state) {
                Ok::<(), ErrorKind>(())
            } else {
                Err::<(), ErrorKind>(ErrorKind::IllegalState)
            }),
    {
        if self.vm_state == VmState::Running && new_state != PayloadState::Hangup
            && Self::rank(self.payload_state) < Self::rank(new_state) {
            self.payload_state = new_state;
            Ok(())
        } else {
            Err(ErrorKind::IllegalState)
        }
    }

    fn rank(state: PayloadState) -> (r: u8)
        ensures
            r == payload_rank(state),
    {
        match state {
            PayloadState::Starting => 0,
            PayloadState::Started => 1,
            PayloadState::Ready => 2,
            PayloadState::Finished => 3,
            PayloadState::Hangup => 4,
        }
    }

    /// Takes a report of the guest: moves the payload on, and says what the listeners
    /// are to be told. The report is refused, and nothing changes, unless the machine
    /// runs and the payload moves forward by it.
    pub fn handle_guest_event(&mut self, event: &GuestEvent) -> (r: Result<
        Notification,
        ErrorKind,
    >)
        ensures
            final(self)@ == old(self)@.reported(reported_state(event@)),
            match r {
                Ok(n) => old(self)@.accepts(reported_state(event@)) && n@ == (NotificationView {
                    event: reported_event(old(self)@.cid, event@),
                    listeners: old(self)@.callbacks,
                }),
                Err(e) => !old(self)@.accepts(reported_state(event@)) && e
                    == ErrorKind::IllegalState,
            },
    {
        match event {
            GuestEvent::PayloadStarted => {
                match self.update_payload_state(PayloadState::Started) {
                    Ok(()) => Ok(self.callbacks.notify_payload_started(self.cid)),
                    Err(e) => Err(e),
                }
            },
            GuestEvent::PayloadReady => {
                match self.update_payload_state(PayloadState::Ready) {
                    Ok(()) => Ok(self.callbacks.notify_payload_ready(self.cid)),
                    Err(e) => Err(e),
                }
            },
            GuestEvent::PayloadFinished { exit_code } => {
                match self.update_payload_state(PayloadState::Finished) {
                    Ok(()) => Ok(self.callbacks.notify_payload_finished(self.cid, *exit_code)),
                    Err(e) => Err(e),
                }
            },
            GuestEvent::Error { error_code, message } => {
                match self.update_payload_state(PayloadState::Finished) {
                    Ok(()) => Ok(
                        self.callbacks.notify_error(self.cid, *error_code, message.as_str()),
                    ),
                    Err(e) => Err(e),
                }
            },
        }
    }

    /// What the listeners are told when the guest offers its standard input and
    /// output over `fd`.
    pub fn notify_payload_stdio(&self, fd: FileHandle) -> (n: Notification)
        ensures
            n@ == (NotificationView {
                event: CallbackEventView::PayloadStdio { cid: cid_as_i32(self@.cid), fd },
                listeners: self@.callbacks,
            }),
    {
        self.callbacks.notify_payload_stdio(self.cid, fd)
    }

    /// What the listeners are told when a dump of the machine's memory can be read.
    pub fn notify_ramdump(&self, ramdump: FileHandle) -> (n: Notification)
        ensures
            n@ == (NotificationView {
                event: CallbackEventView::Ramdump { cid: cid_as_i32(self@.cid), ramdump },
                listeners: self@.callbacks,
            }),
    {
        self.callbacks.callback_on_ramdump(self.cid, ramdump)
    }

    /// Registers a listener. It is told of whatever happens from now on.
    pub fn register_callback(&mut self, listener: ListenerId)
        ensures
            final(self)@ == (VmInstanceView {
                callbacks: old(self)@.callbacks.push(listener),
                ..old(self)@
            }),
    {
        self.callbacks.add(listener);
    }

    /// The CID of the machine.
    pub fn cid(&self) -> (cid: Cid)
        ensures
            cid == self@.cid,
    {
        self.cid
    }

    /// The state of the process.
    pub fn vm_state(&self) -> (state: VmState)
        ensures
            state == self@.vm_state,
    {
        self.vm_state
    }

    /// How far the payload has come.
    pub fn payload_state(&self) -> (state: PayloadState)
        ensures
            state == self@.payload_state,
    {
        self.payload_state
    }

    /// The state of the machine as its owner is told.
    pub fn current_state(&self) -> (state: VirtualMachineState)
        ensures
            state == state_of(self@.vm_state, self@.payload_state),
    {
        get_state(self)
    }

    /// The user on whose behalf the machine was created.
    pub fn requester_uid(&self) -> (uid: u32)
        ensures
            uid == self@.requester_uid,
    {
        self.requester_uid
    }

    /// The process that asked for the machine.
    pub fn requester_debug_pid(&self) -> (pid: i32)
        ensures
            pid == self@.requester_debug_pid,
    {
        self.requester_debug_pid
    }

    /// The directory of the machine's scratch files.
    pub fn temporary_directory(&self) -> (dir: &str)
        ensures
            dir@ == self@.temporary_directory,
    {
        self.temporary_directory.as_str()
    }

    /// The name that the machine was given.
    pub fn name(&self) -> (name: &str)
        ensures
            name@ == self@.name,
    {
        self.name.as_str()
    }

    /// Whether the memory of the machine is protected from the host.
    pub fn protected(&self) -> (protected: bool)
        ensures
            protected == self@.protected,
    {
        self.protected
    }

    /// When the machine was started, if it was.
    pub fn vm_start_timestamp(&self) -> (timestamp: Option<u64>)
        ensures
            timestamp == self@.vm_start_timestamp,
    {
        self.vm_start_timestamp
    }

    /// The listeners of the machine.
    pub fn callbacks(&self) -> (callbacks: &VirtualMachineCallbacks)
        ensures
            callbacks@ == self@.callbacks,
    {
        &self.callbacks
    }
}

/// The state of a machine as its owner is told.
pub fn get_state(instance: &VmInstance) -> (state: VirtualMachineState)
    ensures
        state == state_of(instance@.vm_state, instance@.payload_state),
{
    match instance.vm_state {
        VmState::NotStarted => VirtualMachineState::NotStarted,
        VmState::Running => match instance.payload_state {
            PayloadState::Starting => VirtualMachineState::Starting,
            PayloadState::Started => VirtualMachineState::Started,
            PayloadState::Ready => VirtualMachineState::Ready,
            PayloadState::Finished => VirtualMachineState::Finished,
            PayloadState::Hangup => VirtualMachineState::Dead,
        },
        VmState::Dead => VirtualMachineState::Dead,
        VmState::Failed => VirtualMachineState::Dead,
    }
}

/// The payload of a machine moves only while the machine runs: whatever the guest
/// reports of a machine that was not started, has ended or has failed is refused and
/// changes nothing, and a report that is taken leaves the machine running.
pub proof fn lemma_reports_need_running(instance: VmInstanceView, new_state: PayloadState)
    ensures
        instance.vm_state != VmState::Running ==> !instance.accepts(new_state)
            && instance.reported(new_state) == instance,
        instance.reported(new_state).payload_state != instance.payload_state
            ==> instance.vm_state == VmState::Running && instance.reported(new_state).vm_state
            == VmState::Running,
{
}

/// A payload goes from starting to started, ready and finished only in that order:
/// a report that is taken moves it forward, and nothing follows once it has finished or
/// hangs.
pub proof fn lemma_payload_moves_forward(instance: VmInstanceView, new_state: PayloadState)
    ensures
        instance.accepts(new_state) ==> payload_rank(instance.payload_state) < payload_rank(
            instance.reported(new_state).payload_state,
        ),
        payload_is_terminal(instance.payload_state) ==> !instance.accepts(new_state),
{
}

/// A machine that was not started has a payload that has not moved, whatever was done
/// to it since it was created.
pub proof fn lemma_consistency_is_kept(
    instance: VmInstanceView,
    launched: bool,
    now: u64,
    reason: DeathReason,
    new_state: PayloadState,
)
    requires
        instance.consistent(),
    ensures
        instance.started(launched, now).consistent(),
        instance.killed().consistent(),
        instance.died(reason).consistent(),
        instance.reported(new_state).consistent(),
{
}

/// Stopping a machine leaves it in a state that it never leaves, whether or not it
/// was started, and stopping it once more changes nothing.
pub proof fn lemma_kill_is_idempotent(instance: VmInstanceView)
    ensures
        vm_is_terminal(instance.killed().vm_state),
        instance.killed().killed() == instance.killed(),
        instance.vm_state == VmState::Failed ==> instance.killed() == instance,
        instance.vm_state != VmState::Failed ==> instance.killed().vm_state == VmState::Dead,
{
}

/// A machine that has ended or failed stays so: no request and no report moves it.
pub proof fn lemma_terminal_states_stay(
    instance: VmInstanceView,
    launched: bool,
    now: u64,
    reason: DeathReason,
    new_state: PayloadState,
)
    requires
        vm_is_terminal(instance.vm_state),
    ensures
        instance.started(launched, now) == instance,
        instance.killed() == instance,
        instance.died(reason) == instance,
        instance.reported(new_state) == instance,
{
}

} // verus!
