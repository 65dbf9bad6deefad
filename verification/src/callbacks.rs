//! The listeners of a virtual machine, and what is sent to them.
//!
//! A listener lives in another process. The service knows it by an identifier, and
//! decides which event goes to which listeners; the caller makes the remote calls, one
//! for each listener, and a call that fails does not keep the others from being made.

use crate::cid::Cid;
use crate::disk::FileHandle;
use vstd::prelude::*;

verus! {

/// The name by which the service knows a registered listener.
pub type ListenerId = u64;

/// Why a virtual machine ended.
#[derive(Clone, Copy, Debug, PartialEq, Eq, Structural)]
pub enum DeathReason {
    /// The process that ran the machine could not be watched.
    InfrastructureError,
    /// The machine was stopped on request.
    Killed,
    /// The process ended for a reason that it did not give.
    Unknown,
    /// The guest shut itself down.
    Shutdown,
    /// The machine could not be started.
    StartFailed,
    /// The guest asked for a reboot.
    Reboot,
    /// The guest crashed.
    Crash,
    /// The guest no longer answered.
    Hangup,
}

/// An event of a virtual machine, as a listener is told of it. The CID is given as the
/// signed number that the remote interface carries.
#[derive(Clone, Debug, PartialEq, Eq)]
pub enum CallbackEvent {
    PayloadStarted { cid: i32 },
    PayloadReady { cid: i32 },
    PayloadFinished { cid: i32, exit_code: i32 },
    Error { cid: i32, error_code: i32, message: String },
    PayloadStdio { cid: i32, fd: FileHandle },
    Died { cid: i32, reason: DeathReason },
    Ramdump { cid: i32, ramdump: FileHandle },
}

/// An event with its text as plain characters.
pub enum CallbackEventView {
    PayloadStarted { cid: i32 },
    PayloadReady { cid: i32 },
    PayloadFinished { cid: i32, exit_code: i32 },
    Error { cid: i32, error_code: i32, message: Seq<char> },
    PayloadStdio { cid: i32, fd: FileHandle },
    Died { cid: i32, reason: DeathReason },
    Ramdump { cid: i32, ramdump: FileHandle },
}

impl View for CallbackEvent {
    type V = CallbackEventView;

    open spec fn view(&self) -> CallbackEventView {
        match self {
            CallbackEvent::PayloadStarted { cid } => CallbackEventView::PayloadStarted {
                cid: *cid,
            },
            CallbackEvent::PayloadReady { cid } => CallbackEventView::PayloadReady { cid: *cid },
            CallbackEvent::PayloadFinished { cid, exit_code } => {
                CallbackEventView::PayloadFinished { cid: *cid, exit_code: *exit_code }
            },
            CallbackEvent::Error { cid, error_code, message } => CallbackEventView::Error {
                cid: *cid,
                error_code: *error_code,
                message: message@,
            },
            CallbackEvent::PayloadStdio { cid, fd } => CallbackEventView::PayloadStdio {
                cid: *cid,
                fd: *fd,
            },
            CallbackEvent::Died { cid, reason } => CallbackEventView::Died {
                cid: *cid,
                reason: *reason,
            },
            CallbackEvent::Ramdump { cid, ramdump } => CallbackEventView::Ramdump {
                cid: *cid,
                ramdump: *ramdump,
            },
        }
    }
}

/// One event and the listeners that are to be told of it, each of them once.
#[derive(Clone, Debug, PartialEq, Eq)]
pub struct Notification {
    pub event: CallbackEvent,
    pub listeners: Vec<ListenerId>,
}

/// A notification as plain values.
pub struct NotificationView {
    pub event: CallbackEventView,
    pub listeners: Seq<ListenerId>,
}

impl View for Notification {
    type V = NotificationView;

    open spec fn view(&self) -> NotificationView {
        NotificationView { event: self.event@, listeners: self.listeners@ }
    }
}

/// The view of a notification that may be absent.
pub open spec fn notification_view(n: Option<Notification>) -> Option<NotificationView> {
    match n {
        Some(n) => Some(n@),
        None => None,
    }
}

/// A CID as the signed 32-bit number with the same bits.
pub open spec fn cid_as_i32(cid: Cid) -> i32 {
    if cid <= i32::MAX {
        cid as i32
    } else {
        (cid - 0x1_0000_0000) as i32
    }
}

/// The listeners, among those of a notification, that did not get it: those whose
/// delivery is not reported as done. The order is that of the notification.
pub open spec fn failed_listeners(listeners: Seq<ListenerId>, delivered: Seq<bool>) -> Seq<
    ListenerId,
>
    decreases listeners.len(),
{
    if listeners.len() == 0 {
        Seq::empty()
    } else {
        let before = failed_listeners(listeners.drop_last(), delivered);
        let at = listeners.len() - 1;
        if at < delivered.len() && delivered[at] {
            before
        } else {
            before.push(listeners.last())
        }
    }
}

/// Converts a CID to the signed number that the remote interface carries.
pub fn cid_to_i32(cid: Cid) -> (r: i32)
    ensures
        r == cid_as_i32(cid),
{
    if cid <= 0x7fff_ffff {
        cid as i32
    } else {
        (cid as i64 - 0x1_0000_0000) as i32
    }
}

/// The listeners of one virtual machine, in the order in which they were registered.
/// A listener stays registered whatever becomes of the calls that are made to it.
#[derive(Debug)]
pub struct VirtualMachineCallbacks {
    listeners: Vec<ListenerId>,
}

impl View for VirtualMachineCallbacks {
    type V = Seq<ListenerId>;

    closed spec fn view(&self) -> Seq<ListenerId> {
        self.listeners@
    }
}

impl VirtualMachineCallbacks {
    /// No listeners.
    pub fn new() -> (callbacks: VirtualMachineCallbacks)
        ensures
            callbacks@ == Seq::<ListenerId>::empty(),
    {
        VirtualMachineCallbacks { listeners: Vec::new() }
    }

    /// The registered listeners.
    pub fn listeners(&self) -> (listeners: Vec<ListenerId>)
        ensures
            listeners@ == self@,
    {
        self.listeners.clone()
    }

    /// The notification of `event` to every registered listener.
    fn notify(&self, event: CallbackEvent) -> (n: Notification)
        ensures
            n.event == event,
            n.listeners@ == self@,
    {
        Notification { event, listeners: self.listeners.clone() }
    }

    /// Tells every registered listener that the payload has started.
    pub fn notify_payload_started(&self, cid: Cid) -> (n: Notification)
        ensures
            n@ == (NotificationView {
                event: CallbackEventView::PayloadStarted { cid: cid_as_i32(cid) },
                listeners: self@,
            }),
    {
        self.notify(CallbackEvent::PayloadStarted { cid: cid_to_i32(cid) })
    }

    /// Tells every registered listener that the payload is ready to serve.
    pub fn notify_payload_ready(&self, cid: Cid) -> (n: Notification)
        ensures
            n@ == (NotificationView {
                event: CallbackEventView::PayloadReady { cid: cid_as_i32(cid) },
                listeners: self@,
            }),
    {
        self.notify(CallbackEvent::PayloadReady { cid: cid_to_i32(cid) })
    }

    /// Tells every registered listener that the payload has finished.
    pub fn notify_payload_finished(&self, cid: Cid, exit_code: i32) -> (n: Notification)
        ensures
            n@ == (NotificationView {
                event: CallbackEventView::PayloadFinished { cid: cid_as_i32(cid), exit_code },
                listeners: self@,
            }),
    {
        self.notify(CallbackEvent::PayloadFinished { cid: cid_to_i32(cid), exit_code })
    }

    /// Tells every registered listener that the machine met an error.
    pub fn notify_error(&self, cid: Cid, error_code: i32, message: &str) -> (n: Notification)
        ensures
            n@ == (NotificationView {
                event: CallbackEventView::Error {
                    cid: cid_as_i32(cid),
                    error_code,
                    message: message@,
                },
                listeners: self@,
            }),
    {
        self.notify(
            CallbackEvent::Error {
                cid: cid_to_i32(cid),
                error_code,
                message: String::from_str(message),
            },
        )
    }

    /// Tells every registered listener that the payload offers its standard input and
    /// output over `fd`.
    pub fn notify_payload_stdio(&self, cid: Cid, fd: FileHandle) -> (n: Notification)
        ensures
            n@ == (NotificationView {
                event: CallbackEventView::PayloadStdio { cid: cid_as_i32(cid), fd },
                listeners: self@,
            }),
    {
        self.notify(CallbackEvent::PayloadStdio { cid: cid_to_i32(cid), fd })
    }

    /// Tells every registered listener that the machine has ended.
    pub fn callback_on_died(&self, cid: Cid, reason: DeathReason) -> (n: Notification)
        ensures
            n@ == (NotificationView {
                event: CallbackEventView::Died { cid: cid_as_i32(cid), reason },
                listeners: self@,
            }),
    {
        self.notify(CallbackEvent::Died { cid: cid_to_i32(cid), reason })
    }

    /// Tells every registered listener that a dump of the machine's memory can be
    /// read from `ramdump`.
    pub fn callback_on_ramdump(&self, cid: Cid, ramdump: FileHandle) -> (n: Notification)
        ensures
            n@ == (NotificationView {
                event: CallbackEventView::Ramdump { cid: cid_as_i32(cid), ramdump },
                listeners: self@,
            }),
    {
        self.notify(CallbackEvent::Ramdump { cid: cid_to_i32(cid), ramdump })
    }

    /// Registers one more listener.
    pub fn add(&mut self, callback: ListenerId)
        ensures
            final(self)@ == old(self)@.push(callback),
    {
        self.listeners.push(callback);
    }
}

/// The listeners of a notification whose call failed, so that the caller can log them.
///
/// `delivered` holds, for each listener of the notification in its order, whether the
/// call came through; a listener for which it holds nothing counts as not reached.
pub fn failed_deliveries(notification: &Notification, delivered: &Vec<bool>) -> (failed: Vec<
    ListenerId,
>)
    ensures
        failed@ == failed_listeners(notification.listeners@, delivered@),
{
    let mut failed: Vec<ListenerId> = Vec::new();
    let mut i: usize = 0;
    proof {
        assert(notification.listeners@.take(0) =~= Seq::<ListenerId>::empty());
    }
    while i < notification.listeners.len()
        invariant
            i <= notification.listeners@.len(),
            failed@ == failed_listeners(notification.listeners@.take(i as int), delivered@),
        decreases notification.listeners@.len() - i,
    {
        proof {
            assert(notification.listeners@.take(i + 1).drop_last()
                =~= notification.listeners@.take(i as int));
        }
        if !(i < delivered.len() && delivered[i]) {
            failed.push(notification.listeners[i]);
        }
        i += 1;
    }
    proof {
        assert(notification.listeners@.take(i as int) =~= notification.listeners@);
    }
    failed
}

/// A listener whose call did not come through is among the failed ones, whatever
/// became of the calls to the others; and where every call came through, no listener
/// has failed.
pub proof fn lemma_failed_listeners(listeners: Seq<ListenerId>, delivered: Seq<bool>, at: int)
    requires
        0 <= at < listeners.len(),
    ensures
        failed_listeners(listeners, delivered).len() <= listeners.len(),
        !(at < delivered.len() && delivered[at]) ==> failed_listeners(
            listeners,
            delivered,
        ).contains(listeners[at]),
        (forall|i: int| 0 <= i < listeners.len() && i < delivered.len() ==> delivered[i])
            && delivered.len() >= listeners.len() ==> failed_listeners(listeners, delivered).len()
            == 0,
    decreases listeners.len(),
{
    let before = failed_listeners(listeners.drop_last(), delivered);
    let last = listeners.len() - 1;
    if listeners.len() > 1 {
        let earlier = if at < last {
            at
        } else {
            0
        };
        lemma_failed_listeners(listeners.drop_last(), delivered, earlier);
    }
    if at < last {
        if !(at < delivered.len() && delivered[at]) {
            let w = choose|w: int| 0 <= w < before.len() && before[w] == listeners[at];
            assert(before.contains(listeners.drop_last()[at]));
            if !(last < delivered.len() && delivered[last]) {
                assert(before.push(listeners.last())[w] == listeners[at]);
            }
        }
    } else {
        if !(last < delivered.len() && delivered[last]) {
            assert(before.push(listeners.last())[before.len() as int] == listeners[at]);
        }
    }
}

/// Each of the failed ones is a listener whose call did not come through.
pub proof fn lemma_failed_were_not_reached(listeners: Seq<ListenerId>, delivered: Seq<bool>)
    ensures
        forall|w: int|
            0 <= w < failed_listeners(listeners, delivered).len() ==> exists|i: int|
                0 <= i < listeners.len() && listeners[i] == #[trigger] failed_listeners(
                    listeners,
                    delivered,
                )[w] && !(i < delivered.len() && delivered[i]),
    decreases listeners.len(),
{
    if listeners.len() > 0 {
        let rest = listeners.drop_last();
        let before = failed_listeners(rest, delivered);
        let failed = failed_listeners(listeners, delivered);
        let last = listeners.len() - 1;
        lemma_failed_were_not_reached(rest, delivered);
        assert forall|w: int| 0 <= w < failed.len() implies exists|i: int|
            0 <= i < listeners.len() && listeners[i] == #[trigger] failed[w] && !(i
                < delivered.len() && delivered[i]) by {
            if w < before.len() {
                assert(failed[w] == before[w]);
                let i = choose|i: int|
                    0 <= i < rest.len() && rest[i] == before[w] && !(i < delivered.len()
                        && delivered[i]);
                assert(listeners[i] == rest[i]);
            } else {
                assert(listeners[last] == failed[w]);
            }
        }
    }
}

/// A listener that is registered once and whose call came through is not among the
/// failed ones, whatever became of the calls to the others.
pub proof fn lemma_reached_listener_has_not_failed(
    listeners: Seq<ListenerId>,
    delivered: Seq<bool>,
    at: int,
)
    requires
        listeners.no_duplicates(),
        0 <= at < listeners.len(),
        at < delivered.len(),
        delivered[at],
    ensures
        !failed_listeners(listeners, delivered).contains(listeners[at]),
{
    let failed = failed_listeners(listeners, delivered);
    lemma_failed_were_not_reached(listeners, delivered);
    if failed.contains(listeners[at]) {
        let w = choose|w: int| 0 <= w < failed.len() && failed[w] == listeners[at];
        let i = choose|i: int|
            0 <= i < listeners.len() && listeners[i] == failed[w] && !(i < delivered.len()
                && delivered[i]);
        assert(i == at);
    }
}

} // verus!
