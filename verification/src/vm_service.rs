//! What a guest and the owner of a machine may ask of the service once the machine is
//! in the table.
//!
//! A guest is known by the CID from which it calls. Its reports find the machine in
//! the table, move it on, and say what its listeners are to be told. A report for a
//! CID that no machine has, or one that does not fit the state of the machine, is
//! refused and changes nothing.

use crate::callbacks::{cid_as_i32, cid_to_i32, CallbackEventView, Notification, NotificationView};
use crate::cid::Cid;
use crate::disk::FileHandle;
use crate::error::ErrorKind;
use crate::instance::{
    reported_event, reported_state, state_of, GuestEvent, GuestEventView, VirtualMachineState,
    VmInstance, VmInstanceView, VmState,
};
use crate::service::{check_debug_access, has_permission, CallingIdentity, Permission};
use crate::state::{has_live, is_first_live, live_slots, State, StateView};
use vstd::prelude::*;

verus! {

/// Where a connection to a guest goes.
#[derive(Clone, Copy, Debug, PartialEq, Eq, Structural)]
pub struct VsockAddress {
    pub cid: Cid,
    pub port: u32,
}

/// What is told of a machine to somebody who debugs the service.
#[derive(Clone, Debug, PartialEq, Eq)]
pub struct VirtualMachineDebugInfo {
    pub cid: i32,
    pub temporary_directory: String,
    pub requester_uid: i32,
    pub requester_pid: i32,
    pub state: VirtualMachineState,
}

/// The side of the service that a guest talks to.
#[derive(Clone, Copy, Debug, PartialEq, Eq, Structural)]
pub struct VirtualMachineService {
    cid: Cid,
}

impl View for VirtualMachineService {
    type V = Cid;

    closed spec fn view(&self) -> Cid {
        self.cid
    }
}

/// A port of the remote interface as the unsigned number with the same bits.
pub open spec fn port_as_u32(port: i32) -> u32 {
    if port >= 0 {
        port as u32
    } else {
        (port + 0x1_0000_0000) as u32
    }
}

/// Whether `r` and `after` are what a report of the guest with the CID `cid` leads
/// to from the table `before`: the first machine with that CID that is held takes the
/// report if it runs and its payload moves forward by it, and its listeners are told;
/// otherwise the report is refused and the table stays as it is.
pub open spec fn report_routed(
    before: StateView,
    after: StateView,
    cid: Cid,
    event: GuestEventView,
    r: Result<Notification, ErrorKind>,
) -> bool {
    match r {
        Ok(n) => exists|at: int|
            is_first_live(before.vms, cid, at) && before.vms[at].instance.accepts(
                reported_state(event),
            ) && after == before.with_instance(
                at,
                before.vms[at].instance.reported(reported_state(event)),
            ) && n@ == (NotificationView {
                event: reported_event(cid, event),
                listeners: before.vms[at].instance.callbacks,
            }),
        Err(e) => e == ErrorKind::IllegalState && after == before && forall|at: int|
            is_first_live(before.vms, cid, at) ==> !before.vms[at].instance.accepts(
                reported_state(event),
            ),
    }
}

/// What is told of a machine to somebody who debugs the service.
pub open spec fn debug_info_matches(info: VirtualMachineDebugInfo, vm: VmInstanceView) -> bool {
    &&& info.cid == cid_as_i32(vm.cid)
    &&& info.temporary_directory@ == vm.temporary_directory
    &&& info.requester_uid == cid_as_i32(vm.requester_uid)
    &&& info.requester_pid == vm.requester_debug_pid
    &&& info.state == state_of(vm.vm_state, vm.payload_state)
}

impl VirtualMachineService {
    /// The service for the guest that calls from `cid`, if a machine with that CID is
    /// held.
    pub fn factory(cid: Cid, state: &State) -> (r: Option<VirtualMachineService>)
        ensures
            match r {
                Some(service) => has_live(state@.vms, cid) && service@ == cid,
                None => !has_live(state@.vms, cid),
            },
    {
        match state.get_vm(cid) {
            Some(_) => Some(VirtualMachineService { cid }),
            None => None,
        }
    }

    /// The CID of the guest.
    pub fn cid(&self) -> (cid: Cid)
        ensures
            cid == self@,
    {
        self.cid
    }

    /// The guest reports that its payload has started.
    pub fn notify_payload_started(&self, state: &mut State) -> (r: Result<Notification, ErrorKind>)
        ensures
            report_routed(old(state)@, final(state)@, self@, GuestEventView::PayloadStarted, r),
            old(state)@.unique_cids() ==> final(state)@.unique_cids(),
    {
        state.handle_guest_event(self.cid, &GuestEvent::PayloadStarted)
    }

    /// The guest reports that its payload is ready to serve.
    pub fn notify_payload_ready(&self, state: &mut State) -> (r: Result<Notification, ErrorKind>)
        ensures
            report_routed(old(state)@, final(state)@, self@, GuestEventView::PayloadReady, r),
            old(state)@.unique_cids() ==> final(state)@.unique_cids(),
    {
        state.handle_guest_event(self.cid, &GuestEvent::PayloadReady)
    }

    /// The guest reports that its payload has finished.
    pub fn notify_payload_finished(&self, state: &mut State, exit_code: i32) -> (r: Result<
        Notification,
        ErrorKind,
    >)
        ensures
            report_routed(
                old(state)@,
                final(state)@,
                self@,
                GuestEventView::PayloadFinished { exit_code },
                r,
            ),
            old(state)@.unique_cids() ==> final(state)@.unique_cids(),
    {
        state.handle_guest_event(self.cid, &GuestEvent::PayloadFinished { exit_code })
    }

    /// The guest reports an error. Its payload counts as finished.
    pub fn notify_error(&self, state: &mut State, error_code: i32, message: &str) -> (r: Result<
        Notification,
        ErrorKind,
    >)
        ensures
            report_routed(
                old(state)@,
                final(state)@,
                self@,
                GuestEventView::Error { error_code, message: message@ },
                r,
            ),
            old(state)@.unique_cids() ==> final(state)@.unique_cids(),
    {
        state.handle_guest_event(
            self.cid,
            &GuestEvent::Error { error_code, message: String::from_str(message) },
        )
    }

    /// The guest offers its standard input and output on `port`: says where the
    /// caller has to connect to, if a machine with the CID of the guest is held.
    pub fn connect_payload_stdio_proxy(&self, state: &State, port: i32) -> (r: Result<
        VsockAddress,
        ErrorKind,
    >)
        ensures
            match r {
                Ok(address) => has_live(state@.vms, self@) && address == (VsockAddress {
                    cid: self@,
                    port: port_as_u32(port),
                }),
                Err(e) => !has_live(state@.vms, self@) && e == ErrorKind::IllegalState,
            },
    {
        match state.get_vm(self.cid) {
            Some(_) => Ok(VsockAddress { cid: self.cid, port: port_to_u32(port) }),
            None => Err(ErrorKind::IllegalState),
        }
    }

    /// The connection to the standard input and output of the guest stands: says
    /// what the listeners of its machine are to be told.
    pub fn payload_stdio_connected(&self, state: &State, fd: FileHandle) -> (r: Result<
        Notification,
        ErrorKind,
    >)
        ensures
            match r {
                Ok(n) => exists|at: int|
                    is_first_live(state@.vms, self@, at) && n@ == (NotificationView {
                        event: CallbackEventView::PayloadStdio { cid: cid_as_i32(self@), fd },
                        listeners: state@.vms[at].instance.callbacks,
                    }),
                Err(e) => !has_live(state@.vms, self@) && e == ErrorKind::IllegalState,
            },
    {
        match state.get_vm(self.cid) {
            Some(vm) => {
                let n = vm.notify_payload_stdio(fd);
                proof {
                    let at = choose|at: int|
                        is_first_live(state@.vms, self@, at) && vm@ == state@.vms[at].instance;
                    assert(is_first_live(state@.vms, self@, at));
                    assert(vm@.cid == self@);
                }
                Ok(n)
            },
            None => Err(ErrorKind::IllegalState),
        }
    }
}

/// Converts a port of the remote interface to the unsigned number with the same bits.
pub fn port_to_u32(port: i32) -> (r: u32)
    ensures
        r == port_as_u32(port),
{
    if port >= 0 {
        port as u32
    } else {
        (port as i64 + 0x1_0000_0000) as u32
    }
}

/// The state of the machine with the CID `cid`, as its owner is told.
pub fn get_vm_state(state: &State, cid: Cid) -> (r: Result<VirtualMachineState, ErrorKind>)
    ensures
        match r {
            Ok(s) => exists|at: int|
                is_first_live(state@.vms, cid, at) && s == state_of(
                    state@.vms[at].instance.vm_state,
                    state@.vms[at].instance.payload_state,
                ),
            Err(e) => !has_live(state@.vms, cid) && e == ErrorKind::IllegalState,
        },
{
    match state.get_vm(cid) {
        Some(vm) => Ok(vm.current_state()),
        None => Err(ErrorKind::IllegalState),
    }
}

/// Says where to connect to in order to reach `port` of the machine with the CID
/// `cid`. Only a machine that runs can be reached.
pub fn connect_vsock(state: &State, cid: Cid, port: i32) -> (r: Result<VsockAddress, ErrorKind>)
    ensures
        match r {
            Ok(address) => address == (VsockAddress { cid, port: port_as_u32(port) }) && exists|
                at: int,
            |
                is_first_live(state@.vms, cid, at) && state@.vms[at].instance.vm_state
                    == VmState::Running,
            Err(e) => e == ErrorKind::IllegalState && forall|at: int|
                is_first_live(state@.vms, cid, at) ==> state@.vms[at].instance.vm_state
                    != VmState::Running,
        },
{
    match state.get_vm(cid) {
        Some(vm) => {
            if vm.vm_state() == VmState::Running {
                Ok(VsockAddress { cid, port: port_to_u32(port) })
            } else {
                Err(ErrorKind::IllegalState)
            }
        },
        None => Err(ErrorKind::IllegalState),
    }
}

/// What is told of the machine `vm` to somebody who debugs the service.
pub fn debug_info(vm: &VmInstance) -> (info: VirtualMachineDebugInfo)
    ensures
        debug_info_matches(info, vm@),
{
    VirtualMachineDebugInfo {
        cid: cid_to_i32(vm.cid()),
        temporary_directory: String::from_str(vm.temporary_directory()),
        requester_uid: cid_to_i32(vm.requester_uid()),
        requester_pid: vm.requester_debug_pid(),
        state: vm.current_state(),
    }
}

/// Lists the machines that somebody still holds, for a caller that may debug.
pub fn debug_list_vms(state: &State, caller: &CallingIdentity) -> (r: Result<
    Vec<VirtualMachineDebugInfo>,
    ErrorKind,
>)
    ensures
        match r {
            Ok(list) => has_permission(*caller, Permission::DebugVirtualMachine) && list@.len()
                == live_slots(state@.vms).len() && forall|k: int|
                0 <= k < list@.len() ==> debug_info_matches(
                    #[trigger] list@[k],
                    live_slots(state@.vms)[k].instance,
                ),
            Err(e) => !has_permission(*caller, Permission::DebugVirtualMachine) && e
                == ErrorKind::PermissionDenied,
        },
{
    match check_debug_access(caller) {
        Ok(()) => {},
        Err(e) => {
            return Err(e);
        },
    }
    let vms = state.vms();
    let mut list: Vec<VirtualMachineDebugInfo> = Vec::new();
    let mut i: usize = 0;
    while i < vms.len()
        invariant
            i <= vms@.len(),
            list@.len() == i,
            vms@.len() == live_slots(state@.vms).len(),
            forall|k: int|
                0 <= k < vms@.len() ==> (#[trigger] vms@[k])@ == live_slots(
                    state@.vms,
                )[k].instance,
            forall|k: int|
                0 <= k < i ==> debug_info_matches(
                    #[trigger] list@[k],
                    live_slots(state@.vms)[k].instance,
                ),
        decreases vms@.len() - i,
    {
        let info = debug_info(vms[i]);
        list.push(info);
        i += 1;
    }
    Ok(list)
}

} // verus!
