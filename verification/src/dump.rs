//! The state of the service as text, for a caller that may read it.

use crate::error::ErrorKind;
use crate::instance::{PayloadState, VmInstance, VmInstanceView, VmState};
use crate::service::{check_permission, has_permission, CallingIdentity, Permission};
use crate::state::{live_slots, SlotView, State};
use crate::text::{decimal, push_decimal};
use vstd::prelude::*;

verus! {

/// The decimal representation of a number that may be negative.
pub open spec fn signed_decimal(value: int) -> Seq<char> {
    if value < 0 {
        seq!['-'] + decimal((-value) as nat)
    } else {
        decimal(value as nat)
    }
}

/// The name of a state of the process of a machine.
pub open spec fn vm_state_name(state: VmState) -> Seq<char> {
    match state {
        VmState::NotStarted => "NotStarted"@,
        VmState::Running => "Running"@,
        VmState::Dead => "Dead"@,
        VmState::Failed => "Failed"@,
    }
}

/// The name of a state of a payload.
pub open spec fn payload_state_name(state: PayloadState) -> Seq<char> {
    match state {
        PayloadState::Starting => "Starting"@,
        PayloadState::Started => "Started"@,
        PayloadState::Ready => "Ready"@,
        PayloadState::Finished => "Finished"@,
        PayloadState::Hangup => "Hangup"@,
    }
}

/// The word for a truth value.
pub open spec fn bool_name(value: bool) -> Seq<char> {
    if value {
        "true"@
    } else {
        "false"@
    }
}

/// The lines that describe one machine.
pub open spec fn vm_text(vm: VmInstanceView) -> Seq<char> {
    "VM CID: "@ + decimal(vm.cid as nat) + "\n\tState: "@ + vm_state_name(vm.vm_state)
        + "\n\tPayload state "@ + payload_state_name(vm.payload_state) + "\n\tProtected: "@
        + bool_name(vm.protected) + "\n\ttemporary_directory: "@ + vm.temporary_directory
        + "\n\trequester_uid: "@ + decimal(vm.requester_uid as nat) + "\n\trequester_debug_pid: "@
        + signed_decimal(vm.requester_debug_pid as int) + "\n"@
}

/// The lines that describe the machines of a list, one machine after the other.
pub open spec fn vms_text(vms: Seq<SlotView>) -> Seq<char>
    decreases vms.len(),
{
    if vms.len() == 0 {
        Seq::empty()
    } else {
        vms_text(vms.drop_last()) + vm_text(vms.last().instance)
    }
}

/// The state of the service as text: how many machines are held, then each of them.
pub open spec fn dump_text(vms: Seq<SlotView>) -> Seq<char> {
    "Running "@ + decimal(live_slots(vms).len()) + " VMs:\n"@ + vms_text(live_slots(vms))
}

/// Appends the decimal representation of a number that may be negative.
pub fn push_signed_decimal(out: &mut String, value: i32)
    ensures
        final(out)@ == old(out)@ + signed_decimal(value as int),
{
    if value < 0 {
        proof {
            reveal_strlit("-");
        }
        out.append("-");
        let magnitude: u64 = (-(value as i64)) as u64;
        push_decimal(out, magnitude);
        assert(final(out)@ =~= old(out)@ + signed_decimal(value as int));
    } else {
        push_decimal(out, value as u64);
    }
}

/// Appends the lines that describe one machine.
pub fn push_vm_text(out: &mut String, vm: &VmInstance)
    ensures
        final(out)@ == old(out)@ + vm_text(vm@),
{
    out.append("VM CID: ");
    push_decimal(out, vm.cid() as u64);
    out.append("\n\tState: ");
    out.append(
        match vm.vm_state() {
            VmState::NotStarted => "NotStarted",
            VmState::Running => "Running",
            VmState::Dead => "Dead",
            VmState::Failed => "Failed",
        },
    );
    out.append("\n\tPayload state ");
    out.append(
        match vm.payload_state() {
            PayloadState::Starting => "Starting",
            PayloadState::Started => "Started",
            PayloadState::Ready => "Ready",
            PayloadState::Finished => "Finished",
            PayloadState::Hangup => "Hangup",
        },
    );
    out.append("\n\tProtected: ");
    out.append(
        if vm.protected() {
            "true"
        } else {
            "false"
        },
    );
    out.append("\n\ttemporary_directory: ");
    out.append(vm.temporary_directory());
    out.append("\n\trequester_uid: ");
    push_decimal(out, vm.requester_uid() as u64);
    out.append("\n\trequester_debug_pid: ");
    push_signed_decimal(out, vm.requester_debug_pid());
    out.append("\n");
    assert(final(out)@ =~= old(out)@ + vm_text(vm@));
}

/// The state of the service as text, for a caller that may read it.
pub fn dump(state: &State, caller: &CallingIdentity) -> (r: Result<String, ErrorKind>)
    ensures
        match r {
            Ok(text) => has_permission(*caller, Permission::Dump) && text@ == dump_text(
                state@.vms,
            ),
            Err(e) => !has_permission(*caller, Permission::Dump) && e
                == ErrorKind::PermissionDenied,
        },
{
    match check_permission(caller, Permission::Dump) {
        Ok(()) => {},
        Err(e) => {
            return Err(e);
        },
    }
    let vms = state.vms();
    let ghost live = live_slots(state@.vms);
    let mut text = String::from_str("Running ");
    push_decimal(&mut text, vms.len() as u64);
    text.append(" VMs:\n");
    let ghost head = text@;
    let mut i: usize = 0;
    proof {
        assert(live.take(0) =~= Seq::<SlotView>::empty());
        assert(text@ =~= head + vms_text(live.take(0)));
    }
    while i < vms.len()
        invariant
            i <= vms@.len(),
            vms@.len() == live.len(),
            forall|k: int| 0 <= k < vms@.len() ==> (#[trigger] vms@[k])@ == live[k].instance,
            text@ == head + vms_text(live.take(i as int)),
        decreases vms@.len() - i,
    {
        proof {
            assert(live.take(i + 1).drop_last() =~= live.take(i as int));
            assert(live.take(i + 1).last() == live[i as int]);
        }
        push_vm_text(&mut text, vms[i]);
        proof {
            assert(text@ =~= head + vms_text(live.take(i + 1)));
        }
        i += 1;
    }
    proof {
        assert(live.take(i as int) =~= live);
    }
    Ok(text)
}

} // verus!
