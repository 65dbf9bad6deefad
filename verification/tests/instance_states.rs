use virtualizationservice::callbacks::{CallbackEvent, DeathReason};
use virtualizationservice::error::ErrorKind;
use virtualizationservice::instance::{
    get_state, GuestEvent, PayloadState, VirtualMachineState, VmInstance, VmState,
};

fn instance() -> VmInstance {
    VmInstance::new(12, "vm", "/data/misc/virtualizationservice/12", 1000, 4321, true)
}

fn running() -> VmInstance {
    let mut vm = instance();
    assert_eq!(vm.start(true, 77), Ok(()));
    vm
}

#[test]
fn new_instance_is_not_started() {
    let vm = instance();
    assert_eq!(vm.cid(), 12);
    assert_eq!(vm.name(), "vm");
    assert_eq!(vm.temporary_directory(), "/data/misc/virtualizationservice/12");
    assert_eq!(vm.requester_uid(), 1000);
    assert_eq!(vm.requester_debug_pid(), 4321);
    assert!(vm.protected());
    assert_eq!(vm.vm_state(), VmState::NotStarted);
    assert_eq!(vm.payload_state(), PayloadState::Starting);
    assert_eq!(vm.vm_start_timestamp(), None);
    assert_eq!(vm.current_state(), VirtualMachineState::NotStarted);
    assert!(vm.callbacks().listeners().is_empty());
    assert!(vm.can_start());
}

#[test]
fn start_moves_to_running_once() {
    let mut vm = instance();
    assert_eq!(vm.start(true, 77), Ok(()));
    assert_eq!(vm.vm_state(), VmState::Running);
    assert_eq!(vm.vm_start_timestamp(), Some(77));
    assert_eq!(vm.current_state(), VirtualMachineState::Starting);
    assert!(!vm.can_start());
    assert_eq!(vm.start(true, 99), Err(ErrorKind::IllegalState));
    assert_eq!(vm.vm_state(), VmState::Running);
    assert_eq!(vm.vm_start_timestamp(), Some(77));
}

#[test]
fn failed_launch_fails_for_good() {
    let mut vm = instance();
    assert_eq!(vm.start(false, 77), Err(ErrorKind::Internal));
    assert_eq!(vm.vm_state(), VmState::Failed);
    assert_eq!(vm.current_state(), VirtualMachineState::Dead);
    assert_eq!(vm.start(true, 78), Err(ErrorKind::IllegalState));
    assert_eq!(vm.vm_state(), VmState::Failed);
    let outcome = vm.kill();
    assert!(!outcome.terminate);
    assert!(outcome.notification.is_none());
    assert_eq!(vm.vm_state(), VmState::Failed);
}

#[test]
fn payload_goes_through_its_states_while_running() {
    let mut vm = running();
    assert_eq!(vm.update_payload_state(PayloadState::Started), Ok(()));
    assert_eq!(vm.current_state(), VirtualMachineState::Started);
    assert_eq!(vm.update_payload_state(PayloadState::Ready), Ok(()));
    assert_eq!(vm.current_state(), VirtualMachineState::Ready);
    assert_eq!(vm.update_payload_state(PayloadState::Finished), Ok(()));
    assert_eq!(vm.current_state(), VirtualMachineState::Finished);
    assert_eq!(get_state(&vm), VirtualMachineState::Finished);
}

#[test]
fn payload_never_moves_back() {
    let mut vm = running();
    assert_eq!(vm.update_payload_state(PayloadState::Ready), Ok(()));
    assert_eq!(vm.update_payload_state(PayloadState::Started), Err(ErrorKind::IllegalState));
    assert_eq!(vm.update_payload_state(PayloadState::Ready), Err(ErrorKind::IllegalState));
    assert_eq!(vm.update_payload_state(PayloadState::Starting), Err(ErrorKind::IllegalState));
    assert_eq!(vm.update_payload_state(PayloadState::Hangup), Err(ErrorKind::IllegalState));
    assert_eq!(vm.payload_state(), PayloadState::Ready);
    assert_eq!(vm.update_payload_state(PayloadState::Finished), Ok(()));
    assert_eq!(vm.update_payload_state(PayloadState::Finished), Err(ErrorKind::IllegalState));
}

#[test]
fn reports_for_a_machine_that_does_not_run_are_refused() {
    let events = [
        GuestEvent::PayloadStarted,
        GuestEvent::PayloadReady,
        GuestEvent::PayloadFinished { exit_code: 0 },
        GuestEvent::Error { error_code: 1, message: "bad".to_string() },
    ];
    let mut not_started = instance();
    let mut dead = running();
    dead.kill();
    let mut failed = instance();
    let _ = failed.start(false, 1);
    for (vm, state) in [
        (&mut not_started, VmState::NotStarted),
        (&mut dead, VmState::Dead),
        (&mut failed, VmState::Failed),
    ] {
        for event in &events {
            assert_eq!(vm.handle_guest_event(event), Err(ErrorKind::IllegalState));
            assert_eq!(vm.vm_state(), state);
            assert_eq!(vm.payload_state(), PayloadState::Starting);
        }
        assert_eq!(vm.update_payload_state(PayloadState::Started), Err(ErrorKind::IllegalState));
    }
}

#[test]
fn guest_events_are_passed_on_to_the_listeners() {
    let mut vm = running();
    vm.register_callback(3);
    vm.register_callback(8);
    let n = vm.handle_guest_event(&GuestEvent::PayloadStarted).unwrap();
    assert_eq!(n.event, CallbackEvent::PayloadStarted { cid: 12 });
    assert_eq!(n.listeners, vec![3, 8]);
    let n = vm.handle_guest_event(&GuestEvent::PayloadReady).unwrap();
    assert_eq!(n.event, CallbackEvent::PayloadReady { cid: 12 });
    let n = vm.handle_guest_event(&GuestEvent::PayloadFinished { exit_code: -3 }).unwrap();
    assert_eq!(n.event, CallbackEvent::PayloadFinished { cid: 12, exit_code: -3 });
    assert_eq!(vm.payload_state(), PayloadState::Finished);
}

#[test]
fn an_error_of_the_guest_finishes_the_payload() {
    let mut vm = running();
    vm.register_callback(1);
    let n = vm
        .handle_guest_event(&GuestEvent::Error { error_code: 2, message: "changed".to_string() })
        .unwrap();
    assert_eq!(
        n.event,
        CallbackEvent::Error { cid: 12, error_code: 2, message: "changed".to_string() }
    );
    assert_eq!(n.listeners, vec![1]);
    assert_eq!(vm.payload_state(), PayloadState::Finished);
    assert_eq!(vm.current_state(), VirtualMachineState::Finished);
}

#[test]
fn kill_twice_is_harmless() {
    let mut vm = running();
    vm.register_callback(5);
    let first = vm.kill();
    assert!(first.terminate);
    let n = first.notification.unwrap();
    assert_eq!(n.event, CallbackEvent::Died { cid: 12, reason: DeathReason::Killed });
    assert_eq!(n.listeners, vec![5]);
    assert_eq!(vm.vm_state(), VmState::Dead);
    let second = vm.kill();
    assert!(!second.terminate);
    assert!(second.notification.is_none());
    assert_eq!(vm.vm_state(), VmState::Dead);
    assert_eq!(vm.current_state(), VirtualMachineState::Dead);
}

#[test]
fn kill_before_start_ends_the_machine() {
    let mut vm = instance();
    let outcome = vm.kill();
    assert!(!outcome.terminate);
    assert!(outcome.notification.is_some());
    assert_eq!(vm.vm_state(), VmState::Dead);
    assert_eq!(vm.payload_state(), PayloadState::Starting);
    assert_eq!(vm.start(true, 5), Err(ErrorKind::IllegalState));
    let again = vm.kill();
    assert!(!again.terminate);
    assert!(again.notification.is_none());
    assert_eq!(vm.vm_state(), VmState::Dead);
}

#[test]
fn death_of_the_process_is_told_once() {
    let mut vm = running();
    vm.register_callback(4);
    let n = vm.process_died(DeathReason::Crash).unwrap();
    assert_eq!(n.event, CallbackEvent::Died { cid: 12, reason: DeathReason::Crash });
    assert_eq!(vm.vm_state(), VmState::Dead);
    assert_eq!(vm.payload_state(), PayloadState::Starting);
    assert!(vm.process_died(DeathReason::Unknown).is_none());
    assert!(vm.kill().notification.is_none());
}

#[test]
fn hangup_marks_a_payload_that_has_not_finished() {
    let mut vm = running();
    vm.update_payload_state(PayloadState::Ready).unwrap();
    assert!(vm.process_died(DeathReason::Hangup).is_some());
    assert_eq!(vm.payload_state(), PayloadState::Hangup);
    assert_eq!(vm.current_state(), VirtualMachineState::Dead);

    let mut finished = running();
    finished.update_payload_state(PayloadState::Finished).unwrap();
    assert!(finished.process_died(DeathReason::Hangup).is_some());
    assert_eq!(finished.payload_state(), PayloadState::Finished);
    assert_eq!(finished.vm_state(), VmState::Dead);
}
