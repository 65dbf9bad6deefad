use virtualizationservice::callbacks::{CallbackEvent, DeathReason};
use virtualizationservice::error::ErrorKind;
use virtualizationservice::instance::{GuestEvent, PayloadState, VmInstance, VmState};
use virtualizationservice::service::{
    debug_drop_vm_ref, debug_hold_vm_ref, start_vm, stop_vm, CallingIdentity,
};
use virtualizationservice::state::State;

fn vm(cid: u32) -> VmInstance {
    VmInstance::new(cid, "vm", "/tmp/vm", 1000, 1, false)
}

fn cids(state: &State) -> Vec<u32> {
    state.vms().iter().map(|vm| vm.cid()).collect()
}

#[test]
fn machines_are_listed_in_the_order_in_which_they_were_added() {
    let mut state = State::new();
    assert!(cids(&state).is_empty());
    let _a = state.add_vm(vm(10)).unwrap();
    let _b = state.add_vm(vm(11)).unwrap();
    let _c = state.add_vm(vm(12)).unwrap();
    assert_eq!(cids(&state), vec![10, 11, 12]);
}

#[test]
fn a_machine_without_handles_is_not_listed() {
    let mut state = State::new();
    let a = state.add_vm(vm(10)).unwrap();
    let _b = state.add_vm(vm(11)).unwrap();
    assert_eq!(a.cid(), 10);
    let outcome = state.drop_handle(a).unwrap();
    assert!(!outcome.terminate);
    assert_eq!(cids(&state), vec![11]);
    assert!(state.get_vm(10).is_none());
    let _c = state.add_vm(vm(12)).unwrap();
    assert_eq!(cids(&state), vec![11, 12]);
}

#[test]
fn dropping_the_last_handle_stops_a_running_machine() {
    let mut state = State::new();
    let a = state.add_vm(vm(10)).unwrap();
    state.register_callback(10, 7).unwrap();
    state.start_vm(10, true, 5).unwrap();
    let copy = state.clone_handle(&a).unwrap();
    assert!(state.drop_handle(a).is_none());
    assert_eq!(cids(&state), vec![10]);
    assert_eq!(state.get_vm(10).unwrap().vm_state(), VmState::Running);
    let outcome = state.drop_handle(copy).unwrap();
    assert!(outcome.terminate);
    let n = outcome.notification.unwrap();
    assert_eq!(n.event, CallbackEvent::Died { cid: 10, reason: DeathReason::Killed });
    assert_eq!(n.listeners, vec![7]);
    assert!(cids(&state).is_empty());
}

#[test]
fn a_cid_that_is_held_cannot_be_added_again() {
    let mut state = State::new();
    let a = state.add_vm(vm(10)).unwrap();
    assert_eq!(state.add_vm(vm(10)).err(), Some(ErrorKind::Internal));
    assert_eq!(cids(&state), vec![10]);
    state.drop_handle(a);
    let again = state.add_vm(vm(10));
    assert!(again.is_ok());
    assert_eq!(cids(&state), vec![10]);
}

#[test]
fn lookup_finds_the_machine_with_the_cid() {
    let mut state = State::new();
    let _a = state.add_vm(vm(10)).unwrap();
    let _b = state.add_vm(VmInstance::new(11, "second", "/tmp/11", 2000, 9, true)).unwrap();
    let found = state.get_vm(11).unwrap();
    assert_eq!(found.cid(), 11);
    assert_eq!(found.name(), "second");
    assert_eq!(found.requester_uid(), 2000);
    assert!(state.get_vm(12).is_none());
}

#[test]
fn handles_kept_for_debugging_are_found_by_cid() {
    let mut state = State::new();
    let a = state.add_vm(vm(10)).unwrap();
    let b = state.add_vm(vm(11)).unwrap();
    let c = state.add_vm(vm(12)).unwrap();
    let a2 = state.clone_handle(&a).unwrap();
    state.debug_hold_vm(a2);
    state.debug_hold_vm(b);
    state.debug_hold_vm(c);
    assert!(state.debug_drop_vm(13).is_none());
    let released = state.debug_drop_vm(10).unwrap();
    assert_eq!(released.cid(), 10);
    assert!(state.debug_drop_vm(10).is_none());
    assert_eq!(state.debug_drop_vm(12).unwrap().cid(), 12);
    assert_eq!(state.debug_drop_vm(11).unwrap().cid(), 11);
    assert!(state.debug_drop_vm(11).is_none());
    assert_eq!(cids(&state), vec![10, 11, 12]);
    state.drop_handle(released);
    assert_eq!(cids(&state), vec![10, 11, 12]);
    state.drop_handle(a);
    assert_eq!(cids(&state), vec![11, 12]);
}

#[test]
fn a_held_machine_stays_listed_without_other_handles() {
    let mut state = State::new();
    let a = state.add_vm(vm(10)).unwrap();
    state.debug_hold_vm(a);
    let _b = state.add_vm(vm(11)).unwrap();
    assert_eq!(cids(&state), vec![10, 11]);
}

#[test]
fn operations_on_a_cid_that_nobody_holds_are_refused() {
    let mut state = State::new();
    assert_eq!(state.start_vm(10, true, 1), Err(ErrorKind::IllegalState));
    assert_eq!(state.kill_vm(10).err(), Some(ErrorKind::IllegalState));
    assert_eq!(state.process_died(10, DeathReason::Crash).err(), Some(ErrorKind::IllegalState));
    assert_eq!(state.register_callback(10, 1), Err(ErrorKind::IllegalState));
    assert_eq!(
        state.handle_guest_event(10, &GuestEvent::PayloadReady).err(),
        Some(ErrorKind::IllegalState)
    );
}

#[test]
fn machines_are_driven_through_the_table() {
    let mut state = State::new();
    let _a = state.add_vm(vm(10)).unwrap();
    let _b = state.add_vm(vm(11)).unwrap();
    state.register_callback(11, 1).unwrap();
    assert_eq!(
        state.handle_guest_event(11, &GuestEvent::PayloadStarted).err(),
        Some(ErrorKind::IllegalState)
    );
    assert_eq!(state.start_vm(11, true, 3), Ok(()));
    let n = state.handle_guest_event(11, &GuestEvent::PayloadStarted).unwrap();
    assert_eq!(n.event, CallbackEvent::PayloadStarted { cid: 11 });
    assert_eq!(n.listeners, vec![1]);
    assert_eq!(state.get_vm(11).unwrap().payload_state(), PayloadState::Started);
    assert_eq!(state.get_vm(10).unwrap().vm_state(), VmState::NotStarted);
    let outcome = state.kill_vm(11).unwrap();
    assert!(outcome.terminate);
    assert_eq!(state.get_vm(11).unwrap().vm_state(), VmState::Dead);
    assert!(state.process_died(11, DeathReason::Killed).unwrap().is_none());
    let again = state.kill_vm(11).unwrap();
    assert!(!again.terminate && again.notification.is_none());
    assert_eq!(state.start_vm(10, false, 3), Err(ErrorKind::Internal));
    assert_eq!(state.get_vm(10).unwrap().vm_state(), VmState::Failed);
}

fn caller(uid: u32, debug: bool) -> CallingIdentity {
    CallingIdentity { uid, pid: 77, manage: true, debug, use_custom: false, dump: false }
}

#[test]
fn only_a_caller_who_may_debug_can_have_handles_kept() {
    let mut state = State::new();
    let a = state.add_vm(vm(10)).unwrap();

    assert_eq!(
        debug_hold_vm_ref(&mut state, &caller(1000, false), &a),
        Err(ErrorKind::PermissionDenied)
    );
    assert_eq!(
        debug_drop_vm_ref(&mut state, &caller(1000, false), 10).err(),
        Some(ErrorKind::PermissionDenied)
    );

    assert_eq!(debug_hold_vm_ref(&mut state, &caller(1000, true), &a), Ok(()));
    // The handle that is kept keeps the machine in the table.
    assert!(state.drop_handle(a).is_none());
    assert_eq!(cids(&state), vec![10]);

    assert!(debug_drop_vm_ref(&mut state, &caller(1000, true), 11).unwrap().is_none());
    let kept = debug_drop_vm_ref(&mut state, &caller(0, false), 10).unwrap().unwrap();
    assert_eq!(kept.cid(), 10);
    assert!(debug_drop_vm_ref(&mut state, &caller(1000, true), 10).unwrap().is_none());
    assert!(state.drop_handle(kept).is_some());
    assert!(cids(&state).is_empty());
}

#[test]
fn a_handle_of_a_machine_that_is_gone_cannot_be_kept() {
    let mut state = State::new();
    let a = state.add_vm(vm(10)).unwrap();
    let copy = state.clone_handle(&a).unwrap();
    assert!(state.drop_handle(a).is_none());
    assert!(state.drop_handle(copy).is_some());
    let mut other = State::new();
    let b = other.add_vm(vm(10)).unwrap();
    assert_eq!(
        debug_hold_vm_ref(&mut state, &caller(1000, true), &b),
        Err(ErrorKind::IllegalState)
    );
    assert!(cids(&state).is_empty());
}

fn no_manager() -> CallingIdentity {
    CallingIdentity { uid: 1000, pid: 77, manage: false, debug: true, use_custom: true, dump: true }
}

#[test]
fn starting_and_stopping_need_the_permission_to_manage() {
    let mut state = State::new();
    let _a = state.add_vm(vm(10)).unwrap();
    state.register_callback(10, 4).unwrap();

    assert_eq!(start_vm(&mut state, &no_manager(), 10, true, 5), Err(ErrorKind::PermissionDenied));
    assert_eq!(stop_vm(&mut state, &no_manager(), 10).err(), Some(ErrorKind::PermissionDenied));
    assert_eq!(start_vm(&mut state, &no_manager(), 11, true, 5), Err(ErrorKind::PermissionDenied));
    assert_eq!(stop_vm(&mut state, &no_manager(), 11).err(), Some(ErrorKind::PermissionDenied));
    assert_eq!(state.get_vm(10).unwrap().vm_state(), VmState::NotStarted);
    assert_eq!(state.get_vm(10).unwrap().vm_start_timestamp(), None);

    let manager = caller(1000, false);
    assert_eq!(start_vm(&mut state, &manager, 11, true, 5), Err(ErrorKind::IllegalState));
    assert_eq!(stop_vm(&mut state, &manager, 11).err(), Some(ErrorKind::IllegalState));
    assert_eq!(start_vm(&mut state, &manager, 10, true, 5), Ok(()));
    assert_eq!(state.get_vm(10).unwrap().vm_state(), VmState::Running);
    assert_eq!(state.get_vm(10).unwrap().vm_start_timestamp(), Some(5));
    assert_eq!(start_vm(&mut state, &manager, 10, true, 6), Err(ErrorKind::IllegalState));

    assert_eq!(stop_vm(&mut state, &no_manager(), 10).err(), Some(ErrorKind::PermissionDenied));
    assert_eq!(state.get_vm(10).unwrap().vm_state(), VmState::Running);

    let superuser = CallingIdentity { uid: 0, ..no_manager() };
    let outcome = stop_vm(&mut state, &superuser, 10).unwrap();
    assert!(outcome.terminate);
    let n = outcome.notification.unwrap();
    assert_eq!(n.event, CallbackEvent::Died { cid: 10, reason: DeathReason::Killed });
    assert_eq!(n.listeners, vec![4]);
    assert_eq!(state.get_vm(10).unwrap().vm_state(), VmState::Dead);

    let again = stop_vm(&mut state, &manager, 10).unwrap();
    assert!(!again.terminate);
    assert!(again.notification.is_none());
    assert_eq!(state.get_vm(10).unwrap().vm_state(), VmState::Dead);
}

#[test]
fn a_launch_that_failed_is_told_by_a_manager_only() {
    let mut state = State::new();
    let _a = state.add_vm(vm(10)).unwrap();
    assert_eq!(start_vm(&mut state, &no_manager(), 10, false, 5), Err(ErrorKind::PermissionDenied));
    assert_eq!(state.get_vm(10).unwrap().vm_state(), VmState::NotStarted);
    assert_eq!(start_vm(&mut state, &caller(1000, false), 10, false, 5), Err(ErrorKind::Internal));
    assert_eq!(state.get_vm(10).unwrap().vm_state(), VmState::Failed);
}
