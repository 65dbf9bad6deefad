use virtualizationservice::callbacks::{
    cid_to_i32, failed_deliveries, CallbackEvent, DeathReason, Notification,
    VirtualMachineCallbacks,
};
use virtualizationservice::disk::FileHandle;

fn three() -> VirtualMachineCallbacks {
    let mut callbacks = VirtualMachineCallbacks::new();
    callbacks.add(101);
    callbacks.add(102);
    callbacks.add(103);
    callbacks
}

#[test]
fn every_listener_is_told_once_that_the_payload_is_ready() {
    let callbacks = three();
    let n = callbacks.notify_payload_ready(42);
    assert_eq!(n.event, CallbackEvent::PayloadReady { cid: 42 });
    assert_eq!(n.listeners, vec![101, 102, 103]);
    assert_eq!(callbacks.listeners(), vec![101, 102, 103]);
}

#[test]
fn a_failed_delivery_does_not_stop_the_others() {
    let callbacks = three();
    let n = callbacks.notify_payload_ready(42);
    let mut delivered = Vec::new();
    let mut reached = Vec::new();
    for listener in &n.listeners {
        let ok = *listener != 102;
        if ok {
            reached.push(*listener);
        }
        delivered.push(ok);
    }
    assert_eq!(reached, vec![101, 103]);
    assert_eq!(failed_deliveries(&n, &delivered), vec![102]);
    assert_eq!(callbacks.listeners(), vec![101, 102, 103]);
    assert_eq!(callbacks.notify_payload_ready(42).listeners, vec![101, 102, 103]);
}

#[test]
fn deliveries_that_are_not_reported_count_as_failed() {
    let n = Notification {
        event: CallbackEvent::PayloadStarted { cid: 1 },
        listeners: vec![1, 2, 3, 4],
    };
    assert_eq!(failed_deliveries(&n, &vec![true, false]), vec![2u64, 3, 4]);
    assert_eq!(failed_deliveries(&n, &vec![true, true, true, true]), Vec::<u64>::new());
    assert_eq!(failed_deliveries(&n, &vec![]), vec![1u64, 2, 3, 4]);
    assert_eq!(failed_deliveries(&n, &vec![false, true, false, true, true]), vec![1u64, 3]);
}

#[test]
fn each_kind_of_event_is_built() {
    let callbacks = three();
    assert_eq!(callbacks.notify_payload_started(7).event, CallbackEvent::PayloadStarted { cid: 7 });
    assert_eq!(
        callbacks.notify_payload_finished(7, 3).event,
        CallbackEvent::PayloadFinished { cid: 7, exit_code: 3 }
    );
    assert_eq!(
        callbacks.notify_error(7, 9, "oops").event,
        CallbackEvent::Error { cid: 7, error_code: 9, message: "oops".to_string() }
    );
    assert_eq!(
        callbacks.notify_payload_stdio(7, FileHandle { id: 5 }).event,
        CallbackEvent::PayloadStdio { cid: 7, fd: FileHandle { id: 5 } }
    );
    assert_eq!(
        callbacks.callback_on_died(7, DeathReason::Shutdown).event,
        CallbackEvent::Died { cid: 7, reason: DeathReason::Shutdown }
    );
    let n = callbacks.callback_on_ramdump(7, FileHandle { id: 6 });
    assert_eq!(n.event, CallbackEvent::Ramdump { cid: 7, ramdump: FileHandle { id: 6 } });
    assert_eq!(n.listeners, vec![101, 102, 103]);
}

#[test]
fn no_listeners_no_deliveries() {
    let callbacks = VirtualMachineCallbacks::new();
    assert!(callbacks.notify_payload_ready(1).listeners.is_empty());
}

#[test]
fn a_cid_keeps_its_bits_as_a_signed_number() {
    assert_eq!(cid_to_i32(0), 0);
    assert_eq!(cid_to_i32(10), 10);
    assert_eq!(cid_to_i32(2147483647), i32::MAX);
    assert_eq!(cid_to_i32(2147483648), i32::MIN);
    assert_eq!(cid_to_i32(u32::MAX), -1);
    for cid in [0u32, 1, 77, 0x7fff_ffff, 0x8000_0000, 0xdead_beef, u32::MAX] {
        assert_eq!(cid_to_i32(cid), cid as i32);
    }
}
