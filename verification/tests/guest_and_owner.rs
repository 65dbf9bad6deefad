use virtualizationservice::callbacks::CallbackEvent;
use virtualizationservice::compos_client::{VmParameters, VmStateMonitor, WaitError};
use virtualizationservice::config::DebugLevel;
use virtualizationservice::disk::FileHandle;
use virtualizationservice::dump::dump;
use virtualizationservice::error::ErrorKind;
use virtualizationservice::instance::{VirtualMachineState, VmInstance};
use virtualizationservice::message::{
    verify_tag, EcdsaP256KeyPair, GenerateCertificateRequestParams, Request,
    RequestProcessingError, Response, ServiceVmRequest,
};
use virtualizationservice::partition::{
    format_as_android_vm_instance, initialize_writable_partition, PartitionType,
    ANDROID_VM_INSTANCE_MAGIC, ANDROID_VM_INSTANCE_VERSION,
};
use virtualizationservice::service::CallingIdentity;
use virtualizationservice::state::State;
use virtualizationservice::verity::{
    is_block_aligned, parse_roothash, parse_verity_args, VerityArgError, VerityRequest,
};
use virtualizationservice::vm_service::{
    connect_vsock, debug_list_vms, get_vm_state, port_to_u32, VirtualMachineDebugInfo,
    VirtualMachineService, VsockAddress,
};

fn owner() -> CallingIdentity {
    CallingIdentity { uid: 1000, pid: 7, manage: true, debug: true, use_custom: false, dump: true }
}

fn stranger() -> CallingIdentity {
    CallingIdentity { uid: 2000, pid: 8, manage: false, debug: false, use_custom: false, dump: false }
}

fn table() -> State {
    let mut state = State::new();
    let a = state.add_vm(VmInstance::new(10, "first", "/data/misc/virtualizationservice/10", 1000, 7, true)).unwrap();
    let b = state.add_vm(VmInstance::new(11, "second", "/data/misc/virtualizationservice/11", 4000000000, -5, false)).unwrap();
    state.debug_hold_vm(a);
    state.debug_hold_vm(b);
    state
}

#[test]
fn a_guest_is_known_by_its_cid() {
    let state = table();
    assert_eq!(VirtualMachineService::factory(10, &state).unwrap().cid(), 10);
    assert!(VirtualMachineService::factory(12, &state).is_none());
}

#[test]
fn reports_of_a_guest_reach_its_machine() {
    let mut state = table();
    state.register_callback(11, 1).unwrap();
    state.register_callback(11, 2).unwrap();
    state.register_callback(11, 3).unwrap();
    let guest = VirtualMachineService::factory(11, &state).unwrap();
    assert_eq!(guest.notify_payload_ready(&mut state).err(), Some(ErrorKind::IllegalState));
    assert_eq!(get_vm_state(&state, 11), Ok(VirtualMachineState::NotStarted));
    state.start_vm(11, true, 1).unwrap();
    let n = guest.notify_payload_started(&mut state).unwrap();
    assert_eq!(n.event, CallbackEvent::PayloadStarted { cid: 11 });
    assert_eq!(n.listeners, vec![1, 2, 3]);
    let n = guest.notify_payload_ready(&mut state).unwrap();
    assert_eq!(n.event, CallbackEvent::PayloadReady { cid: 11 });
    assert_eq!(n.listeners, vec![1, 2, 3]);
    assert_eq!(get_vm_state(&state, 11), Ok(VirtualMachineState::Ready));
    assert_eq!(get_vm_state(&state, 10), Ok(VirtualMachineState::NotStarted));
    let n = guest.notify_payload_finished(&mut state, 4).unwrap();
    assert_eq!(n.event, CallbackEvent::PayloadFinished { cid: 11, exit_code: 4 });
    assert_eq!(guest.notify_error(&mut state, 1, "late").err(), Some(ErrorKind::IllegalState));
    assert_eq!(get_vm_state(&state, 11), Ok(VirtualMachineState::Finished));
    assert_eq!(get_vm_state(&state, 99), Err(ErrorKind::IllegalState));
}

#[test]
fn an_error_report_reaches_the_listeners() {
    let mut state = table();
    state.register_callback(10, 5).unwrap();
    state.start_vm(10, true, 1).unwrap();
    let guest = VirtualMachineService::factory(10, &state).unwrap();
    let n = guest.notify_error(&mut state, 3, "config invalid").unwrap();
    assert_eq!(
        n.event,
        CallbackEvent::Error { cid: 10, error_code: 3, message: "config invalid".to_string() }
    );
    assert_eq!(n.listeners, vec![5]);
}

#[test]
fn standard_io_of_a_guest_is_offered_to_the_listeners() {
    let mut state = table();
    state.register_callback(10, 5).unwrap();
    let guest = VirtualMachineService::factory(10, &state).unwrap();
    assert_eq!(
        guest.connect_payload_stdio_proxy(&state, 5000),
        Ok(VsockAddress { cid: 10, port: 5000 })
    );
    let n = guest.payload_stdio_connected(&state, FileHandle { id: 77 }).unwrap();
    assert_eq!(n.event, CallbackEvent::PayloadStdio { cid: 10, fd: FileHandle { id: 77 } });
    assert_eq!(n.listeners, vec![5]);
}

#[test]
fn only_a_running_machine_can_be_connected_to() {
    let mut state = table();
    assert_eq!(connect_vsock(&state, 10, 6000), Err(ErrorKind::IllegalState));
    state.start_vm(10, true, 1).unwrap();
    assert_eq!(connect_vsock(&state, 10, 6000), Ok(VsockAddress { cid: 10, port: 6000 }));
    assert_eq!(connect_vsock(&state, 10, -1), Ok(VsockAddress { cid: 10, port: u32::MAX }));
    assert_eq!(connect_vsock(&state, 12, 6000), Err(ErrorKind::IllegalState));
    state.kill_vm(10).unwrap();
    assert_eq!(connect_vsock(&state, 10, 6000), Err(ErrorKind::IllegalState));
}

#[test]
fn a_port_keeps_its_bits() {
    for port in [0i32, 1, 5000, i32::MAX, -1, -2, i32::MIN] {
        assert_eq!(port_to_u32(port), port as u32);
    }
}

#[test]
fn machines_are_listed_for_debugging() {
    let mut state = table();
    state.start_vm(10, true, 1).unwrap();
    assert_eq!(debug_list_vms(&state, &stranger()), Err(ErrorKind::PermissionDenied));
    let list = debug_list_vms(&state, &owner()).unwrap();
    assert_eq!(
        list,
        vec![
            VirtualMachineDebugInfo {
                cid: 10,
                temporary_directory: "/data/misc/virtualizationservice/10".to_string(),
                requester_uid: 1000,
                requester_pid: 7,
                state: VirtualMachineState::Starting,
            },
            VirtualMachineDebugInfo {
                cid: 11,
                temporary_directory: "/data/misc/virtualizationservice/11".to_string(),
                requester_uid: 4000000000u32 as i32,
                requester_pid: -5,
                state: VirtualMachineState::NotStarted,
            },
        ]
    );
}

#[test]
fn the_state_of_the_service_is_dumped_as_text() {
    let mut state = table();
    state.start_vm(10, true, 1).unwrap();
    assert_eq!(dump(&state, &stranger()), Err(ErrorKind::PermissionDenied));
    let text = dump(&state, &owner()).unwrap();
    let expected = "Running 2 VMs:\n\
        VM CID: 10\n\tState: Running\n\tPayload state Starting\n\tProtected: true\n\
        \ttemporary_directory: /data/misc/virtualizationservice/10\n\trequester_uid: 1000\n\
        \trequester_debug_pid: 7\n\
        VM CID: 11\n\tState: NotStarted\n\tPayload state Starting\n\tProtected: false\n\
        \ttemporary_directory: /data/misc/virtualizationservice/11\n\trequester_uid: 4000000000\n\
        \trequester_debug_pid: -5\n";
    assert_eq!(text, expected);
    assert_eq!(dump(&State::new(), &owner()).unwrap(), "Running 0 VMs:\n");
}

#[test]
fn an_instance_partition_starts_with_magic_and_version() {
    let mut part = vec![9u8];
    format_as_android_vm_instance(&mut part);
    let mut expected = vec![9u8];
    expected.extend_from_slice(b"Android-VM-instanc");
    expected.extend_from_slice(&[1, 0]);
    assert_eq!(part, expected);
    assert_eq!(ANDROID_VM_INSTANCE_MAGIC.len(), 18);
    assert_eq!(ANDROID_VM_INSTANCE_MAGIC.as_bytes(), b"Android-VM-instanc");
    assert_eq!(&part[19..], &ANDROID_VM_INSTANCE_VERSION.to_le_bytes());
}

#[test]
fn the_header_of_an_instance_partition_is_twenty_bytes() {
    let mut part = Vec::<u8>::new();
    format_as_android_vm_instance(&mut part);
    assert_eq!(part.len(), 20);
    assert_eq!(&part[..18], ANDROID_VM_INSTANCE_MAGIC.as_bytes());
    assert!(part[..18].iter().all(|b| b.is_ascii()));
    assert_eq!(&part[18..20], &[0x01, 0x00]);
    assert_eq!(&part[18..20], &1u16.to_le_bytes());
}

#[test]
fn writable_partitions_are_set_up_by_kind() {
    let p = initialize_writable_partition(&owner(), 4096, PartitionType::Raw).unwrap();
    assert_eq!(p.size, 4096);
    assert!(p.header.is_empty());
    let p =
        initialize_writable_partition(&owner(), 1 << 20, PartitionType::AndroidVmInstance).unwrap();
    assert_eq!(p.size, 1 << 20);
    assert_eq!(p.header, b"Android-VM-instanc\x01\x00".to_vec());
    assert_eq!(p.header.len(), 20);
    assert_eq!(
        initialize_writable_partition(&owner(), 0, PartitionType::Raw),
        Err(ErrorKind::IllegalArgument)
    );
    assert_eq!(
        initialize_writable_partition(&owner(), -1, PartitionType::AndroidVmInstance),
        Err(ErrorKind::IllegalArgument)
    );
    assert_eq!(
        initialize_writable_partition(&stranger(), 4096, PartitionType::Raw),
        Err(ErrorKind::PermissionDenied)
    );
    assert_eq!(
        initialize_writable_partition(&stranger(), -1, PartitionType::Raw),
        Err(ErrorKind::PermissionDenied)
    );
    let p = initialize_writable_partition(&owner(), i64::MAX, PartitionType::Raw).unwrap();
    assert_eq!(p.size, i64::MAX as u64);
}

#[test]
fn a_client_waits_until_its_machine_is_ready() {
    let mut monitor = VmStateMonitor::new();
    assert!(monitor.is_waiting());
    assert_eq!(monitor.wait_until_ready(true), Err(WaitError::TimedOut));
    monitor.set_ready(42);
    assert!(!monitor.is_waiting());
    assert_eq!(monitor.wait_until_ready(false), Ok(42));
    monitor.set_died();
    assert!(!monitor.is_waiting());
    assert_eq!(monitor.wait_until_ready(false), Err(WaitError::Died));
    monitor.set_ready(43);
    assert_eq!(monitor.wait_until_ready(false), Err(WaitError::Died));
    assert_eq!(monitor.wait_until_ready(true), Err(WaitError::TimedOut));
}

#[test]
fn a_client_learns_of_its_machine_from_what_it_is_told() {
    let mut monitor = VmStateMonitor::new();
    monitor.observe(&CallbackEvent::PayloadStarted { cid: 12 });
    assert!(monitor.is_waiting());
    monitor.observe(&CallbackEvent::PayloadStdio { cid: 12, fd: FileHandle { id: 3 } });
    assert!(monitor.is_waiting());
    monitor.observe(&CallbackEvent::PayloadReady { cid: 12 });
    assert!(!monitor.is_waiting());
    assert_eq!(monitor.wait_until_ready(false), Ok(12));

    monitor.observe(&CallbackEvent::PayloadFinished { cid: 12, exit_code: 0 });
    assert_eq!(monitor.wait_until_ready(false), Err(WaitError::Died));
    monitor.observe(&CallbackEvent::PayloadReady { cid: 12 });
    assert_eq!(monitor.wait_until_ready(false), Err(WaitError::Died));

    let mut failed = VmStateMonitor::new();
    failed.observe(&CallbackEvent::Error {
        cid: 13,
        error_code: 1,
        message: String::from("no payload"),
    });
    assert!(!failed.is_waiting());
    assert_eq!(failed.wait_until_ready(false), Err(WaitError::Died));
}

#[test]
fn parameters_of_a_client_decide_the_debug_level() {
    let mut parameters = VmParameters::new();
    assert!(!parameters.debug_mode);
    assert_eq!(parameters.debug_level(), DebugLevel::Off);
    assert_eq!(parameters.config_path_or("assets/vm_config.json"), "assets/vm_config.json");
    parameters.debug_mode = true;
    parameters.config_path = Some("assets/other.json".to_string());
    assert_eq!(parameters.debug_level(), DebugLevel::Full);
    assert_eq!(parameters.config_path_or("assets/vm_config.json"), "assets/other.json");
}

#[test]
fn requests_to_the_service_machine_are_plain_values() {
    let request = ServiceVmRequest::Process(Request::Reverse(vec![1, 2, 3]));
    assert_eq!(request.clone(), request);
    assert_ne!(request, ServiceVmRequest::Shutdown);
    let params = GenerateCertificateRequestParams {
        keys_to_sign: vec![vec![1], vec![2, 3]],
        challenge: vec![9],
    };
    assert_eq!(
        Request::GenerateCertificateRequest(params.clone()),
        Request::GenerateCertificateRequest(params)
    );
    let pair = EcdsaP256KeyPair { maced_public_key: vec![1, 2], key_blob: vec![3] };
    assert_eq!(
        Response::GenerateEcdsaP256KeyPair(pair.clone()),
        Response::GenerateEcdsaP256KeyPair(pair)
    );
    assert_ne!(
        Response::Error(RequestProcessingError::InvalidMac),
        Response::Error(RequestProcessingError::CosetError)
    );
}

#[test]
fn a_tag_has_to_equal_the_computed_one() {
    assert_eq!(verify_tag(&vec![1, 2, 3], &vec![1, 2, 3]), Ok(()));
    assert_eq!(verify_tag(&vec![], &vec![]), Ok(()));
    assert_eq!(verify_tag(&vec![1, 2, 3], &vec![1, 2, 4]), Err(RequestProcessingError::InvalidMac));
    assert_eq!(verify_tag(&vec![1, 2], &vec![1, 2, 3]), Err(RequestProcessingError::InvalidMac));
    assert_eq!(verify_tag(&vec![1, 2, 3], &vec![]), Err(RequestProcessingError::InvalidMac));
}

#[test]
fn root_hashes_are_read_as_hexadecimal() {
    assert_eq!(parse_roothash("none"), Ok(None));
    assert_eq!(parse_roothash("00ff10"), Ok(Some(vec![0x00, 0xff, 0x10])));
    assert_eq!(parse_roothash("f9B4Ca"), Ok(Some(vec![0xf9, 0xb4, 0xca])));
    assert_eq!(parse_roothash(""), Ok(Some(vec![])));
    assert_eq!(parse_roothash("123"), Err(()));
    assert_eq!(parse_roothash("zz"), Err(()));
    assert_eq!(parse_roothash("None"), Err(()));
    assert_eq!(parse_roothash("0x10"), Err(()));
    assert_eq!(parse_roothash("éé"), Err(()));
    for text in ["48656c6c6f20776f726c6421", "0123456789abcdefABCDEF", "g0", "0g", " 00"] {
        assert_eq!(parse_roothash(text).ok().flatten(), hex::decode(text).ok(), "{:?}", text);
    }
}

#[test]
fn requests_for_integrity_checks_come_in_fours() {
    let args: Vec<String> = ["a.apk", "a.idsig", "a", "none", "b.apk", "b.idsig", "b", "0a0b"]
        .iter()
        .map(|s| s.to_string())
        .collect();
    assert_eq!(
        parse_verity_args(&args),
        Ok(vec![
            VerityRequest { apk: "a.apk".to_string(), idsig: "a.idsig".to_string(), name: "a".to_string(), roothash: None },
            VerityRequest {
                apk: "b.apk".to_string(),
                idsig: "b.idsig".to_string(),
                name: "b".to_string(),
                roothash: Some(vec![10, 11]),
            },
        ])
    );
    assert_eq!(parse_verity_args(&vec![]), Ok(vec![]));
    assert_eq!(parse_verity_args(&args[..7].to_vec()), Err(VerityArgError::Incomplete));
    let mut bad = args.clone();
    bad[7] = "xyz".to_string();
    assert_eq!(parse_verity_args(&bad), Err(VerityArgError::InvalidRootHash(1)));
    bad[3] = "1".to_string();
    assert_eq!(parse_verity_args(&bad), Err(VerityArgError::InvalidRootHash(0)));
}

#[test]
fn packages_have_to_fill_whole_blocks() {
    assert!(is_block_aligned(0));
    assert!(is_block_aligned(4096));
    assert!(is_block_aligned(4096 * 1000));
    assert!(!is_block_aligned(1));
    assert!(!is_block_aligned(4095));
    assert!(!is_block_aligned(4097));
    assert!(!is_block_aligned(u64::MAX));
}
