//! The requests that the service answers: who may ask, and what is decided on the way
//! from a request to a machine in the table.
//!
//! Creating a machine goes in three steps, between which the caller does the work on
//! files that the service itself never does. `begin_create_vm` checks the caller and
//! hands out the CID; the caller makes the scratch directory, resolves the
//! configuration and reads the labels of the partitions. `prepare_launch` checks the
//! labels and decides on the disks; the caller makes the files. `register_vm` puts the
//! machine into the table. A CID that was handed out stays used, whatever fails later.
//!
//! Starting and stopping a machine are for callers who may manage machines, listing
//! and keeping handles for callers who may debug. Giving a handle back is open to
//! whoever holds it.

use crate::callbacks::{cid_as_i32, notification_view, DeathReason};
use crate::cid::{next_cid_after, Cid, SYSPROP_LAST_CID};
use crate::config::{custom_config, is_custom_config, VirtualMachineConfig, VirtualMachineRawConfig};
use crate::disk::{
    assemble_disks, assembled_disks, disk_file_views, DiskFile, DiskImage, FileHandle,
};
use crate::error::ErrorKind;
use crate::instance::{
    vm_is_terminal, KillOutcome, PayloadState, VmInstance, VmInstanceView, VmState,
};
use crate::platform::{platform_version_result, version_req_is_valid};
use crate::properties::PropertyStore;
use crate::selinux::{
    check_label_for_partition, is_safe_app_partition, origin_is_trusted, safe_app_partition,
};
use crate::state::{
    has_live, is_first_held, is_first_live, live_slots, SlotView, State, StateView, VmHandle,
};
use crate::text::{
    clone_opt_string, clone_strings, decimal, join_path, joined_path, opt_string_view, push_decimal,
    strings_view,
};
use vstd::prelude::*;

verus! {

/// The directory under which each machine gets a scratch directory of its own.
pub const TEMPORARY_DIRECTORY: &'static str = "/data/misc/virtualizationservice";

/// What a caller may be allowed to do.
#[derive(Clone, Copy, Debug, PartialEq, Eq, Structural)]
pub enum Permission {
    /// Create, start and stop machines.
    ManageVirtualMachine,
    /// List the machines and keep handles for debugging.
    DebugVirtualMachine,
    /// Ask for a machine that only the platform's own apps may have.
    UseCustomVirtualMachine,
    /// Read the state of the service.
    Dump,
}

/// Who calls, and what the platform allows that caller.
#[derive(Clone, Copy, Debug, PartialEq, Eq, Structural)]
pub struct CallingIdentity {
    pub uid: u32,
    pub pid: i32,
    pub manage: bool,
    pub debug: bool,
    pub use_custom: bool,
    pub dump: bool,
}

/// What the service has settled of a machine that is being created.
#[derive(Clone, Debug, PartialEq, Eq)]
pub struct VmTicket {
    pub cid: Cid,
    pub temporary_directory: String,
    pub requester_uid: u32,
    pub requester_debug_pid: i32,
    pub is_app_config: bool,
}

/// What the process that runs a machine is started with.
pub struct LaunchPlan {
    pub cid: Cid,
    pub name: String,
    pub bootloader: Option<FileHandle>,
    pub kernel: Option<FileHandle>,
    pub initrd: Option<FileHandle>,
    pub disks: Vec<DiskFile>,
    pub params: Option<String>,
    pub protected: bool,
    pub memory_mib: Option<u32>,
    pub cpus: Option<u32>,
    pub task_profiles: Vec<String>,
    /// The file that fills the gaps of composite images; the caller makes it.
    pub zero_filler_path: String,
    /// The file into which the machine writes a dump of its memory; the caller makes it.
    pub ramdump_path: String,
    /// The files that have to stay open for as long as the machine runs.
    pub indirect_files: Vec<FileHandle>,
    pub platform_version: semver::VersionReq,
    /// Whether the guest is watched for no longer answering.
    pub detect_hangup: bool,
}

/// Whether the caller has the permission. The superuser has every permission.
pub open spec fn has_permission(caller: CallingIdentity, permission: Permission) -> bool {
    caller.uid == 0 || match permission {
        Permission::ManageVirtualMachine => caller.manage,
        Permission::DebugVirtualMachine => caller.debug,
        Permission::UseCustomVirtualMachine => caller.use_custom,
        Permission::Dump => caller.dump,
    }
}

/// Whether the caller may ask for this machine: it has to be allowed to manage
/// machines, and to ask for a custom one where the request is for one.
pub open spec fn may_create(caller: CallingIdentity, config: VirtualMachineConfig) -> bool {
    has_permission(caller, Permission::ManageVirtualMachine) && (custom_config(config)
        ==> has_permission(caller, Permission::UseCustomVirtualMachine))
}

/// The scratch directory of the machine `cid`.
pub open spec fn temporary_directory_of(cid: Cid) -> Seq<char> {
    TEMPORARY_DIRECTORY@ + seq!['/'] + decimal(cid as nat)
}

/// A number of the remote interface as a count: positive numbers count, anything
/// else leaves the choice to the process that runs the machine.
pub open spec fn positive(value: i32) -> Option<u32> {
    if value > 0 {
        Some(value as u32)
    } else {
        None
    }
}

/// The label that was read for the partition `partition` of the disk `disk`; a
/// partition for which nothing was read has none.
pub open spec fn label_at(labels: Seq<Vec<Option<String>>>, disk: int, partition: int) -> Option<
    Seq<char>,
> {
    if 0 <= disk < labels.len() && 0 <= partition < labels[disk]@.len() {
        opt_string_view(labels[disk]@[partition])
    } else {
        None
    }
}

/// Whether the partition `partition` of the disk `disk` may be used: in the machine
/// of an app, the partitions that the service generates itself are not checked; every
/// other partition needs a backing file with a trusted label.
pub open spec fn partition_is_trusted(
    disks: Seq<DiskImage>,
    is_app_config: bool,
    labels: Seq<Vec<Option<String>>>,
    disk: int,
    partition: int,
) -> bool {
    (is_app_config && safe_app_partition(disks[disk].partitions@[partition].label@))
        || origin_is_trusted(label_at(labels, disk, partition))
}

/// Whether every partition of every disk may be used.
pub open spec fn partitions_are_trusted(
    disks: Seq<DiskImage>,
    is_app_config: bool,
    labels: Seq<Vec<Option<String>>>,
) -> bool {
    forall|disk: int, partition: int|
        0 <= disk < disks.len() && 0 <= partition < disks[disk].partitions@.len()
            ==> #[trigger] partition_is_trusted(disks, is_app_config, labels, disk, partition)
}

/// Why a machine cannot be launched, if it cannot: a partition of untrusted origin
/// comes first, then the first disk that is described wrongly, then a platform version
/// that cannot be read.
pub open spec fn launch_error(
    ticket: VmTicket,
    config: VirtualMachineRawConfig,
    labels: Seq<Vec<Option<String>>>,
    version_is_valid: bool,
) -> Option<ErrorKind> {
    if !partitions_are_trusted(config.disks@, ticket.is_app_config, labels) {
        Some(ErrorKind::UntrustedOrigin)
    } else {
        match assembled_disks(config.disks@, ticket.temporary_directory@) {
            Err(e) => Some(e),
            Ok(_) => if version_is_valid {
                None
            } else {
                Some(ErrorKind::IllegalArgument)
            },
        }
    }
}

/// Whether `plan` is what the process of the machine of `ticket` is started with
/// under the configuration `config`.
pub open spec fn plan_matches(
    plan: LaunchPlan,
    ticket: VmTicket,
    config: VirtualMachineRawConfig,
) -> bool {
    &&& plan.cid == ticket.cid
    &&& plan.name@ == config.name@
    &&& plan.bootloader == config.bootloader
    &&& plan.kernel == config.kernel
    &&& plan.initrd == config.initrd
    &&& assembled_disks(config.disks@, ticket.temporary_directory@) matches Ok(expected)
        && disk_file_views(plan.disks@) == expected.disks && plan.indirect_files@
        == expected.indirect_files
    &&& opt_string_view(plan.params) == opt_string_view(config.params)
    &&& plan.protected == config.protected_vm
    &&& plan.memory_mib == positive(config.memory_mib)
    &&& plan.cpus == positive(config.num_cpus)
    &&& strings_view(plan.task_profiles@) == strings_view(config.task_profiles@)
    &&& plan.zero_filler_path@ == joined_path(ticket.temporary_directory@, "zero.img"@)
    &&& plan.ramdump_path@ == joined_path(ticket.temporary_directory@, "ramdump"@)
    &&& plan.detect_hangup == ticket.is_app_config
}

/// Checks that the caller has the permission.
pub fn check_permission(caller: &CallingIdentity, permission: Permission) -> (r: Result<
    (),
    ErrorKind,
>)
    ensures
        r is Ok <==> has_permission(*caller, permission),
        r is Err ==> r == Err::<(), ErrorKind>(ErrorKind::PermissionDenied),
{
    if caller.uid == 0 {
        return Ok(());
    }
    let granted: bool = match permission {
        Permission::ManageVirtualMachine => caller.manage,
        Permission::DebugVirtualMachine => caller.debug,
        Permission::UseCustomVirtualMachine => caller.use_custom,
        Permission::Dump => caller.dump,
    };
    if granted {
        Ok(())
    } else {
        Err(ErrorKind::PermissionDenied)
    }
}

/// Checks that the caller may use what is there for debugging.
pub fn check_debug_access(caller: &CallingIdentity) -> (r: Result<(), ErrorKind>)
    ensures
        r is Ok <==> has_permission(*caller, Permission::DebugVirtualMachine),
        r is Err ==> r == Err::<(), ErrorKind>(ErrorKind::PermissionDenied),
{
    check_permission(caller, Permission::DebugVirtualMachine)
}

/// Checks that the caller may manage machines.
pub fn check_manage_access(caller: &CallingIdentity) -> (r: Result<(), ErrorKind>)
    ensures
        r is Ok <==> has_permission(*caller, Permission::ManageVirtualMachine),
        r is Err ==> r == Err::<(), ErrorKind>(ErrorKind::PermissionDenied),
{
    check_permission(caller, Permission::ManageVirtualMachine)
}

/// Checks that the caller may ask for a custom machine.
pub fn check_use_custom_virtual_machine(caller: &CallingIdentity) -> (r: Result<(), ErrorKind>)
    ensures
        r is Ok <==> has_permission(*caller, Permission::UseCustomVirtualMachine),
        r is Err ==> r == Err::<(), ErrorKind>(ErrorKind::PermissionDenied),
{
    check_permission(caller, Permission::UseCustomVirtualMachine)
}

/// The scratch directory of the machine `cid`.
pub fn temporary_directory(cid: Cid) -> (dir: String)
    ensures
        dir@ == temporary_directory_of(cid),
{
    let mut dir = String::from_str(TEMPORARY_DIRECTORY);
    proof {
        reveal_strlit("/");
    }
    dir.append("/");
    push_decimal(&mut dir, cid as u64);
    assert(dir@ =~= temporary_directory_of(cid));
    dir
}

/// A number of the remote interface as a count.
pub fn to_positive(value: i32) -> (r: Option<u32>)
    ensures
        r == positive(value),
{
    if value > 0 {
        Some(value as u32)
    } else {
        None
    }
}

/// The first step towards a machine: checks that the caller may ask for it, and
/// hands out its CID.
///
/// A caller that may not ask is refused before anything changes. Otherwise the next
/// CID is taken, and kept in `props`, or the request fails because none is left.
pub fn begin_create_vm(
    state: &mut State,
    props: &mut PropertyStore,
    caller: &CallingIdentity,
    config: &VirtualMachineConfig,
) -> (r: Result<VmTicket, ErrorKind>)
    ensures
        final(state)@ == old(state)@,
        !may_create(*caller, *config) ==> r is Err && r->Err_0 == ErrorKind::PermissionDenied
            && final(props)@ == old(props)@,
        may_create(*caller, *config) ==> match next_cid_after(
            old(props)@.get(SYSPROP_LAST_CID@),
        ) {
            Some(cid) => r matches Ok(ticket) && ticket.cid == cid && ticket.temporary_directory@
                == temporary_directory_of(cid) && ticket.requester_uid == caller.uid
                && ticket.requester_debug_pid == caller.pid && ticket.is_app_config == (
            *config is AppConfig) && final(props)@ == old(props)@.insert(
                SYSPROP_LAST_CID@,
                decimal(cid as nat),
            ),
            None => r is Err && r->Err_0 == ErrorKind::ResourceExhausted
                && final(props)@ == old(props)@,
        },
{
    match check_manage_access(caller) {
        Ok(()) => {},
        Err(e) => {
            return Err(e);
        },
    }
    if is_custom_config(config) {
        match check_use_custom_virtual_machine(caller) {
            Ok(()) => {},
            Err(e) => {
                return Err(e);
            },
        }
    }
    let cid = match state.next_cid(props) {
        Ok(cid) => cid,
        Err(e) => {
            return Err(e);
        },
    };
    let is_app_config: bool = match config {
        VirtualMachineConfig::RawConfig(_) => false,
        VirtualMachineConfig::AppConfig(_) => true,
    };
    Ok(
        VmTicket {
            cid,
            temporary_directory: temporary_directory(cid),
            requester_uid: caller.uid,
            requester_debug_pid: caller.pid,
            is_app_config,
        },
    )
}

/// Checks the origin of the partitions of a machine.
///
/// `labels` holds, for each disk in its order, the label that was read from the
/// backing file of each of its partitions, and `None` where none could be read. The
/// partitions that need no check may have anything there.
pub fn check_partition_labels(
    disks: &Vec<DiskImage>,
    is_app_config: bool,
    labels: &Vec<Vec<Option<String>>>,
) -> (r: Result<(), ErrorKind>)
    ensures
        r is Ok <==> partitions_are_trusted(disks@, is_app_config, labels@),
        r is Err ==> r == Err::<(), ErrorKind>(ErrorKind::UntrustedOrigin),
{
    let mut d: usize = 0;
    while d < disks.len()
        invariant
            d <= disks@.len(),
            forall|disk: int, partition: int|
                0 <= disk < d && 0 <= partition < disks@[disk].partitions@.len()
                    ==> #[trigger] partition_is_trusted(
                    disks@,
                    is_app_config,
                    labels@,
                    disk,
                    partition,
                ),
        decreases disks@.len() - d,
    {
        let mut p: usize = 0;
        while p < disks[d].partitions.len()
            invariant
                d < disks@.len(),
                p <= disks@[d as int].partitions@.len(),
                forall|disk: int, partition: int|
                    0 <= disk < d && 0 <= partition < disks@[disk].partitions@.len()
                        ==> #[trigger] partition_is_trusted(
                        disks@,
                        is_app_config,
                        labels@,
                        disk,
                        partition,
                    ),
                forall|partition: int|
                    0 <= partition < p ==> #[trigger] partition_is_trusted(
                        disks@,
                        is_app_config,
                        labels@,
                        d as int,
                        partition,
                    ),
            decreases disks@[d as int].partitions@.len() - p,
        {
            let exempt: bool = is_app_config && is_safe_app_partition(
                disks[d].partitions[p].label.as_str(),
            );
            if !exempt {
                let checked = if d < labels.len() && p < labels[d].len() {
                    match &labels[d][p] {
                        Some(label) => check_label_for_partition(Some(label.as_str())),
                        None => check_label_for_partition(None),
                    }
                } else {
                    check_label_for_partition(None)
                };
                match checked {
                    Ok(()) => {},
                    Err(e) => {
                        assert(!partition_is_trusted(
                            disks@,
                            is_app_config,
                            labels@,
                            d as int,
                            p as int,
                        ));
                        return Err(e);
                    },
                }
            }
            p += 1;
        }
        d += 1;
    }
    Ok(())
}

/// The second step towards a machine, given what became of reading its platform
/// version: checks the origin of the partitions and decides on the disks.
pub fn plan_launch(
    ticket: &VmTicket,
    config: &VirtualMachineRawConfig,
    labels: &Vec<Vec<Option<String>>>,
    platform_version: Result<semver::VersionReq, semver::Error>,
) -> (r: Result<LaunchPlan, ErrorKind>)
    ensures
        match r {
            Ok(plan) => launch_error(*ticket, *config, labels@, platform_version is Ok) is None
                && plan_matches(plan, *ticket, *config) && platform_version == Ok::<
                semver::VersionReq,
                semver::Error,
            >(plan.platform_version),
            Err(e) => launch_error(*ticket, *config, labels@, platform_version is Ok) == Some(e),
        },
{
    match check_partition_labels(&config.disks, ticket.is_app_config, labels) {
        Ok(()) => {},
        Err(e) => {
            return Err(e);
        },
    }
    let dir: &str = ticket.temporary_directory.as_str();
    let assembled = match assemble_disks(&config.disks, dir) {
        Ok(assembled) => assembled,
        Err(e) => {
            return Err(e);
        },
    };
    let platform_version = match platform_version_result(platform_version) {
        Ok(req) => req,
        Err(e) => {
            return Err(e);
        },
    };
    Ok(
        LaunchPlan {
            cid: ticket.cid,
            name: config.name.clone(),
            bootloader: config.bootloader,
            kernel: config.kernel,
            initrd: config.initrd,
            disks: assembled.disks,
            params: clone_opt_string(&config.params),
            protected: config.protected_vm,
            memory_mib: to_positive(config.memory_mib),
            cpus: to_positive(config.num_cpus),
            task_profiles: clone_strings(&config.task_profiles),
            zero_filler_path: join_path(dir, "zero.img"),
            ramdump_path: join_path(dir, "ramdump"),
            indirect_files: assembled.indirect_files,
            platform_version,
            detect_hangup: ticket.is_app_config,
        },
    )
}

/// The second step towards a machine: reads the platform version, checks the origin
/// of the partitions and decides on the disks.
pub fn prepare_launch(
    ticket: &VmTicket,
    config: &VirtualMachineRawConfig,
    labels: &Vec<Vec<Option<String>>>,
) -> (r: Result<LaunchPlan, ErrorKind>)
    ensures
        match r {
            Ok(plan) => launch_error(
                *ticket,
                *config,
                labels@,
                version_req_is_valid(config.platform_version@),
            ) is None && plan_matches(plan, *ticket, *config),
            Err(e) => launch_error(
                *ticket,
                *config,
                labels@,
                version_req_is_valid(config.platform_version@),
            ) == Some(e),
        },
{
    plan_launch(
        ticket,
        config,
        labels,
        semver::VersionReq::parse(config.platform_version.as_str()),
    )
}

/// The last step towards a machine: puts it into the table, not started, and hands
/// out the first handle to it.
pub fn register_vm(state: &mut State, ticket: &VmTicket, name: &str, protected: bool) -> (r:
    Result<VmHandle, ErrorKind>)
    ensures
        final(state)@.debug_held_vms == old(state)@.debug_held_vms,
        match r {
            Ok(handle) => !has_live(old(state)@.vms, ticket.cid) && handle@ == ticket.cid
                && final(state)@.vms == live_slots(old(state)@.vms).push(
                SlotView {
                    instance: VmInstanceView {
                        cid: ticket.cid,
                        vm_state: VmState::NotStarted,
                        payload_state: PayloadState::Starting,
                        requester_uid: ticket.requester_uid,
                        requester_debug_pid: ticket.requester_debug_pid,
                        temporary_directory: ticket.temporary_directory@,
                        name: name@,
                        protected,
                        vm_start_timestamp: None,
                        callbacks: Seq::empty(),
                    },
                    strong: 1,
                },
            ),
            Err(e) => has_live(old(state)@.vms, ticket.cid) && e == ErrorKind::Internal
                && final(state)@.vms == live_slots(old(state)@.vms),
        },
        old(state)@.unique_cids() ==> final(state)@.unique_cids(),
{
    let instance = VmInstance::new(
        ticket.cid,
        name,
        ticket.temporary_directory.as_str(),
        ticket.requester_uid,
        ticket.requester_debug_pid,
        protected,
    );
    state.add_vm(instance)
}

/// Starts the machine with the CID `cid` for a caller who may manage machines, given
/// whether its process could be launched.
///
/// A caller who may not manage machines is refused before anything changes. So is a
/// request for a CID that no machine has, and one for a machine that was started
/// before. Otherwise the machine runs from `now` on, or has failed for good where the
/// process could not be launched.
pub fn start_vm(
    state: &mut State,
    caller: &CallingIdentity,
    cid: Cid,
    launched: bool,
    now: u64,
) -> (r: Result<(), ErrorKind>)
    ensures
        !has_permission(*caller, Permission::ManageVirtualMachine) ==> r == Err::<(), ErrorKind>(
            ErrorKind::PermissionDenied,
        ) && final(state)@ == old(state)@,
        has_permission(*caller, Permission::ManageVirtualMachine) && !has_live(
            old(state)@.vms,
            cid,
        ) ==> r == Err::<(), ErrorKind>(ErrorKind::IllegalState) && final(state)@ == old(state)@,
        has_permission(*caller, Permission::ManageVirtualMachine) && has_live(
            old(state)@.vms,
            cid,
        ) ==> exists|at: int|
            is_first_live(old(state)@.vms, cid, at)
                && r == old(state)@.vms[at].instance.start_result(launched)
                && final(state)@ == old(state)@.with_instance(
                at,
                old(state)@.vms[at].instance.started(launched, now),
            ),
        old(state)@.unique_cids() ==> final(state)@.unique_cids(),
{
    match check_manage_access(caller) {
        Ok(()) => {},
        Err(e) => {
            return Err(e);
        },
    }
    state.start_vm(cid, launched, now)
}

/// Stops the machine with the CID `cid` for a caller who may manage machines, and
/// says what has to be done about it.
///
/// A caller who may not manage machines is refused before anything changes, and so is
/// a request for a CID that no machine has. A machine that has ended or failed stays as
/// it is; any other is dead from now on.
pub fn stop_vm(state: &mut State, caller: &CallingIdentity, cid: Cid) -> (r: Result<
    KillOutcome,
    ErrorKind,
>)
    ensures
        match r {
            Ok(outcome) => has_permission(*caller, Permission::ManageVirtualMachine) && exists|
                at: int,
            |
                is_first_live(old(state)@.vms, cid, at)
                    && final(state)@ == old(state)@.with_instance(
                    at,
                    old(state)@.vms[at].instance.killed(),
                ) && outcome.terminate == (old(state)@.vms[at].instance.vm_state
                    == VmState::Running) && notification_view(outcome.notification) == (
                if vm_is_terminal(old(state)@.vms[at].instance.vm_state) {
                    None
                } else {
                    Some(old(state)@.vms[at].instance.death_notice(DeathReason::Killed))
                }),
            Err(e) => final(state)@ == old(state)@ && e == (if !has_permission(
                *caller,
                Permission::ManageVirtualMachine,
            ) {
                ErrorKind::PermissionDenied
            } else {
                ErrorKind::IllegalState
            }) && (!has_permission(*caller, Permission::ManageVirtualMachine) || !has_live(
                old(state)@.vms,
                cid,
            )),
        },
        old(state)@.unique_cids() ==> final(state)@.unique_cids(),
{
    match check_manage_access(caller) {
        Ok(()) => {},
        Err(e) => {
            return Err(e);
        },
    }
    state.kill_vm(cid)
}

/// Keeps one more handle to the machine of `vm`, on behalf of a caller who may debug
/// and cannot keep the handle itself.
///
/// A caller who may not debug is refused, and so is a handle whose machine is not held
/// or has as many handles as can be counted; nothing changes then.
pub fn debug_hold_vm_ref(state: &mut State, caller: &CallingIdentity, vm: &VmHandle) -> (r: Result<
    (),
    ErrorKind,
>)
    ensures
        !has_permission(*caller, Permission::DebugVirtualMachine) ==> r == Err::<(), ErrorKind>(
            ErrorKind::PermissionDenied,
        ) && final(state)@ == old(state)@,
        has_permission(*caller, Permission::DebugVirtualMachine) ==> match r {
            Ok(()) => exists|at: int|
                is_first_live(old(state)@.vms, vm@, at) && old(state)@.vms[at].strong < u64::MAX
                    && final(state)@ == (StateView {
                    vms: old(state)@.with_strong(at, old(state)@.vms[at].strong + 1).vms,
                    debug_held_vms: old(state)@.debug_held_vms.push(vm@),
                }),
            Err(e) => e == ErrorKind::IllegalState && final(state)@ == old(state)@ && forall|
                at: int,
            |
                is_first_live(old(state)@.vms, vm@, at) ==> old(state)@.vms[at].strong
                    == u64::MAX,
        },
{
    match check_debug_access(caller) {
        Ok(()) => {},
        Err(e) => {
            return Err(e);
        },
    }
    match state.clone_handle(vm) {
        Some(copy) => {
            state.debug_hold_vm(copy);
            Ok(())
        },
        None => Err(ErrorKind::IllegalState),
    }
}

/// Gives back a handle that is kept for debugging, to a caller who may debug: the
/// first one whose machine has the CID `cid`, counted as the remote interface does, if
/// there is one.
pub fn debug_drop_vm_ref(state: &mut State, caller: &CallingIdentity, cid: i32) -> (r: Result<
    Option<VmHandle>,
    ErrorKind,
>)
    ensures
        final(state)@.vms == old(state)@.vms,
        r is Ok <==> has_permission(*caller, Permission::DebugVirtualMachine),
        match r {
            Ok(Some(handle)) => exists|at: int|
                is_first_held(old(state)@.debug_held_vms, cid, at)
                    && handle@ == old(state)@.debug_held_vms[at]
                    && final(state)@.debug_held_vms == old(state)@.debug_held_vms.update(
                    at,
                    old(state)@.debug_held_vms.last(),
                ).drop_last(),
            Ok(None) => final(state)@ == old(state)@ && forall|at: int|
                0 <= at < old(state)@.debug_held_vms.len() ==> cid_as_i32(
                    #[trigger] old(state)@.debug_held_vms[at],
                ) != cid,
            Err(e) => e == ErrorKind::PermissionDenied && final(state)@ == old(state)@,
        },
{
    match check_debug_access(caller) {
        Ok(()) => {},
        Err(e) => {
            return Err(e);
        },
    }
    Ok(state.debug_drop_vm(cid))
}

} // verus!
