//! What a caller asks for when it asks for a virtual machine.
//!
//! A request either spells the machine out (a raw configuration) or names an app
//! whose payload is to run (an app configuration), which the service turns into a raw
//! one on top of the configuration of the guest system.

use crate::disk::{DiskImage, FileHandle};
use crate::error::ErrorKind;
use crate::text::{clone_strings, str_eq, strings_view};
use vstd::prelude::*;

verus! {

/// The only guest system that the service knows.
pub const MICRODROID_OS_NAME: &'static str = "microdroid";

/// How much of the guest may be looked into.
#[derive(Clone, Copy, Debug, PartialEq, Eq, Structural)]
pub enum DebugLevel {
    /// Nothing of the guest can be looked into.
    Off,
    /// The output of the payload can be read.
    AppOnly,
    /// Everything can be looked into.
    Full,
}

/// A payload that is named by its path in the app's package.
#[derive(Clone, Debug, PartialEq, Eq)]
pub struct VirtualMachinePayloadConfig {
    pub payload_path: String,
}

/// What is to run in the machine of an app.
#[derive(Clone, Debug, PartialEq, Eq)]
pub enum Payload {
    /// The path, in the app's package, of a file that describes the payload.
    ConfigPath(String),
    /// The payload itself.
    PayloadConfig(VirtualMachinePayloadConfig),
}

/// The configuration of the machine of an app.
#[derive(Clone, Debug, PartialEq, Eq)]
pub struct VirtualMachineAppConfig {
    pub name: String,
    pub apk: Option<FileHandle>,
    pub idsig: Option<FileHandle>,
    pub instance_image: Option<FileHandle>,
    pub encrypted_storage_image: Option<FileHandle>,
    pub payload: Payload,
    pub debug_level: DebugLevel,
    pub protected_vm: bool,
    pub memory_mib: i32,
    pub num_cpus: i32,
    pub task_profiles: Vec<String>,
}

/// The configuration of a machine that is spelled out.
#[derive(Clone, Debug, PartialEq, Eq)]
pub struct VirtualMachineRawConfig {
    pub name: String,
    pub kernel: Option<FileHandle>,
    pub initrd: Option<FileHandle>,
    pub bootloader: Option<FileHandle>,
    pub params: Option<String>,
    pub disks: Vec<DiskImage>,
    pub protected_vm: bool,
    pub memory_mib: i32,
    pub num_cpus: i32,
    pub task_profiles: Vec<String>,
    pub platform_version: String,
}

/// A request for a machine.
#[derive(Clone, Debug, PartialEq, Eq)]
pub enum VirtualMachineConfig {
    RawConfig(VirtualMachineRawConfig),
    AppConfig(VirtualMachineAppConfig),
}

/// The guest system of a payload.
#[derive(Clone, Debug, PartialEq, Eq)]
pub struct OsConfig {
    pub name: String,
}

/// How the task of a payload is started.
#[derive(Clone, Copy, Debug, PartialEq, Eq, Structural)]
pub enum TaskType {
    Executable,
    MicrodroidLauncher,
}

/// The task of a payload.
#[derive(Clone, Debug, PartialEq, Eq)]
pub struct Task {
    pub type_: TaskType,
    pub command: String,
}

/// The description of a payload, as the guest reads it.
#[derive(Clone, Debug, PartialEq, Eq)]
pub struct VmPayloadConfig {
    pub os: OsConfig,
    pub task: Option<Task>,
    pub apexes: Vec<String>,
    pub extra_apks: Vec<String>,
    pub prefer_staged: bool,
    pub export_tombstones: bool,
    pub enable_authfs: bool,
}

/// Whether a request asks for what only the platform's own apps may have: a raw
/// configuration, a say in which processors the machine runs on, or a payload that is
/// described by a file of the app's package.
pub open spec fn custom_config(config: VirtualMachineConfig) -> bool {
    match config {
        VirtualMachineConfig::RawConfig(_) => true,
        VirtualMachineConfig::AppConfig(app) => app.task_profiles@.len() > 0
            || app.payload is ConfigPath,
    }
}

/// The memory of the machine of an app: what the app asks for where that is
/// positive, what the guest system's configuration says otherwise.
pub open spec fn app_memory_mib(base: i32, requested: i32) -> i32 {
    if requested > 0 {
        requested
    } else {
        base
    }
}

/// Whether a request asks for what only the platform's own apps may have.
pub fn is_custom_config(config: &VirtualMachineConfig) -> (r: bool)
    ensures
        r == custom_config(*config),
{
    match config {
        VirtualMachineConfig::RawConfig(_) => true,
        VirtualMachineConfig::AppConfig(app) => {
            let by_file: bool = match &app.payload {
                Payload::ConfigPath(_) => true,
                Payload::PayloadConfig(_) => false,
            };
            app.task_profiles.len() > 0 || by_file
        },
    }
}

/// The description of a payload that is given by its path alone: the launcher of the
/// guest system runs it, and nothing else is asked for.
pub fn create_vm_payload_config(payload_config: &VirtualMachinePayloadConfig) -> (config:
    VmPayloadConfig)
    ensures
        config.os.name@ == MICRODROID_OS_NAME@,
        config.task matches Some(task) && task.type_ == TaskType::MicrodroidLauncher
            && task.command@ == payload_config.payload_path@,
        config.apexes@.len() == 0,
        config.extra_apks@.len() == 0,
        !config.prefer_staged,
        !config.export_tombstones,
        !config.enable_authfs,
{
    VmPayloadConfig {
        os: OsConfig { name: String::from_str(MICRODROID_OS_NAME) },
        task: Some(
            Task {
                type_: TaskType::MicrodroidLauncher,
                command: payload_config.payload_path.clone(),
            },
        ),
        apexes: Vec::new(),
        extra_apks: Vec::new(),
        prefer_staged: false,
        export_tombstones: false,
        enable_authfs: false,
    }
}

/// The file that holds the configuration of the guest system `os_name`. Only the one
/// guest system that the service knows has one; any other makes the request malformed.
pub fn vm_config_path(os_name: &str) -> (r: Result<String, ErrorKind>)
    ensures
        match r {
            Ok(path) => os_name@ == MICRODROID_OS_NAME@ && path@ == "/apex/com.android.virt/etc/"@
                + os_name@ + ".json"@,
            Err(e) => os_name@ != MICRODROID_OS_NAME@ && e == ErrorKind::IllegalArgument,
        },
{
    if !str_eq(os_name, MICRODROID_OS_NAME) {
        return Err(ErrorKind::IllegalArgument);
    }
    let mut path = String::from_str("/apex/com.android.virt/etc/");
    path.append(os_name);
    path.append(".json");
    Ok(path)
}

/// Makes the configuration of the guest system that of the machine of an app: the
/// app decides the name, the protection, the processors and the task profiles, and the
/// memory where it asks for some. The rest stays as the guest system has it.
pub fn apply_app_config(vm_config: &mut VirtualMachineRawConfig, config: &VirtualMachineAppConfig)
    ensures
        final(vm_config).name@ == config.name@,
        final(vm_config).protected_vm == config.protected_vm,
        final(vm_config).num_cpus == config.num_cpus,
        strings_view(final(vm_config).task_profiles@) == strings_view(config.task_profiles@),
        final(vm_config).memory_mib == app_memory_mib(old(vm_config).memory_mib, config.memory_mib),
        final(vm_config).kernel == old(vm_config).kernel,
        final(vm_config).initrd == old(vm_config).initrd,
        final(vm_config).bootloader == old(vm_config).bootloader,
        final(vm_config).params == old(vm_config).params,
        final(vm_config).disks == old(vm_config).disks,
        final(vm_config).platform_version == old(vm_config).platform_version,
{
    if config.memory_mib > 0 {
        vm_config.memory_mib = config.memory_mib;
    }
    vm_config.name = config.name.clone();
    vm_config.protected_vm = config.protected_vm;
    vm_config.num_cpus = config.num_cpus;
    vm_config.task_profiles = clone_strings(&config.task_profiles);
}

} // verus!
